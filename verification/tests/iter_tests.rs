use parallel_vec::ParallelVec;

fn sample() -> ParallelVec<(i32, char)> {
    let mut vec = ParallelVec::new();
    vec.extend(vec![(0, 'a'), (1, 'b'), (2, 'c'), (3, 'd'), (4, 'e')]);
    vec
}

#[test]
fn an_iterator_walks_from_both_ends() {
    let vec = sample();
    let mut iter = vec.iter();
    assert_eq!(iter.len(), 5);
    assert_eq!(iter.size_hint(), (5, Some(5)));
    assert_eq!(iter.next(), Some((&0, &'a')));
    assert_eq!(iter.next_back(), Some((&4, &'e')));
    assert_eq!(iter.next_back(), Some((&3, &'d')));
    assert_eq!(iter.size_hint(), (2, Some(2)));
    assert_eq!(iter.next(), Some((&1, &'b')));
    assert_eq!(iter.next(), Some((&2, &'c')));
    assert_eq!(iter.len(), 0);
    assert_eq!(iter.next(), None);
    assert_eq!(iter.next_back(), None);
    assert_eq!(iter.size_hint(), (0, Some(0)));
}

#[test]
fn an_iterator_over_a_view_stays_in_the_view() {
    let mut vec = sample();
    {
        let middle = vec.index(1..4);
        let mut iter = middle.iter();
        assert_eq!(iter.next_back(), Some((&3, &'d')));
        assert_eq!(iter.next(), Some((&1, &'b')));
        assert_eq!(iter.next_back(), Some((&2, &'c')));
        assert_eq!(iter.next_back(), None);
    }
    let middle = vec.index_mut(3..);
    let mut iter = middle.iter();
    assert_eq!(iter.len(), 2);
    assert_eq!(iter.next(), Some((&3, &'d')));
    assert_eq!(iter.next(), Some((&4, &'e')));
    assert_eq!(iter.next(), None);
}

#[test]
fn a_writing_iterator_writes_into_the_container() {
    let mut vec = sample();
    {
        let mut iter = vec.iter_mut();
        assert_eq!(iter.len(), 5);
        while let Some((number, letter)) = iter.next() {
            *number *= 10;
            letter.make_ascii_uppercase();
        }
        assert_eq!(iter.len(), 0);
    }
    let (a, b) = vec.as_slices();
    assert_eq!(a, &[0, 10, 20, 30, 40]);
    assert_eq!(b, &['A', 'B', 'C', 'D', 'E']);
}

#[test]
fn a_writing_iterator_walks_from_both_ends() {
    let mut vec = sample();
    {
        let mut middle = vec.index_mut(1..4);
        let mut iter = middle.iter_mut();
        assert_eq!(iter.len(), 3);
        *iter.next_back().unwrap().0 = 33;
        *iter.next().unwrap().0 = 11;
        assert_eq!(iter.len(), 1);
        *iter.next_back().unwrap().0 = 22;
        assert!(iter.next().is_none());
        assert!(iter.next_back().is_none());
    }
    let (a, b) = vec.as_slices();
    assert_eq!(a, &[0, 11, 22, 33, 4]);
    assert_eq!(b, &['a', 'b', 'c', 'd', 'e']);
}

#[test]
fn an_owning_iterator_walks_from_both_ends() {
    let mut iter = sample().into_iter();
    assert_eq!(iter.size_hint(), (5, Some(5)));
    assert_eq!(iter.next_back(), Some((4, 'e')));
    assert_eq!(iter.next(), Some((0, 'a')));
    assert_eq!(iter.next(), Some((1, 'b')));
    assert_eq!(iter.size_hint(), (2, Some(2)));
    assert_eq!(iter.next_back(), Some((3, 'd')));
    assert_eq!(iter.next_back(), Some((2, 'c')));
    assert_eq!(iter.next_back(), None);
    assert_eq!(iter.next(), None);
    assert_eq!(iter.size_hint(), (0, Some(0)));
}

#[test]
fn an_owning_iterator_collects_what_is_left() {
    let mut iter = sample().into_iter();
    assert_eq!(iter.next(), Some((0, 'a')));
    assert_eq!(iter.next_back(), Some((4, 'e')));
    let rest: Vec<(i32, char)> = iter.collect();
    assert_eq!(rest, vec![(1, 'b'), (2, 'c'), (3, 'd')]);
    let none: ParallelVec<(i32, char)> = ParallelVec::new();
    assert_eq!(none.into_iter().collect(), Vec::new());
}

#[test]
fn the_iterators_of_the_columns_walk_the_columns() {
    let vec = sample();
    let (numbers, letters) = vec.iters();
    assert_eq!(numbers.copied().collect::<Vec<i32>>(), vec![0, 1, 2, 3, 4]);
    assert_eq!(letters.copied().collect::<String>(), "abcde");
    let tail = vec.index(3..);
    let (numbers, letters) = tail.iters();
    assert_eq!(numbers.len(), 2);
    assert_eq!(letters.rev().collect::<Vec<&char>>(), vec![&'e', &'d']);
    let mut vec = vec;
    let head = vec.index_mut(..2);
    let (numbers, _) = head.iters();
    assert_eq!(numbers.sum::<i32>(), 1);
}
