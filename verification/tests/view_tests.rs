use parallel_vec::{ParallelSlice, ParallelSliceMut, ParallelVec};

fn sample() -> ParallelVec<(i32, char)> {
    let mut vec = ParallelVec::new();
    vec.extend(vec![(0, 'a'), (1, 'b'), (2, 'c'), (3, 'd'), (4, 'e'), (5, 'f')]);
    vec
}

#[test]
fn a_range_selects_as_many_records_as_it_spans() {
    let vec = sample();
    for start in 0..=6 {
        for end in start..=6 {
            let slice = vec.index(start..end);
            assert_eq!(slice.len(), end - start);
            let (a, b) = slice.as_slices();
            assert_eq!(a.len(), end - start);
            assert_eq!(b.len(), end - start);
            for k in 0..(end - start) {
                assert_eq!(slice.index(k), vec.index(start + k));
            }
        }
    }
}

#[test]
fn ranges_out_of_bounds_select_nothing() {
    let vec = sample();
    assert!(vec.get(0..7).is_none());
    assert!(vec.get(7..7).is_none());
    assert!(vec.get(6..6).is_some());
    assert!(vec.get(3..2).is_none());
    assert!(vec.get(..7).is_none());
    assert!(vec.get(7..).is_none());
    assert!(vec.get(6..).is_some());
    assert!(vec.get(0..=6).is_none());
    assert!(vec.get(0..=5).is_some());
    assert!(vec.get(0..=usize::MAX).is_none());
    assert!(vec.get(6).is_none());
    assert!(vec.get(usize::MAX).is_none());
}

#[test]
fn every_kind_of_range_selects_what_the_half_open_range_selects() {
    let vec = sample();
    let (a, b) = vec.index(1..=3).as_slices();
    assert_eq!(a, &[1, 2, 3]);
    assert_eq!(b, &['b', 'c', 'd']);
    let (a, b) = vec.index(..2).as_slices();
    assert_eq!(a, &[0, 1]);
    assert_eq!(b, &['a', 'b']);
    let (a, b) = vec.index(4..).as_slices();
    assert_eq!(a, &[4, 5]);
    assert_eq!(b, &['e', 'f']);
    let (a, b) = vec.index(..).as_slices();
    assert_eq!(a, &[0, 1, 2, 3, 4, 5]);
    assert_eq!(b, &['a', 'b', 'c', 'd', 'e', 'f']);
    let (a, _) = vec.index(3..=2).as_slices();
    assert_eq!(a, &[]);
    assert_eq!(vec.get(2..=2).unwrap().len(), 1);
    assert_eq!(vec.get(..0).unwrap().len(), 0);
    assert_eq!(vec.get(..).unwrap().len(), 6);
}

#[test]
fn the_full_range_covers_what_the_iterator_walks() {
    let vec = sample();
    let all = vec.index(..);
    let mut iter = vec.iter();
    for k in 0..all.len() {
        assert_eq!(Some(all.index(k)), iter.next());
    }
    assert_eq!(iter.next(), None);
}

#[test]
fn views_of_views() {
    let vec = sample();
    let outer = vec.index(1..5);
    let inner = outer.index(1..3);
    assert_eq!(inner.len(), 2);
    assert_eq!(inner.index(0), (&2, &'c'));
    assert_eq!(inner.last(), Some((&3, &'d')));
    assert_eq!(outer.get(4), None);
    assert!(outer.get(2..5).is_none());
    let tail = outer.index(2..);
    assert_eq!(tail.first(), Some((&3, &'d')));
    assert_eq!(tail.len(), 2);
    let (a, b) = outer.index(0..=1).as_slices();
    assert_eq!(a, &[1, 2]);
    assert_eq!(b, &['b', 'c']);
}

#[test]
fn an_empty_view_has_no_first_and_no_last() {
    let vec = sample();
    let none = vec.index(3..3);
    assert!(none.is_empty());
    assert_eq!(none.first(), None);
    assert_eq!(none.last(), None);
    assert_eq!(none.get(0), None);
    assert_eq!(none.iter().next(), None);
}

#[test]
fn writing_through_a_view_changes_the_container() {
    let mut vec = sample();
    {
        let mut middle = vec.index_mut(2..5);
        assert_eq!(middle.len(), 3);
        middle.set(0, (20, 'C'));
        middle.swap(1, 2);
        *middle.index_mut(2).0 = 30;
        let (number, letter) = middle.get_mut(1).unwrap();
        *number += 100;
        *letter = 'E';
        assert!(middle.get_mut(3).is_none());
    }
    let (a, b) = vec.as_slices();
    assert_eq!(a, &[0, 1, 20, 104, 30, 5]);
    assert_eq!(b, &['a', 'b', 'C', 'E', 'd', 'f']);
}

#[test]
fn every_kind_of_range_selects_for_writing() {
    let mut vec = sample();
    vec.index_mut(1..=2).reverse();
    vec.index_mut(..1).set(0, (9, 'z'));
    vec.index_mut(4..).swap(0, 1);
    vec.index_mut(..).swap(0, 5);
    let (a, b) = vec.as_slices();
    assert_eq!(a, &[4, 2, 1, 3, 5, 9]);
    assert_eq!(b, &['e', 'c', 'b', 'd', 'f', 'z']);
    assert!(vec.get_mut(3..2).is_none());
    assert!(vec.get_mut(..7).is_none());
    assert!(vec.get_mut(7..).is_none());
    assert!(vec.get_mut(0..=6).is_none());
    assert!(vec.get_mut(0..=usize::MAX).is_none());
    assert!(vec.get_mut(6..).unwrap().is_empty());
    assert_eq!(vec.get_mut(..).unwrap().len(), 6);
    assert_eq!(vec.get_mut(2..=4).unwrap().len(), 3);
    assert_eq!(vec.get_mut(..3).unwrap().len(), 3);
}

#[test]
fn views_of_views_for_writing() {
    let mut vec = sample();
    {
        let mut outer = vec.index_mut(1..5);
        let mut inner = outer.index_mut(1..3);
        inner.reverse();
        inner.first_mut().unwrap().1.make_ascii_uppercase();
        *outer.last_mut().unwrap().0 = 40;
    }
    let (a, b) = vec.as_slices();
    assert_eq!(a, &[0, 1, 3, 2, 40, 5]);
    assert_eq!(b, &['a', 'b', 'D', 'c', 'e', 'f']);
}

#[test]
fn reverse_of_a_view_leaves_the_rest() {
    let mut vec = sample();
    vec.index_mut(1..5).reverse();
    let (a, b) = vec.as_slices();
    assert_eq!(a, &[0, 4, 3, 2, 1, 5]);
    assert_eq!(b, &['a', 'e', 'd', 'c', 'b', 'f']);
    vec.index_mut(2..2).reverse();
    vec.index_mut(5..6).reverse();
    let (a, _) = vec.as_slices();
    assert_eq!(a, &[0, 4, 3, 2, 1, 5]);
}

#[test]
fn fill_puts_a_clone_everywhere() {
    let mut vec = ParallelVec::new();
    vec.extend(vec![(1, String::from("a")), (2, String::from("b")), (3, String::from("c"))]);
    vec.index_mut(1..).fill((0, String::from("z")));
    let (a, b) = vec.as_slices();
    assert_eq!(a, &[1, 0, 0]);
    assert_eq!(b, &["a", "z", "z"]);
    vec.fill((7, String::from("y")));
    let (a, b) = vec.as_slices();
    assert_eq!(a, &[7, 7, 7]);
    assert_eq!(b, &["y", "y", "y"]);
}

#[test]
fn fill_with_asks_once_for_each_record() {
    let asked = std::cell::Cell::new(0);
    let mut vec = sample();
    vec.index_mut(..4).fill_with(|| {
        asked.set(asked.get() + 1);
        (asked.get() * 10, 'x')
    });
    assert_eq!(asked.get(), 4);
    let (a, b) = vec.as_slices();
    assert_eq!(a, &[10, 20, 30, 40, 4, 5]);
    assert_eq!(b, &['x', 'x', 'x', 'x', 'e', 'f']);
    vec.fill_with(|| (0, '0'));
    let (a, _) = vec.as_slices();
    assert_eq!(a, &[0, 0, 0, 0, 0, 0]);
}

#[test]
fn swap_with_exchanges_views() {
    let mut first = sample();
    let mut second = ParallelVec::new();
    second.extend(vec![(10, 'p'), (11, 'q'), (12, 'r')]);
    {
        let mut left = first.index_mut(3..5);
        let mut right = second.index_mut(..2);
        left.swap_with(&mut right);
    }
    let (a, b) = first.as_slices();
    assert_eq!(a, &[0, 1, 2, 10, 11, 5]);
    assert_eq!(b, &['a', 'b', 'c', 'p', 'q', 'f']);
    let (a, b) = second.as_slices();
    assert_eq!(a, &[3, 4, 12]);
    assert_eq!(b, &['d', 'e', 'r']);
}

#[test]
fn columns_of_a_view_can_be_written() {
    let mut vec = sample();
    {
        let mut middle = vec.index_mut(2..4);
        let (numbers, letters) = middle.as_slices_mut();
        assert_eq!(numbers, &mut [2, 3]);
        assert_eq!(letters, &mut ['c', 'd']);
        numbers[0] = 22;
        letters[1] = 'D';
    }
    {
        let (numbers, letters) = vec.as_slices_mut();
        numbers[5] = 55;
        letters[0] = 'A';
    }
    let (a, b) = vec.as_slices();
    assert_eq!(a, &[0, 1, 22, 3, 4, 55]);
    assert_eq!(b, &['A', 'b', 'c', 'D', 'e', 'f']);
}

#[test]
fn iterators_of_the_columns_can_write() {
    let mut vec = sample();
    {
        let (numbers, letters) = vec.iters_mut();
        for number in numbers {
            *number *= 2;
        }
        for letter in letters {
            letter.make_ascii_uppercase();
        }
    }
    {
        let mut tail = vec.index_mut(4..);
        let (numbers, _) = tail.iters_mut();
        for number in numbers {
            *number += 1;
        }
    }
    let (a, b) = vec.as_slices();
    assert_eq!(a, &[0, 2, 4, 6, 9, 11]);
    assert_eq!(b, &['A', 'B', 'C', 'D', 'E', 'F']);
}

#[test]
fn first_and_last_can_be_written() {
    let mut vec = sample();
    *vec.first_mut().unwrap().0 = -1;
    *vec.last_mut().unwrap().1 = 'Z';
    *vec.get_unchecked_mut(2).0 = 22;
    assert_eq!(vec.first(), Some((&-1, &'a')));
    assert_eq!(vec.last(), Some((&5, &'Z')));
    assert_eq!(vec.get_unchecked(2), (&22, &'c'));
}

#[test]
fn views_over_columns_that_no_container_owns() {
    let mut columns = (vec![1, 2, 3, 4], vec!['a', 'b', 'c', 'd']);
    {
        let slice = ParallelSlice::<(i32, char)>::from_raw_parts(&columns, 1, 2);
        assert_eq!(slice.len(), 2);
        assert_eq!(slice.first(), Some((&2, &'b')));
        assert_eq!(slice.get_unchecked(1), (&3, &'c'));
    }
    {
        let mut slice = ParallelSliceMut::<(i32, char)>::from_raw_parts(&mut columns, 2, 2);
        assert_eq!(slice.len(), 2);
        assert!(!slice.is_empty());
        slice.swap_unchecked(0, 1);
        slice.set_unchecked(1, (0, 'z'));
        assert_eq!(slice.get_unchecked(0), (&4, &'d'));
        assert_eq!(slice.first(), Some((&4, &'d')));
        assert_eq!(slice.last(), Some((&0, &'z')));
        assert_eq!(slice.get(1), Some((&0, &'z')));
        assert_eq!(slice.index(..1).len(), 1);
        assert_eq!(slice.as_slice().len(), 2);
        let (a, b) = slice.as_slices();
        assert_eq!(a, &[4, 0]);
        assert_eq!(b, &['d', 'z']);
    }
    assert_eq!(columns.0, vec![1, 2, 4, 0]);
    assert_eq!(columns.1, vec!['a', 'b', 'd', 'z']);
}
