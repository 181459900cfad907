use parallel_vec::ParallelVec;
use std::rc::Rc;

#[test]
fn push_swap_remove_scenario() {
    let mut vec = ParallelVec::new();
    vec.push((1, 2));
    vec.push((3, 4));
    vec.push((5, 6));
    vec.push((7, 8));
    {
        let (a, b) = vec.as_slices();
        assert_eq!(a, &[1, 3, 5, 7]);
        assert_eq!(b, &[2, 4, 6, 8]);
    }
    vec.swap(1, 2);
    {
        let (a, b) = vec.as_slices();
        assert_eq!(a, &[1, 5, 3, 7]);
        assert_eq!(b, &[2, 6, 4, 8]);
    }
    assert_eq!(vec.remove(0), Some((1, 2)));
    let (a, b) = vec.as_slices();
    assert_eq!(a, &[5, 3, 7]);
    assert_eq!(b, &[6, 4, 8]);
}

#[test]
fn columns_hold_the_fields_in_push_order() {
    let mut vec = ParallelVec::new();
    let mut firsts = Vec::new();
    let mut seconds = Vec::new();
    let mut thirds = Vec::new();
    for i in 0..50u32 {
        vec.push((i, i.to_string(), i % 3 == 0));
        firsts.push(i);
        seconds.push(i.to_string());
        thirds.push(i % 3 == 0);
    }
    let (a, b, c) = vec.as_slices();
    assert_eq!(a, &firsts[..]);
    assert_eq!(b, &seconds[..]);
    assert_eq!(c, &thirds[..]);
    assert_eq!(a.len(), b.len());
    assert_eq!(b.len(), c.len());
}

#[test]
fn pops_give_back_in_reverse() {
    let mut vec = ParallelVec::new();
    for i in 0..20 {
        vec.push((i, -i));
    }
    for i in (0..20).rev() {
        assert_eq!(vec.pop(), Some((i, -i)));
    }
    assert_eq!(vec.len(), 0);
    assert_eq!(vec.pop(), None);
}

#[test]
fn insert_shifts_the_later_records() {
    let mut vec = ParallelVec::new();
    vec.extend(vec![(0, 'a'), (1, 'b'), (2, 'c'), (3, 'd')]);
    vec.insert(2, (9, 'z'));
    assert_eq!(vec.index(2), (&9, &'z'));
    let (a, b) = vec.as_slices();
    assert_eq!(a, &[0, 1, 9, 2, 3]);
    assert_eq!(b, &['a', 'b', 'z', 'c', 'd']);
    vec.insert(5, (8, 'y'));
    vec.insert(0, (7, 'x'));
    let (a, b) = vec.as_slices();
    assert_eq!(a, &[7, 0, 1, 9, 2, 3, 8]);
    assert_eq!(b, &['x', 'a', 'b', 'z', 'c', 'd', 'y']);
}

#[test]
fn remove_undoes_insert() {
    let mut vec = ParallelVec::new();
    vec.extend(vec![(0, 'a'), (1, 'b'), (2, 'c'), (3, 'd'), (4, 'e')]);
    let before = vec.clone();
    let capacity = vec.capacity();
    for index in 0..=5 {
        vec.insert(index, (9, 'z'));
        assert_eq!(vec.remove(index), Some((9, 'z')));
        assert!(vec == before);
        assert_eq!(vec.capacity(), capacity);
    }
}

#[test]
fn remove_shifts_the_later_records() {
    let mut vec = ParallelVec::new();
    vec.extend(vec![(0, 'a'), (1, 'b'), (2, 'c'), (3, 'd')]);
    assert_eq!(vec.remove(4), None);
    assert_eq!(vec.remove(1), Some((1, 'b')));
    let (a, b) = vec.as_slices();
    assert_eq!(a, &[0, 2, 3]);
    assert_eq!(b, &['a', 'c', 'd']);
    assert_eq!(vec.remove(2), Some((3, 'd')));
    assert_eq!(vec.remove(0), Some((0, 'a')));
    assert_eq!(vec.remove(0), Some((2, 'c')));
    assert_eq!(vec.remove(0), None);
}

#[test]
fn swap_remove_puts_the_last_record_in_place() {
    let mut vec = ParallelVec::new();
    vec.extend(vec![(0, 'a'), (1, 'b'), (2, 'c'), (3, 'd')]);
    assert_eq!(vec.swap_remove(0), (0, 'a'));
    let (a, b) = vec.as_slices();
    assert_eq!(a, &[3, 1, 2]);
    assert_eq!(b, &['d', 'b', 'c']);
    assert_eq!(vec.swap_remove(2), (2, 'c'));
    let (a, b) = vec.as_slices();
    assert_eq!(a, &[3, 1]);
    assert_eq!(b, &['d', 'b']);
    assert_eq!(vec.swap_remove(0), (3, 'd'));
    assert_eq!(vec.swap_remove(0), (1, 'b'));
    assert!(vec.is_empty());
}

#[test]
fn taking_a_record_out_drops_nothing_else() {
    let rc = Rc::new(0);
    let mut vec = ParallelVec::new();
    for _ in 0..6 {
        vec.push((rc.clone(), 1u8, rc.clone()));
    }
    assert_eq!(Rc::strong_count(&rc), 13);
    let popped = vec.pop();
    assert_eq!(Rc::strong_count(&rc), 13);
    drop(popped);
    assert_eq!(Rc::strong_count(&rc), 11);
    drop(vec.remove(1));
    assert_eq!(Rc::strong_count(&rc), 9);
    drop(vec.swap_remove(0));
    assert_eq!(Rc::strong_count(&rc), 7);
    vec.set(0, (Rc::new(1), 2, Rc::new(3)));
    assert_eq!(Rc::strong_count(&rc), 5);
    vec.clear();
    assert_eq!(Rc::strong_count(&rc), 1);
}

#[test]
fn growing_and_shrinking_drops_nothing() {
    let rc = Rc::new(0);
    let mut vec = ParallelVec::new();
    for _ in 0..5 {
        vec.push((rc.clone(), rc.clone()));
    }
    assert_eq!(Rc::strong_count(&rc), 11);
    vec.reserve(100);
    assert_eq!(Rc::strong_count(&rc), 11);
    vec.shrink_to_fit();
    assert_eq!(Rc::strong_count(&rc), 11);
    let mut other = ParallelVec::new();
    other.append(&mut vec);
    assert_eq!(Rc::strong_count(&rc), 11);
    drop(vec);
    assert_eq!(Rc::strong_count(&rc), 11);
    drop(other);
    assert_eq!(Rc::strong_count(&rc), 1);
}

#[test]
fn an_iterator_drops_what_it_has_not_handed_out() {
    let rc = Rc::new(0);
    let mut vec = ParallelVec::new();
    for _ in 0..4 {
        vec.push((rc.clone(), rc.clone()));
    }
    let mut iter = vec.into_iter();
    assert_eq!(Rc::strong_count(&rc), 9);
    drop(iter.next());
    assert_eq!(Rc::strong_count(&rc), 7);
    drop(iter.next_back());
    assert_eq!(Rc::strong_count(&rc), 5);
    drop(iter);
    assert_eq!(Rc::strong_count(&rc), 1);
}

#[test]
fn records_of_twelve_fields() {
    let mut vec = ParallelVec::new();
    vec.push((1u8, 2u16, 3u32, 4u64, 5i8, 6i16, 7i32, 8i64, 'a', true, "b", 12usize));
    vec.push((13u8, 14u16, 15u32, 16u64, 17i8, 18i16, 19i32, 20i64, 'c', false, "d", 24usize));
    assert_eq!(
        vec.index(1),
        (&13, &14, &15, &16, &17, &18, &19, &20, &'c', &false, &"d", &24)
    );
    vec.swap(0, 1);
    let columns = vec.as_slices();
    assert_eq!(columns.0, &[13, 1]);
    assert_eq!(columns.8, &['c', 'a']);
    assert_eq!(columns.11, &[24, 12]);
    assert_eq!(
        vec.pop(),
        Some((1u8, 2u16, 3u32, 4u64, 5i8, 6i16, 7i32, 8i64, 'a', true, "b", 12usize))
    );
}

#[test]
fn clone_of_records_that_own_memory() {
    let mut vec = ParallelVec::new();
    vec.push((String::from("one"), vec![1]));
    vec.push((String::from("two"), vec![1, 2]));
    let copy = vec.clone();
    assert_eq!(copy.len(), 2);
    assert_eq!(copy.capacity(), 2);
    assert!(copy == vec);
    vec.set(0, (String::from("none"), vec![]));
    assert!(copy != vec);
    assert_eq!(copy.index(0), (&String::from("one"), &vec![1]));
}

#[test]
fn containers_of_different_length_are_not_equal() {
    let short = ParallelVec::from(vec![(1, 2)]);
    let long = ParallelVec::from(vec![(1, 2), (3, 4)]);
    let none: ParallelVec<(i32, i32)> = ParallelVec::new();
    assert!(short != long);
    assert!(long != short);
    assert!(none != short);
    assert!(none == ParallelVec::with_capacity(5));
}

#[test]
fn from_a_vec_has_no_room_to_spare() {
    let vec = ParallelVec::from(vec![(1, 'a'), (2, 'b'), (3, 'c')]);
    assert_eq!(vec.len(), 3);
    assert_eq!(vec.capacity(), 3);
    let (a, b) = vec.as_slices();
    assert_eq!(a, &[1, 2, 3]);
    assert_eq!(b, &['a', 'b', 'c']);
}
