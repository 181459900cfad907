use parallel_vec::growth::grow_to;
use parallel_vec::ParallelVec;

fn capacity_after_reserve(additional: usize) -> usize {
    let mut vec: ParallelVec<(u8, u32)> = ParallelVec::new();
    vec.reserve(additional);
    vec.capacity()
}

#[test]
fn reserve_from_empty_grows_to_a_power_of_two_and_no_less_than_four() {
    assert_eq!(capacity_after_reserve(1), 4);
    assert_eq!(capacity_after_reserve(2), 4);
    assert_eq!(capacity_after_reserve(3), 4);
    assert_eq!(capacity_after_reserve(4), 4);
    assert_eq!(capacity_after_reserve(5), 8);
    assert_eq!(capacity_after_reserve(8), 8);
    assert_eq!(capacity_after_reserve(9), 16);
    assert_eq!(capacity_after_reserve(1000), 1024);
    assert_eq!(capacity_after_reserve(1024), 1024);
    assert_eq!(capacity_after_reserve(1025), 2048);
}

#[test]
fn reserve_of_nothing_leaves_an_empty_container_without_memory() {
    assert_eq!(capacity_after_reserve(0), 0);
}

#[test]
fn grow_to_rounds_up() {
    assert_eq!(grow_to(0), 4);
    assert_eq!(grow_to(1), 4);
    assert_eq!(grow_to(4), 4);
    assert_eq!(grow_to(5), 8);
    assert_eq!(grow_to(17), 32);
    assert_eq!(grow_to(64), 64);
    assert_eq!(grow_to(65), 128);
}

#[test]
fn push_grows_only_when_full() {
    let mut vec = ParallelVec::new();
    let mut seen = Vec::new();
    for i in 0..17 {
        vec.push((i, i as u8));
        seen.push(vec.capacity());
    }
    assert_eq!(seen, vec![4, 4, 4, 4, 8, 8, 8, 8, 16, 16, 16, 16, 16, 16, 16, 16, 32]);
    assert_eq!(vec.len(), 17);
}

#[test]
fn reserve_counts_from_the_length() {
    let mut vec = ParallelVec::new();
    vec.extend(vec![(1, 1), (2, 2), (3, 3)]);
    assert_eq!(vec.capacity(), 4);
    vec.reserve(1);
    assert_eq!(vec.capacity(), 4);
    vec.reserve(2);
    assert_eq!(vec.capacity(), 8);
    vec.reserve(5);
    assert_eq!(vec.capacity(), 8);
    vec.reserve(6);
    assert_eq!(vec.capacity(), 16);
    let (a, b) = vec.as_slices();
    assert_eq!(a, &[1, 2, 3]);
    assert_eq!(b, &[1, 2, 3]);
}

#[test]
fn with_capacity_is_exact() {
    let vec: ParallelVec<(i64, bool)> = ParallelVec::with_capacity(7);
    assert_eq!(vec.capacity(), 7);
    assert_eq!(vec.len(), 0);
    let none: ParallelVec<(i64, bool)> = ParallelVec::with_capacity(0);
    assert_eq!(none.capacity(), 0);
}

#[test]
fn with_capacity_does_not_grow_until_full() {
    let mut vec = ParallelVec::with_capacity(3);
    vec.push((1, 'a'));
    vec.push((2, 'b'));
    vec.push((3, 'c'));
    assert_eq!(vec.capacity(), 3);
    vec.push((4, 'd'));
    assert_eq!(vec.capacity(), 4);
    vec.push((5, 'e'));
    assert_eq!(vec.capacity(), 8);
}

#[test]
fn shrink_to_is_exact() {
    let mut vec = ParallelVec::new();
    vec.extend(vec![(1, 2), (3, 4), (5, 6)]);
    vec.reserve(100);
    assert_eq!(vec.capacity(), 128);
    vec.shrink_to(200);
    assert_eq!(vec.capacity(), 128);
    vec.shrink_to(128);
    assert_eq!(vec.capacity(), 128);
    vec.shrink_to(50);
    assert_eq!(vec.capacity(), 50);
    vec.shrink_to(2);
    assert_eq!(vec.capacity(), 3);
    vec.shrink_to(0);
    assert_eq!(vec.capacity(), 3);
    let (a, b) = vec.as_slices();
    assert_eq!(a, &[1, 3, 5]);
    assert_eq!(b, &[2, 4, 6]);
}

#[test]
fn shrink_to_fit_of_an_empty_container_gives_the_memory_back() {
    let mut vec: ParallelVec<(u16, u16)> = ParallelVec::with_capacity(10);
    vec.shrink_to_fit();
    assert_eq!(vec.capacity(), 0);
    vec.push((1, 2));
    assert_eq!(vec.capacity(), 4);
    assert_eq!(vec.index(0), (&1, &2));
}

#[test]
fn shrink_to_fit_keeps_the_records() {
    let mut vec = ParallelVec::new();
    for i in 0..10 {
        vec.push((i, 10 - i));
    }
    assert_eq!(vec.capacity(), 16);
    vec.shrink_to_fit();
    assert_eq!(vec.capacity(), 10);
    assert_eq!(vec.len(), 10);
    for i in 0..10 {
        assert_eq!(vec.index(i), (&(i as i32), &(10 - i as i32)));
    }
}

#[test]
fn append_grows_one_and_leaves_the_capacity_of_the_other() {
    let mut first = ParallelVec::new();
    first.extend(vec![(1, 'a'), (2, 'b'), (3, 'c')]);
    let mut second = ParallelVec::with_capacity(9);
    second.extend(vec![(4, 'd'), (5, 'e'), (6, 'f')]);
    first.append(&mut second);
    assert_eq!(first.capacity(), 8);
    assert_eq!(second.capacity(), 9);
    assert_eq!(second.len(), 0);
    let (a, b) = first.as_slices();
    assert_eq!(a, &[1, 2, 3, 4, 5, 6]);
    assert_eq!(b, &['a', 'b', 'c', 'd', 'e', 'f']);
    second.push((7, 'g'));
    assert_eq!(second.index(0), (&7, &'g'));
}

#[test]
fn append_of_nothing_changes_nothing() {
    let mut first = ParallelVec::new();
    first.push((1, 2));
    let mut second = ParallelVec::new();
    first.append(&mut second);
    assert_eq!(first.len(), 1);
    assert_eq!(first.capacity(), 4);
    assert_eq!(second.capacity(), 0);
}

#[test]
fn truncate_and_clear_keep_the_capacity() {
    let mut vec = ParallelVec::new();
    vec.extend(vec![(1, 2), (3, 4), (5, 6), (7, 8), (9, 10)]);
    assert_eq!(vec.capacity(), 8);
    vec.truncate(9);
    assert_eq!(vec.len(), 5);
    vec.truncate(5);
    assert_eq!(vec.len(), 5);
    vec.truncate(3);
    assert_eq!(vec.len(), 3);
    assert_eq!(vec.capacity(), 8);
    vec.clear();
    assert_eq!(vec.len(), 0);
    assert_eq!(vec.capacity(), 8);
}

#[test]
fn repeat_has_no_room_to_spare() {
    let mut vec = ParallelVec::new();
    vec.extend(vec![(1, 'x'), (2, 'y')]);
    let thrice = vec.repeat(3);
    assert_eq!(thrice.capacity(), 6);
    assert_eq!(thrice.len(), 6);
    let (a, b) = thrice.as_slices();
    assert_eq!(a, &[1, 2, 1, 2, 1, 2]);
    assert_eq!(b, &['x', 'y', 'x', 'y', 'x', 'y']);
    let never = vec.repeat(0);
    assert_eq!(never.len(), 0);
    assert_eq!(never.capacity(), 0);
    let once = vec.repeat(1);
    assert!(once == vec);
}

#[test]
fn extend_reserves_once() {
    let mut vec = ParallelVec::new();
    vec.push((0, 0));
    vec.extend(vec![(1, 1), (2, 2), (3, 3), (4, 4), (5, 5), (6, 6), (7, 7), (8, 8)]);
    assert_eq!(vec.len(), 9);
    assert_eq!(vec.capacity(), 16);
    vec.extend(Vec::new());
    assert_eq!(vec.len(), 9);
    assert_eq!(vec.capacity(), 16);
}
