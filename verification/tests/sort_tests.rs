use parallel_vec::ParallelVec;

#[test]
fn sort_by_orders_records_and_keeps_equal_ones_in_order() {
    let mut src = ParallelVec::new();
    src.extend(vec![(3, 'a'), (1, 'b'), (2, 'c'), (1, 'd'), (3, 'e'), (0, 'f')]);
    src.sort_by(|a, b| a.0.cmp(b.0));
    let (keys, tags) = src.as_slices();
    assert_eq!(keys, &[0, 1, 1, 2, 3, 3]);
    assert_eq!(tags, &['f', 'b', 'd', 'c', 'a', 'e']);
}

#[test]
fn sort_by_key_orders_records_and_keeps_equal_ones_in_order() {
    let mut src = ParallelVec::new();
    src.extend(vec![(3, 'a'), (1, 'b'), (2, 'c'), (1, 'd'), (3, 'e'), (0, 'f')]);
    src.sort_by_key(|a| *a.0);
    let (keys, tags) = src.as_slices();
    assert_eq!(keys, &[0, 1, 1, 2, 3, 3]);
    assert_eq!(tags, &['f', 'b', 'd', 'c', 'a', 'e']);
}

#[test]
fn sort_unstable_by_orders_records() {
    let mut src = ParallelVec::new();
    src.extend(vec![(5, 50), (4, 40), (9, 90), (1, 10), (7, 70), (3, 30), (8, 80)]);
    src.sort_unstable_by(|a, b| a.0.cmp(b.0));
    let (a, b) = src.as_slices();
    assert_eq!(a, &[1, 3, 4, 5, 7, 8, 9]);
    assert_eq!(b, &[10, 30, 40, 50, 70, 80, 90]);
}

#[test]
fn sort_unstable_by_key_orders_records() {
    let mut src = ParallelVec::new();
    src.extend(vec![(5, 50), (4, 40), (9, 90), (1, 10), (7, 70), (3, 30), (8, 80)]);
    src.sort_unstable_by_key(|a| *a.1);
    let (a, b) = src.as_slices();
    assert_eq!(a, &[1, 3, 4, 5, 7, 8, 9]);
    assert_eq!(b, &[10, 30, 40, 50, 70, 80, 90]);
}

#[test]
fn sort_by_follows_long_cycles() {
    // The order found for these records is one cycle through all positions.
    let mut src = ParallelVec::new();
    src.extend(vec![(4, 0), (0, 1), (1, 2), (2, 3), (3, 4)]);
    src.sort_by(|a, b| a.0.cmp(b.0));
    let (a, b) = src.as_slices();
    assert_eq!(a, &[0, 1, 2, 3, 4]);
    assert_eq!(b, &[1, 2, 3, 4, 0]);
}

#[test]
fn sort_by_of_three_records_in_a_cycle() {
    let mut src = ParallelVec::new();
    src.extend(vec![('c', 3), ('a', 1), ('b', 2)]);
    src.sort_by(|a, b| a.0.cmp(b.0));
    let (a, b) = src.as_slices();
    assert_eq!(a, &['a', 'b', 'c']);
    assert_eq!(b, &[1, 2, 3]);
}

#[test]
fn sort_by_is_idempotent() {
    let mut src = ParallelVec::new();
    src.extend(vec![(2, 'x'), (1, 'y'), (2, 'z'), (1, 'w')]);
    src.sort_by(|a, b| a.0.cmp(b.0));
    let once: Vec<(i32, char)> = src.clone().into_iter().collect();
    src.sort_by(|a, b| a.0.cmp(b.0));
    let twice: Vec<(i32, char)> = src.clone().into_iter().collect();
    assert_eq!(once, vec![(1, 'y'), (1, 'w'), (2, 'x'), (2, 'z')]);
    assert_eq!(once, twice);
}

#[test]
fn sort_by_on_a_view_leaves_the_rest() {
    let mut src = ParallelVec::new();
    src.extend(vec![(9, 0), (3, 1), (2, 2), (1, 3), (0, 4)]);
    let mut middle = src.index_mut(1..4);
    middle.sort_by(|a, b| a.0.cmp(b.0));
    let (a, b) = src.as_slices();
    assert_eq!(a, &[9, 1, 2, 3, 0]);
    assert_eq!(b, &[0, 3, 2, 1, 4]);
}

#[test]
fn sort_by_of_short_containers() {
    let mut none: ParallelVec<(i32, i32)> = ParallelVec::new();
    none.sort_by(|a, b| a.0.cmp(b.0));
    assert_eq!(none.len(), 0);
    let mut one = ParallelVec::new();
    one.push((1, 2));
    one.sort_by(|a, b| b.0.cmp(a.0));
    assert_eq!(one.index(0), (&1, &2));
}

#[test]
fn sort_by_key_of_records_that_own_memory() {
    let mut src = ParallelVec::new();
    src.extend(vec![
        (String::from("pear"), 3),
        (String::from("apple"), 1),
        (String::from("fig"), 2),
        (String::from("apple"), 0),
    ]);
    src.sort_by_key(|record| record.0.clone());
    let (names, numbers) = src.as_slices();
    assert_eq!(names, &["apple", "apple", "fig", "pear"]);
    assert_eq!(numbers, &[1, 0, 2, 3]);
}

#[test]
fn sort_of_records_in_descending_order() {
    let mut src = ParallelVec::new();
    for i in 0..100 {
        src.push(((i * 37) % 101, i));
    }
    src.sort_unstable_by(|a, b| b.0.cmp(a.0));
    let (keys, places) = src.as_slices();
    for k in 1..100 {
        assert!(keys[k - 1] > keys[k]);
    }
    for k in 0..100 {
        assert_eq!(keys[k], (places[k] * 37) % 101);
    }
}

#[test]
fn sort_keeps_every_record() {
    let mut src = ParallelVec::new();
    for i in 0..64u32 {
        src.push((i.reverse_bits() >> 26, i, i.to_string()));
    }
    src.sort_by_key(|record| *record.0);
    let (keys, numbers, names) = src.as_slices();
    for k in 0..64 {
        assert_eq!(keys[k], k as u32);
        assert_eq!(numbers[k].reverse_bits() >> 26, k as u32);
        assert_eq!(names[k], numbers[k].to_string());
    }
}

#[test]
fn sort_unstable_by_key_on_a_view_leaves_the_rest() {
    let mut src = ParallelVec::new();
    src.extend(vec![(9, 9), (5, 0), (4, 1), (3, 2), (0, 0)]);
    src.index_mut(1..=3).sort_unstable_by_key(|record| *record.0);
    src.index_mut(..0).sort_by_key(|record| *record.0);
    src.index_mut(4..).sort_unstable_by(|a, b| a.0.cmp(b.0));
    let (a, b) = src.as_slices();
    assert_eq!(a, &[9, 3, 4, 5, 0]);
    assert_eq!(b, &[9, 2, 1, 0, 0]);
}
