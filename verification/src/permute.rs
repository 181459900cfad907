//! Orders of positions, and how the records of a window are put into an order.
//!
//! An *order* of `n` records is a sequence that holds each position below `n`
//! once. To put records into an order is to move to each position `k` the record
//! that lay at position `order[k]`.
use crate::param::ParallelParam;
use vstd::prelude::*;
use vstd::seq_lib::*;
use vstd::set_lib::*;

verus! {

/// Whether `order` holds each position below its length once.
pub open spec fn is_order(order: Seq<usize>) -> bool {
    &&& forall|k: int| 0 <= k < order.len() ==> #[trigger] order[k] < order.len()
    &&& forall|i: int, j: int|
        0 <= i < order.len() && 0 <= j < order.len() && i != j ==> order[i] != order[j]
}

/// Whether `order` is an order of the records `rows`.
pub open spec fn is_order_of<A>(order: Seq<usize>, rows: Seq<A>) -> bool {
    &&& order.len() == rows.len()
    &&& is_order(order)
}

/// The records of `rows` in the order `order`.
pub open spec fn selected<A>(rows: Seq<A>, order: Seq<usize>) -> Seq<A> {
    Seq::new(order.len(), |k: int| rows[order[k] as int])
}

/// The position that `order` holds at `k`.
pub open spec fn place(order: Seq<usize>, k: int) -> int {
    order[k] as int
}

/// Whether `order` holds `position` somewhere.
pub open spec fn holds_position(order: Seq<usize>, position: int) -> bool {
    exists|k: int| 0 <= k < order.len() && #[trigger] order[k] == position
}

/// The order that leaves `len` records where they are.
pub open spec fn ascending(len: nat) -> Seq<usize> {
    Seq::new(len, |k: int| k as usize)
}

/// The `len` records of `rows` from `start` on.
pub open spec fn window_of<A>(rows: Seq<A>, start: usize, len: usize) -> Seq<A> {
    rows.subrange(start as int, start + len)
}

/// `rows` with `window` in place of as many records from `start` on.
pub open spec fn with_window<A>(rows: Seq<A>, start: usize, window: Seq<A>) -> Seq<A> {
    rows.take(start as int) + window + rows.skip(start + window.len())
}

/// The number of positions below `upto` that `order` does not map to themselves.
pub open spec fn misplaced(order: Seq<usize>, upto: nat) -> nat
    decreases upto,
{
    if upto == 0 {
        0
    } else {
        misplaced(order, (upto - 1) as nat) + if order[upto - 1] != upto - 1 {
            1nat
        } else {
            0nat
        }
    }
}

/// Putting another value at one position changes the count of misplaced positions
/// by what that position adds to it.
proof fn lemma_misplaced_update(order: Seq<usize>, upto: nat, position: int, value: usize)
    requires
        0 <= position < order.len(),
        upto <= order.len(),
    ensures
        misplaced(order.update(position, value), upto) == misplaced(order, upto) - (if position
            < upto && order[position] != position {
            1int
        } else {
            0int
        }) + (if position < upto && value != position {
            1int
        } else {
            0int
        }),
    decreases upto,
{
    if upto > 0 {
        lemma_misplaced_update(order, (upto - 1) as nat, position, value);
    }
}

/// An order that holds its positions in rising order holds at least `k` at `k`.
proof fn lemma_rising_from_below(order: Seq<usize>, k: int)
    requires
        forall|i: int, j: int| 0 <= i < j < order.len() ==> order[i] < order[j],
        0 <= k < order.len(),
    ensures
        order[k] >= k,
    decreases k,
{
    if k > 0 {
        lemma_rising_from_below(order, k - 1);
    }
}

/// An order that holds its positions in rising order holds at most `k` at `k`.
proof fn lemma_rising_from_above(order: Seq<usize>, k: int)
    requires
        is_order(order),
        forall|i: int, j: int| 0 <= i < j < order.len() ==> order[i] < order[j],
        0 <= k < order.len(),
    ensures
        order[k] <= k,
    decreases order.len() - k,
{
    if k < order.len() - 1 {
        lemma_rising_from_above(order, k + 1);
    }
}

/// An order that holds its positions in rising order is the ascending order.
pub proof fn lemma_rising_order_is_ascending(order: Seq<usize>)
    requires
        is_order(order),
        forall|i: int, j: int| 0 <= i < j < order.len() ==> order[i] < order[j],
    ensures
        order == ascending(order.len()),
        forall|k: int| 0 <= k < order.len() ==> place(order, k) == k,
{
    assert forall|k: int| 0 <= k < order.len() implies order[k] == k by {
        lemma_rising_from_below(order, k);
        lemma_rising_from_above(order, k);
    }
    assert(order =~= ascending(order.len()));
}

/// An order holds every position below its length.
pub proof fn lemma_order_is_onto(order: Seq<usize>)
    requires
        is_order(order),
    ensures
        forall|position: int|
            0 <= position < order.len() ==> #[trigger] holds_position(order, position),
{
    let len = order.len() as int;
    let places = order.map_values(|p: usize| p as int);
    assert(places.no_duplicates());
    places.unique_seq_to_set();
    lemma_int_range(0, len);
    assert(places.to_set().subset_of(set_int_range(0, len))) by {
        assert forall|p: int| places.to_set().contains(p) implies set_int_range(0, len).contains(
            p,
        ) by {
            let k = choose|k: int| 0 <= k < places.len() && places[k] == p;
            assert(order[k] < order.len());
        }
    }
    seq_to_set_is_finite(places);
    lemma_subset_equality(places.to_set(), set_int_range(0, len));
    assert forall|position: int| 0 <= position < order.len() implies #[trigger] holds_position(
        order,
        position,
    ) by {
        assert(set_int_range(0, len).contains(position));
        assert(places.to_set().contains(position));
        let k = choose|k: int| 0 <= k < places.len() && places[k] == position;
        assert(order[k] == position);
    }
}

/// A rearrangement of the ascending order of `len` records is an order of `len`
/// records.
pub proof fn lemma_rearranged_is_order(order: Seq<usize>, len: usize)
    requires
        order.to_multiset() == ascending(len as nat).to_multiset(),
    ensures
        order.len() == len,
        is_order(order),
{
    let plain = ascending(len as nat);
    to_multiset_len(order);
    to_multiset_len(plain);
    assert(plain.no_duplicates());
    plain.lemma_multiset_has_no_duplicates();
    order.lemma_multiset_has_no_duplicates_conv();
    assert forall|k: int| 0 <= k < order.len() implies #[trigger] order[k] < order.len() by {
        to_multiset_contains(order, order[k]);
        to_multiset_contains(plain, order[k]);
        assert(order.contains(order[k]));
        assert(plain.contains(order[k]));
    }
}

/// The order that leaves `len` records where they are.
pub fn ascending_order(len: usize) -> (order: Vec<usize>)
    ensures
        order@ == ascending(len as nat),
{
    let mut order: Vec<usize> = Vec::with_capacity(len);
    let mut k: usize = 0;
    while k < len
        invariant
            k <= len,
            order@ == ascending(k as nat),
        decreases len - k,
    {
        order.push(k);
        k = k + 1;
        assert(order@ =~= ascending(k as nat));
    }
    order
}

/// For each position, where `order` holds it.
pub fn invert(order: &Vec<usize>) -> (inverse: Vec<usize>)
    requires
        is_order(order@),
    ensures
        inverse@.len() == order@.len(),
        is_order(inverse@),
        forall|k: int| 0 <= k < order@.len() ==> inverse@[order@[k] as int] == k,
        forall|p: int| 0 <= p < order@.len() ==> order@[inverse@[p] as int] == p,
{
    let len = order.len();
    let mut inverse = ascending_order(len);
    let mut k: usize = 0;
    while k < len
        invariant
            k <= len == order@.len() == inverse@.len(),
            is_order(order@),
            forall|j: int| 0 <= j < k ==> inverse@[order@[j] as int] == j,
        decreases len - k,
    {
        let position = order[k];
        inverse[position] = k;
        k = k + 1;
    }
    proof {
        lemma_order_is_onto(order@);
        assert forall|p: int| 0 <= p < order@.len() implies order@[inverse@[p] as int] == p
            && inverse@[p] < len by {
            assert(holds_position(order@, p));
            let j = choose|j: int| 0 <= j < order@.len() && #[trigger] order@[j] == p;
            assert(inverse@[order@[j] as int] == j);
        }
        assert forall|i: int, j: int|
            0 <= i < inverse@.len() && 0 <= j < inverse@.len() && i != j implies inverse@[i]
            != inverse@[j] by {
            assert(order@[inverse@[i] as int] == i);
            assert(order@[inverse@[j] as int] == j);
        }
    }
    inverse
}

/// Puts the records of the window that starts at `start` into `order`: afterwards
/// position `k` of the window holds the record that lay at position `order[k]`
/// of it. No record outside the window moves. Every exchange of two records puts
/// at least one of them where it has to lie.
pub fn apply_order<Param: ParallelParam>(
    storage: &mut Param::Storage,
    start: usize,
    order: &Vec<usize>,
)
    requires
        Param::aligned(old(storage)),
        start + order@.len() <= Param::rows(old(storage)).len(),
        is_order(order@),
    ensures
        Param::aligned(final(storage)),
        Param::rows(final(storage)) == Param::rows(old(storage)).take(start as int) + selected(
            Param::rows(old(storage)).subrange(start as int, start + order@.len()),
            order@,
        ) + Param::rows(old(storage)).skip(start + order@.len()),
{
    proof {
        Param::lemma_rows_len(storage);
    }
    let len = order.len();
    let mut target = invert(order);
    let ghost before = Param::rows(storage);
    let ghost window = before.subrange(start as int, start + len);
    // `holds[p]` is the position at which the record that now lies at `p` lay
    // at first; `target[p]` is the position at which that record has to lie.
    let ghost mut holds = ascending(len as nat);
    let mut position: usize = 0;
    while position < len
        invariant
            position <= len == order@.len() == target@.len() == holds.len(),
            Param::aligned(storage),
            Param::rows(storage).len() == before.len(),
            start + len <= before.len() <= usize::MAX,
            window == before.subrange(start as int, start + len),
            is_order(order@),
            is_order(target@),
            forall|p: int|
                0 <= p < before.len() && !(start <= p < start + len) ==> Param::rows(storage)[p]
                    == before[p],
            forall|p: int|
                0 <= p < len ==> holds[p] < len && Param::rows(storage)[start + p]
                    == window[#[trigger] holds[p] as int],
            forall|p: int| 0 <= p < len ==> order@[#[trigger] target@[p] as int] == holds[p],
            forall|p: int| 0 <= p < position ==> target@[p] == p,
        decreases misplaced(target@, len as nat) + len - position,
    {
        let destination = target[position];
        if destination == position {
            position = position + 1;
        } else {
            let displaced = target[destination];
            proof {
                assert(destination > position) by {
                    if destination < position {
                        assert(target@[destination as int] == destination);
                    }
                }
                assert(displaced != destination);
                lemma_misplaced_update(target@, len as nat, position as int, displaced);
                lemma_misplaced_update(
                    target@.update(position as int, displaced),
                    len as nat,
                    destination as int,
                    destination,
                );
            }
            Param::swap(storage, start + position, start + destination);
            target[position] = displaced;
            target[destination] = destination;
            proof {
                holds = holds.update(position as int, holds[destination as int]).update(
                    destination as int,
                    holds[position as int],
                );
            }
        }
    }
    proof {
        assert forall|p: int| 0 <= p < len implies #[trigger] holds[p] == order@[p] by {
            assert(target@[p] == p);
        }
        let after = before.take(start as int) + selected(window, order@) + before.skip(
            start + len,
        );
        assert forall|p: int| 0 <= p < before.len() implies Param::rows(storage)[p] == after[p] by {
            if start <= p < start + len {
                assert(holds[p - start] == order@[p - start]);
                assert(Param::rows(storage)[start + (p - start)] == window[holds[p - start] as int]);
            }
        }
        assert(Param::rows(storage) =~= after);
    }
}

} // verus!
