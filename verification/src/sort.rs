//! Sorting the records of a window.
//!
//! Records lie in separate columns, so a sort does not move them while it
//! compares: it sorts the positions of the records, asking the comparison about
//! the records they stand for, and then puts the records into the order found.
//!
//! What a comparison or a key function computes is stated by a relation or a
//! function of the caller's choice that it answers with; the contracts of the
//! sorts hold for every such choice.
use crate::param::ParallelParam;
use crate::permute::{
    apply_order, ascending, ascending_order, is_order, is_order_of, lemma_rearranged_is_order,
    lemma_rising_order_is_ascending, place, selected, window_of, with_window,
};
use core::cmp::Ordering;
use vstd::prelude::*;
use vstd::std_specs::cmp::OrdSpec;

verus! {

/// Whether `compare` may be asked about any two records of `rows` and then
/// answers what `relation` says of them.
pub open spec fn answers_with<Param: ParallelParam, F: Fn(Param::Ref<'_>, Param::Ref<'_>) -> Ordering>(
    compare: F,
    rows: Seq<Param>,
    relation: spec_fn(Param, Param) -> Ordering,
) -> bool {
    forall|a: Param, b: Param|
        rows.contains(a) && rows.contains(b) ==> {
            &&& #[trigger] call_requires(compare, (Param::ref_of(a), Param::ref_of(b)))
            &&& forall|answer: Ordering|
                call_ensures(compare, (Param::ref_of(a), Param::ref_of(b)), answer) ==> answer
                    == relation(a, b)
        }
}

/// Whether `key` may be asked about any record of `rows` and then answers what
/// `key_of` says of it.
pub open spec fn keys_with<Param: ParallelParam, K, F: Fn(Param::Ref<'_>) -> K>(
    key: F,
    rows: Seq<Param>,
    key_of: spec_fn(Param) -> K,
) -> bool {
    forall|a: Param|
        rows.contains(a) ==> {
            &&& #[trigger] call_requires(key, (Param::ref_of(a),))
            &&& forall|answer: K|
                call_ensures(key, (Param::ref_of(a),), answer) ==> answer == key_of(a)
        }
}

/// The three-way relation that the order of their keys puts on records.
pub open spec fn by_key<Param, K: Ord>(key_of: spec_fn(Param) -> K) -> spec_fn(
    Param,
    Param,
) -> Ordering {
    |a: Param, b: Param| key_of(a).cmp_spec(&key_of(b))
}

/// Whether `relation` orders the records of `rows` totally: what it says of two
/// records one way round agrees with what it says the other way round, and "not
/// after" carries over from record to record.
pub open spec fn is_total_order_on<Param>(
    relation: spec_fn(Param, Param) -> Ordering,
    rows: Seq<Param>,
) -> bool {
    &&& forall|a: Param, b: Param|
        rows.contains(a) && rows.contains(b) ==> {
            &&& (#[trigger] relation(a, b) is Less <==> relation(b, a) is Greater)
            &&& (relation(a, b) is Equal <==> relation(b, a) is Equal)
        }
    &&& forall|a: Param, b: Param, c: Param|
        rows.contains(a) && rows.contains(b) && rows.contains(c) && !(#[trigger] relation(a, b)
            is Greater) && !(#[trigger] relation(b, c) is Greater) ==> !(relation(a, c)
            is Greater)
}

/// Whether no record of `rows` comes after a later one under `relation`.
pub open spec fn is_sorted<Param>(
    relation: spec_fn(Param, Param) -> Ordering,
    rows: Seq<Param>,
) -> bool {
    forall|i: int, j: int|
        0 <= i < j < rows.len() ==> !(#[trigger] relation(rows[i], rows[j]) is Greater)
}

/// Whether the records of `rows`, taken in the order `order`, are sorted under
/// `relation`.
pub open spec fn is_sorted_order<Param>(
    relation: spec_fn(Param, Param) -> Ordering,
    rows: Seq<Param>,
    order: Seq<usize>,
) -> bool {
    is_sorted(relation, selected(rows, order))
}

/// Whether the records of `rows`, taken in the order `order`, are sorted under
/// `relation` and those that `relation` holds equal have kept their order.
pub open spec fn is_stable_sorted_order<Param>(
    relation: spec_fn(Param, Param) -> Ordering,
    rows: Seq<Param>,
    order: Seq<usize>,
) -> bool {
    &&& is_sorted_order(relation, rows, order)
    &&& forall|i: int, j: int|
        0 <= i < j < order.len() && (#[trigger] relation(
            selected(rows, order)[i],
            selected(rows, order)[j],
        ) is Equal) ==> order[i] < order[j]
}

/// Whether the records of `rows`, taken in the order `order`, are sorted under
/// every relation that `compare` answers with.
pub open spec fn sorts<Param: ParallelParam, F: Fn(Param::Ref<'_>, Param::Ref<'_>) -> Ordering>(
    compare: F,
    rows: Seq<Param>,
    order: Seq<usize>,
) -> bool {
    forall|relation: spec_fn(Param, Param) -> Ordering| #[trigger]
        answers_with(compare, rows, relation) ==> is_sorted_order(relation, rows, order)
}

/// Whether the records of `rows`, taken in the order `order`, are sorted under
/// every relation that `compare` answers with, and those that are equal under
/// it have kept their order.
pub open spec fn sorts_stably<
    Param: ParallelParam,
    F: Fn(Param::Ref<'_>, Param::Ref<'_>) -> Ordering,
>(compare: F, rows: Seq<Param>, order: Seq<usize>) -> bool {
    forall|relation: spec_fn(Param, Param) -> Ordering| #[trigger]
        answers_with(compare, rows, relation) ==> is_stable_sorted_order(relation, rows, order)
}

/// Whether the records of `rows`, taken in the order `order`, are sorted by
/// every key function that `key` answers with.
pub open spec fn sorts_by_key<Param: ParallelParam, K: Ord, F: Fn(Param::Ref<'_>) -> K>(
    key: F,
    rows: Seq<Param>,
    order: Seq<usize>,
) -> bool {
    forall|key_of: spec_fn(Param) -> K| #[trigger]
        keys_with(key, rows, key_of) ==> is_sorted_order(by_key(key_of), rows, order)
}

/// Whether the records of `rows`, taken in the order `order`, are sorted by
/// every key function that `key` answers with, and those with equal keys have
/// kept their order.
pub open spec fn sorts_stably_by_key<Param: ParallelParam, K: Ord, F: Fn(Param::Ref<'_>) -> K>(
    key: F,
    rows: Seq<Param>,
    order: Seq<usize>,
) -> bool {
    forall|key_of: spec_fn(Param) -> K| #[trigger]
        keys_with(key, rows, key_of) ==> is_stable_sorted_order(by_key(key_of), rows, order)
}

/// Whether `compare` answers with a total order on `rows`.
pub open spec fn is_comparison_of<
    Param: ParallelParam,
    F: Fn(Param::Ref<'_>, Param::Ref<'_>) -> Ordering,
>(compare: F, rows: Seq<Param>) -> bool {
    exists|relation: spec_fn(Param, Param) -> Ordering| #[trigger]
        answers_with(compare, rows, relation) && is_total_order_on(relation, rows)
}

/// Whether `key` answers with a key function on `rows`, and the order of the
/// keys is lawful.
pub open spec fn is_key_of<Param: ParallelParam, K: Ord, F: Fn(Param::Ref<'_>) -> K>(
    key: F,
    rows: Seq<Param>,
) -> bool {
    &&& vstd::laws_cmp::obeys_cmp::<K>()
    &&& exists|key_of: spec_fn(Param) -> K| #[trigger] keys_with(key, rows, key_of)
}

/// Asks `compare` about the records at `a` and `b` of the window that starts at
/// `start`.
pub fn compare_at<Param: ParallelParam, F: Fn(Param::Ref<'_>, Param::Ref<'_>) -> Ordering>(
    storage: &Param::Storage,
    start: usize,
    compare: &F,
    a: usize,
    b: usize,
) -> (answer: Ordering)
    requires
        Param::aligned(storage),
        start + a < Param::rows(storage).len(),
        start + b < Param::rows(storage).len(),
        call_requires(
            *compare,
            (
                Param::ref_of(Param::rows(storage)[start + a]),
                Param::ref_of(Param::rows(storage)[start + b]),
            ),
        ),
    ensures
        call_ensures(
            *compare,
            (
                Param::ref_of(Param::rows(storage)[start + a]),
                Param::ref_of(Param::rows(storage)[start + b]),
            ),
            answer,
        ),
{
    proof {
        Param::lemma_rows_len(storage);
    }
    let first = Param::as_ref(storage, start + a);
    let second = Param::as_ref(storage, start + b);
    proof {
        Param::lemma_ref_of(first);
        Param::lemma_ref_of(second);
    }
    compare(first, second)
}

/// Asks `key` about the record at `a` of the window that starts at `start`.
pub fn key_at<Param: ParallelParam, K, F: Fn(Param::Ref<'_>) -> K>(
    storage: &Param::Storage,
    start: usize,
    key: &F,
    a: usize,
) -> (answer: K)
    requires
        Param::aligned(storage),
        start + a < Param::rows(storage).len(),
        call_requires(*key, (Param::ref_of(Param::rows(storage)[start + a]),)),
    ensures
        call_ensures(*key, (Param::ref_of(Param::rows(storage)[start + a]),), answer),
{
    proof {
        Param::lemma_rows_len(storage);
    }
    let record = Param::as_ref(storage, start + a);
    proof {
        Param::lemma_ref_of(record);
    }
    key(record)
}

/// The slice method `sort_by` of the standard library, on the positions of a
/// window, with a comparison that looks the records up. Where the comparison is
/// a total order, the method rearranges the positions so that no position stands
/// for a record which comes after that of a later position, and keeps the order
/// of positions whose records are equal under the comparison. (Where the
/// comparison is no total order the method may panic, which the precondition
/// rules out.)
#[verifier::external_body]
fn sort_order_by<Param: ParallelParam, F: Fn(Param::Ref<'_>, Param::Ref<'_>) -> Ordering>(
    order: &mut Vec<usize>,
    storage: &Param::Storage,
    start: usize,
    compare: &F,
)
    requires
        Param::aligned(storage),
        old(order)@ == ascending(old(order)@.len()),
        start + old(order)@.len() <= Param::rows(storage).len(),
        is_comparison_of(*compare, window_of(Param::rows(storage), start, old(order).len())),
    ensures
        final(order)@.to_multiset() == old(order)@.to_multiset(),
        sorts_stably(
            *compare,
            window_of(Param::rows(storage), start, old(order).len()),
            final(order)@,
        ),
{
    order.sort_by(|a, b| compare_at::<Param, F>(storage, start, compare, *a, *b))
}

/// The slice method `sort_unstable_by` of the standard library, on the positions
/// of a window, with a comparison that looks the records up. Where the
/// comparison is a total order, the method rearranges the positions so that no
/// position stands for a record which comes after that of a later position.
/// (Where the comparison is no total order the method may panic, which the
/// precondition rules out.)
#[verifier::external_body]
fn sort_order_unstable_by<Param: ParallelParam, F: Fn(Param::Ref<'_>, Param::Ref<'_>) -> Ordering>(
    order: &mut Vec<usize>,
    storage: &Param::Storage,
    start: usize,
    compare: &F,
)
    requires
        Param::aligned(storage),
        old(order)@ == ascending(old(order)@.len()),
        start + old(order)@.len() <= Param::rows(storage).len(),
        is_comparison_of(*compare, window_of(Param::rows(storage), start, old(order).len())),
    ensures
        final(order)@.to_multiset() == old(order)@.to_multiset(),
        sorts(*compare, window_of(Param::rows(storage), start, old(order).len()), final(order)@),
{
    order.sort_unstable_by(|a, b| compare_at::<Param, F>(storage, start, compare, *a, *b))
}

/// The slice method `sort_by_key` of the standard library, on the positions of a
/// window, with a key function that looks the records up. Where the order of
/// the keys is lawful, the method rearranges the positions so that no position
/// stands for a record whose key is greater than that of a later position, and
/// keeps the order of positions whose records have equal keys. (Where the order
/// of the keys is not total the method may panic, which the precondition rules
/// out.)
#[verifier::external_body]
fn sort_order_by_key<Param: ParallelParam, K: Ord, F: Fn(Param::Ref<'_>) -> K>(
    order: &mut Vec<usize>,
    storage: &Param::Storage,
    start: usize,
    key: &F,
)
    requires
        Param::aligned(storage),
        old(order)@ == ascending(old(order)@.len()),
        start + old(order)@.len() <= Param::rows(storage).len(),
        is_key_of(*key, window_of(Param::rows(storage), start, old(order).len())),
    ensures
        final(order)@.to_multiset() == old(order)@.to_multiset(),
        sorts_stably_by_key(
            *key,
            window_of(Param::rows(storage), start, old(order).len()),
            final(order)@,
        ),
{
    order.sort_by_key(|a| key_at::<Param, K, F>(storage, start, key, *a))
}

/// The slice method `sort_unstable_by_key` of the standard library, on the
/// positions of a window, with a key function that looks the records up. Where
/// the order of the keys is lawful, the method rearranges the positions so that
/// no position stands for a record whose key is greater than that of a later
/// position. (Where the order of the keys is not total the method may panic,
/// which the precondition rules out.)
#[verifier::external_body]
fn sort_order_unstable_by_key<Param: ParallelParam, K: Ord, F: Fn(Param::Ref<'_>) -> K>(
    order: &mut Vec<usize>,
    storage: &Param::Storage,
    start: usize,
    key: &F,
)
    requires
        Param::aligned(storage),
        old(order)@ == ascending(old(order)@.len()),
        start + old(order)@.len() <= Param::rows(storage).len(),
        is_key_of(*key, window_of(Param::rows(storage), start, old(order).len())),
    ensures
        final(order)@.to_multiset() == old(order)@.to_multiset(),
        sorts_by_key(
            *key,
            window_of(Param::rows(storage), start, old(order).len()),
            final(order)@,
        ),
{
    order.sort_unstable_by_key(|a| key_at::<Param, K, F>(storage, start, key, *a))
}

/// Fewer than two records are sorted as they lie.
proof fn lemma_short_is_sorted<Param>(relation: spec_fn(Param, Param) -> Ordering, rows: Seq<Param>)
    requires
        rows.len() < 2,
    ensures
        is_stable_sorted_order(relation, rows, ascending(rows.len())),
{
}

/// Fewer than two records are their own order.
proof fn lemma_short_order<Param>(rows: Seq<Param>)
    requires
        rows.len() < 2,
    ensures
        is_order_of(ascending(rows.len()), rows),
        selected(rows, ascending(rows.len())) == rows,
{
    assert(selected(rows, ascending(rows.len())) =~= rows);
}

/// Sorts the `len` records from `start` on with `compare`, keeping the order of
/// records that are equal under it.
pub fn sort_window_by<Param: ParallelParam, F: Fn(Param::Ref<'_>, Param::Ref<'_>) -> Ordering>(
    storage: &mut Param::Storage,
    start: usize,
    len: usize,
    compare: F,
)
    requires
        Param::aligned(old(storage)),
        start + len <= Param::rows(old(storage)).len(),
        is_comparison_of(compare, window_of(Param::rows(old(storage)), start, len)),
    ensures
        Param::aligned(final(storage)),
        exists|order: Seq<usize>|
            {
                &&& is_order_of(order, window_of(Param::rows(old(storage)), start, len))
                &&& #[trigger] sorts_stably(
                    compare,
                    window_of(Param::rows(old(storage)), start, len),
                    order,
                )
                &&& Param::rows(final(storage)) == with_window(
                    Param::rows(old(storage)),
                    start,
                    selected(window_of(Param::rows(old(storage)), start, len), order),
                )
            },
{
    let ghost window = window_of(Param::rows(storage), start, len);
    if len < 2 {
        proof {
            lemma_short_order(window);
            assert forall|relation: spec_fn(Param, Param) -> Ordering| #[trigger]
                answers_with(compare, window, relation) implies is_stable_sorted_order(
                relation,
                window,
                ascending(window.len()),
            ) by {
                lemma_short_is_sorted(relation, window);
            }
            assert(sorts_stably(compare, window, ascending(window.len())));
            assert(Param::rows(storage) =~= with_window(Param::rows(storage), start, window));
        }
        return ;
    }
    let mut order = ascending_order(len);
    sort_order_by::<Param, F>(&mut order, &*storage, start, &compare);
    proof {
        lemma_rearranged_is_order(order@, len);
    }
    apply_order::<Param>(storage, start, &order);
    assert(sorts_stably(compare, window, order@));
}

/// Sorts the `len` records from `start` on with `compare`; records that are
/// equal under it may change their order.
pub fn sort_window_unstable_by<
    Param: ParallelParam,
    F: Fn(Param::Ref<'_>, Param::Ref<'_>) -> Ordering,
>(storage: &mut Param::Storage, start: usize, len: usize, compare: F)
    requires
        Param::aligned(old(storage)),
        start + len <= Param::rows(old(storage)).len(),
        is_comparison_of(compare, window_of(Param::rows(old(storage)), start, len)),
    ensures
        Param::aligned(final(storage)),
        exists|order: Seq<usize>|
            {
                &&& is_order_of(order, window_of(Param::rows(old(storage)), start, len))
                &&& #[trigger] sorts(compare, window_of(Param::rows(old(storage)), start, len), order)
                &&& Param::rows(final(storage)) == with_window(
                    Param::rows(old(storage)),
                    start,
                    selected(window_of(Param::rows(old(storage)), start, len), order),
                )
            },
{
    let ghost window = window_of(Param::rows(storage), start, len);
    if len < 2 {
        proof {
            lemma_short_order(window);
            assert forall|relation: spec_fn(Param, Param) -> Ordering| #[trigger]
                answers_with(compare, window, relation) implies is_sorted_order(
                relation,
                window,
                ascending(window.len()),
            ) by {
                lemma_short_is_sorted(relation, window);
            }
            assert(sorts(compare, window, ascending(window.len())));
            assert(Param::rows(storage) =~= with_window(Param::rows(storage), start, window));
        }
        return ;
    }
    let mut order = ascending_order(len);
    sort_order_unstable_by::<Param, F>(&mut order, &*storage, start, &compare);
    proof {
        lemma_rearranged_is_order(order@, len);
    }
    apply_order::<Param>(storage, start, &order);
    assert(sorts(compare, window, order@));
}

/// Sorts the `len` records from `start` on by their keys, keeping the order of
/// records with equal keys.
pub fn sort_window_by_key<Param: ParallelParam, K: Ord, F: Fn(Param::Ref<'_>) -> K>(
    storage: &mut Param::Storage,
    start: usize,
    len: usize,
    key: F,
)
    requires
        Param::aligned(old(storage)),
        start + len <= Param::rows(old(storage)).len(),
        is_key_of(key, window_of(Param::rows(old(storage)), start, len)),
    ensures
        Param::aligned(final(storage)),
        exists|order: Seq<usize>|
            {
                &&& is_order_of(order, window_of(Param::rows(old(storage)), start, len))
                &&& #[trigger] sorts_stably_by_key(
                    key,
                    window_of(Param::rows(old(storage)), start, len),
                    order,
                )
                &&& Param::rows(final(storage)) == with_window(
                    Param::rows(old(storage)),
                    start,
                    selected(window_of(Param::rows(old(storage)), start, len), order),
                )
            },
{
    let ghost window = window_of(Param::rows(storage), start, len);
    if len < 2 {
        proof {
            lemma_short_order(window);
            assert forall|key_of: spec_fn(Param) -> K| #[trigger]
                keys_with(key, window, key_of) implies is_stable_sorted_order(
                by_key(key_of),
                window,
                ascending(window.len()),
            ) by {
                lemma_short_is_sorted(by_key(key_of), window);
            }
            assert(sorts_stably_by_key(key, window, ascending(window.len())));
            assert(Param::rows(storage) =~= with_window(Param::rows(storage), start, window));
        }
        return ;
    }
    let mut order = ascending_order(len);
    sort_order_by_key::<Param, K, F>(&mut order, &*storage, start, &key);
    proof {
        lemma_rearranged_is_order(order@, len);
    }
    apply_order::<Param>(storage, start, &order);
    assert(sorts_stably_by_key(key, window, order@));
}

/// Sorts the `len` records from `start` on by their keys; records with equal
/// keys may change their order.
pub fn sort_window_unstable_by_key<Param: ParallelParam, K: Ord, F: Fn(Param::Ref<'_>) -> K>(
    storage: &mut Param::Storage,
    start: usize,
    len: usize,
    key: F,
)
    requires
        Param::aligned(old(storage)),
        start + len <= Param::rows(old(storage)).len(),
        is_key_of(key, window_of(Param::rows(old(storage)), start, len)),
    ensures
        Param::aligned(final(storage)),
        exists|order: Seq<usize>|
            {
                &&& is_order_of(order, window_of(Param::rows(old(storage)), start, len))
                &&& #[trigger] sorts_by_key(
                    key,
                    window_of(Param::rows(old(storage)), start, len),
                    order,
                )
                &&& Param::rows(final(storage)) == with_window(
                    Param::rows(old(storage)),
                    start,
                    selected(window_of(Param::rows(old(storage)), start, len), order),
                )
            },
{
    let ghost window = window_of(Param::rows(storage), start, len);
    if len < 2 {
        proof {
            lemma_short_order(window);
            assert forall|key_of: spec_fn(Param) -> K| #[trigger]
                keys_with(key, window, key_of) implies is_sorted_order(
                by_key(key_of),
                window,
                ascending(window.len()),
            ) by {
                lemma_short_is_sorted(by_key(key_of), window);
            }
            assert(sorts_by_key(key, window, ascending(window.len())));
            assert(Param::rows(storage) =~= with_window(Param::rows(storage), start, window));
        }
        return ;
    }
    let mut order = ascending_order(len);
    sort_order_unstable_by_key::<Param, K, F>(&mut order, &*storage, start, &key);
    proof {
        lemma_rearranged_is_order(order@, len);
    }
    apply_order::<Param>(storage, start, &order);
    assert(sorts_by_key(key, window, order@));
}

/// Records that are sorted under a total order are their own stable sort.
pub proof fn lemma_sorted_stays<Param>(
    relation: spec_fn(Param, Param) -> Ordering,
    rows: Seq<Param>,
    order: Seq<usize>,
)
    requires
        is_total_order_on(relation, rows),
        is_sorted(relation, rows),
        is_order_of(order, rows),
        is_stable_sorted_order(relation, rows, order),
    ensures
        order == ascending(rows.len()),
        selected(rows, order) == rows,
{
    let sorted = selected(rows, order);
    assert forall|i: int, j: int| 0 <= i < j < order.len() implies order[i] < order[j] by {
        let first = place(order, i);
        let second = place(order, j);
        assert(order[i] < order.len() && order[j] < order.len());
        assert(rows[first] == sorted[i] && rows[second] == sorted[j]);
        assert(rows.contains(rows[first]) && rows.contains(rows[second]));
        if second < first {
            assert(!(relation(rows[second], rows[first]) is Greater));
            assert(!(relation(sorted[i], sorted[j]) is Greater));
            assert(relation(rows[first], rows[second]) is Equal);
            assert(relation(sorted[i], sorted[j]) is Equal);
        }
    }
    lemma_rising_order_is_ascending(order);
    assert forall|k: int| 0 <= k < rows.len() implies sorted[k] == rows[k] by {
        assert(place(order, k) == k);
    }
    assert(sorted =~= rows);
}

/// Sorting is idempotent: where the records are sorted under the total order
/// that `compare` answers with, the order in which `sort_by` puts them is the
/// order in which they lie, so that to sort them again changes nothing.
pub proof fn lemma_sort_by_is_idempotent<
    Param: ParallelParam,
    F: Fn(Param::Ref<'_>, Param::Ref<'_>) -> Ordering,
>(compare: F, relation: spec_fn(Param, Param) -> Ordering, rows: Seq<Param>, order: Seq<usize>)
    requires
        answers_with(compare, rows, relation),
        is_total_order_on(relation, rows),
        is_sorted(relation, rows),
        is_order_of(order, rows),
        sorts_stably(compare, rows, order),
    ensures
        selected(rows, order) == rows,
{
    lemma_sorted_stays(relation, rows, order);
}

/// What `sort_by` leaves is sorted: no record comes after a later one under the
/// relation that `compare` answers with, and so none comes after its neighbour.
pub proof fn lemma_sort_by_sorts<
    Param: ParallelParam,
    F: Fn(Param::Ref<'_>, Param::Ref<'_>) -> Ordering,
>(compare: F, relation: spec_fn(Param, Param) -> Ordering, rows: Seq<Param>, order: Seq<usize>)
    requires
        answers_with(compare, rows, relation),
        is_order_of(order, rows),
        sorts_stably(compare, rows, order),
    ensures
        selected(rows, order).len() == rows.len(),
        forall|i: int|
            0 <= i < rows.len() - 1 ==> !(#[trigger] relation(
                selected(rows, order)[i],
                selected(rows, order)[i + 1],
            ) is Greater),
{
}

} // verus!
