//! How the capacity of a container grows.
//!
//! Growth is fixed and exact: a container that has to grow takes the smallest
//! power of two that holds what is asked for, and never less than four records.
use vstd::arithmetic::power2::{lemma_pow2_strictly_increases, lemma_pow2_unfold, pow2};
use vstd::prelude::*;

verus! {

/// The smallest capacity that a container grows to.
pub const MIN_GROWN_CAPACITY: usize = 4;

/// The smallest power of two that is at least `n`, computed by halving: for
/// `n > 1` it is twice the smallest power of two that is at least half of `n`,
/// rounded up. [`lemma_power_of_two_at_least`] and
/// [`lemma_power_of_two_at_least_is_smallest`] show that it is that number.
pub open spec fn power_of_two_at_least(n: nat) -> nat
    decreases n,
{
    if n <= 1 {
        1
    } else {
        2 * power_of_two_at_least((n + 1) / 2)
    }
}

/// The capacity of a container that has grown to hold `required` records.
pub open spec fn grown_capacity(required: nat) -> nat {
    if power_of_two_at_least(required) < MIN_GROWN_CAPACITY {
        MIN_GROWN_CAPACITY as nat
    } else {
        power_of_two_at_least(required)
    }
}

/// `power_of_two_at_least(n)` is a power of two, it is at least `n`, and from
/// `n == 2` on half of it is less than `n`.
pub proof fn lemma_power_of_two_at_least(n: nat)
    ensures
        exists|e: nat| power_of_two_at_least(n) == #[trigger] pow2(e),
        n <= power_of_two_at_least(n),
        n >= 2 ==> power_of_two_at_least(n) <= 2 * n - 2,
    decreases n,
{
    if n <= 1 {
        assert(pow2(0) == 1) by {
            reveal(pow2);
            vstd::arithmetic::power::lemma_pow0(2);
        }
    } else {
        let half = (n + 1) / 2;
        lemma_power_of_two_at_least(half as nat);
        let e = choose|e: nat| power_of_two_at_least(half as nat) == #[trigger] pow2(e);
        lemma_pow2_unfold(e + 1);
        assert(power_of_two_at_least(n) == pow2(e + 1));
    }
}

/// No power of two that is at least `n` is smaller than `power_of_two_at_least(n)`.
pub proof fn lemma_power_of_two_at_least_is_smallest(n: nat, e: nat)
    requires
        n <= pow2(e),
    ensures
        power_of_two_at_least(n) <= pow2(e),
{
    lemma_power_of_two_at_least(n);
    let own = choose|own: nat| power_of_two_at_least(n) == #[trigger] pow2(own);
    if e < own {
        lemma_pow2_unfold(own);
        if e < own - 1 {
            lemma_pow2_strictly_increases(e, (own - 1) as nat);
        }
        assert(pow2(e) <= pow2((own - 1) as nat));
        assert(n >= 2) by {
            if n <= 1 {
                assert(power_of_two_at_least(n) == 1);
                vstd::arithmetic::power2::lemma_pow2_pos((own - 1) as nat);
            }
        }
        assert(false);
    } else if own < e {
        lemma_pow2_strictly_increases(own, e);
    }
}

/// A container that holds no more than half of what `usize` can count can
/// always grow.
pub proof fn lemma_grown_capacity_fits(required: nat)
    requires
        required <= usize::MAX / 2,
    ensures
        required <= grown_capacity(required) <= usize::MAX,
{
    lemma_power_of_two_at_least(required);
}

/// `usize::next_power_of_two` of the standard library: the smallest power of two
/// that is at least `n`. Where that number does not fit in a `usize` the outcome
/// depends on how the program was built, so the precondition rules it out.
pub assume_specification[ usize::next_power_of_two ](n: usize) -> (p: usize)
    requires
        power_of_two_at_least(n as nat) <= usize::MAX,
    ensures
        p == power_of_two_at_least(n as nat),
;

/// The capacity to grow to for `required` records.
pub fn grow_to(required: usize) -> (capacity: usize)
    requires
        power_of_two_at_least(required as nat) <= usize::MAX,
    ensures
        capacity == grown_capacity(required as nat),
{
    let power = required.next_power_of_two();
    if power < MIN_GROWN_CAPACITY {
        MIN_GROWN_CAPACITY
    } else {
        power
    }
}

} // verus!
