//! Exponential backoff with a cap: the delay schedule applied between
//! reconnect attempts after consecutive transport failures.
//!
//! The schedule is the recurrence `d(0) = min(base, cap)`,
//! `d(n + 1) = min(2 * d(n), cap)`: it doubles until it reaches the cap
//! and stays there.  It is non-decreasing and bounded by the cap; see
//! [`lemma_backoff_nondecreasing`].

use vstd::prelude::*;

verus! {

/// Bounds governing reconnect behaviour, chosen by session configuration.
#[derive(Clone, Copy, PartialEq, Eq, Structural, Debug)]
pub struct BackoffPolicy {
    /// Delay before the first reconnect attempt, in milliseconds.
    pub base_delay_ms: u64,
    /// Largest delay ever applied, in milliseconds.
    pub max_delay_ms: u64,
    /// Consecutive transport failures tolerated before the loop gives up
    /// fatally instead of retrying.
    pub max_failures: u32,
}

/// The delay applied after the failure of index `n` (the first failure of
/// a consecutive run has index zero).
pub open spec fn spec_delay(p: BackoffPolicy, n: nat) -> int
    decreases n,
{
    if n == 0 {
        vstd::math::min(p.base_delay_ms as int, p.max_delay_ms as int)
    } else {
        vstd::math::min(2 * spec_delay(p, (n - 1) as nat), p.max_delay_ms as int)
    }
}

/// Every delay of the schedule lies between zero and the cap.
pub proof fn lemma_delay_bounds(p: BackoffPolicy, n: nat)
    ensures
        0 <= spec_delay(p, n) <= p.max_delay_ms,
    decreases n,
{
    if n > 0 {
        lemma_delay_bounds(p, (n - 1) as nat);
    }
}

/// Backoff monotonicity: the delay schedule is non-decreasing, so
/// consecutive transport failures wait at least as long as the failure
/// before them, and never longer than the configured cap.
pub proof fn lemma_backoff_nondecreasing(p: BackoffPolicy, i: nat, j: nat)
    requires
        i <= j,
    ensures
        spec_delay(p, i) <= spec_delay(p, j),
        spec_delay(p, j) <= p.max_delay_ms,
    decreases j,
{
    lemma_delay_bounds(p, j);
    if i < j {
        lemma_backoff_nondecreasing(p, i, (j - 1) as nat);
        lemma_delay_bounds(p, (j - 1) as nat);
    }
}

/// Computes the delay for the failure of index `n`.
pub fn delay_for(p: &BackoffPolicy, n: u32) -> (d: u64)
    ensures
        d as int == spec_delay(*p, n as nat),
{
    let mut d: u64 = if p.base_delay_ms > p.max_delay_ms {
        p.max_delay_ms
    } else {
        p.base_delay_ms
    };
    let mut i: u32 = 0;
    while i < n
        invariant
            i <= n,
            d as int == spec_delay(*p, i as nat),
        decreases n - i,
    {
        proof {
            lemma_delay_bounds(*p, i as nat);
        }
        if d > p.max_delay_ms / 2 {
            d = p.max_delay_ms;
        } else {
            d = d * 2;
        }
        i = i + 1;
    }
    d
}

} // verus!
