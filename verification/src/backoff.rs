//! Retry backoff policy for the catalog fetch: the first wait is 5 seconds,
//! each further failure doubles the wait, capped at 60 seconds, with no
//! retry limit.

use vstd::prelude::*;

verus! {

/// Seconds to wait before the first retry of a failed catalog fetch.
pub const INITIAL_RETRY_SECS: u64 = 5;

/// Upper bound, in seconds, on the wait between catalog fetch retries.
pub const MAX_RETRY_SECS: u64 = 60;

/// The wait that follows a wait of `d` seconds: doubled, capped at the maximum.
pub open spec fn next_backoff_spec(d: nat) -> nat {
    if 2 * d <= MAX_RETRY_SECS { 2 * d } else { MAX_RETRY_SECS as nat }
}

/// The wait, in seconds, before retry number `n` (counting from 0) when every
/// fetch so far has failed.
pub open spec fn backoff_at(n: nat) -> nat
    decreases n,
{
    if n == 0 {
        INITIAL_RETRY_SECS as nat
    } else {
        next_backoff_spec(backoff_at((n - 1) as nat))
    }
}

/// Computes the wait that follows a failed fetch attempt whose wait was `d`
/// seconds.
pub fn next_backoff(d: u64) -> (r: u64)
    requires
        d <= MAX_RETRY_SECS,
    ensures
        r == next_backoff_spec(d as nat),
        r <= MAX_RETRY_SECS,
{
    if d <= MAX_RETRY_SECS / 2 {
        2 * d
    } else {
        MAX_RETRY_SECS
    }
}

/// The backoff sequence is exactly `5, 10, 20, 40, 60, 60, ...`: the wait
/// doubles on each failure until it reaches the 60-second cap, and stays
/// there for every later failure; it is always positive, so retrying never
/// stops.
pub proof fn lemma_backoff_sequence(n: nat)
    ensures
        n == 0 ==> backoff_at(n) == 5,
        n == 1 ==> backoff_at(n) == 10,
        n == 2 ==> backoff_at(n) == 20,
        n == 3 ==> backoff_at(n) == 40,
        n >= 4 ==> backoff_at(n) == 60,
        0 < backoff_at(n) <= 60,
    decreases n,
{
    if n >= 1 {
        lemma_backoff_sequence((n - 1) as nat);
    }
}

} // verus!
