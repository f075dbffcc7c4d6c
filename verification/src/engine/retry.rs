//! Waiting between attempts at a token refresh.

use rand::RngExt as _;
use vstd::arithmetic::power2::{lemma2_to64, lemma_pow2_strictly_increases, lemma_pow2_unfold, pow2};
use vstd::prelude::*;

use crate::time::Duration;

verus! {

/// Maximum number of refresh attempts (initial + retries) before giving up.
pub const REFRESH_MAX_ATTEMPTS: u32 = 3;

/// Base delay for the first refresh retry, in milliseconds; doubled on each
/// subsequent attempt.
pub const REFRESH_RETRY_BASE_DELAY_MS: u64 = 100;

/// Bound of the random jitter added on top of the exponential base, in
/// milliseconds.
pub const REFRESH_RETRY_JITTER_MAX_MS: u64 = 50;

/// `random_range` of the thread's random number generator: some number below
/// `limit`. Which one is left to chance.
#[verifier::external_body]
pub(crate) fn random_below(limit: u64) -> (n: u64)
    requires
        limit > 0,
    ensures
        n < limit,
{
    rand::rng().random_range(0..limit)
}

/// The milliseconds to wait before retry `attempt` (counted from 1), without
/// jitter: the base delay, doubled with each attempt up to the seventeenth.
pub open spec fn base_delay_ms(attempt: u32) -> nat {
    REFRESH_RETRY_BASE_DELAY_MS as nat * pow2(
        (if attempt - 1 <= 16 {
            attempt - 1
        } else {
            16
        }) as nat,
    )
}

/// Wait before retry `attempt`, given the jitter in milliseconds.
pub fn retry_delay(attempt: u32, jitter_ms: u64) -> (d: Duration)
    requires
        attempt >= 1,
        jitter_ms < REFRESH_RETRY_JITTER_MAX_MS,
    ensures
        d.nanos == (base_delay_ms(attempt) + jitter_ms) * 1_000_000,
{
    let doublings: u32 = if attempt - 1 <= 16 {
        attempt - 1
    } else {
        16
    };
    let mut base: u64 = REFRESH_RETRY_BASE_DELAY_MS;
    let mut i: u32 = 0;
    proof {
        lemma2_to64();
        assert(REFRESH_RETRY_BASE_DELAY_MS as nat * pow2(0) == REFRESH_RETRY_BASE_DELAY_MS);
    }
    while i < doublings
        invariant
            i <= doublings <= 16,
            base == REFRESH_RETRY_BASE_DELAY_MS as nat * pow2(i as nat),
            base <= 100 * 65536,
        decreases doublings - i,
    {
        proof {
            lemma_pow2_unfold((i + 1) as nat);
            lemma2_to64();
            if i + 1 < 16 {
                lemma_pow2_strictly_increases((i + 1) as nat, 16);
            }
            let p = pow2(i as nat);
            assert(100 * (2 * p) == 2 * (100 * p)) by (nonlinear_arith);
        }
        base = base * 2;
        i = i + 1;
    }
    Duration::from_millis(base + jitter_ms)
}

/// Wait before retry `attempt` (counted from 1): `base * 2^(attempt-1)` plus a
/// jitter drawn from `[0, REFRESH_RETRY_JITTER_MAX)`.
pub fn refresh_retry_delay(attempt: u32) -> (d: Duration)
    requires
        attempt >= 1,
    ensures
        base_delay_ms(attempt) * 1_000_000 <= d.nanos,
        d.nanos < (base_delay_ms(attempt) + REFRESH_RETRY_JITTER_MAX_MS) * 1_000_000,
{
    retry_delay(attempt, random_below(REFRESH_RETRY_JITTER_MAX_MS))
}

/// A later attempt always waits longer than an earlier one, whatever the
/// jitter of either.
pub proof fn law_later_attempts_wait_longer(attempt: u32, jitter_ms: u64, next_jitter_ms: u64)
    requires
        1 <= attempt <= 16,
        jitter_ms < REFRESH_RETRY_JITTER_MAX_MS,
    ensures
        base_delay_ms(attempt) + jitter_ms < base_delay_ms((attempt + 1) as u32) + next_jitter_ms,
{
    let k = (attempt - 1) as nat;
    lemma_pow2_unfold(k + 1);
    lemma2_to64();
    if k > 0 {
        lemma_pow2_strictly_increases(0, k);
    }
    let p = pow2(k);
    assert(100 * (2 * p) == 2 * (100 * p)) by (nonlinear_arith);
}

/// The wait begins at a tenth of a second and doubles with each attempt up to
/// the seventeenth, after which it stays; the jitter comes on top, millisecond
/// by millisecond.
pub proof fn law_wait_doubles(
    attempt: u32,
    next: u32,
    jitter_ms: u64,
    first: Duration,
    wait: Duration,
    longer: Duration,
    jittered: Duration,
)
    requires
        attempt >= 1,
        next == attempt + 1,
        jitter_ms < 50,
        call_ensures(retry_delay, (1, 0), first),
        call_ensures(retry_delay, (attempt, 0), wait),
        call_ensures(retry_delay, (next, 0), longer),
        call_ensures(retry_delay, (attempt, jitter_ms), jittered),
    ensures
        first.nanos == 100_000_000,
        attempt <= 16 ==> longer.nanos == 2 * wait.nanos,
        attempt > 16 ==> longer.nanos == wait.nanos,
        jittered.nanos == wait.nanos + jitter_ms * 1_000_000,
{
    lemma2_to64();
    if attempt <= 16 {
        let k = (attempt - 1) as nat;
        lemma_pow2_unfold(k + 1);
        let p = pow2(k);
        assert(100 * (2 * p) == 2 * (100 * p)) by (nonlinear_arith);
        assert((100 * (2 * p)) * 1_000_000 == 2 * ((100 * p) * 1_000_000)) by (nonlinear_arith);
    }
}

/// The wait actually drawn is the wait without jitter, and less than a
/// twentieth of a second more.
pub proof fn law_drawn_wait_is_jittered(attempt: u32, wait: Duration, drawn: Duration)
    requires
        attempt >= 1,
        call_ensures(retry_delay, (attempt, 0), wait),
        call_ensures(refresh_retry_delay, (attempt,), drawn),
    ensures
        wait.nanos <= drawn.nanos,
        drawn.nanos - wait.nanos < 50_000_000,
{
}

} // verus!
