//! The exponential backoff schedule behind the readiness probe.
//!
//! The schedule itself is computed by the `exponential-backoff` crate. Its
//! waits grow multiplicatively (factor 2) from the configured floor, carry a
//! random jitter of at most 30% around each exponential value, and are
//! clamped into `[floor, ceiling]`; so beside the count and the per-entry
//! bounds, two facts hold of every random outcome: consecutive waits never
//! decrease (doubling outgrows the jitter band), and once the jittered
//! lower bound passes the ceiling the wait is exactly the ceiling. Nothing
//! more is stated of the individual values.
use vstd::prelude::*;

use crate::probe::lemma_sum_bounded;
use crate::probe::lemma_sum_tail_bounded;
use crate::probe::sum_ms;

verus! {

/// 2 to the power `k` (1 for non-positive `k`).
pub open spec fn pow2(k: int) -> int
    decreases k,
{
    if k <= 0 {
        1
    } else {
        2 * pow2(k - 1)
    }
}

/// Powers of two are positive.
proof fn lemma_pow2_pos(k: int)
    ensures
        pow2(k) >= 1,
    decreases k,
{
    if k > 0 {
        lemma_pow2_pos(k - 1);
    }
}

/// Powers of two are monotone.
proof fn lemma_pow2_mono(a: int, b: int)
    requires
        a <= b,
    ensures
        pow2(a) <= pow2(b),
    decreases b - a,
{
    if a < b {
        lemma_pow2_mono(a, b - 1);
        lemma_pow2_pos(b - 1);
    }
}

/// Relies on `exponential_backoff::Backoff::new` and its iterator: over
/// `attempts` attempts it yields `attempts - 1` sleep durations (the final
/// item marks the last attempt and carries no duration). The `i`th duration
/// is `min * 2^i`, jittered by a random factor within `[0.71, 1.295]`, then
/// clamped into `[min, max]`; hence each entry lies in `[min, max]`, the
/// entries never decrease (`0.71 * 2 > 1.295`), and an entry whose jittered
/// floor `0.71 * min * 2^i` already exceeds `max` is exactly `max`. The
/// bound on `attempts` keeps the iterator's `u32` exponent `2^i` exact.
#[verifier::external_body]
fn backoff_schedule_ms(attempts: u32, min_ms: u64, max_ms: u64) -> (r: Vec<u64>)
    requires
        1 <= attempts <= 32,
        min_ms <= max_ms,
    ensures
        r@.len() == attempts - 1,
        forall|i: int| 0 <= i < r@.len() ==> min_ms <= #[trigger] r@[i] <= max_ms,
        forall|i: int| 0 <= i < r@.len() - 1 ==> #[trigger] r@[i] <= r@[i + 1],
        forall|i: int|
            0 <= i < r@.len() && 71 * min_ms * pow2(i) > 100 * max_ms ==> #[trigger] r@[i]
                == max_ms,
{
    let backoff = exponential_backoff::Backoff::new(
        attempts,
        std::time::Duration::from_millis(min_ms),
        std::time::Duration::from_millis(max_ms),
    );
    let mut r = Vec::new();
    for item in &backoff {
        if let Some(duration) = item {
            r.push(duration.as_millis() as u64);
        }
    }
    r
}

/// The probe's schedule: 32 bounded attempts, waits growing from a 10 ms
/// floor to a 60 s ceiling. The waits never decrease, and from the 15th on
/// each one is the full 60 s ceiling, so the worst-case total wait is
/// bounded on both sides: between 17 and 31 minutes.
pub fn default_backoff_schedule() -> (r: Vec<u64>)
    ensures
        r@.len() == 31,
        forall|i: int| 0 <= i < r@.len() ==> 10 <= #[trigger] r@[i] <= 60000,
        forall|i: int| 0 <= i < r@.len() - 1 ==> #[trigger] r@[i] <= r@[i + 1],
        forall|i: int| 14 <= i < r@.len() ==> #[trigger] r@[i] == 60000,
        1020000 <= sum_ms(r@) <= 1860000,
{
    let r = backoff_schedule_ms(32, 10, 60000);
    proof {
        assert forall|i: int| 14 <= i < r@.len() implies #[trigger] r@[i] == 60000 by {
            lemma_pow2_mono(14, i);
            reveal_with_fuel(pow2, 16);
            assert(pow2(14) == 16384);
            let p = pow2(i);
            assert(71 * 10 * p > 100 * 60000) by (nonlinear_arith)
                requires
                    p >= 16384,
            ;
        }
        lemma_sum_bounded(r@, 60000);
        lemma_sum_tail_bounded(r@, 14, 60000);
    }
    r
}

} // verus!
