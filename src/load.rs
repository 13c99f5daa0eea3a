use vstd::prelude::*;
use vstd::arithmetic::div_mod::{lemma_div_is_ordered, lemma_div_is_ordered_by_denominator};

verus! {

pub const NANOS_PER_SEC: u64 = 1_000_000_000;

/// The inter-request delay of one worker, in nanoseconds: one second divided by
/// the worker's share `rps / concurrency` of the aggregate rate, at least one
/// nanosecond, and saturated when the rate is zero or the delay does not fit.
pub open spec fn worker_delay(rps: nat, concurrency: nat) -> nat {
    if rps == 0 {
        u64::MAX as nat
    } else {
        let d = (NANOS_PER_SEC as nat * concurrency) / rps;
        if d == 0 {
            1
        } else if d > u64::MAX as nat {
            u64::MAX as nat
        } else {
            d
        }
    }
}

/// Computes the fixed delay between two requests of one worker.
pub fn delay_per_worker_ns(rps: u64, concurrency: u64) -> (r: u64)
    ensures
        r as nat == worker_delay(rps as nat, concurrency as nat),
        rps == 0 ==> r == u64::MAX,
        rps > 0 ==> r >= 1,
{
    if rps == 0 {
        return u64::MAX;
    }
    assert(NANOS_PER_SEC as nat * concurrency as nat <= 1_000_000_000 * u64::MAX as nat) by (nonlinear_arith)
        requires concurrency <= u64::MAX;
    let total: u128 = NANOS_PER_SEC as u128 * concurrency as u128;
    let d: u128 = total / rps as u128;
    if d == 0 {
        1
    } else if d > u64::MAX as u128 {
        u64::MAX
    } else {
        d as u64
    }
}

/// Attempts per second in hundredths, rounded down.
pub open spec fn rate_centi(count: nat, elapsed_ns: nat) -> nat {
    (count * 100 * NANOS_PER_SEC as nat) / elapsed_ns
}

/// The reported rate never exceeds the rate of a larger count over a shorter
/// time: more attempts, or less time, never lower it.
pub proof fn lemma_rate_monotone(count: nat, bound: nat, elapsed_ns: nat, at_least_ns: nat)
    requires
        count <= bound,
        0 < at_least_ns <= elapsed_ns,
    ensures
        rate_centi(count, elapsed_ns) <= rate_centi(bound, at_least_ns),
{
    let k = 100 * NANOS_PER_SEC as nat;
    assert(count * k <= bound * k) by (nonlinear_arith)
        requires count <= bound;
    assert(count * 100 * NANOS_PER_SEC as nat == count * k) by (nonlinear_arith)
        requires k == 100 * NANOS_PER_SEC as nat;
    assert(bound * 100 * NANOS_PER_SEC as nat == bound * k) by (nonlinear_arith)
        requires k == 100 * NANOS_PER_SEC as nat;
    lemma_div_is_ordered((count * k) as int, (bound * k) as int, elapsed_ns as int);
    lemma_div_is_ordered_by_denominator((bound * k) as int, at_least_ns as int, elapsed_ns as int);
}

/// Measured attempts per second, in hundredths, over an elapsed time in
/// nanoseconds; `None` when no time has elapsed.
pub fn measured_rate_centi(count: u64, elapsed_ns: u64) -> (r: Option<u128>)
    ensures
        elapsed_ns == 0 <==> r is None,
        r matches Some(v) ==> v as nat == rate_centi(count as nat, elapsed_ns as nat),
{
    if elapsed_ns == 0 {
        return None;
    }
    assert(count as nat * 100 * NANOS_PER_SEC as nat <= u64::MAX as nat * 100_000_000_000) by (nonlinear_arith)
        requires count <= u64::MAX, NANOS_PER_SEC == 1_000_000_000u64;
    let scaled: u128 = count as u128 * 100 * NANOS_PER_SEC as u128;
    Some(scaled / elapsed_ns as u128)
}

} // verus!
