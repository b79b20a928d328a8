//! Poll scheduling: the jittered backoff interval. Right after a
//! reconfiguration the daemon polls near the lower bound; once the ramp
//! window has passed without one, near the upper bound. The final
//! duration is jittered uniformly within half and one-and-a-half of the
//! ramped base so that a fleet of machines does not synchronize.
use vstd::prelude::*;

use vstd::arithmetic::div_mod::{lemma_div_is_ordered, lemma_div_multiples_vanish};

verus! {

/// Saturating product of `a` and `b`.
pub open spec fn spec_sat_mul(a: u64, b: u64) -> u64 {
    if a * b > u64::MAX {
        u64::MAX
    } else {
        (a * b) as u64
    }
}

/// The ramped base interval, in seconds: the lower bound plus the span
/// scaled by how much of the ramp window has elapsed, capped at one hour.
pub open spec fn spec_base_sleep_secs(min_s: u64, max_s: u64, after_h: u64, elapsed_s: u64) -> int {
    let denom = spec_sat_mul(after_h, 3600);
    let span = if max_s > min_s {
        (max_s - min_s) as int
    } else {
        0
    };
    let num = if elapsed_s > denom {
        denom as int
    } else {
        elapsed_s as int
    };
    let ramp = if denom == 0 {
        span
    } else {
        (num * span) / (denom as int)
    };
    let avg = min_s + ramp;
    if avg > 3600 {
        3600
    } else {
        avg
    }
}

/// The jittered interval, in seconds: between half and one-and-a-half of
/// the base (`jitter` ranges over 0..=1000), floored at the lower bound.
pub open spec fn spec_jittered_sleep_secs(
    min_s: u64,
    max_s: u64,
    after_h: u64,
    elapsed_s: u64,
    jitter: u64,
) -> int {
    let avg = spec_base_sleep_secs(min_s, max_s, after_h, elapsed_s);
    let j = avg / 2 + (avg * jitter) / 1000;
    if j >= min_s {
        j
    } else {
        min_s as int
    }
}

/// Seconds elapsed between the last reconfiguration and `now`, at least
/// one.
pub open spec fn spec_elapsed_secs(now: i64, last: i64) -> u64 {
    if now - last < 1000 {
        1
    } else {
        ((now - last) / 1000) as u64
    }
}

/// Computes [`spec_base_sleep_secs`].
pub fn base_sleep_secs(min_s: u64, max_s: u64, after_h: u64, elapsed_s: u64) -> (r: u64)
    ensures
        r == spec_base_sleep_secs(min_s, max_s, after_h, elapsed_s),
        r <= 3600,
{
    let d_wide: u128 = after_h as u128 * 3600;
    let denom: u64 = if d_wide > u64::MAX as u128 {
        u64::MAX
    } else {
        d_wide as u64
    };
    let span: u64 = if max_s > min_s {
        max_s - min_s
    } else {
        0
    };
    let num: u64 = if elapsed_s > denom {
        denom
    } else {
        elapsed_s
    };
    let ramp: u64 = if denom == 0 {
        span
    } else {
        proof {
            assert(num as int * span as int <= u64::MAX as int * u64::MAX as int)
                by (nonlinear_arith)
                requires
                    0 <= num <= u64::MAX,
                    0 <= span <= u64::MAX,
            ;
        }
        let q: u128 = (num as u128 * span as u128) / (denom as u128);
        proof {
            assert(num as int * span as int <= denom as int * span as int) by (nonlinear_arith)
                requires
                    num <= denom,
                    span >= 0,
            ;
            lemma_div_is_ordered(
                num as int * span as int,
                denom as int * span as int,
                denom as int,
            );
            assert((denom as int * span as int) / (denom as int) == span as int) by {
                lemma_div_multiples_vanish(span as int, denom as int);
            }
        }
        q as u64
    };
    let avg_wide: u128 = min_s as u128 + ramp as u128;
    if avg_wide > 3600 {
        3600
    } else {
        avg_wide as u64
    }
}

/// Computes [`spec_jittered_sleep_secs`].
pub fn jittered_sleep_secs(min_s: u64, max_s: u64, after_h: u64, elapsed_s: u64, jitter: u64) -> (r:
    u64)
    requires
        jitter <= 1000,
    ensures
        r == spec_jittered_sleep_secs(min_s, max_s, after_h, elapsed_s, jitter),
{
    let avg = base_sleep_secs(min_s, max_s, after_h, elapsed_s);
    proof {
        assert(avg as int * jitter as int <= 3600 * 1000) by (nonlinear_arith)
            requires
                0 <= avg <= 3600,
                0 <= jitter <= 1000,
        ;
    }
    let j = avg / 2 + avg * jitter / 1000;
    if j >= min_s {
        j
    } else {
        min_s
    }
}

/// Relies on `rand::thread_rng` and `Rng::gen_range` on an inclusive
/// range: the result is uniform within the bounds, and the call panics
/// only on an empty range, which the precondition rules out. Nothing
/// more is assumed of a random value.
#[verifier::external_body]
pub(crate) fn rng_jitter(lo: u64, hi: u64) -> (r: u64)
    requires
        lo <= hi,
    ensures
        lo <= r <= hi,
{
    rand::Rng::gen_range(&mut rand::thread_rng(), lo..=hi)
}

/// Law: backoff monotonicity. For a fixed jitter draw, the poll interval
/// never shrinks as more time passes since the last reconfiguration.
pub proof fn lemma_sleep_monotone(
    min_s: u64,
    max_s: u64,
    after_h: u64,
    e1: u64,
    e2: u64,
    jitter: u64,
)
    requires
        e1 <= e2,
        jitter <= 1000,
    ensures
        spec_jittered_sleep_secs(min_s, max_s, after_h, e1, jitter) <= spec_jittered_sleep_secs(
            min_s,
            max_s,
            after_h,
            e2,
            jitter,
        ),
{
    let denom = spec_sat_mul(after_h, 3600);
    let span = if max_s > min_s {
        (max_s - min_s) as int
    } else {
        0
    };
    let num1 = if e1 > denom {
        denom as int
    } else {
        e1 as int
    };
    let num2 = if e2 > denom {
        denom as int
    } else {
        e2 as int
    };
    assert(num1 <= num2);
    if denom != 0 {
        assert(num1 * span <= num2 * span) by (nonlinear_arith)
            requires
                num1 <= num2,
                span >= 0,
        ;
        lemma_div_is_ordered(num1 * span, num2 * span, denom as int);
    }
    let avg1 = spec_base_sleep_secs(min_s, max_s, after_h, e1);
    let avg2 = spec_base_sleep_secs(min_s, max_s, after_h, e2);
    assert(avg1 <= avg2);
    assert(avg1 >= 0) by {
        if denom != 0 {
            lemma_div_is_ordered(0, num1 * span, denom as int);
            assert(num1 * span >= 0) by (nonlinear_arith)
                requires
                    num1 >= 0,
                    span >= 0,
            ;
        }
    }
    lemma_div_is_ordered(avg1, avg2, 2);
    assert(avg1 * jitter <= avg2 * jitter) by (nonlinear_arith)
        requires
            avg1 <= avg2,
            jitter >= 0,
    ;
    assert(avg1 * jitter >= 0) by (nonlinear_arith)
        requires
            avg1 >= 0,
            jitter >= 0,
    ;
    lemma_div_is_ordered(avg1 * jitter, avg2 * jitter, 1000);
}

} // verus!
