//! Grain scheduling of the granular delay.
//!
//! A new grain starts whenever the countdown to the next grain is zero; the
//! countdown is then re-armed with the grain interval (half a grain, for 50%
//! overlap) and runs down by one each sample.

use vstd::prelude::*;

verus! {

/// The scheduling decision for one sample: whether a grain starts, and the
/// countdown afterwards.
pub open spec fn grain_step(samples_until_grain: nat, grain_interval: nat) -> (bool, nat) {
    if samples_until_grain == 0 {
        (true, if grain_interval > 0 { (grain_interval - 1) as nat } else { 0 })
    } else {
        (false, (samples_until_grain - 1) as nat)
    }
}

/// Decides for one sample whether a new grain starts, and returns the
/// countdown to the next grain (never below zero).
pub fn schedule_grain(samples_until_grain: usize, grain_interval: usize) -> (result: (bool, usize))
    ensures
        (result.0, result.1 as nat) == grain_step(samples_until_grain as nat, grain_interval as nat),
{
    if samples_until_grain == 0 {
        (true, grain_interval.saturating_sub(1))
    } else {
        (false, samples_until_grain - 1)
    }
}

/// The countdown before sample `i`, starting from zero at sample 0.
pub open spec fn countdown_before(i: nat, grain_interval: nat) -> nat
    decreases i,
{
    if i == 0 {
        0
    } else {
        grain_step(countdown_before((i - 1) as nat, grain_interval), grain_interval).1
    }
}

/// Grains start at regular intervals: with the countdown starting at zero, a
/// grain starts at sample `i` exactly when `i` is a multiple of the grain
/// interval (of one, when the interval is zero).
pub proof fn grains_start_every_interval(i: nat, grain_interval: nat)
    ensures
        grain_step(countdown_before(i, grain_interval), grain_interval).0 == (i % (if grain_interval
            > 0 {
            grain_interval
        } else {
            1
        }) == 0),
        countdown_before(i, grain_interval) == if grain_interval > 0 {
            if i % grain_interval == 0 {
                0
            } else {
                (grain_interval - i % grain_interval) as nat
            }
        } else {
            0
        },
    decreases i,
{
    if i > 0 {
        grains_start_every_interval((i - 1) as nat, grain_interval);
        if grain_interval > 0 {
            let g = grain_interval as int;
            let p = (i - 1) as int;
            let r = p % g;
            assert(0 <= r < g && p == (p / g) * g + r) by (nonlinear_arith)
                requires
                    g > 0,
                    r == p % g,
                    p >= 0,
            ;
            let q = p / g;
            if r + 1 < g {
                assert((p + 1) % g == r + 1) by (nonlinear_arith)
                    requires
                        g > 0,
                        p + 1 == q * g + (r + 1),
                        0 <= r + 1 < g,
                ;
            } else {
                assert(p + 1 == (q + 1) * g) by (nonlinear_arith)
                    requires
                        p == q * g + r,
                        r + 1 == g,
                ;
                assert((p + 1) % g == 0) by (nonlinear_arith)
                    requires
                        g > 0,
                        p + 1 == (q + 1) * g,
                ;
            }
        }
    }
}

} // verus!
