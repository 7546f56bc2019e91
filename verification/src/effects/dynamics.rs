//! Hold logic of gate/expander processing.
//!
//! While the detected level is at or above the threshold, gating is open
//! and the hold counter is re-armed; once the level falls below, gating
//! stays open for the hold time and then closes.

use vstd::prelude::*;

verus! {

/// The gating decision for one sample: whether it is open, and the hold
/// counter afterwards.
pub open spec fn gate_step(hold_counter: nat, above_threshold: bool, hold_samples: nat) -> (bool, nat) {
    if above_threshold {
        (true, hold_samples)
    } else if hold_counter > 0 {
        (true, (hold_counter - 1) as nat)
    } else {
        (false, 0)
    }
}

/// Decides for one sample whether gating is open: a level at or above the
/// threshold opens it and re-arms the hold counter with `hold_samples`; below
/// the threshold gating stays open while the counter runs down, one sample
/// at a time, and is closed once it has reached zero.
pub fn gate_hold(hold_counter: usize, above_threshold: bool, hold_samples: usize) -> (result: (
    bool,
    usize,
))
    ensures
        (result.0, result.1 as nat) == gate_step(
            hold_counter as nat,
            above_threshold,
            hold_samples as nat,
        ),
{
    if above_threshold {
        (true, hold_samples)
    } else if hold_counter > 0 {
        (true, hold_counter - 1)
    } else {
        (false, 0)
    }
}

/// The gating state after `k` samples below the threshold, starting from
/// hold counter `counter`: whether it is open on the last of them, and the
/// counter.
pub open spec fn gate_after_quiet(counter: nat, k: nat, hold_samples: nat) -> (bool, nat)
    decreases k,
{
    if k == 0 {
        (counter > 0, counter)
    } else if k == 1 {
        gate_step(counter, false, hold_samples)
    } else {
        gate_step(gate_after_quiet(counter, (k - 1) as nat, hold_samples).1, false, hold_samples)
    }
}

/// The hold time: after a sample at or above the threshold, gating stays
/// open for exactly `hold_samples` samples below the threshold and is closed
/// on the next one.
pub proof fn gate_holds_for_hold_samples(hold_samples: nat, k: nat)
    requires
        k >= 1,
    ensures
        gate_after_quiet(gate_step(0, true, hold_samples).1, k, hold_samples).0 == (k
            <= hold_samples),
        k <= hold_samples ==> gate_after_quiet(gate_step(0, true, hold_samples).1, k, hold_samples).1
            == hold_samples - k,
        k > hold_samples ==> gate_after_quiet(gate_step(0, true, hold_samples).1, k, hold_samples).1
            == 0,
    decreases k,
{
    if k > 1 {
        gate_holds_for_hold_samples(hold_samples, (k - 1) as nat);
    }
}

/// A level at or above the threshold always opens gating and re-arms the
/// hold counter with the hold length, whatever the counter was; below the
/// threshold gating is open exactly while the counter is positive, and the
/// counter then runs down by one.
pub proof fn level_above_threshold_opens(hold_counter: nat, hold_samples: nat)
    ensures
        gate_step(hold_counter, true, hold_samples) == (true, hold_samples),
        gate_step(hold_counter, false, hold_samples).0 == (hold_counter > 0),
        hold_counter > 0 ==> gate_step(hold_counter, false, hold_samples).1 == hold_counter - 1,
        hold_counter == 0 ==> gate_step(hold_counter, false, hold_samples).1 == 0,
{
}

} // verus!
