//! Phase decisions of the ADSR envelope generator.
//!
//! An envelope moves through attack, decay and sustain, and, once released,
//! through release to idle. The levels and timing of each phase are sample
//! arithmetic; this module holds the decisions between phases.

use vstd::prelude::*;

verus! {

/// Envelope generator state.
#[derive(Debug, Clone, Copy, PartialEq, Eq, Structural)]
pub enum EnvelopeState {
    /// Attack phase - amplitude rising from 0 to 1.
    Attack,
    /// Decay phase - amplitude falling from 1 to sustain level.
    Decay,
    /// Sustain phase - amplitude held at sustain level.
    Sustain,
    /// Release phase - amplitude falling from current level to 0.
    Release,
    /// Envelope completed - amplitude is 0.
    Idle,
}

/// Position of a state in the order the envelope passes through them.
pub open spec fn phase_rank(state: EnvelopeState) -> int {
    match state {
        EnvelopeState::Attack => 0,
        EnvelopeState::Decay => 1,
        EnvelopeState::Sustain => 2,
        EnvelopeState::Release => 3,
        EnvelopeState::Idle => 4,
    }
}

/// The state after one sample is generated in `state`; `phase_complete`
/// tells whether the current timed phase (attack, decay or release) has run
/// its course.
pub open spec fn step_state(state: EnvelopeState, phase_complete: bool) -> EnvelopeState {
    match state {
        EnvelopeState::Attack => if phase_complete {
            EnvelopeState::Decay
        } else {
            EnvelopeState::Attack
        },
        EnvelopeState::Decay => if phase_complete {
            EnvelopeState::Sustain
        } else {
            EnvelopeState::Decay
        },
        EnvelopeState::Sustain => EnvelopeState::Sustain,
        EnvelopeState::Release => if phase_complete {
            EnvelopeState::Idle
        } else {
            EnvelopeState::Release
        },
        EnvelopeState::Idle => EnvelopeState::Idle,
    }
}

/// The state after a note-off in `state`: attack, decay and sustain go to
/// release; release and idle stay as they are.
pub open spec fn release_state(state: EnvelopeState) -> EnvelopeState {
    match state {
        EnvelopeState::Release => EnvelopeState::Release,
        EnvelopeState::Idle => EnvelopeState::Idle,
        _ => EnvelopeState::Release,
    }
}

/// The state after one sample is generated; `phase_complete` tells whether
/// the current attack, decay or release phase has run its course (a phase of
/// zero length is complete at once). Sustain holds until the note is
/// released and idle is final.
pub fn next_state(state: EnvelopeState, phase_complete: bool) -> (next: EnvelopeState)
    ensures
        next == step_state(state, phase_complete),
{
    match state {
        EnvelopeState::Attack => if phase_complete {
            EnvelopeState::Decay
        } else {
            EnvelopeState::Attack
        },
        EnvelopeState::Decay => if phase_complete {
            EnvelopeState::Sustain
        } else {
            EnvelopeState::Decay
        },
        EnvelopeState::Sustain => EnvelopeState::Sustain,
        EnvelopeState::Release => if phase_complete {
            EnvelopeState::Idle
        } else {
            EnvelopeState::Release
        },
        EnvelopeState::Idle => EnvelopeState::Idle,
    }
}

/// The state after a note-off, and whether the release starts now (the
/// envelope then records its current level and restarts its phase timer).
pub fn released_state(state: EnvelopeState) -> (result: (EnvelopeState, bool))
    ensures
        result.0 == release_state(state),
        result.1 == (state != EnvelopeState::Idle && state != EnvelopeState::Release),
{
    match state {
        EnvelopeState::Release => (EnvelopeState::Release, false),
        EnvelopeState::Idle => (EnvelopeState::Idle, false),
        _ => (EnvelopeState::Release, true),
    }
}

/// Whether the envelope has completed.
pub fn is_idle(state: EnvelopeState) -> (idle: bool)
    ensures
        idle == (state == EnvelopeState::Idle),
{
    match state {
        EnvelopeState::Idle => true,
        _ => false,
    }
}

/// The envelope never goes back to an earlier phase: neither generating a
/// sample nor a note-off lowers the phase rank.
pub proof fn phases_only_advance(state: EnvelopeState, phase_complete: bool)
    ensures
        phase_rank(step_state(state, phase_complete)) >= phase_rank(state),
        phase_rank(release_state(state)) >= phase_rank(state),
{
}

/// Idle is final and sustain holds until a note-off: generating samples
/// changes neither.
pub proof fn idle_and_sustain_hold(phase_complete: bool)
    ensures
        step_state(EnvelopeState::Idle, phase_complete) == EnvelopeState::Idle,
        release_state(EnvelopeState::Idle) == EnvelopeState::Idle,
        step_state(EnvelopeState::Sustain, phase_complete) == EnvelopeState::Sustain,
{
}

/// Once released, an envelope stays in release or idle: a note-off leads
/// there, and neither further samples nor further note-offs leave it.
pub proof fn release_is_final(state: EnvelopeState, phase_complete: bool)
    ensures
        release_state(state) == EnvelopeState::Release || release_state(state)
            == EnvelopeState::Idle,
        (state == EnvelopeState::Release || state == EnvelopeState::Idle) ==> {
            &&& (step_state(state, phase_complete) == EnvelopeState::Release || step_state(
                state,
                phase_complete,
            ) == EnvelopeState::Idle)
            &&& release_state(state) == state
        },
{
}

/// A triggered envelope whose phases each complete reaches sustain after
/// two samples, and a released one reaches idle after one more.
pub proof fn completed_phases_reach_idle()
    ensures
        step_state(step_state(EnvelopeState::Attack, true), true) == EnvelopeState::Sustain,
        step_state(release_state(EnvelopeState::Sustain), true) == EnvelopeState::Idle,
{
}

/// A phase that has not run its course stays; a completed attack, decay or
/// release moves on to the very next phase; a note-off during attack, decay
/// or sustain starts the release.
pub proof fn phases_move_one_step(state: EnvelopeState)
    ensures
        step_state(state, false) == state,
        (state == EnvelopeState::Attack || state == EnvelopeState::Decay || state
            == EnvelopeState::Release) ==> phase_rank(step_state(state, true)) == phase_rank(state)
            + 1,
        (state == EnvelopeState::Attack || state == EnvelopeState::Decay || state
            == EnvelopeState::Sustain) ==> release_state(state) == EnvelopeState::Release,
{
}

} // verus!
