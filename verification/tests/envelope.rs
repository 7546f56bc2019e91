use speccade_backend_audio::envelope::{is_idle, next_state, released_state, EnvelopeState};

#[test]
fn envelope_phases_advance_when_complete() {
    assert_eq!(next_state(EnvelopeState::Attack, false), EnvelopeState::Attack);
    assert_eq!(next_state(EnvelopeState::Attack, true), EnvelopeState::Decay);
    assert_eq!(next_state(EnvelopeState::Decay, false), EnvelopeState::Decay);
    assert_eq!(next_state(EnvelopeState::Decay, true), EnvelopeState::Sustain);
    assert_eq!(next_state(EnvelopeState::Release, false), EnvelopeState::Release);
    assert_eq!(next_state(EnvelopeState::Release, true), EnvelopeState::Idle);
}

#[test]
fn envelope_sustain_and_idle_hold() {
    for complete in [false, true] {
        assert_eq!(next_state(EnvelopeState::Sustain, complete), EnvelopeState::Sustain);
        assert_eq!(next_state(EnvelopeState::Idle, complete), EnvelopeState::Idle);
    }
}

#[test]
fn envelope_release_starts_only_once() {
    assert_eq!(released_state(EnvelopeState::Attack), (EnvelopeState::Release, true));
    assert_eq!(released_state(EnvelopeState::Decay), (EnvelopeState::Release, true));
    assert_eq!(released_state(EnvelopeState::Sustain), (EnvelopeState::Release, true));
    assert_eq!(released_state(EnvelopeState::Release), (EnvelopeState::Release, false));
    assert_eq!(released_state(EnvelopeState::Idle), (EnvelopeState::Idle, false));
}

#[test]
fn envelope_idle_is_reported() {
    assert!(is_idle(EnvelopeState::Idle));
    assert!(!is_idle(EnvelopeState::Attack));
    assert!(!is_idle(EnvelopeState::Release));
}

#[test]
fn envelope_full_cycle_reaches_idle() {
    let mut state = EnvelopeState::Attack;
    state = next_state(state, true);
    state = next_state(state, true);
    assert_eq!(state, EnvelopeState::Sustain);
    let (released, started) = released_state(state);
    assert!(started);
    state = next_state(released, true);
    assert!(is_idle(state));
}
