use speccade_backend_audio::effects::dynamics::gate_hold;
use speccade_backend_audio::effects::granular_delay::schedule_grain;

#[test]
fn gate_opens_and_rearms_above_threshold() {
    assert_eq!(gate_hold(0, true, 5), (true, 5));
    assert_eq!(gate_hold(2, true, 5), (true, 5));
}

#[test]
fn gate_holds_then_closes_below_threshold() {
    let hold_samples = 3;
    let (open, mut counter) = gate_hold(0, true, hold_samples);
    assert!(open);
    let mut opens = Vec::new();
    for _ in 0..5 {
        let (open, next) = gate_hold(counter, false, hold_samples);
        opens.push(open);
        counter = next;
    }
    assert_eq!(opens, vec![true, true, true, false, false]);
    assert_eq!(counter, 0);
}

#[test]
fn gate_without_hold_closes_at_once() {
    let (_, counter) = gate_hold(0, true, 0);
    assert_eq!(gate_hold(counter, false, 0), (false, 0));
}

#[test]
fn grains_start_every_grain_interval() {
    let mut countdown = 0;
    let mut starts = Vec::new();
    for i in 0..10 {
        let (start, next) = schedule_grain(countdown, 3);
        if start {
            starts.push(i);
        }
        countdown = next;
    }
    assert_eq!(starts, vec![0, 3, 6, 9]);
    // A zero interval starts a grain on every sample.
    assert_eq!(schedule_grain(0, 0), (true, 0));
    assert_eq!(schedule_grain(2, 5), (false, 1));
}
