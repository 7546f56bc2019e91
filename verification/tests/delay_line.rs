use speccade_backend_audio::effects::delay_line::DelayLine;

#[test]
fn test_delay_line_basic() {
    let mut dl = DelayLine::new(10, 0.0);

    // Write some samples
    for i in 0..5 {
        dl.write(i as f64);
    }

    // Read with 1 sample delay - should get the second-to-last written sample
    assert!((dl.read(1) - 4.0).abs() < 1e-10);

    // Read with 5 sample delay - should get the first written sample
    assert!((dl.read(5) - 0.0).abs() < 1e-10);
}

#[test]
fn test_delay_line_wrap_around() {
    let mut dl = DelayLine::new(4, 0.0);

    // Write more samples than buffer size to test wrap
    for i in 0..10 {
        dl.write(i as f64);
    }

    // The last 4 samples written are 6, 7, 8, 9
    // Delay of 1 should give 9
    assert!((dl.read(1) - 9.0).abs() < 1e-10);

    // Delay of 4 should give 6
    assert!((dl.read(4) - 6.0).abs() < 1e-10);
}

#[test]
fn delay_line_has_at_least_four_slots() {
    let dl = DelayLine::new(1, 0u8);
    assert_eq!(dl.capacity(), 4);
    assert_eq!(dl.write_position(), 0);
    let dl = DelayLine::new(7, 0u8);
    assert_eq!(dl.capacity(), 7);
}

#[test]
fn delay_line_reads_fill_before_writes() {
    let dl = DelayLine::new(5, -1i32);
    for d in 0..=5 {
        assert_eq!(dl.read(d), -1);
    }
}

#[test]
fn delay_line_reads_each_earlier_write() {
    let mut dl = DelayLine::new(6, 0i32);
    for x in 1..=4 {
        dl.write(x * 10);
    }
    assert_eq!(dl.read(1), 40);
    assert_eq!(dl.read(2), 30);
    assert_eq!(dl.read(3), 20);
    assert_eq!(dl.read(4), 10);
    // Slots never written still hold the fill value.
    assert_eq!(dl.read(5), 0);
    assert_eq!(dl.read(6), 0);
    assert_eq!(dl.write_position(), 4);
}

#[test]
fn delay_line_zero_delay_reads_oldest_slot() {
    let mut dl = DelayLine::new(4, 0i32);
    for x in 1..=6 {
        dl.write(x);
    }
    // Oldest kept sample is 3; the next write replaces it.
    assert_eq!(dl.read(0), 3);
    assert_eq!(dl.read(4), 3);
    // Delays past the capacity wrap around.
    assert_eq!(dl.read(5), 6);
}
