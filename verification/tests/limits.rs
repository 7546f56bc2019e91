use speccade_backend_audio::generate::{
    check_layer_count, check_num_samples, check_sample_rate, LimitError, MAX_AUDIO_LAYERS,
    MAX_NUM_SAMPLES,
};
use speccade_backend_audio::instrument::{select_midi_note, DEFAULT_MIDI_NOTE};

#[test]
fn supported_sample_rates_are_accepted() {
    assert_eq!(check_sample_rate(22050), Ok(()));
    assert_eq!(check_sample_rate(44100), Ok(()));
    assert_eq!(check_sample_rate(48000), Ok(()));
    assert_eq!(check_sample_rate(96000), Err(LimitError::InvalidSampleRate { rate: 96000 }));
    assert_eq!(check_sample_rate(0), Err(LimitError::InvalidSampleRate { rate: 0 }));
}

#[test]
fn layer_count_is_bounded() {
    assert_eq!(MAX_AUDIO_LAYERS, 32);
    assert_eq!(check_layer_count(0), Ok(()));
    assert_eq!(check_layer_count(32), Ok(()));
    assert_eq!(check_layer_count(33), Err(LimitError::TooManyLayers { count: 33 }));
}

#[test]
fn sample_count_is_bounded() {
    assert_eq!(MAX_NUM_SAMPLES, 30 * 48_000);
    assert_eq!(check_num_samples(1), Ok(()));
    assert_eq!(check_num_samples(1_440_000), Ok(()));
    assert_eq!(
        check_num_samples(1_440_001),
        Err(LimitError::InvalidSampleCount { num_samples: 1_440_001 })
    );
    assert_eq!(check_num_samples(0), Err(LimitError::InvalidSampleCount { num_samples: 0 }));
}

#[test]
fn instrument_note_defaults_to_a4() {
    assert_eq!(DEFAULT_MIDI_NOTE, 69);
    assert_eq!(select_midi_note(&None), Some(69));
    assert_eq!(select_midi_note(&Some(vec![None, Some(60), Some(72)])), Some(60));
    assert_eq!(select_midi_note(&Some(vec![None, None])), None);
    assert_eq!(select_midi_note(&Some(vec![])), None);
}
