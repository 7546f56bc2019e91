use speccade_backend_audio::effects::to_stereo;
use speccade_backend_audio::mixer::{MixerOutput, StereoOutput};

#[test]
fn test_stereo_output_new() {
    let stereo = StereoOutput::new(100, 0.0);
    assert_eq!(stereo.left.len(), 100);
    assert_eq!(stereo.right.len(), 100);
    assert!(stereo.left.iter().all(|&s| s == 0.0));
    assert!(stereo.right.iter().all(|&s| s == 0.0));
}

#[test]
fn test_stereo_from_mono() {
    let mono = vec![1.0, 0.5, 0.0, -0.5, -1.0];
    let stereo = StereoOutput::from_mono(mono.clone());
    assert_eq!(stereo.left, mono);
    assert_eq!(stereo.right, mono);
    assert_eq!(stereo.left, stereo.right);
}

#[test]
fn test_stereo_from_mono_empty() {
    let mono: Vec<f64> = vec![];
    let stereo = StereoOutput::from_mono(mono);
    assert!(stereo.left.is_empty());
    assert!(stereo.right.is_empty());
}

#[test]
fn test_stereo_interleave() {
    let stereo = StereoOutput {
        left: vec![1.0, 2.0, 3.0],
        right: vec![4.0, 5.0, 6.0],
    };

    let interleaved = stereo.interleave();
    assert_eq!(interleaved, vec![1.0, 4.0, 2.0, 5.0, 3.0, 6.0]);
}

#[test]
fn test_stereo_interleave_empty() {
    let stereo = StereoOutput::new(0, 0.0);
    let interleaved = stereo.interleave();
    assert!(interleaved.is_empty());
}

#[test]
fn test_stereo_interleave_single_sample() {
    let stereo = StereoOutput {
        left: vec![0.5],
        right: vec![-0.5],
    };
    let interleaved = stereo.interleave();
    assert_eq!(interleaved, vec![0.5, -0.5]);
}

#[test]
fn test_stereo_len() {
    let stereo = StereoOutput::new(50, 0.0);
    assert_eq!(stereo.len(), 50);
}

#[test]
fn test_stereo_is_empty() {
    let empty = StereoOutput::new(0, 0.0);
    assert!(empty.is_empty());

    let non_empty = StereoOutput::new(1, 0.0);
    assert!(!non_empty.is_empty());
}

#[test]
fn test_stereo_interleave_original() {
    let stereo = StereoOutput {
        left: vec![1.0, 2.0, 3.0],
        right: vec![4.0, 5.0, 6.0],
    };

    let interleaved = stereo.interleave();
    assert_eq!(interleaved, vec![1.0, 4.0, 2.0, 5.0, 3.0, 6.0]);
}

#[test]
fn interleave_stops_at_the_shorter_channel() {
    let stereo = StereoOutput {
        left: vec![1, 2, 3],
        right: vec![7],
    };
    assert_eq!(stereo.interleave(), vec![1, 7]);
}

#[test]
fn mixer_output_layout() {
    let mono = MixerOutput::Mono(vec![1, 2, 3]);
    assert!(!mono.is_stereo());
    assert_eq!(mono.len(), 3);
    assert!(!mono.is_empty());
    let stereo = mono.to_stereo();
    assert_eq!(stereo.left, vec![1, 2, 3]);
    assert_eq!(stereo.right, vec![1, 2, 3]);

    let out = MixerOutput::Stereo(StereoOutput { left: vec![1, 2], right: vec![3, 4] });
    assert!(out.is_stereo());
    assert_eq!(out.len(), 2);
    let stereo = out.to_stereo();
    assert_eq!(stereo.left, vec![1, 2]);
    assert_eq!(stereo.right, vec![3, 4]);

    let empty: MixerOutput<i32> = MixerOutput::Mono(vec![]);
    assert!(empty.is_empty());
}

#[test]
fn effect_chain_input_is_stereo() {
    let stereo = to_stereo(MixerOutput::Mono(vec![0.25, -0.25]));
    assert_eq!(stereo.left, vec![0.25, -0.25]);
    assert_eq!(stereo.right, vec![0.25, -0.25]);
    let stereo = to_stereo(MixerOutput::Stereo(StereoOutput { left: vec![1.0], right: vec![2.0] }));
    assert_eq!(stereo.left, vec![1.0]);
    assert_eq!(stereo.right, vec![2.0]);
}
