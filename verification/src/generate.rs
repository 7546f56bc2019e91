//! Limits that a generation request must respect.
//!
//! Sample rates are restricted to the rates the output formats use, and the
//! number of layers and of output samples are bounded, so that a spec can
//! never request unbounded work.

use vstd::prelude::*;

verus! {

/// Most layers a spec may hold.
pub const MAX_AUDIO_LAYERS: usize = 32;

/// Longest output, in seconds.
pub const MAX_AUDIO_DURATION_SECONDS: usize = 30;

/// Most output samples: the longest output at the highest sample rate.
pub const MAX_NUM_SAMPLES: usize = 1_440_000;

/// Result of audio generation; `W` is the encoded WAV output.
#[derive(Debug)]
pub struct GenerateResult<W> {
    /// WAV file data.
    pub wav: W,
    /// Number of layers processed.
    pub num_layers: usize,
    /// Base note (MIDI note number) if this is an instrument sample.
    pub base_note: Option<u8>,
    /// Loop point in samples (if generated).
    pub loop_point: Option<usize>,
}

/// A generation request outside the limits.
#[derive(Debug, Clone, PartialEq, Eq, Structural)]
pub enum LimitError {
    /// The sample rate is not one of 22050, 44100 and 48000 Hz.
    InvalidSampleRate {
        /// The rejected rate.
        rate: u32,
    },
    /// More layers than `MAX_AUDIO_LAYERS`.
    TooManyLayers {
        /// The number of layers requested.
        count: usize,
    },
    /// No output sample, or more than `MAX_NUM_SAMPLES`.
    InvalidSampleCount {
        /// The number of samples the duration produces.
        num_samples: usize,
    },
}

/// The sample rates generation supports.
pub open spec fn is_supported_sample_rate(rate: u32) -> bool {
    rate == 22050 || rate == 44100 || rate == 48000
}

/// Accepts the supported sample rates (22050, 44100 and 48000 Hz).
pub fn check_sample_rate(rate: u32) -> (r: Result<(), LimitError>)
    ensures
        r is Ok <==> is_supported_sample_rate(rate),
        r is Err ==> r == Err::<(), LimitError>(LimitError::InvalidSampleRate { rate }),
{
    match rate {
        22050 | 44100 | 48000 => Ok(()),
        other => Err(LimitError::InvalidSampleRate { rate: other }),
    }
}

/// Accepts at most `MAX_AUDIO_LAYERS` layers.
pub fn check_layer_count(count: usize) -> (r: Result<(), LimitError>)
    ensures
        r is Ok <==> count <= MAX_AUDIO_LAYERS,
        r is Err ==> r == Err::<(), LimitError>(LimitError::TooManyLayers { count }),
{
    if count > MAX_AUDIO_LAYERS {
        Err(LimitError::TooManyLayers { count })
    } else {
        Ok(())
    }
}

/// Accepts an output of at least one and at most `MAX_NUM_SAMPLES` samples.
pub fn check_num_samples(num_samples: usize) -> (r: Result<(), LimitError>)
    ensures
        r is Ok <==> 0 < num_samples <= MAX_NUM_SAMPLES,
        r is Err ==> r == Err::<(), LimitError>(LimitError::InvalidSampleCount { num_samples }),
{
    if num_samples == 0 || num_samples > MAX_NUM_SAMPLES {
        Err(LimitError::InvalidSampleCount { num_samples })
    } else {
        Ok(())
    }
}

/// The sample limit is the longest output at the highest supported rate.
pub proof fn sample_limit_is_longest_output_at_highest_rate()
    ensures
        MAX_NUM_SAMPLES == MAX_AUDIO_DURATION_SECONDS * 48000,
        forall|rate: u32|
            is_supported_sample_rate(rate) ==> MAX_AUDIO_DURATION_SECONDS * rate <= MAX_NUM_SAMPLES,
{
}

} // verus!
