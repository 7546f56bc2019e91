//! Preparing mixed audio for the effect chain.

use crate::mixer::{MixerOutput, StereoOutput};
use vstd::prelude::*;

verus! {

/// Converts mixer output to stereo for effect processing: mono samples go
/// to both channels, stereo output is kept as it is.
pub fn to_stereo<T: Copy>(mixed: MixerOutput<T>) -> (stereo: StereoOutput<T>)
    ensures
        match mixed {
            MixerOutput::Mono(samples) => stereo.left@ == samples@ && stereo.right@ == samples@,
            MixerOutput::Stereo(s) => stereo.left@ == s.left@ && stereo.right@ == s.right@,
        },
{
    match mixed {
        MixerOutput::Mono(samples) => StereoOutput::from_mono(samples),
        MixerOutput::Stereo(stereo) => stereo,
    }
}

} // verus!
