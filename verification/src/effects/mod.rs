//! Building blocks of the audio effects.

pub mod chain;
pub mod delay_line;
pub mod dynamics;
pub mod granular_delay;

pub use chain::to_stereo;
