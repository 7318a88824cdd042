//! Integer core of an NTSC composite / VHS signal simulator.
//!
//! The simulator sends a picture through a composite-video channel and a
//! consumer tape deck. Its arithmetic on voltages and phases is done in
//! floating point by the caller; this crate holds what is decided in whole
//! numbers, each part with a proved contract: the pseudo-random generator
//! and the order of its draws, the dropout machine, frame and line geometry,
//! the tap plan of the resampler, the sample memories of the decoder, the
//! colour matrices and the choice of diagnostic overlay.

pub mod artifacts;
pub mod color;
pub mod config;
pub mod dsp;
pub mod filters;
pub mod frame;
pub mod pipeline;
pub mod resampler;

pub use artifacts::{ArtifactSwitches, SampleNoise};
pub use config::{parse_demod, DebugConfig, DemodulationFilter, Overlay, Preset};
pub use dsp::SimpleRng;
pub use filters::{BoxWindow, CombMemory};
pub use frame::{Frame, FrameFormat};
pub use pipeline::{LineLayout, LineScan};
pub use resampler::SincResampler;
