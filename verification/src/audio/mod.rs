//! Playback: the transport, the sequencer that turns ticks into synthesizer
//! commands, and the plan of an offline render.

pub mod engine;
pub mod export;
pub mod sequencer;

pub use engine::{PlaybackState, SynthCommand, Transport};
