//! A single-track looper engine.
//!
//! Audio is captured in chunks, tagged with its position on the recording
//! timeline, stored in a fixed-capacity sample bank and played back as the
//! sum of every completed loop layer. A tap controller drives the engine
//! through its phases: idle, recording the first layer, looping, overdubbing.
//!
//! Samples are fixed-point integers: `FULL_SCALE` stands for unit amplitude.
//! Mixed output is an exact `i64` sum, with no limiting.
use vstd::prelude::*;

pub mod bank;
pub mod clip;
pub mod clock;
pub mod mixer;
pub mod looper;
pub mod laws;

pub use bank::{Sample, SampleBank, FULL_SCALE, MAX_CAPACITY};
pub use clip::Clip;
pub use clock::{ClockModel, State};
pub use looper::{Looper, LooperModel, TapAction, TapPhase};
pub use mixer::{absorb_clip, mix_sample, render};

verus! {

/// The ways in which an engine operation can fail.
#[derive(Debug, Clone, Copy, PartialEq, Eq, Structural)]
pub enum LooperError {
    /// A write would reach past the sample bank's fixed capacity.
    CapacityExceeded,
    /// A tap arrived before the capture and render streams were constructed.
    StreamsNotReady,
    /// The first layer was closed before any audio was captured.
    EmptyFirstLayer,
    /// A captured chunk would end past the largest timeline position.
    TimelineExhausted,
}

} // verus!
