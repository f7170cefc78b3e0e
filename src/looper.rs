//! The tap controller: the engine's phases and how taps move between them.
use vstd::prelude::*;

use crate::bank::{Sample, SampleBank, MAX_CAPACITY};
use crate::clip::Clip;
use crate::clock::{ClockModel, State};
use crate::mixer::{bank_after_drain, drain_overflows, mixed_at, render};
use crate::LooperError;

verus! {

/// Where the engine stands in the tap protocol.
#[derive(Debug, Clone, Copy, PartialEq, Eq, Structural)]
pub enum TapPhase {
    /// Nothing has happened yet.
    Idle,
    /// The first layer is being recorded; its length is still growing.
    RecordingFirstLayer,
    /// The loop length is fixed and the layers play back; nothing records.
    Looping,
    /// The layers play back while a new layer is recorded on top.
    Overdubbing,
}

/// What a successful tap did; `StartStreams` asks the caller to start the
/// capture and render streams.
#[derive(Debug, Clone, Copy, PartialEq, Eq, Structural)]
pub enum TapAction {
    StartStreams,
    LoopClosed,
    OverdubStarted,
    OverdubStopped,
}

/// The engine as mathematical values.
pub struct LooperModel {
    pub clock: ClockModel,
    pub phase: TapPhase,
    pub streams_ready: bool,
}

impl LooperModel {
    pub open spec fn wf(self) -> bool {
        &&& self.clock.wf()
        &&& match self.phase {
            TapPhase::Idle => !self.clock.recording && !self.clock.fixed
                && self.clock.total_captured == 0,
            TapPhase::RecordingFirstLayer => self.clock.recording && !self.clock.fixed,
            TapPhase::Looping => self.clock.fixed && !self.clock.recording,
            TapPhase::Overdubbing => self.clock.fixed && self.clock.recording,
        }
    }

    pub open spec fn initial() -> LooperModel {
        LooperModel {
            clock: ClockModel::initial(),
            phase: TapPhase::Idle,
            streams_ready: false,
        }
    }

    pub open spec fn with_streams_ready(self) -> LooperModel {
        LooperModel { streams_ready: true, ..self }
    }

    /// Whether a tap now fails, leaving the engine as it is.
    pub open spec fn tap_error(self) -> Option<LooperError> {
        if !self.streams_ready {
            Some(LooperError::StreamsNotReady)
        } else if self.phase == TapPhase::RecordingFirstLayer && self.clock.total_captured == 0 {
            Some(LooperError::EmptyFirstLayer)
        } else {
            None
        }
    }

    /// What a successful tap does.
    pub open spec fn tap_action(self) -> TapAction {
        match self.phase {
            TapPhase::Idle => TapAction::StartStreams,
            TapPhase::RecordingFirstLayer => TapAction::LoopClosed,
            TapPhase::Looping => TapAction::OverdubStarted,
            TapPhase::Overdubbing => TapAction::OverdubStopped,
        }
    }

    /// The engine after a tap: the first tap starts recording, the second
    /// fixes the loop length and stops recording, each later one toggles
    /// recording (overdubbing) on or off.
    pub open spec fn after_tap(self) -> LooperModel {
        if self.tap_error() is Some {
            self
        } else {
            match self.phase {
                TapPhase::Idle => LooperModel {
                    clock: self.clock.toggled(),
                    phase: TapPhase::RecordingFirstLayer,
                    ..self
                },
                TapPhase::RecordingFirstLayer => LooperModel {
                    clock: self.clock.with_loop_fixed().toggled(),
                    phase: TapPhase::Looping,
                    ..self
                },
                TapPhase::Looping => LooperModel {
                    clock: self.clock.toggled(),
                    phase: TapPhase::Overdubbing,
                    ..self
                },
                TapPhase::Overdubbing => LooperModel {
                    clock: self.clock.toggled(),
                    phase: TapPhase::Looping,
                    ..self
                },
            }
        }
    }

    pub open spec fn after_capture(self, len: nat) -> LooperModel {
        LooperModel { clock: self.clock.after_capture(len), ..self }
    }

    /// The engine after each chunk length in `lens` was captured, in order.
    pub open spec fn after_captures(self, lens: Seq<nat>) -> LooperModel {
        LooperModel { clock: self.clock.after_captures(lens), ..self }
    }
}

/// The looper engine: the loop clock driven by the tap protocol.
pub struct Looper {
    state: State,
    phase: TapPhase,
    streams_ready: bool,
}

impl View for Looper {
    type V = LooperModel;

    closed spec fn view(&self) -> LooperModel {
        LooperModel { clock: self.state@, phase: self.phase, streams_ready: self.streams_ready }
    }
}

impl Looper {
    /// An idle engine; its streams are not constructed yet.
    pub fn new() -> (r: Looper)
        ensures
            r@ == LooperModel::initial(),
            r@.wf(),
    {
        Looper { state: State::new(), phase: TapPhase::Idle, streams_ready: false }
    }

    /// Records that the capture and render streams have been constructed.
    pub fn set_streams_ready(&mut self)
        ensures
            final(self)@ == old(self)@.with_streams_ready(),
    {
        self.streams_ready = true;
    }

    pub fn phase(&self) -> (r: TapPhase)
        ensures
            r == self@.phase,
    {
        self.phase
    }

    pub fn state(&self) -> (r: &State)
        ensures
            r@ == self@.clock,
    {
        &self.state
    }

    /// Advances the tap protocol. Fails, changing nothing, before the streams
    /// are constructed, and when the first layer would be closed empty.
    pub fn tap(&mut self) -> (r: Result<TapAction, LooperError>)
        requires
            old(self)@.wf(),
        ensures
            final(self)@ == old(self)@.after_tap(),
            final(self)@.wf(),
            old(self)@.tap_error() matches Some(e) ==> r == Err::<TapAction, LooperError>(e),
            old(self)@.tap_error() is None ==> r == Ok::<TapAction, LooperError>(
                old(self)@.tap_action(),
            ),
    {
        if !self.streams_ready {
            return Err(LooperError::StreamsNotReady);
        }
        match self.phase {
            TapPhase::Idle => {
                self.state.toggle_recording();
                self.phase = TapPhase::RecordingFirstLayer;
                Ok(TapAction::StartStreams)
            },
            TapPhase::RecordingFirstLayer => {
                if self.state.total_captured() == 0 {
                    return Err(LooperError::EmptyFirstLayer);
                }
                self.state.inc_loop_count();
                self.state.toggle_recording();
                self.phase = TapPhase::Looping;
                Ok(TapAction::LoopClosed)
            },
            TapPhase::Looping => {
                self.state.toggle_recording();
                self.phase = TapPhase::Overdubbing;
                Ok(TapAction::OverdubStarted)
            },
            TapPhase::Overdubbing => {
                self.state.toggle_recording();
                self.phase = TapPhase::Looping;
                Ok(TapAction::OverdubStopped)
            },
        }
    }

    /// The capture stage on this engine's clock (see `State::capture`).
    pub fn capture(&mut self, samples: Vec<Sample>) -> (r: Result<Option<Clip>, LooperError>)
        requires
            old(self)@.wf(),
        ensures
            final(self)@ == old(self)@.after_capture(samples@.len()),
            final(self)@.wf(),
            !old(self)@.clock.recording ==> r matches Ok(None),
            old(self)@.clock.accepts(samples@.len()) ==> (r matches Ok(Some(c)) && c.start
                == old(self)@.clock.total_captured && c.samples@ == samples@),
            old(self)@.clock.recording && !old(self)@.clock.accepts(samples@.len()) ==> r
                == Err::<Option<Clip>, LooperError>(LooperError::TimelineExhausted),
    {
        self.state.capture(samples)
    }

    /// The render stage on this engine's clock (see `mixer::render`).
    pub fn render(&mut self, bank: &mut SampleBank, clip: Option<Clip>, out: &mut [i64]) -> (r:
        Result<(), LooperError>)
        requires
            old(self)@.wf(),
            old(bank)@.len() <= MAX_CAPACITY,
        ensures
            final(bank)@ == bank_after_drain(old(bank)@, old(self)@.clock, clip),
            r is Err <==> drain_overflows(old(bank)@, old(self)@.clock, clip),
            r is Err ==> r == Err::<(), LooperError>(LooperError::CapacityExceeded),
            final(self)@ == (LooperModel {
                clock: old(self)@.clock.advanced_by(old(out)@.len()),
                ..old(self)@
            }),
            final(self)@.wf(),
            final(out)@.len() == old(out)@.len(),
            forall|i: int|
                0 <= i < old(out)@.len() ==> #[trigger] final(out)@[i] == mixed_at(
                    final(bank)@,
                    old(self)@.clock,
                    if old(self)@.clock.fixed {
                        ((old(self)@.clock.cursor + i) % (old(self)@.clock.loop_length as int)) as nat
                    } else {
                        0
                    },
                ),
    {
        render(&mut self.state, bank, clip, out)
    }
}

} // verus!
