//! The loop clock: how much has been captured, the loop length, the
//! recording flag and the playback cursor, with the capture stage that
//! advances it.
use vstd::prelude::*;

use crate::bank::Sample;
use crate::clip::Clip;
use crate::LooperError;

verus! {

/// What a loop clock is, as mathematical values.
pub struct ClockModel {
    /// Samples captured so far, over every layer.
    pub total_captured: nat,
    /// Samples in one layer; grows with the first layer until it is fixed.
    pub loop_length: nat,
    /// Whether the first layer has ended and the loop length is frozen.
    pub fixed: bool,
    /// Whether captured audio is being recorded.
    pub recording: bool,
    /// Playback position within a layer.
    pub cursor: nat,
}

impl ClockModel {
    pub open spec fn wf(self) -> bool {
        &&& self.total_captured <= usize::MAX
        &&& self.fixed ==> 0 < self.loop_length <= self.total_captured
        &&& self.fixed ==> self.cursor < self.loop_length
        &&& !self.fixed ==> self.loop_length == self.total_captured
        &&& !self.fixed ==> self.cursor == 0
    }

    pub open spec fn initial() -> ClockModel {
        ClockModel {
            total_captured: 0,
            loop_length: 0,
            fixed: false,
            recording: false,
            cursor: 0,
        }
    }

    /// Whether a chunk of `len` samples captured now is recorded: while
    /// recording, as long as the timeline position stays within `usize`.
    pub open spec fn accepts(self, len: nat) -> bool {
        self.recording && self.total_captured + len <= usize::MAX
    }

    /// The clock after a chunk of `len` samples was captured: a recorded
    /// chunk advances the total, and the loop length with it while the first
    /// layer is still being measured.
    pub open spec fn after_capture(self, len: nat) -> ClockModel {
        if self.accepts(len) {
            ClockModel {
                total_captured: self.total_captured + len,
                loop_length: if self.fixed {
                    self.loop_length
                } else {
                    self.total_captured + len
                },
                ..self
            }
        } else {
            self
        }
    }

    /// The clock after each chunk length in `lens` was captured, in order.
    pub open spec fn after_captures(self, lens: Seq<nat>) -> ClockModel
        decreases lens.len(),
    {
        if lens.len() == 0 {
            self
        } else {
            self.after_captures(lens.drop_last()).after_capture(lens.last())
        }
    }

    pub open spec fn with_loop_fixed(self) -> ClockModel {
        ClockModel { fixed: true, ..self }
    }

    pub open spec fn toggled(self) -> ClockModel {
        ClockModel { recording: !self.recording, ..self }
    }

    /// The clock after `n` rendered samples: the cursor moves only once the
    /// loop length is fixed, and wraps at the loop length.
    pub open spec fn advanced_by(self, n: nat) -> ClockModel {
        if self.fixed {
            ClockModel { cursor: ((self.cursor + n) as int % (self.loop_length as int)) as nat, ..self }
        } else {
            self
        }
    }

    /// Layers that have begun recording, the one in progress included.
    pub open spec fn loop_count(self) -> nat {
        if self.fixed {
            ((self.total_captured + self.loop_length - 1) as int / (self.loop_length as int)) as nat
        } else {
            0
        }
    }

    /// Layers captured in full; only these are played back.
    pub open spec fn completed_layers(self) -> nat {
        if self.fixed {
            self.total_captured / self.loop_length
        } else {
            0
        }
    }
}

/// The loop clock. It holds the state that the capture stage, the render
/// stage and the tap controller share.
pub struct State {
    total_captured: usize,
    loop_len: usize,
    loop_fixed: bool,
    is_recording: bool,
    playback: usize,
}

impl View for State {
    type V = ClockModel;

    closed spec fn view(&self) -> ClockModel {
        ClockModel {
            total_captured: self.total_captured as nat,
            loop_length: self.loop_len as nat,
            fixed: self.loop_fixed,
            recording: self.is_recording,
            cursor: self.playback as nat,
        }
    }
}

impl State {
    /// A clock with nothing captured, not recording, and the loop length
    /// not yet fixed.
    pub fn new() -> (r: State)
        ensures
            r@ == ClockModel::initial(),
            r@.wf(),
    {
        State {
            total_captured: 0,
            loop_len: 0,
            loop_fixed: false,
            is_recording: false,
            playback: 0,
        }
    }

    pub fn recording(&self) -> (r: bool)
        ensures
            r == self@.recording,
    {
        self.is_recording
    }

    pub fn toggle_recording(&mut self)
        requires
            old(self)@.wf(),
        ensures
            final(self)@ == old(self)@.toggled(),
            final(self)@.wf(),
    {
        let rec = self.recording();
        self.is_recording = !rec;
    }

    /// Whether the first layer is still being recorded or awaited, that is,
    /// the loop length is not fixed yet.
    pub fn first_loop(&self) -> (r: bool)
        ensures
            r == !self@.fixed,
    {
        !self.loop_fixed
    }

    /// Whether a layer has begun: recording has started, or the first
    /// layer has been fixed.
    pub fn began_recording(&self) -> (r: bool)
        ensures
            r == (self@.recording || self@.fixed),
    {
        self.recording() || !self.first_loop()
    }

    pub fn get_playback(&self) -> (r: usize)
        ensures
            r == self@.cursor,
    {
        self.playback
    }

    pub fn get_loop_len(&self) -> (r: usize)
        ensures
            r == self@.loop_length,
    {
        self.loop_len
    }

    pub fn total_captured(&self) -> (r: usize)
        ensures
            r == self@.total_captured,
    {
        self.total_captured
    }

    /// The number of layers that have begun, the one in progress included;
    /// zero while the loop length is not fixed.
    pub fn get_loop_count(&self) -> (r: usize)
        requires
            self@.wf(),
        ensures
            r == self@.loop_count(),
    {
        if !self.loop_fixed {
            return 0;
        }
        let whole = self.total_captured / self.loop_len;
        let part = self.total_captured % self.loop_len;
        proof {
            let t = self.total_captured as int;
            let l = self.loop_len as int;
            assert(t == l * whole + part && 0 <= part < l) by (nonlinear_arith)
                requires
                    l > 0,
                    whole == t / l,
                    part == t % l,
            ;
            if part == 0 {
                assert((t + l - 1) / l == whole) by (nonlinear_arith)
                    requires
                        l > 0,
                        t == l * whole,
                ;
            } else {
                assert((t + l - 1) / l == whole + 1) by (nonlinear_arith)
                    requires
                        l > 0,
                        t == l * whole + part,
                        0 < part < l,
                ;
            }
            assert(part > 0 ==> whole < t) by (nonlinear_arith)
                requires
                    l > 0,
                    whole >= 0,
                    t == l * whole + part,
            ;
        }
        if part == 0 {
            whole
        } else {
            whole + 1
        }
    }

    /// The number of layers captured in full; zero while the loop length is
    /// not fixed.
    pub fn completed_layers(&self) -> (r: usize)
        requires
            self@.wf(),
        ensures
            r == self@.completed_layers(),
    {
        if self.loop_fixed {
            self.total_captured / self.loop_len
        } else {
            0
        }
    }

    /// Ends the first layer: the loop length is frozen at what has been
    /// captured, which makes the loop count go from zero to one.
    pub fn inc_loop_count(&mut self)
        requires
            old(self)@.wf(),
            !old(self)@.fixed,
            old(self)@.total_captured > 0,
        ensures
            final(self)@ == old(self)@.with_loop_fixed(),
            final(self)@.wf(),
            final(self)@.loop_count() == 1,
    {
        self.loop_fixed = true;
        proof {
            let t = self.total_captured as int;
            assert((t + t - 1) / t == 1) by (nonlinear_arith)
                requires
                    t > 0,
            ;
        }
    }

    /// Moves the cursor on by one rendered sample, wrapping at the loop
    /// length. Before the loop length is fixed the cursor stays where it is.
    pub fn advance_playback(&mut self)
        requires
            old(self)@.wf(),
        ensures
            final(self)@ == old(self)@.advanced_by(1),
            final(self)@.wf(),
    {
        if self.first_loop() {
            return;
        }
        let mut playback = self.get_playback();
        playback += 1;
        if playback >= self.get_loop_len() {
            playback = 0;
        }
        proof {
            let c = self.playback as int;
            let l = self.loop_len as int;
            if c + 1 < l {
                vstd::arithmetic::div_mod::lemma_small_mod((c + 1) as nat, l as nat);
            } else {
                vstd::arithmetic::div_mod::lemma_mod_self_0(l);
            }
        }
        self.playback = playback;
    }

    /// The capture stage. While recording, the chunk becomes a clip tagged
    /// with the current total, and the total (and, during the first layer,
    /// the loop length) advances by its length. While not recording the chunk
    /// is discarded. Whether the clip fits in the sample bank is checked when
    /// it is stored; only a chunk whose end would pass the largest `usize`
    /// position is dropped here, with `TimelineExhausted`. In every case the
    /// clock ends as `after_capture` says.
    pub fn capture(&mut self, samples: Vec<Sample>) -> (r: Result<Option<Clip>, LooperError>)
        requires
            old(self)@.wf(),
        ensures
            final(self)@ == old(self)@.after_capture(samples@.len()),
            final(self)@.wf(),
            !old(self)@.recording ==> r matches Ok(None),
            old(self)@.accepts(samples@.len()) ==> (r matches Ok(Some(c)) && c.start
                == old(self)@.total_captured && c.samples@ == samples@),
            old(self)@.recording && !old(self)@.accepts(samples@.len()) ==> r == Err::<
                Option<Clip>,
                LooperError,
            >(LooperError::TimelineExhausted),
    {
        if !self.is_recording {
            return Ok(None);
        }
        let len = samples.len();
        if len > usize::MAX - self.total_captured {
            return Err(LooperError::TimelineExhausted);
        }
        let start = self.total_captured;
        self.total_captured = start + len;
        if !self.loop_fixed {
            self.loop_len = self.total_captured;
        }
        Ok(Some(Clip::new(samples, start)))
    }
}

} // verus!
