//! The render stage: drains at most one clip into the sample bank, then
//! fills an output buffer with the sum of every completed layer.
use vstd::prelude::*;

use crate::bank::{sample_at, written, Sample, SampleBank, MAX_CAPACITY};
use crate::clip::Clip;
use crate::clock::{ClockModel, State};
use crate::LooperError;

verus! {

/// The sum, at position `pos` within a layer, of the first `layers` layers
/// of length `loop_length` laid end to end in `bank`.
pub open spec fn layer_sum(bank: Seq<Sample>, loop_length: nat, layers: nat, pos: nat) -> int
    decreases layers,
{
    if layers == 0 {
        0
    } else {
        layer_sum(bank, loop_length, (layers - 1) as nat, pos) + sample_at(
            bank,
            pos + loop_length * (layers - 1),
        ) as int
    }
}

/// The output for playback position `pos`: the sum of the completed layers.
/// Nothing plays while the loop length is not fixed.
pub open spec fn mixed_at(bank: Seq<Sample>, clock: ClockModel, pos: nat) -> int {
    if clock.fixed {
        layer_sum(bank, clock.loop_length, clock.completed_layers(), pos)
    } else {
        0
    }
}

/// The bank after the render stage drained `clip`: a clip is stored only
/// while recording, and only where it fits.
pub open spec fn bank_after_drain(bank: Seq<Sample>, clock: ClockModel, clip: Option<Clip>) -> Seq<
    Sample,
> {
    match clip {
        Some(c) => if clock.recording && c.start + c.samples@.len() <= bank.len() {
            written(bank, c.start as int, c.samples@)
        } else {
            bank
        },
        None => bank,
    }
}

/// Whether draining `clip` runs into the bank's capacity.
pub open spec fn drain_overflows(bank: Seq<Sample>, clock: ClockModel, clip: Option<Clip>) -> bool {
    match clip {
        Some(c) => clock.recording && c.start + c.samples@.len() > bank.len(),
        None => false,
    }
}

/// Writes a drained clip into the bank while recording; otherwise the clip
/// is discarded. A clip that would reach past the capacity is dropped with
/// `CapacityExceeded`.
pub fn absorb_clip(state: &State, bank: &mut SampleBank, clip: Option<Clip>) -> (r: Result<
    (),
    LooperError,
>)
    ensures
        final(bank)@ == bank_after_drain(old(bank)@, state@, clip),
        r is Err <==> drain_overflows(old(bank)@, state@, clip),
        r is Err ==> r == Err::<(), LooperError>(LooperError::CapacityExceeded),
{
    match clip {
        Some(c) => {
            if state.recording() {
                bank.write_at(c.start, c.samples.as_slice())
            } else {
                Ok(())
            }
        },
        None => Ok(()),
    }
}

proof fn lemma_layer_sum_bounds(bank: Seq<Sample>, loop_length: nat, layers: nat, pos: nat)
    ensures
        -2147483648 * layers <= layer_sum(bank, loop_length, layers, pos) <= 2147483647 * layers,
    decreases layers,
{
    if layers > 0 {
        lemma_layer_sum_bounds(bank, loop_length, (layers - 1) as nat, pos);
    }
}

proof fn lemma_layer_sum_past_bank(bank: Seq<Sample>, len: nat, k: nat, m: nat, pos: nat)
    requires
        len > 0,
        k <= m,
        pos + len * k >= bank.len(),
    ensures
        layer_sum(bank, len, m, pos) == layer_sum(bank, len, k, pos),
    decreases m - k,
{
    if m > k {
        lemma_layer_sum_past_bank(bank, len, k, (m - 1) as nat, pos);
        assert(pos + len * (m - 1) >= pos + len * k) by (nonlinear_arith)
            requires
                m - 1 >= k,
                len > 0,
        ;
    }
}

/// The output for the clock's current cursor position. Layers that start
/// past the bank's capacity hold only silence and are not visited.
pub fn mix_sample(state: &State, bank: &SampleBank) -> (r: i64)
    requires
        state@.wf(),
        bank@.len() <= MAX_CAPACITY,
    ensures
        r == mixed_at(bank@, state@, state@.cursor),
{
    if state.first_loop() {
        return 0;
    }
    let len = state.get_loop_len();
    let pos = state.get_playback();
    let layers = state.completed_layers();
    let total = state.total_captured();
    let cap = bank.capacity();
    proof {
        assert(len * layers <= total) by (nonlinear_arith)
            requires
                len > 0,
                layers == total / len,
        ;
        assert(0 < layers ==> pos < len * layers) by (nonlinear_arith)
            requires
                pos < len,
        ;
    }
    let mut sum: i64 = 0;
    let mut k: usize = 0;
    while k < layers && len * k + pos < cap
        invariant
            state@.wf(),
            state@.fixed,
            len == state@.loop_length,
            pos == state@.cursor,
            layers == state@.completed_layers(),
            total == state@.total_captured,
            cap == bank@.len(),
            cap <= MAX_CAPACITY,
            len * layers <= total,
            k <= layers,
            k < layers ==> len * k + pos < len * layers,
            sum == layer_sum(bank@, len as nat, k as nat, pos as nat),
        decreases layers - k,
    {
        proof {
            assert(k <= len * k) by (nonlinear_arith)
                requires
                    len > 0,
            ;
            lemma_layer_sum_bounds(bank@, len as nat, k as nat, pos as nat);
        }
        let s = bank.read(len * k + pos);
        sum = sum + s as i64;
        k = k + 1;
        proof {
            assert(k < layers ==> len * k + pos < len * layers) by (nonlinear_arith)
                requires
                    pos < len,
            ;
        }
    }
    proof {
        if k < layers {
            lemma_layer_sum_past_bank(bank@, len as nat, k as nat, layers as nat, pos as nat);
        }
    }
    sum
}

/// One render period: drains `clip` (see `absorb_clip`), then fills `out`,
/// one rendered sample per cursor step, with the sum of the completed
/// layers. Before the loop length is fixed the output is silence and the
/// cursor does not move. The result reports whether the clip was dropped for
/// lack of capacity; the output is filled either way.
pub fn render(state: &mut State, bank: &mut SampleBank, clip: Option<Clip>, out: &mut [i64]) -> (r:
    Result<(), LooperError>)
    requires
        old(state)@.wf(),
        old(bank)@.len() <= MAX_CAPACITY,
    ensures
        final(bank)@ == bank_after_drain(old(bank)@, old(state)@, clip),
        r is Err <==> drain_overflows(old(bank)@, old(state)@, clip),
        r is Err ==> r == Err::<(), LooperError>(LooperError::CapacityExceeded),
        final(state)@ == old(state)@.advanced_by(old(out)@.len()),
        final(state)@.wf(),
        final(out)@.len() == old(out)@.len(),
        forall|i: int|
            0 <= i < old(out)@.len() ==> #[trigger] final(out)@[i] == mixed_at(
                final(bank)@,
                old(state)@,
                if old(state)@.fixed {
                    ((old(state)@.cursor + i) % (old(state)@.loop_length as int)) as nat
                } else {
                    0
                },
            ),
{
    let r = absorb_clip(state, bank, clip);
    let ghost s0 = state@;
    proof {
        if s0.fixed {
            vstd::arithmetic::div_mod::lemma_small_mod(s0.cursor, s0.loop_length);
        }
    }
    let n = out.len();
    let mut i: usize = 0;
    while i < n
        invariant
            s0.wf(),
            state@ == s0.advanced_by(i as nat),
            state@.wf(),
            n == out@.len(),
            bank@.len() <= MAX_CAPACITY,
            i <= n,
            forall|j: int|
                0 <= j < i ==> #[trigger] out@[j] == mixed_at(
                    bank@,
                    s0,
                    if s0.fixed {
                        ((s0.cursor + j) % (s0.loop_length as int)) as nat
                    } else {
                        0
                    },
                ),
        decreases n - i,
    {
        let v = mix_sample(state, bank);
        out[i] = v;
        proof {
            if s0.fixed {
                let l = s0.loop_length as int;
                vstd::arithmetic::div_mod::lemma_add_mod_noop(s0.cursor + i, 1, l);
                if l > 1 {
                    vstd::arithmetic::div_mod::lemma_small_mod(1, l as nat);
                } else {
                    vstd::arithmetic::div_mod::lemma_mod_self_0(1);
                }
                vstd::arithmetic::div_mod::lemma_mod_bound(s0.cursor + i, l);
                if (s0.cursor + i) % l + 1 < l {
                    vstd::arithmetic::div_mod::lemma_small_mod(((s0.cursor + i) % l + 1) as nat, l as nat);
                } else {
                    vstd::arithmetic::div_mod::lemma_mod_self_0(l);
                }
            }
        }
        state.advance_playback();
        i = i + 1;
    }
    r
}

} // verus!
