//! Properties of the engine that relate several of its operations.
use vstd::prelude::*;

use crate::bank::{sample_at, written, Sample, MAX_CAPACITY};
use crate::clip::Clip;
use crate::clock::ClockModel;
use crate::looper::{LooperModel, TapPhase};
use crate::mixer::{bank_after_drain, layer_sum, mixed_at};

verus! {

/// The sum of the chunk lengths in `lens`.
pub open spec fn total_len(lens: Seq<nat>) -> nat
    decreases lens.len(),
{
    if lens.len() == 0 {
        0
    } else {
        total_len(lens.drop_last()) + lens.last()
    }
}

/// Whatever chunks are captured between the first and the second tap,
/// drained or not, the loop length after the second tap is the sum of their
/// lengths. The second tap fixes it when that sum is not zero.
pub proof fn first_loop_length_is_chunk_sum(lens: Seq<nat>)
    requires
        total_len(lens) <= usize::MAX,
    ensures
        ({
            let recording = LooperModel::initial().with_streams_ready().after_tap();
            let closed = recording.after_captures(lens).after_tap();
            &&& closed.clock.loop_length == total_len(lens)
            &&& closed.clock.fixed <==> total_len(lens) > 0
            &&& closed.clock.fixed ==> closed.phase == TapPhase::Looping
        }),
{
    let recording = LooperModel::initial().with_streams_ready().after_tap();
    lemma_captures_while_recording(recording.clock, lens);
}

/// The playback cursor stays inside the loop once its length is fixed, and
/// rendering does not move it before that.
pub proof fn cursor_stays_in_loop(clock: ClockModel, n: nat)
    requires
        clock.wf(),
    ensures
        clock.advanced_by(n).wf(),
        clock.fixed ==> clock.advanced_by(n).cursor < clock.loop_length,
        !clock.fixed ==> clock.advanced_by(n) == clock,
{
    if clock.fixed {
        vstd::arithmetic::div_mod::lemma_mod_bound(
            (clock.cursor + n) as int,
            clock.loop_length as int,
        );
    }
}

/// While recording is off, a captured chunk changes nothing, and a drained
/// clip leaves the bank as it was.
pub proof fn pauses_write_nothing(bank: Seq<Sample>, clock: ClockModel, len: nat, clip: Clip)
    requires
        !clock.recording,
    ensures
        clock.after_capture(len) == clock,
        bank_after_drain(bank, clock, Some(clip)) == bank,
{
}

/// `bank` after clips of the constant `v`, with the lengths in `lens`, were
/// written one after another from `start` on: how the render stage stores
/// what the capture stage made of such chunks.
pub open spec fn after_constant_clips(bank: Seq<Sample>, start: nat, lens: Seq<nat>, v: Sample) -> Seq<
    Sample,
>
    decreases lens.len(),
{
    if lens.len() == 0 {
        bank
    } else {
        written(
            after_constant_clips(bank, start, lens.drop_last(), v),
            (start + total_len(lens.drop_last())) as int,
            Seq::new(lens.last(), |i: int| v),
        )
    }
}

/// A bank of `capacity` samples of silence.
pub open spec fn silent_bank(capacity: nat) -> Seq<Sample> {
    Seq::new(capacity, |i: int| 0 as Sample)
}

proof fn lemma_constant_clips(bank: Seq<Sample>, start: nat, lens: Seq<nat>, v: Sample)
    requires
        start + total_len(lens) <= bank.len(),
    ensures
        after_constant_clips(bank, start, lens, v).len() == bank.len(),
        forall|i: int|
            start <= i < start + total_len(lens) ==> #[trigger] after_constant_clips(
                bank,
                start,
                lens,
                v,
            )[i] == v,
        forall|i: int|
            0 <= i < bank.len() && !(start <= i < start + total_len(lens)) ==> #[trigger]
                after_constant_clips(bank, start, lens, v)[i] == bank[i],
    decreases lens.len(),
{
    if lens.len() > 0 {
        lemma_constant_clips(bank, start, lens.drop_last(), v);
    }
}

proof fn lemma_captures_while_recording(c: ClockModel, lens: Seq<nat>)
    requires
        c.wf(),
        c.recording,
        c.total_captured + total_len(lens) <= usize::MAX,
    ensures
        c.after_captures(lens) == (ClockModel {
            total_captured: c.total_captured + total_len(lens),
            loop_length: if c.fixed {
                c.loop_length
            } else {
                c.total_captured + total_len(lens)
            },
            ..c
        }),
    decreases lens.len(),
{
    if lens.len() > 0 {
        lemma_captures_while_recording(c, lens.drop_last());
    }
}

proof fn lemma_layer_sum_of_constant_layers(
    bank: Seq<Sample>,
    len: nat,
    layers: nat,
    pos: nat,
    values: Seq<Sample>,
)
    requires
        pos < len,
        layers <= values.len(),
        forall|k: int, i: int|
            0 <= k < values.len() && 0 <= i < len ==> #[trigger] sample_at(bank, k * len + i)
                == values[k],
    ensures
        layers == 0 ==> layer_sum(bank, len, layers, pos) == 0,
        layers == 1 ==> layer_sum(bank, len, layers, pos) == values[0],
        layers == 2 ==> layer_sum(bank, len, layers, pos) == values[0] + values[1],
    decreases layers,
{
    if layers > 0 {
        lemma_layer_sum_of_constant_layers(bank, len, (layers - 1) as nat, pos, values);
        let k = layers - 1;
        assert(pos + len * k == k * len + pos) by (nonlinear_arith);
        assert(sample_at(bank, k * len + pos) == values[k]);
    }
}

/// Recording one full layer of the constant `v` (chunks of any lengths
/// between the first and the second tap, each stored as it is drained) and
/// then playing back without overdub gives `v` at every loop position.
pub proof fn round_trip(capacity: nat, lens: Seq<nat>, v: Sample)
    requires
        capacity <= MAX_CAPACITY,
        0 < total_len(lens) <= capacity,
    ensures
        ({
            let closed = LooperModel::initial().with_streams_ready().after_tap().after_captures(
                lens,
            ).after_tap();
            let bank = after_constant_clips(silent_bank(capacity), 0, lens, v);
            &&& closed.clock.fixed
            &&& closed.clock.loop_length == total_len(lens)
            &&& forall|p: int|
                0 <= p < closed.clock.loop_length ==> #[trigger] mixed_at(bank, closed.clock, p as nat)
                    == v
        }),
{
    let recording = LooperModel::initial().with_streams_ready().after_tap();
    lemma_captures_while_recording(recording.clock, lens);
    let closed = recording.after_captures(lens).after_tap();
    let bank = after_constant_clips(silent_bank(capacity), 0, lens, v);
    lemma_constant_clips(silent_bank(capacity), 0, lens, v);
    let len = closed.clock.loop_length;
    vstd::arithmetic::div_mod::lemma_div_by_self(len as int);
    let values = seq![v];
    assert forall|k: int, i: int| 0 <= k < values.len() && 0 <= i < len implies #[trigger]
        sample_at(bank, k * len + i) == values[k] by {
        assert(k * len + i == i) by (nonlinear_arith)
            requires
                k == 0,
        ;
    }
    assert forall|p: int| 0 <= p < len implies #[trigger] mixed_at(bank, closed.clock, p as nat)
        == v by {
        lemma_layer_sum_of_constant_layers(bank, len, 1, p as nat, values);
    }
}

/// After a first layer of the constant `v1` is closed, a tap starts an
/// overdub, one more full layer of the constant `v2` is captured and stored,
/// and a tap stops it: every loop position then plays `v1 + v2`.
pub proof fn overdub_sums_layers(
    capacity: nat,
    first: Seq<nat>,
    second: Seq<nat>,
    v1: Sample,
    v2: Sample,
)
    requires
        capacity <= MAX_CAPACITY,
        0 < total_len(first),
        total_len(second) == total_len(first),
        total_len(first) + total_len(second) <= capacity,
    ensures
        ({
            let looping = LooperModel::initial().with_streams_ready().after_tap().after_captures(
                first,
            ).after_tap();
            let done = looping.after_tap().after_captures(second).after_tap();
            let bank = after_constant_clips(
                after_constant_clips(silent_bank(capacity), 0, first, v1),
                total_len(first),
                second,
                v2,
            );
            &&& done.phase == TapPhase::Looping
            &&& done.clock.loop_length == total_len(first)
            &&& forall|p: int|
                0 <= p < done.clock.loop_length ==> #[trigger] mixed_at(bank, done.clock, p as nat)
                    == v1 + v2
        }),
{
    let recording = LooperModel::initial().with_streams_ready().after_tap();
    lemma_captures_while_recording(recording.clock, first);
    let looping = recording.after_captures(first).after_tap();
    let overdubbing = looping.after_tap();
    lemma_captures_while_recording(overdubbing.clock, second);
    let done = overdubbing.after_captures(second).after_tap();
    let len = total_len(first);
    let b1 = after_constant_clips(silent_bank(capacity), 0, first, v1);
    lemma_constant_clips(silent_bank(capacity), 0, first, v1);
    let bank = after_constant_clips(b1, len, second, v2);
    lemma_constant_clips(b1, len, second, v2);
    assert(done.clock.completed_layers() == 2) by {
        vstd::arithmetic::div_mod::lemma_div_multiples_vanish(2, len as int);
        assert(len + len == len * 2);
    }
    let values = seq![v1, v2];
    assert forall|k: int, i: int| 0 <= k < values.len() && 0 <= i < len implies #[trigger]
        sample_at(bank, k * len + i) == values[k] by {
        if k == 0 {
            assert(k * len + i == i) by (nonlinear_arith)
                requires
                    k == 0,
            ;
        } else {
            assert(k * len + i == len + i) by (nonlinear_arith)
                requires
                    k == 1,
            ;
        }
    }
    assert forall|p: int| 0 <= p < len implies #[trigger] mixed_at(bank, done.clock, p as nat)
        == v1 + v2 by {
        lemma_layer_sum_of_constant_layers(bank, len, 2, p as nat, values);
    }
}

} // verus!
