use looper::{
    Clip, Looper, LooperError, SampleBank, State, TapAction, TapPhase, FULL_SCALE, MAX_CAPACITY,
};

const ONE: i32 = FULL_SCALE;

fn started() -> Looper {
    let mut looper = Looper::new();
    looper.set_streams_ready();
    assert_eq!(looper.tap(), Ok(TapAction::StartStreams));
    looper
}

/// Captures a chunk and drains the clip it gives, rendering nothing.
fn feed(looper: &mut Looper, bank: &mut SampleBank, samples: Vec<i32>) -> Result<(), LooperError> {
    let clip = looper.capture(samples)?;
    let mut none: [i64; 0] = [];
    looper.render(bank, clip, &mut none)
}

fn play(looper: &mut Looper, bank: &mut SampleBank, n: usize) -> Vec<i64> {
    let mut out = vec![0i64; n];
    looper.render(bank, None, &mut out).unwrap();
    out
}

fn scenario_a() -> (Looper, SampleBank) {
    let mut looper = started();
    let mut bank = SampleBank::new(10_000);
    for _ in 0..3 {
        feed(&mut looper, &mut bank, vec![ONE; 100]).unwrap();
    }
    assert_eq!(looper.tap(), Ok(TapAction::LoopClosed));
    assert_eq!(looper.state().get_loop_len(), 300);
    (looper, bank)
}

#[test]
fn scenario_a_plays_back_first_layer() {
    let (mut looper, mut bank) = scenario_a();
    let out = play(&mut looper, &mut bank, 300);
    assert_eq!(out.len(), 300);
    assert!(out.iter().all(|&x| x == ONE as i64));
    assert_eq!(looper.state().get_playback(), 0);
}

#[test]
fn scenario_b_overdub_adds_layers() {
    let (mut looper, mut bank) = scenario_a();
    play(&mut looper, &mut bank, 300);
    assert_eq!(looper.tap(), Ok(TapAction::OverdubStarted));
    let clip = looper.capture(vec![2 * ONE; 300]).unwrap().unwrap();
    assert_eq!(clip.start, 300);
    let mut none: [i64; 0] = [];
    looper.render(&mut bank, Some(clip), &mut none).unwrap();
    let out = play(&mut looper, &mut bank, 300);
    assert!(out.iter().all(|&x| x == 3 * ONE as i64));
}

#[test]
fn scenario_c_tap_before_streams_fails() {
    let mut looper = Looper::new();
    assert_eq!(looper.tap(), Err(LooperError::StreamsNotReady));
    assert_eq!(looper.phase(), TapPhase::Idle);
    assert!(!looper.state().recording());
}

#[test]
fn loop_length_is_sum_of_chunks() {
    let mut looper = started();
    let mut bank = SampleBank::new(1000);
    for len in [7usize, 1, 64, 13] {
        feed(&mut looper, &mut bank, vec![1; len]).unwrap();
    }
    assert_eq!(looper.state().get_loop_len(), 85);
    assert!(looper.state().first_loop());
    looper.tap().unwrap();
    assert_eq!(looper.state().get_loop_len(), 85);
    assert!(!looper.state().first_loop());
    assert_eq!(looper.phase(), TapPhase::Looping);
}

#[test]
fn closing_an_empty_first_layer_fails() {
    let mut looper = started();
    assert_eq!(looper.tap(), Err(LooperError::EmptyFirstLayer));
    assert_eq!(looper.phase(), TapPhase::RecordingFirstLayer);
    assert!(looper.state().first_loop());
}

#[test]
fn cursor_wraps_within_loop() {
    let (mut looper, mut bank) = scenario_a();
    play(&mut looper, &mut bank, 250);
    assert_eq!(looper.state().get_playback(), 250);
    play(&mut looper, &mut bank, 100);
    assert_eq!(looper.state().get_playback(), 50);
    play(&mut looper, &mut bank, 1000);
    assert_eq!(looper.state().get_playback(), 150);
}

#[test]
fn cursor_holds_before_loop_is_fixed() {
    let mut looper = started();
    let mut bank = SampleBank::new(1000);
    feed(&mut looper, &mut bank, vec![ONE; 40]).unwrap();
    let out = play(&mut looper, &mut bank, 30);
    assert!(out.iter().all(|&x| x == 0));
    assert_eq!(looper.state().get_playback(), 0);
}

#[test]
fn paused_capture_writes_nothing() {
    let (mut looper, mut bank) = scenario_a();
    assert!(!looper.state().recording());
    let before: Vec<i32> = (0..1000).map(|i| bank.read(i)).collect();
    let clip = looper.capture(vec![5; 50]).unwrap();
    assert!(clip.is_none());
    assert_eq!(looper.state().total_captured(), 300);
    // Clips drained while paused are discarded, wherever they lie.
    let mut none: [i64; 0] = [];
    looper.render(&mut bank, Some(Clip::new(vec![9; 10], 300)), &mut none).unwrap();
    looper.render(&mut bank, Some(Clip::new(vec![9; 10], 0)), &mut none).unwrap();
    let after: Vec<i32> = (0..1000).map(|i| bank.read(i)).collect();
    assert_eq!(before, after);
}

#[test]
fn first_layer_clip_drained_after_second_tap_is_discarded() {
    let mut looper = started();
    let mut bank = SampleBank::new(1000);
    let clip = looper.capture(vec![5; 20]).unwrap();
    looper.tap().unwrap();
    assert_eq!(looper.state().get_loop_len(), 20);
    let mut none: [i64; 0] = [];
    looper.render(&mut bank, clip, &mut none).unwrap();
    assert_eq!(bank.read(0), 0);
    assert_eq!(bank.read(19), 0);
    assert_eq!(looper.state().total_captured(), 20);
}

#[test]
fn undrained_and_oversized_chunks_count_toward_loop_length() {
    let mut looper = started();
    let mut bank = SampleBank::new(50);
    feed(&mut looper, &mut bank, vec![1; 30]).unwrap();
    // Captured but never drained.
    assert!(looper.capture(vec![1; 15]).unwrap().is_some());
    // Captured, but it does not fit in the bank when drained.
    let clip = looper.capture(vec![1; 40]).unwrap();
    let mut none: [i64; 0] = [];
    assert_eq!(looper.render(&mut bank, clip, &mut none), Err(LooperError::CapacityExceeded));
    looper.tap().unwrap();
    assert_eq!(looper.state().get_loop_len(), 85);
}

#[test]
fn round_trip_of_constant_layer() {
    let mut looper = started();
    let mut bank = SampleBank::new(1000);
    feed(&mut looper, &mut bank, vec![-7; 33]).unwrap();
    feed(&mut looper, &mut bank, vec![-7; 17]).unwrap();
    looper.tap().unwrap();
    play(&mut looper, &mut bank, 21);
    let out = play(&mut looper, &mut bank, 50);
    assert_eq!(out, vec![-7i64; 50]);
}

#[test]
fn overdub_of_two_constant_layers() {
    let mut looper = started();
    let mut bank = SampleBank::new(1000);
    feed(&mut looper, &mut bank, vec![10; 8]).unwrap();
    looper.tap().unwrap();
    assert_eq!(looper.tap(), Ok(TapAction::OverdubStarted));
    feed(&mut looper, &mut bank, vec![-3; 5]).unwrap();
    // The second layer is not complete: only the first plays.
    assert_eq!(play(&mut looper, &mut bank, 8), vec![10i64; 8]);
    feed(&mut looper, &mut bank, vec![-3; 3]).unwrap();
    assert_eq!(looper.tap(), Ok(TapAction::OverdubStopped));
    assert_eq!(play(&mut looper, &mut bank, 8), vec![7i64; 8]);
}

#[test]
fn bank_write_past_capacity_is_refused() {
    let mut bank = SampleBank::new(10);
    assert_eq!(bank.write_at(2, &[1, 2, 3]), Ok(()));
    assert_eq!(bank.write_at(8, &[4, 5, 6]), Err(LooperError::CapacityExceeded));
    assert_eq!(bank.write_at(11, &[]), Err(LooperError::CapacityExceeded));
    assert_eq!(bank.write_at(7, &[7, 8, 9]), Ok(()));
    let contents: Vec<i32> = (0..10).map(|i| bank.read(i)).collect();
    assert_eq!(contents, vec![0, 0, 1, 2, 3, 0, 0, 7, 8, 9]);
    assert_eq!(bank.read(10), 0);
    assert_eq!(bank.capacity(), 10);
}

#[test]
fn render_reports_clip_past_capacity() {
    let mut looper = started();
    let mut bank = SampleBank::new(10);
    let clip = looper.capture(vec![1; 20]).unwrap();
    let mut out = [0i64; 4];
    assert_eq!(looper.render(&mut bank, clip, &mut out), Err(LooperError::CapacityExceeded));
    assert_eq!(bank.read(0), 0);
}

#[test]
fn clip_past_capacity_is_dropped_at_the_bank() {
    let mut looper = started();
    let mut bank = SampleBank::new(100);
    feed(&mut looper, &mut bank, vec![1; 90]).unwrap();
    assert_eq!(feed(&mut looper, &mut bank, vec![2; 11]), Err(LooperError::CapacityExceeded));
    assert_eq!(looper.state().total_captured(), 101);
    assert_eq!(bank.read(89), 1);
    assert_eq!(bank.read(90), 0);
    assert_eq!(bank.read(99), 0);
}

#[test]
fn layers_past_the_bank_play_as_silence() {
    let mut looper = started();
    let mut bank = SampleBank::new(6);
    feed(&mut looper, &mut bank, vec![1, 2, 3]).unwrap();
    looper.tap().unwrap();
    looper.tap().unwrap();
    feed(&mut looper, &mut bank, vec![10, 20, 30]).unwrap();
    assert_eq!(feed(&mut looper, &mut bank, vec![100; 6]), Err(LooperError::CapacityExceeded));
    assert_eq!(looper.state().completed_layers(), 4);
    assert_eq!(play(&mut looper, &mut bank, 3), vec![11, 22, 33]);
}

#[test]
fn mixing_sums_completed_layers_at_each_position() {
    let mut looper = started();
    let mut bank = SampleBank::new(100);
    feed(&mut looper, &mut bank, vec![1, 2, 3, 4]).unwrap();
    looper.tap().unwrap();
    looper.tap().unwrap();
    feed(&mut looper, &mut bank, vec![10, 20, 30, 40, 100, 200]).unwrap();
    let out = play(&mut looper, &mut bank, 6);
    assert_eq!(out, vec![11, 22, 33, 44, 11, 22]);
    assert_eq!(looper.state().get_loop_count(), 3);
    assert_eq!(looper.state().completed_layers(), 2);
}

#[test]
fn mixing_does_not_limit_large_sums() {
    let mut looper = started();
    let mut bank = SampleBank::new(8);
    feed(&mut looper, &mut bank, vec![i32::MAX; 2]).unwrap();
    looper.tap().unwrap();
    looper.tap().unwrap();
    feed(&mut looper, &mut bank, vec![i32::MAX; 6]).unwrap();
    let out = play(&mut looper, &mut bank, 2);
    assert_eq!(out, vec![4 * i32::MAX as i64; 2]);
}

#[test]
fn tap_protocol_alternates_after_two_taps() {
    let mut looper = started();
    let mut bank = SampleBank::new(100);
    assert!(looper.state().recording());
    feed(&mut looper, &mut bank, vec![1; 5]).unwrap();
    assert_eq!(looper.tap(), Ok(TapAction::LoopClosed));
    assert!(!looper.state().recording());
    assert_eq!(looper.tap(), Ok(TapAction::OverdubStarted));
    assert!(looper.state().recording());
    assert_eq!(looper.phase(), TapPhase::Overdubbing);
    assert_eq!(looper.tap(), Ok(TapAction::OverdubStopped));
    assert_eq!(looper.phase(), TapPhase::Looping);
    assert!(!looper.state().recording());
}

#[test]
fn state_counts_and_flags() {
    let mut state = State::new();
    assert!(state.first_loop());
    assert!(!state.began_recording());
    assert_eq!(state.get_loop_count(), 0);
    assert!(state.capture(vec![1; 5]).unwrap().is_none());
    state.toggle_recording();
    assert!(state.began_recording());
    let clip = state.capture(vec![1; 5]).unwrap().unwrap();
    assert_eq!(clip.start, 0);
    assert_eq!(clip.samples, vec![1; 5]);
    state.advance_playback();
    assert_eq!(state.get_playback(), 0);
    state.inc_loop_count();
    assert_eq!(state.get_loop_count(), 1);
    assert_eq!(state.get_loop_len(), 5);
    state.capture(vec![1; 6]).unwrap();
    assert_eq!(state.total_captured(), 11);
    assert_eq!(state.get_loop_count(), 3);
    assert_eq!(state.completed_layers(), 2);
    assert_eq!(state.get_loop_len(), 5);
    for _ in 0..7 {
        state.advance_playback();
    }
    assert_eq!(state.get_playback(), 2);
}

#[test]
fn empty_bank_and_full_scale() {
    let bank = SampleBank::new(0);
    assert_eq!(bank.capacity(), 0);
    assert_eq!(bank.read(0), 0);
    assert_eq!(FULL_SCALE, 1 << 23);
    assert_eq!(MAX_CAPACITY, u32::MAX as usize);
}
