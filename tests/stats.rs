use simulation_engine::{Frame, FrameHistory, FrameTimer, RateHistory};

fn frame(start: u64, length: u64) -> Frame {
    let mut f = Frame::new_at(start);
    f.end_at(start + length);
    f
}

#[test]
fn average_of_mixed_rates() {
    let mut rates = RateHistory::new();
    for _ in 0..10 {
        rates.push(Some(60_000));
    }
    for _ in 0..5 {
        rates.push(Some(30_000));
    }
    assert_eq!(rates.len(), 15);
    assert_eq!(rates.average_rate(), Some(50_000));
}

#[test]
fn average_of_no_rates_is_undefined() {
    assert_eq!(RateHistory::new().average_rate(), None);
}

#[test]
fn average_with_undefined_sample_is_undefined() {
    let mut rates = RateHistory::new();
    rates.push(None);
    rates.push(Some(60_000));
    assert_eq!(rates.average_rate(), None);
    for _ in 0..127 {
        rates.push(Some(60_000));
    }
    // The undefined sample has been evicted.
    assert_eq!(rates.get(0), Some(60_000));
    assert_eq!(rates.average_rate(), Some(60_000));
}

#[test]
fn average_rounds_down() {
    let mut rates = RateHistory::new();
    rates.push(Some(1));
    rates.push(Some(2));
    assert_eq!(rates.average_rate(), Some(1));
    let mut big = RateHistory::new();
    big.push(Some(u64::MAX));
    big.push(Some(u64::MAX));
    assert_eq!(big.average_rate(), Some(u64::MAX));
}

#[test]
fn mean_rate_of_empty_history_is_undefined() {
    assert_eq!(FrameHistory::new().mean_rate(), None);
}

#[test]
fn mean_rate_rounds_total_to_hundredths() {
    let mut h = FrameHistory::new();
    for i in 0..10u64 {
        h.push(frame(i * 20_000_000, 16_666_667));
    }
    // 0.16666667 s rounds to 0.17 s: 10 / 0.17 = 58.823... Hz.
    assert_eq!(h.mean_rate(), Some(58_823));
}

#[test]
fn mean_rate_exact() {
    let mut h = FrameHistory::new();
    for i in 0..4u64 {
        h.push(frame(i * 100_000_000, 50_000_000));
    }
    // 4 frames in 0.20 s: 20 Hz.
    assert_eq!(h.mean_rate(), Some(20_000));
}

#[test]
fn mean_rate_half_rounds_up() {
    let mut h = FrameHistory::new();
    h.push(frame(0, 5_000_000));
    // 0.005 s rounds to 0.01 s: 100 Hz.
    assert_eq!(h.mean_rate(), Some(100_000));
    let mut short = FrameHistory::new();
    short.push(frame(0, 4_999_999));
    // Rounds to no time at all: undefined.
    assert_eq!(short.mean_rate(), None);
}

#[test]
fn mean_rate_ignores_frames_in_flight() {
    let mut h = FrameHistory::new();
    h.push(frame(0, 100_000_000));
    h.push(Frame::new_at(200_000_000));
    // Two frames over 0.10 s: 20 Hz.
    assert_eq!(h.mean_rate(), Some(20_000));
}

#[test]
fn mean_rate_of_backward_time_is_undefined() {
    let mut f = Frame::new_at(100_000_000);
    f.end_at(0);
    let mut h = FrameHistory::new();
    h.push(f);
    assert_eq!(h.mean_rate(), None);
}

#[test]
fn timer_finalize_records_frames_and_rates() {
    let mut t = FrameTimer::new();
    assert_eq!(t.last_frame(), None);
    assert_eq!(t.frame_rate(), None);
    assert_eq!(t.average_frame_rate(), None);
    t.init_at(0);
    t.finalize_at(50_000_000);
    assert_eq!(t.frames().len(), 1);
    assert_eq!(t.last_frame(), Some(frame(0, 50_000_000)));
    assert_eq!(t.current_frame(), Frame::new_at(50_000_000));
    // One frame in 0.05 s: 20 Hz.
    assert_eq!(t.frame_rate(), Some(20_000));
    assert_eq!(t.rates().len(), 1);
    assert_eq!(t.rates().get(0), Some(20_000));
    t.finalize_at(75_000_000);
    // Two frames in 0.075 s, rounded to 0.08 s: 25 Hz.
    assert_eq!(t.frame_rate(), Some(25_000));
    assert_eq!(t.average_frame_rate(), Some(22_500));
    assert_eq!(t.last_frame().unwrap().delta_time_at(100_000_000), 50_000_000);
}

#[test]
fn timer_histories_stay_bounded() {
    let mut t = FrameTimer::new();
    t.init_at(0);
    for i in 1..=300u64 {
        t.finalize_at(i * 10_000_000);
    }
    assert_eq!(t.frames().len(), 128);
    assert_eq!(t.rates().len(), 128);
    // 128 frames of 0.01 s: 100 Hz.
    assert_eq!(t.frame_rate(), Some(100_000));
    assert_eq!(t.average_frame_rate(), Some(100_000));
}

#[test]
fn timer_with_clock() {
    let clock = simulation_engine::Clock::new();
    let mut t = FrameTimer::new();
    t.init(&clock);
    t.finalize(&clock);
    assert_eq!(t.frames().len(), 1);
    assert!(t.last_frame().unwrap().end_time().elapsed_at(u64::MAX) > 0);
    assert!(!t.current_frame().start_time().is_empty());
}
