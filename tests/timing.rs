use simulation_engine::{Clock, Frame, Timestamp};

fn wait_nanos(clock: &Clock, nanos: u64) {
    let start = clock.now_nanos();
    while clock.now_nanos() - start < nanos {}
}

#[test]
fn empty_timestamp_has_no_elapsed_time() {
    let t = Timestamp::empty();
    assert!(t.is_empty());
    assert_eq!(t.elapsed_at(0), 0);
    assert_eq!(t.elapsed_at(123_456_789), 0);
    assert_eq!(t.elapsed_at(u64::MAX), 0);
    let clock = Clock::new();
    assert_eq!(t.elapsed(&clock), 0);
}

#[test]
fn recorded_timestamp_elapsed() {
    let t = Timestamp::at(1_000);
    assert!(!t.is_empty());
    assert_eq!(t.elapsed_at(1_000), 0);
    assert_eq!(t.elapsed_at(2_500), 1_500);
    // A reading taken before the point counts as no time.
    assert_eq!(t.elapsed_at(500), 0);
}

#[test]
fn delta_is_distance_between_points() {
    let a = Timestamp::at(1_000);
    let b = Timestamp::at(4_000);
    assert_eq!(a.delta(&b), 3_000);
    assert_eq!(b.delta(&a), -3_000);
    assert_eq!(a.delta(&Timestamp::empty()), 0);
    assert_eq!(Timestamp::empty().delta(&b), 0);
    assert_eq!(Timestamp::at(0).delta(&Timestamp::at(u64::MAX)), u64::MAX as i128);
}

#[test]
fn clock_readings_do_not_go_back() {
    let clock = Clock::new();
    let first = clock.now_nanos();
    let second = clock.now_nanos();
    assert!(second >= first);
    let t = Timestamp::now(&clock);
    assert!(!t.is_empty());
    wait_nanos(&clock, 2_000_000);
    assert!(t.elapsed(&clock) >= 2_000_000);
}

#[test]
fn frame_in_flight_has_zero_frame_time() {
    let f = Frame::new_at(5_000);
    assert!(f.end_time().is_empty());
    assert_eq!(f.frame_time_ns(), 0);
    assert_eq!(Frame::empty().frame_time_ns(), 0);
    let clock = Clock::new();
    assert_eq!(Frame::new(&clock).frame_time_ns(), 0);
}

#[test]
fn ended_frame_time() {
    let mut f = Frame::new_at(5_000);
    f.end_at(21_000);
    assert_eq!(f.frame_time_ns(), 16_000);
    assert_eq!(f.start_time(), Timestamp::at(5_000));
    assert_eq!(f.end_time(), Timestamp::at(21_000));
    f.begin_at(6_000);
    assert_eq!(f.frame_time_ns(), 15_000);
}

#[test]
fn frame_with_empty_start_has_zero_frame_time() {
    let mut f = Frame::empty();
    f.end_at(9_000);
    assert_eq!(f.frame_time_ns(), 0);
    assert_eq!(f.delta_time_at(10_000), 0);
}

#[test]
fn frame_delta_time_from_start() {
    let f = Frame::new_at(1_000_000);
    assert_eq!(f.delta_time_at(17_666_667), 16_666_667);
}

#[test]
fn frame_begin_end_with_clock() {
    let clock = Clock::new();
    let mut f = Frame::empty();
    f.begin(&clock);
    wait_nanos(&clock, 1_000_000);
    f.end(&clock);
    assert!(f.frame_time_ns() >= 1_000_000);
    assert!(f.delta_time(&clock) >= 1_000_000);
}
