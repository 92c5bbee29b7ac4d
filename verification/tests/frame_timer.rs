use std::time::{Duration, Instant};

use rendering_engine::frame_timer::FrameTimer;

#[test]
fn reset_at_returns_elapsed_time_and_restarts() {
    let start = Instant::now();
    let mut timer = FrameTimer { last_frame_time: start };
    let later = start + Duration::from_millis(16);
    assert_eq!(timer.get_delta_and_reset_timer_at(later), Duration::from_millis(16));
    assert_eq!(timer.last_frame_time, later);
    // a reading before the last reset gives zero
    assert_eq!(timer.get_delta_and_reset_timer_at(start), Duration::ZERO);
}

#[test]
fn reset_now_moves_the_timer_forward() {
    let mut timer = FrameTimer::new();
    let before = timer.last_frame_time;
    let delta = timer.get_delta_and_reset_timer();
    assert!(timer.last_frame_time >= before);
    assert_eq!(timer.last_frame_time.duration_since(before), delta);
}
