use vstd::prelude::*;
use std::time::{Duration, Instant};

use crate::time::{duration_since, elapsed_between, instant_now};

verus! {

/// Measures the time between frames.
pub struct FrameTimer {
    pub last_frame_time: Instant,
}

impl FrameTimer {
    /// A timer started now.
    pub fn new() -> (timer: FrameTimer) {
        FrameTimer { last_frame_time: instant_now() }
    }

    /// The time since the last reset; the timer restarts at the clock
    /// reading `now`.
    pub fn get_delta_and_reset_timer_at(&mut self, now: Instant) -> (frame_time: Duration)
        ensures
            final(self).last_frame_time == now,
            frame_time == elapsed_between(now, old(self).last_frame_time),
    {
        let frame_time = duration_since(&now, &self.last_frame_time);
        self.last_frame_time = now;
        frame_time
    }

    /// The time since the last reset; the timer restarts now (at a clock
    /// reading that is not stated).
    pub fn get_delta_and_reset_timer(&mut self) -> (frame_time: Duration)
        ensures
            frame_time == elapsed_between(final(self).last_frame_time, old(self).last_frame_time),
    {
        let now = instant_now();
        self.get_delta_and_reset_timer_at(now)
    }
}

} // verus!
