//! Frame-rate limiting.
//!
//! Redraw opportunities arrive at the display's pace; the limiter caps how
//! often a tick is accepted at a fixed target rate.  The target interval is
//! a ceiling on the render rate, not a guarantee: a late tick simply
//! becomes the new reference point for the next one.  Time is wall-clock
//! microseconds from a monotonic source supplied by the caller.

use vstd::prelude::*;

verus! {

/// Gates ticks so that at most one is accepted per target interval.
pub struct FrameLimiter {
    /// The target rate, in accepted ticks per second.
    pub target_fps: u32,
    /// The target interval: a tick is accepted only this long after the
    /// previously accepted one.
    pub frame_duration_micros: u64,
    /// When the last accepted tick happened.
    pub last_frame_time_micros: u64,
}

impl FrameLimiter {
    pub open spec fn wf(&self) -> bool {
        &&& self.target_fps >= 1
        &&& self.frame_duration_micros == 1_000_000 as int / self.target_fps as int
    }

    /// A limiter aiming at `target_fps` accepted ticks per second, with the
    /// given moment as its starting reference point.
    pub fn new(target_fps: u32, now_micros: u64) -> (l: FrameLimiter)
        requires
            target_fps >= 1,
        ensures
            l.wf(),
            l.target_fps == target_fps,
            l.last_frame_time_micros == now_micros,
    {
        FrameLimiter {
            target_fps,
            frame_duration_micros: 1_000_000u64 / (target_fps as u64),
            last_frame_time_micros: now_micros,
        }
    }

    /// Decides whether a tick at `now_micros` is accepted: it is exactly
    /// when a full target interval has elapsed since the last accepted
    /// tick.  An accepted tick becomes the new reference point; a gated
    /// one leaves the limiter untouched.
    pub fn should_render(&mut self, now_micros: u64) -> (render: bool)
        requires
            old(self).wf(),
            now_micros >= old(self).last_frame_time_micros,
        ensures
            final(self).wf(),
            render <==> now_micros - old(self).last_frame_time_micros >= old(
                self,
            ).frame_duration_micros,
            render ==> final(self).last_frame_time_micros == now_micros,
            !render ==> final(self).last_frame_time_micros == old(self).last_frame_time_micros,
            final(self).target_fps == old(self).target_fps,
            final(self).frame_duration_micros == old(self).frame_duration_micros,
    {
        let elapsed = now_micros - self.last_frame_time_micros;
        if elapsed >= self.frame_duration_micros {
            self.last_frame_time_micros = now_micros;
            true
        } else {
            false
        }
    }
}

} // verus!
