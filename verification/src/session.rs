//! The per-tick playback state machine and the file playlist.
//!
//! Each redraw opportunity becomes one of three things: nothing at all
//! while the surface is not yet configured, a gated no-op while the target
//! frame interval has not elapsed, or an accepted tick that advances
//! playback — sample the external clock's phase, resolve it to a frame
//! index, upload and draw.  The decision is taken here on plain values;
//! the application performs it.

use crate::limiter::FrameLimiter;
use crate::position::{clamped_index, frame_index, Position};
use vstd::prelude::*;

verus! {

/// What one redraw opportunity amounts to.
#[derive(Clone, Copy, Debug, PartialEq, Eq, Structural)]
pub enum TickDecision {
    /// The surface is not configured yet: ignore the request entirely.
    Idle,
    /// Too soon after the last accepted tick: draw nothing, just ask for a
    /// future redraw.
    Gated,
    /// Advance playback: show the frame at this index, draw, and ask for
    /// the next redraw.
    Advance { frame_index: usize },
}

/// The transient state a running player carries between ticks.
pub struct PlaybackSession {
    pub limiter: FrameLimiter,
    /// Whether a resize event has configured the surface; until then every
    /// redraw request is ignored.
    pub surface_configured: bool,
}

impl PlaybackSession {
    pub open spec fn wf(&self) -> bool {
        self.limiter.wf()
    }

    pub fn new(target_fps: u32, now_micros: u64) -> (s: PlaybackSession)
        requires
            target_fps >= 1,
        ensures
            s.wf(),
            !s.surface_configured,
            s.limiter.target_fps == target_fps,
            s.limiter.last_frame_time_micros == now_micros,
    {
        PlaybackSession { limiter: FrameLimiter::new(target_fps, now_micros), surface_configured: false }
    }

    /// Notes that a resize event has configured the surface, which lets
    /// redraw requests through from now on.
    pub fn on_surface_configured(&mut self)
        requires
            old(self).wf(),
        ensures
            final(self).wf(),
            final(self).surface_configured,
            final(self).limiter == old(self).limiter,
    {
        self.surface_configured = true;
    }

    /// Decides one redraw opportunity at `now_micros`, for a clip of
    /// `frame_count` cached frames and the externally supplied phase:
    /// idle until the surface is configured, gated until the target
    /// interval has elapsed, otherwise an advance to the frame the phase
    /// selects.  Only an accepted tick moves the limiter's reference
    /// point.
    pub fn tick(&mut self, now_micros: u64, phase: &Position, frame_count: usize) -> (d:
        TickDecision)
        requires
            old(self).wf(),
            phase.wf(),
            frame_count >= 1,
            now_micros >= old(self).limiter.last_frame_time_micros,
        ensures
            final(self).wf(),
            final(self).surface_configured == old(self).surface_configured,
            final(self).limiter.target_fps == old(self).limiter.target_fps,
            final(self).limiter.frame_duration_micros == old(self).limiter.frame_duration_micros,
            !old(self).surface_configured ==> d == TickDecision::Idle
                && *final(self) == *old(self),
            old(self).surface_configured && (now_micros - old(self).limiter.last_frame_time_micros
                < old(self).limiter.frame_duration_micros) ==> d == TickDecision::Gated
                && *final(self) == *old(self),
            old(self).surface_configured && (now_micros - old(self).limiter.last_frame_time_micros
                >= old(self).limiter.frame_duration_micros) ==> d == (TickDecision::Advance {
                frame_index: clamped_index(
                    phase.num as int,
                    phase.den as int,
                    frame_count as int,
                ) as usize,
            }) && final(self).limiter.last_frame_time_micros == now_micros,
    {
        if !self.surface_configured {
            return TickDecision::Idle;
        }
        if self.limiter.should_render(now_micros) {
            let i = frame_index(phase, frame_count);
            TickDecision::Advance { frame_index: i }
        } else {
            TickDecision::Gated
        }
    }
}

/// The files the player can step through with the arrow keys, reduced to
/// their count and the index of the active one.
pub struct Playlist {
    /// How many files there are; at least the one that was opened.
    pub count: usize,
    /// The index of the active file.
    pub current: usize,
}

impl Playlist {
    pub open spec fn wf(&self) -> bool {
        &&& self.count >= 1
        &&& self.current < self.count
    }

    pub fn new(count: usize, current: usize) -> (p: Playlist)
        requires
            current < count,
        ensures
            p.wf(),
            p.count == count,
            p.current == current,
    {
        Playlist { count, current }
    }

    /// The file a previous-file request would load: the one before the
    /// active file, or nothing at the start of the list.
    pub fn prev_index(&self) -> (r: Option<usize>)
        requires
            self.wf(),
        ensures
            r is Some <==> self.current > 0,
            r matches Some(i) ==> i + 1 == self.current,
    {
        if self.current > 0 {
            Option::Some(self.current - 1)
        } else {
            Option::None
        }
    }

    /// The file a next-file request would load: the one after the active
    /// file, or nothing at the end of the list.
    pub fn next_index(&self) -> (r: Option<usize>)
        requires
            self.wf(),
        ensures
            r is Some <==> self.current + 1 < self.count,
            r matches Some(i) ==> i == self.current + 1,
    {
        if self.current + 1 < self.count {
            Option::Some(self.current + 1)
        } else {
            Option::None
        }
    }

    /// Makes a successfully loaded file the active one.  A load that
    /// failed is never committed: the previous file stays active.
    pub fn commit_load(&mut self, index: usize)
        requires
            old(self).wf(),
            index < old(self).count,
        ensures
            final(self).wf(),
            final(self).current == index,
            final(self).count == old(self).count,
    {
        self.current = index;
    }
}

} // verus!
