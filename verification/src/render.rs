//! The render surface model: texture lifecycle, upload planning, and
//! per-tick GPU error recovery.
//!
//! The GPU device, swapchain and bind groups live outside the library; this
//! model decides everything about them that is logic rather than plumbing:
//! when the display texture must be reallocated (its dimensions always equal
//! the most recently uploaded frame's), what bytes are uploaded (tightly
//! packed pixels, never stride padding), how the quad is scaled (the
//! aspect-ratio geometry is recomputed on every window or video size
//! change, so it is never stale), and how each presentation failure is
//! answered.

use crate::frame::{packed_bytes, packed_len, pack_frame_rows, DecodedFrame};
use crate::geometry::{aspect_scale, scales_for, Scale};
use vstd::prelude::*;

verus! {

/// How a failure to present a frame is answered.
#[derive(Clone, Copy, Debug, PartialEq, Eq, Structural)]
pub enum RecoveryAction {
    /// Reconfigure the surface with the current dimensions and retry on the
    /// next tick.
    Reconfigure,
    /// Skip this tick and carry on.
    SkipTick,
    /// Terminate the playback loop cleanly.
    Terminate,
}

/// The kinds of presentation failure the platform surface can report.
#[derive(Clone, Copy, Debug, PartialEq, Eq, Structural)]
pub enum SurfaceErrorKind {
    /// The surface was lost and must be rebuilt.
    Lost,
    /// The surface no longer matches the window and must be reconfigured.
    Outdated,
    /// Acquiring the next image took too long.
    Timeout,
    /// The system is out of memory.
    OutOfMemory,
    /// Any other, unclassified failure.
    Other,
}

/// Losing or outdating the surface is recoverable by reconfiguring; a
/// timeout is transient and only skips the tick; out-of-memory and
/// unclassified failures are fatal.
pub open spec fn recovery_for(e: SurfaceErrorKind) -> RecoveryAction {
    match e {
        SurfaceErrorKind::Lost => RecoveryAction::Reconfigure,
        SurfaceErrorKind::Outdated => RecoveryAction::Reconfigure,
        SurfaceErrorKind::Timeout => RecoveryAction::SkipTick,
        SurfaceErrorKind::OutOfMemory => RecoveryAction::Terminate,
        SurfaceErrorKind::Other => RecoveryAction::Terminate,
    }
}

/// Classifies a presentation failure into the action the tick loop takes.
pub fn classify_surface_error(e: SurfaceErrorKind) -> (a: RecoveryAction)
    ensures
        a == recovery_for(e),
{
    match e {
        SurfaceErrorKind::Lost => RecoveryAction::Reconfigure,
        SurfaceErrorKind::Outdated => RecoveryAction::Reconfigure,
        SurfaceErrorKind::Timeout => RecoveryAction::SkipTick,
        SurfaceErrorKind::OutOfMemory => RecoveryAction::Terminate,
        SurfaceErrorKind::Other => RecoveryAction::Terminate,
    }
}

/// One planned texture upload: whether the GPU texture must be reallocated
/// first (the frame's dimensions differ from the texture's), and the
/// tightly packed pixel bytes to copy into it.
pub struct FrameUpload {
    pub recreated: bool,
    pub data: Vec<u8>,
}

/// The logical state of the render surface: window and texture dimensions
/// and the current quad scale.
///
/// Well-formedness ties the scale to the dimensions, so the geometry can
/// never go stale: every operation that changes either size recomputes it.
pub struct RenderSurface {
    pub window_width: u32,
    pub window_height: u32,
    pub texture_width: u32,
    pub texture_height: u32,
    pub scale_x: Scale,
    pub scale_y: Scale,
}

impl RenderSurface {
    pub open spec fn wf(&self) -> bool {
        &&& self.window_width >= 1
        &&& self.window_height >= 1
        &&& self.texture_width >= 1
        &&& self.texture_height >= 1
        &&& scales_for(
            self.texture_width as int,
            self.texture_height as int,
            self.window_width as int,
            self.window_height as int,
            self.scale_x,
            self.scale_y,
        )
        &&& self.scale_x.wf()
        &&& self.scale_y.wf()
    }

    /// A fresh surface for a window, with a 1x1 placeholder texture that
    /// the first uploaded frame will replace.
    pub fn new(window_width: u32, window_height: u32) -> (s: RenderSurface)
        requires
            window_width >= 1,
            window_height >= 1,
        ensures
            s.wf(),
            s.window_width == window_width,
            s.window_height == window_height,
            s.texture_width == 1,
            s.texture_height == 1,
    {
        let (scale_x, scale_y) = aspect_scale(1, 1, window_width, window_height);
        RenderSurface {
            window_width,
            window_height,
            texture_width: 1,
            texture_height: 1,
            scale_x,
            scale_y,
        }
    }

    /// Takes a reported window resize: a degenerate (zero) size is ignored,
    /// any other size is stored and the quad geometry recomputed for the
    /// unchanged video against the new window shape.
    pub fn on_window_resize(&mut self, new_width: u32, new_height: u32)
        requires
            old(self).wf(),
        ensures
            final(self).wf(),
            new_width == 0 || new_height == 0 ==> *final(self) == *old(self),
            new_width >= 1 && new_height >= 1 ==> {
                &&& final(self).window_width == new_width
                &&& final(self).window_height == new_height
                &&& final(self).texture_width == old(self).texture_width
                &&& final(self).texture_height == old(self).texture_height
            },
    {
        if new_width >= 1 && new_height >= 1 {
            self.window_width = new_width;
            self.window_height = new_height;
            let (scale_x, scale_y) = aspect_scale(
                self.texture_width,
                self.texture_height,
                self.window_width,
                self.window_height,
            );
            self.scale_x = scale_x;
            self.scale_y = scale_y;
        }
    }

    /// Replaces the display texture with one of exactly the given
    /// dimensions and recomputes the quad geometry for the new video shape
    /// against the unchanged window.
    pub fn recreate_texture(&mut self, width: u32, height: u32)
        requires
            old(self).wf(),
            width >= 1,
            height >= 1,
        ensures
            final(self).wf(),
            final(self).texture_width == width,
            final(self).texture_height == height,
            final(self).window_width == old(self).window_width,
            final(self).window_height == old(self).window_height,
    {
        self.texture_width = width;
        self.texture_height = height;
        let (scale_x, scale_y) = aspect_scale(
            self.texture_width,
            self.texture_height,
            self.window_width,
            self.window_height,
        );
        self.scale_x = scale_x;
        self.scale_y = scale_y;
    }

    /// Plans the upload of a frame: recreates the texture first if the
    /// frame's dimensions differ from the texture's, and hands back the
    /// tightly packed pixel bytes — stride padding never reaches the GPU.
    pub fn update_texture_with_frame(&mut self, frame: &DecodedFrame) -> (u: FrameUpload)
        requires
            old(self).wf(),
            frame.wf(),
        ensures
            final(self).wf(),
            final(self).texture_width == frame.width,
            final(self).texture_height == frame.height,
            final(self).window_width == old(self).window_width,
            final(self).window_height == old(self).window_height,
            u.recreated == (old(self).texture_width != frame.width || old(self).texture_height
                != frame.height),
            !u.recreated ==> *final(self) == *old(self),
            u.data@.len() == packed_len(*frame),
            u.data@ == packed_bytes(*frame),
            frame.tightly_packed() ==> u.data@ == frame.data@,
    {
        let recreated = self.texture_width != frame.width || self.texture_height != frame.height;
        if recreated {
            self.recreate_texture(frame.width, frame.height);
        }
        let data = pack_frame_rows(frame);
        FrameUpload { recreated, data }
    }
}

} // verus!
