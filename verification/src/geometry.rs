//! Aspect-ratio-preserving viewport geometry.
//!
//! The video quad is scaled so that the picture keeps its own aspect ratio
//! inside an arbitrarily shaped window: the relatively narrower axis of the
//! window stays at full scale and the other axis is compressed, which
//! letterboxes or pillarboxes the picture.  Scales are exact rationals built
//! from the two aspect ratios' cross products, so no rounding enters the
//! decision of which axis to compress.

use vstd::arithmetic::mul::{lemma_mul_strictly_positive, lemma_mul_upper_bound};
use vstd::prelude::*;

verus! {

/// A scale factor in (0, 1]: the fraction `num / den` of an axis that the
/// video quad occupies.
#[derive(Clone, Copy, Debug, PartialEq, Eq, Structural)]
pub struct Scale {
    pub num: u64,
    pub den: u64,
}

impl Scale {
    pub open spec fn wf(&self) -> bool {
        1 <= self.num <= self.den
    }

    /// Full scale: the axis is not compressed at all.
    pub open spec fn is_full(&self) -> bool {
        self.num == self.den
    }
}

/// The video is relatively wider than the window: its aspect ratio
/// `vw / vh` exceeds the window's `ww / wh`, compared by cross products.
pub open spec fn video_wider(vw: int, vh: int, ww: int, wh: int) -> bool {
    vw * wh > ww * vh
}

/// The pair `(sx, sy)` scales the quad for video `vw x vh` in window
/// `ww x wh`: the wider medium keeps its axis full; the other axis is the
/// ratio of the two aspect ratios.
pub open spec fn scales_for(vw: int, vh: int, ww: int, wh: int, sx: Scale, sy: Scale) -> bool {
    if video_wider(vw, vh, ww, wh) {
        &&& sx.num == 1
        &&& sx.den == 1
        &&& sy.num == ww * vh
        &&& sy.den == vw * wh
    } else {
        &&& sx.num == vw * wh
        &&& sx.den == ww * vh
        &&& sy.num == 1
        &&& sy.den == 1
    }
}

/// Computes the quad scale that fits video `video_w x video_h` into window
/// `window_w x window_h` while preserving the video's aspect ratio.
///
/// Exactly the narrower-fitting axis is compressed: a relatively wider
/// video is letterboxed (top/bottom bars), a relatively taller one is
/// pillarboxed (left/right bars); equal aspect ratios fill the window.
pub fn aspect_scale(video_w: u32, video_h: u32, window_w: u32, window_h: u32) -> (s: (
    Scale,
    Scale,
))
    requires
        video_w >= 1,
        video_h >= 1,
        window_w >= 1,
        window_h >= 1,
    ensures
        scales_for(video_w as int, video_h as int, window_w as int, window_h as int, s.0, s.1),
        s.0.wf(),
        s.1.wf(),
        s.0.is_full() || s.1.is_full(),
{
    proof {
        lemma_mul_upper_bound(video_w as int, u32::MAX as int, window_h as int, u32::MAX as int);
        lemma_mul_upper_bound(window_w as int, u32::MAX as int, video_h as int, u32::MAX as int);
        lemma_mul_strictly_positive(video_w as int, window_h as int);
        lemma_mul_strictly_positive(window_w as int, video_h as int);
    }
    let video_cross: u64 = (video_w as u64) * (window_h as u64);
    let window_cross: u64 = (window_w as u64) * (video_h as u64);
    if video_cross > window_cross {
        (Scale { num: 1, den: 1 }, Scale { num: window_cross, den: video_cross })
    } else {
        (Scale { num: video_cross, den: window_cross }, Scale { num: 1, den: 1 })
    }
}

} // verus!
