//! Clips and their frame cache.
//!
//! A clip is one source media file, decoded in full into an ordered,
//! in-memory sequence of RGBA frames before playback begins.  Opening
//! selects the container's best video stream and fails without one;
//! caching appends every frame the decoder emits, packets first and the
//! flushed tail last, in emission order, and discards everything on a
//! decode failure; lookup maps a playback position to a frame index in
//! constant time, clamping out-of-range positions.
//!
//! The decoder itself runs outside the library and exchanges plain values
//! with it: what it reported about the container comes in as
//! [`ContainerInfo`], what it emitted as [`DecodedFrame`]s.

use crate::frame::DecodedFrame;
use crate::position::{clamped_index, frame_index, Position};
use vstd::prelude::*;

verus! {

/// Pixel dimensions of a video stream.
#[derive(Clone, Copy, Debug, PartialEq, Eq, Structural)]
pub struct Size {
    pub width: u32,
    pub height: u32,
}

impl Size {
    pub fn new(width: u32, height: u32) -> (s: Size)
        ensures
            s.width == width,
            s.height == height,
    {
        Size { width, height }
    }

    pub fn height(&self) -> (h: u32)
        ensures
            h == self.height,
    {
        self.height
    }

    pub fn width(&self) -> (w: u32)
        ensures
            w == self.width,
    {
        self.width
    }
}

/// Why a clip could not be opened or cached.
#[derive(Clone, Copy, Debug, PartialEq, Eq, Structural)]
pub enum DecodeError {
    /// The container holds no video stream.
    NoVideoStream,
    /// No decoder could be instantiated for the stream's codec.
    CodecUnsupported,
    /// An unrecoverable error while draining the decoder.
    DecodeFailure,
}

/// What probing a container reported about its best video stream.
#[derive(Clone, Copy, Debug, PartialEq, Eq, Structural)]
pub struct VideoStreamInfo {
    /// The container-wide index of the selected stream.
    pub stream_index: usize,
    pub width: u32,
    pub height: u32,
    /// Whether a decoder could be instantiated for the stream's codec.
    pub codec_supported: bool,
}

/// What probing a container reported: its best video stream, if it has any
/// video stream at all.
#[derive(Clone, Copy, Debug)]
pub struct ContainerInfo {
    pub video: Option<VideoStreamInfo>,
}

/// One source media file with its fully decoded frame cache.
pub struct Clip {
    /// The container-wide index of the clip's video stream; packets of
    /// other streams are skipped.
    pub video_stream_index: usize,
    /// The stream's native dimensions; every cached frame has them.
    pub size: Size,
    /// The cached frames, in decode-emission order.
    pub frames: Vec<DecodedFrame>,
}

/// A probe report that a clip can be opened from: there is a video stream
/// and its codec is supported.
pub open spec fn opens_ok(info: ContainerInfo) -> bool {
    match info.video {
        Option::Some(v) => v.codec_supported,
        Option::None => false,
    }
}

/// What `Clip::new` returns for a probe report: no video stream and an
/// unsupported codec are rejected, in that order; otherwise a clip with an
/// empty cache carrying the stream's index and dimensions.
pub open spec fn open_outcome(info: ContainerInfo, r: Result<Clip, DecodeError>) -> bool {
    match info.video {
        Option::None => r == Result::<Clip, DecodeError>::Err(DecodeError::NoVideoStream),
        Option::Some(v) => if !v.codec_supported {
            r == Result::<Clip, DecodeError>::Err(DecodeError::CodecUnsupported)
        } else {
            match r {
                Result::Ok(c) => {
                    &&& c.video_stream_index == v.stream_index
                    &&& c.size.width == v.width
                    &&& c.size.height == v.height
                    &&& c.frames@.len() == 0
                },
                Result::Err(_) => false,
            }
        },
    }
}

impl Clip {
    /// Every cached frame is well formed and has the clip's dimensions.
    pub open spec fn wf(&self) -> bool {
        forall|i: int|
            0 <= i < self.frames@.len() ==> {
                &&& (#[trigger] self.frames@[i]).wf()
                &&& self.frames@[i].width == self.size.width
                &&& self.frames@[i].height == self.size.height
            }
    }

    /// Opens a clip from what probing the container reported.
    ///
    /// Succeeds if and only if the container has a video stream whose codec
    /// is supported; no clip is constructed otherwise.
    pub fn new(info: ContainerInfo) -> (r: Result<Clip, DecodeError>)
        ensures
            open_outcome(info, r),
            r is Ok <==> opens_ok(info),
            r matches Ok(c) ==> c.wf(),
    {
        match info.video {
            Option::None => Result::Err(DecodeError::NoVideoStream),
            Option::Some(v) => {
                if !v.codec_supported {
                    Result::Err(DecodeError::CodecUnsupported)
                } else {
                    Result::Ok(
                        Clip {
                            video_stream_index: v.stream_index,
                            size: Size { width: v.width, height: v.height },
                            frames: Vec::new(),
                        },
                    )
                }
            },
        }
    }

    /// Whether a packet of the given stream belongs to this clip: only
    /// packets of the selected video stream are decoded.
    pub fn accepts_packet(&self, stream_index: usize) -> (b: bool)
        ensures
            b == (stream_index == self.video_stream_index),
    {
        stream_index == self.video_stream_index
    }

    /// The number of cached frames.
    pub fn frame_count(&self) -> (n: usize)
        ensures
            n == self.frames@.len(),
    {
        self.frames.len()
    }

    /// Appends one emitted frame to the cache; frames are never reordered.
    pub fn push_frame(&mut self, f: DecodedFrame)
        requires
            old(self).wf(),
            f.wf(),
            f.width == old(self).size.width,
            f.height == old(self).size.height,
        ensures
            final(self).wf(),
            final(self).frames@ == old(self).frames@.push(f),
            final(self).size == old(self).size,
            final(self).video_stream_index == old(self).video_stream_index,
    {
        self.frames.push(f);
    }

    /// Empties the cache: a failed load leaves no partial result behind.
    pub fn discard_frames(&mut self)
        ensures
            final(self).wf(),
            final(self).frames@.len() == 0,
            final(self).size == old(self).size,
            final(self).video_stream_index == old(self).video_stream_index,
    {
        self.frames.clear();
    }

    /// Caches everything one decode pass emitted: the frames produced
    /// while draining the packets, then the tail the flush recovered, in
    /// emission order.  On a decode failure the cache is discarded whole —
    /// a clip whose caching failed holds no frames.
    pub fn cache_all_frames(
        &mut self,
        emitted: Vec<DecodedFrame>,
        flushed: Vec<DecodedFrame>,
        decode_failed: bool,
    ) -> (r: Result<(), DecodeError>)
        requires
            old(self).wf(),
            old(self).frames@.len() == 0,
            forall|i: int|
                0 <= i < emitted@.len() ==> {
                    &&& (#[trigger] emitted@[i]).wf()
                    &&& emitted@[i].width == old(self).size.width
                    &&& emitted@[i].height == old(self).size.height
                },
            forall|i: int|
                0 <= i < flushed@.len() ==> {
                    &&& (#[trigger] flushed@[i]).wf()
                    &&& flushed@[i].width == old(self).size.width
                    &&& flushed@[i].height == old(self).size.height
                },
        ensures
            final(self).wf(),
            final(self).size == old(self).size,
            final(self).video_stream_index == old(self).video_stream_index,
            r is Ok <==> !decode_failed,
            decode_failed ==> r == Result::<(), DecodeError>::Err(DecodeError::DecodeFailure)
                && final(self).frames@.len() == 0,
            !decode_failed ==> r == Result::<(), DecodeError>::Ok(()) && final(self).frames@
                == emitted@ + flushed@,
    {
        if decode_failed {
            self.frames.clear();
            Result::Err(DecodeError::DecodeFailure)
        } else {
            let mut emitted = emitted;
            let mut flushed = flushed;
            let ghost emitted_seq = emitted@;
            let ghost flushed_seq = flushed@;
            self.frames.append(&mut emitted);
            self.frames.append(&mut flushed);
            proof {
                assert(self.frames@ =~= emitted_seq + flushed_seq);
            }
            Result::Ok(())
        }
    }

    /// The frame shown at a playback position: index `floor(position *
    /// len)`, clamped into `[0, len - 1]` — out-of-range positions clamp
    /// rather than err.
    pub fn frame_at(&self, position: &Position) -> (f: &DecodedFrame)
        requires
            self.wf(),
            position.wf(),
            self.frames@.len() >= 1,
        ensures
            f == self.frames@[clamped_index(
                position.num as int,
                position.den as int,
                self.frames@.len() as int,
            )],
            f.wf(),
    {
        let i = frame_index(position, self.frames.len());
        &self.frames[i]
    }

    /// The frame shown at a playback position, under the name the playback
    /// loop calls it by.
    pub fn play_video_at_position(&self, position: &Position) -> (f: &DecodedFrame)
        requires
            self.wf(),
            position.wf(),
            self.frames@.len() >= 1,
        ensures
            f == self.frames@[clamped_index(
                position.num as int,
                position.den as int,
                self.frames@.len() as int,
            )],
            f.wf(),
    {
        self.frame_at(position)
    }
}

} // verus!
