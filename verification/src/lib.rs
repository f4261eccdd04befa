//! Beat-synchronised video playback core.
//!
//! A clip is decoded once into an in-memory frame cache; the frame shown at
//! any moment is selected by a fractional position in [0, 1] supplied by an
//! external musical clock, not by elapsed playback time.  The library holds
//! the verified logic of that pipeline: position-to-frame mapping, cache
//! population, texture lifecycle and aspect-ratio geometry for the render
//! surface, frame-rate limiting, and the per-tick playback state machine.
//! Window, decoder and GPU plumbing live outside the library and exchange
//! plain values with it.

pub mod clip;
pub mod frame;
pub mod geometry;
pub mod input;
pub mod limiter;
pub mod position;
pub mod render;
pub mod session;
