//! Playback positions and the position-to-frame-index mapping.
//!
//! The external musical clock reports how far through its cycle it is as a
//! fraction of the cycle.  The application hands that fraction to the
//! library exactly, as a numerator over a positive denominator, and the
//! library maps it to a frame index by flooring `position * len` and
//! clamping into `[0, len - 1]`.  Clock drift can push the fraction below
//! zero or above one; the mapping clamps and never fails.

use vstd::arithmetic::div_mod::{
    lemma_div_is_ordered, lemma_div_multiples_vanish, lemma_div_of0, lemma_div_pos_is_pos,
    lemma_multiply_divide_lt,
};
use vstd::arithmetic::mul::{
    lemma_mul_inequality, lemma_mul_is_commutative, lemma_mul_nonnegative, lemma_mul_upper_bound,
    lemma_mul_strict_inequality,
};
use vstd::prelude::*;

verus! {

/// A playback position: the fraction `num / den` of the way through a clip.
///
/// The denominator is always positive.  The numerator is unconstrained, so
/// a drifting clock value below zero or above one cycle is representable
/// and is clamped by the index mapping rather than rejected.
pub struct Position {
    pub num: i64,
    pub den: i64,
}

impl Position {
    pub open spec fn wf(&self) -> bool {
        self.den >= 1
    }

    pub fn new(num: i64, den: i64) -> (p: Position)
        requires
            den >= 1,
        ensures
            p.wf(),
            p.num == num,
            p.den == den,
    {
        Position { num, den }
    }

    /// The position `millionths / 1_000_000`, the granularity at which the
    /// application samples the external clock's phase.
    pub fn from_millionths(millionths: i64) -> (p: Position)
        ensures
            p.wf(),
            p.num == millionths,
            p.den == 1_000_000,
    {
        Position { num: millionths, den: 1_000_000 }
    }
}

/// The index of the frame shown at position `num / den` in a cache of `len`
/// frames: `floor((num / den) * len)`, clamped into `[0, len - 1]`.
pub open spec fn clamped_index(num: int, den: int, len: int) -> int
    recommends
        den >= 1,
        len >= 1,
{
    let raw = (num * len) / den;
    if raw < 0 {
        0
    } else if raw >= len {
        len - 1
    } else {
        raw
    }
}

/// Maps a position to a frame index in a cache of `len` frames.
///
/// This is the only position-to-index mapping in the library: flooring,
/// then clamping, per `clamped_index`.
pub fn frame_index(pos: &Position, len: usize) -> (i: usize)
    requires
        pos.wf(),
        len >= 1,
    ensures
        i == clamped_index(pos.num as int, pos.den as int, len as int),
        i < len,
{
    if pos.num <= 0 {
        proof {
            lemma_nonpositive_numerator_selects_first(
                pos.num as int,
                pos.den as int,
                len as int,
            );
        }
        0
    } else if pos.num >= pos.den {
        proof {
            lemma_full_numerator_selects_last(pos.num as int, pos.den as int, len as int);
        }
        len - 1
    } else {
        proof {
            lemma_mul_upper_bound(pos.num as int, i64::MAX as int, len as int, usize::MAX as int);
        }
        let q: u128 = (pos.num as u128) * (len as u128) / (pos.den as u128);
        proof {
            lemma_interior_numerator_floors(pos.num as int, pos.den as int, len as int);
            assert(q < len as u128);
        }
        q as usize
    }
}

/// A position at or below the start of the cycle selects the first frame.
proof fn lemma_nonpositive_numerator_selects_first(num: int, den: int, len: int)
    requires
        den >= 1,
        len >= 1,
        num <= 0,
    ensures
        clamped_index(num, den, len) == 0,
{
    lemma_mul_inequality(num, 0, len);
    lemma_div_is_ordered(num * len, 0, den);
    lemma_div_of0(den);
}

/// A position at or beyond the end of the cycle selects the last frame.
proof fn lemma_full_numerator_selects_last(num: int, den: int, len: int)
    requires
        den >= 1,
        len >= 1,
        num >= den,
    ensures
        clamped_index(num, den, len) == len - 1,
{
    lemma_mul_inequality(den, num, len);
    lemma_div_is_ordered(den * len, num * len, den);
    lemma_mul_is_commutative(den, len);
    lemma_div_multiples_vanish(len, den);
}

/// Strictly inside the cycle, the floored index needs no clamping: it
/// already lies in `[0, len - 1]`.
proof fn lemma_interior_numerator_floors(num: int, den: int, len: int)
    requires
        den >= 1,
        len >= 1,
        0 < num < den,
    ensures
        0 <= (num * len) / den < len,
        clamped_index(num, den, len) == (num * len) / den,
{
    lemma_mul_nonnegative(num, len);
    lemma_div_pos_is_pos(num * len, den);
    lemma_mul_strict_inequality(num, den, len);
    lemma_mul_is_commutative(num, len);
    lemma_mul_is_commutative(den, len);
    lemma_multiply_divide_lt(num * len, den, len);
}

/// For any position in the unit interval and a non-empty cache, the
/// selected index is in `[0, len - 1]`; position zero selects the first
/// frame and position one the last.
pub proof fn lemma_position_in_unit_selects_in_range(num: int, den: int, len: int)
    requires
        den >= 1,
        len >= 1,
        0 <= num <= den,
    ensures
        0 <= clamped_index(num, den, len) < len,
        num == 0 ==> clamped_index(num, den, len) == 0,
        num == den ==> clamped_index(num, den, len) == len - 1,
{
    lemma_out_of_range_position_clamps(num, den, len);
    if num == 0 {
        lemma_nonpositive_numerator_selects_first(num, den, len);
    }
    if num == den {
        lemma_full_numerator_selects_last(num, den, len);
    }
}

/// Whatever the numerator — negative, or beyond the denominator — the
/// selected index stays in `[0, len - 1]`: out-of-range positions clamp
/// instead of erring.
pub proof fn lemma_out_of_range_position_clamps(num: int, den: int, len: int)
    requires
        den >= 1,
        len >= 1,
    ensures
        0 <= clamped_index(num, den, len) < len,
{
    if num <= 0 {
        lemma_nonpositive_numerator_selects_first(num, den, len);
    } else if num >= den {
        lemma_full_numerator_selects_last(num, den, len);
    } else {
        lemma_interior_numerator_floors(num, den, len);
    }
}

} // verus!
