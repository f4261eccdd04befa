//! Decoded frames and tight repacking of their pixel rows.
//!
//! A decoder hands back each frame as `height` rows of `stride` bytes, where
//! `stride` may exceed the `4 * width` pixel bytes a row actually carries,
//! because of memory alignment.  The GPU upload wants rows packed tightly;
//! copying the padding verbatim would smear garbage columns across the
//! picture.  `pack_frame_rows` cuts every row to its pixel bytes.

use vstd::arithmetic::div_mod::{lemma_fundamental_div_mod, lemma_fundamental_div_mod_converse};
use vstd::arithmetic::mul::lemma_mul_is_commutative;
use vstd::prelude::*;

verus! {

/// One fully decoded, RGBA-converted video frame.
///
/// `data` holds `height` rows of `stride` bytes each; within a row the first
/// `4 * width` bytes are pixels and the rest is alignment padding.
pub struct DecodedFrame {
    pub width: u32,
    pub height: u32,
    pub stride: u32,
    pub data: Vec<u8>,
}

impl DecodedFrame {
    /// At least one pixel, rows wide enough for their pixels, and a buffer
    /// of exactly `height` rows of `stride` bytes.
    pub open spec fn wf(&self) -> bool {
        &&& self.width >= 1
        &&& self.height >= 1
        &&& self.stride >= 4 * self.width
        &&& self.data@.len() == self.stride * self.height
    }

    /// Rows carry no padding: the buffer is already exactly the pixels.
    pub open spec fn tightly_packed(&self) -> bool {
        self.stride == 4 * self.width
    }

    pub fn new(width: u32, height: u32, stride: u32, data: Vec<u8>) -> (f: DecodedFrame)
        requires
            width >= 1,
            height >= 1,
            stride >= 4 * width,
            data@.len() == stride * height,
        ensures
            f.wf(),
            f.width == width,
            f.height == height,
            f.stride == stride,
            f.data == data,
    {
        DecodedFrame { width, height, stride, data }
    }
}

/// The number of pixel bytes of a frame: four per pixel.
pub open spec fn packed_len(f: DecodedFrame) -> int {
    4 * f.width * f.height
}

/// The tightly packed pixel bytes of a frame: row after row, each cut to its
/// `4 * width` pixel bytes, the alignment padding dropped.
pub open spec fn packed_bytes(f: DecodedFrame) -> Seq<u8>
    recommends
        f.wf(),
{
    Seq::new(
        packed_len(f) as nat,
        |i: int|
            f.data@[(i / (4 * f.width as int)) * (f.stride as int) + i % (4 * f.width as int)],
    )
}

/// Copies the pixel bytes of a frame into a tightly packed buffer, dropping
/// per-row alignment padding.  On a frame whose rows are already tight this
/// is a plain copy of the whole buffer.
#[verifier::loop_isolation(false)]
pub fn pack_frame_rows(f: &DecodedFrame) -> (out: Vec<u8>)
    requires
        f.wf(),
    ensures
        out@.len() == packed_len(*f),
        out@ == packed_bytes(*f),
        f.tightly_packed() ==> out@ == f.data@,
{
    let row: usize = 4 * (f.width as usize);
    let stride: usize = f.stride as usize;
    let height: usize = f.height as usize;
    let n: usize = f.data.len();
    assert(n == (stride as int) * (height as int));
    let mut out: Vec<u8> = Vec::new();
    let mut y: usize = 0;
    while y < height
        invariant
            y <= height,
            out@.len() == y * (row as int),
            forall|j: int|
                0 <= j < out@.len() ==> out@[j] == f.data@[(j / (row as int)) * (stride as int) + j
                    % (row as int)],
        decreases height - y,
    {
        let mut x: usize = 0;
        while x < row
            invariant
                x <= row,
                y < height,
                out@.len() == y * (row as int) + x,
                forall|j: int|
                    0 <= j < out@.len() ==> out@[j] == f.data@[(j / (row as int)) * (stride as int)
                        + j % (row as int)],
            decreases row - x,
        {
            assert(y * (stride as int) + x < (stride as int) * (height as int))
                by (nonlinear_arith)
                requires
                    y < height,
                    0 <= x < stride,
                    stride >= 1,
            ;
            let byte = f.data[y * stride + x];
            out.push(byte);
            proof {
                lemma_fundamental_div_mod_converse(
                    y * (row as int) + x,
                    row as int,
                    y as int,
                    x as int,
                );
            }
            x = x + 1;
        }
        proof {
            assert(y * (row as int) + row == (y + 1) * (row as int)) by (nonlinear_arith);
        }
        y = y + 1;
    }
    proof {
        assert((height as int) * (row as int) == packed_len(*f)) by (nonlinear_arith)
            requires
                row == 4 * f.width,
                height == f.height,
        ;
        assert(out@ =~= packed_bytes(*f));
        if f.tightly_packed() {
            assert forall|j: int| 0 <= j < out@.len() implies out@[j] == f.data@[j] by {
                lemma_fundamental_div_mod(j, row as int);
                lemma_mul_is_commutative(row as int, j / (row as int));
            }
            assert((stride as int) * (height as int) == packed_len(*f)) by (nonlinear_arith)
                requires
                    stride == 4 * f.width,
                    height == f.height,
            ;
            assert(out@ =~= f.data@);
        }
    }
    out
}

} // verus!
