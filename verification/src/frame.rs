//! Geometry of captured frames and the copy from a captured frame into
//! the byte buffer handed to the video encoder.

use vstd::prelude::*;

verus! {

/// The display height rounded down to an even number of rows, as the
/// video encoder requires.
pub fn adjusted_height(height: usize) -> (r: usize)
    ensures
        r % 2 == 0,
        r <= height,
        height - r <= 1,
{
    if height % 2 == 0 {
        height
    } else {
        height - 1
    }
}

/// The byte size of one frame: four bytes per pixel.
pub fn capture_buffer_size(width: usize, adjusted_height: usize) -> (r: usize)
    requires
        width * adjusted_height * 4 <= usize::MAX,
    ensures
        r == width * adjusted_height * 4,
{
    width * adjusted_height * 4
}

/// Copy the rows of a captured frame into one contiguous buffer for the
/// encoder pipe.  The capture may hand back more bytes than one frame
/// holds; only the first `capture_size` bytes belong to the frame.
pub fn pack_frame(frame: &[u8], adjusted_height: usize, capture_size: usize) -> (r: Vec<u8>)
    requires
        capture_size <= frame@.len(),
        adjusted_height > 0,
        capture_size % adjusted_height == 0,
    ensures
        r@ == frame@.subrange(0, capture_size as int),
{
    let mut out: Vec<u8> = Vec::with_capacity(capture_size);
    let mut k: usize = 0;
    while k < capture_size
        invariant
            k <= capture_size <= frame@.len(),
            out@ == frame@.subrange(0, k as int),
        decreases capture_size - k,
    {
        out.push(frame[k]);
        proof {
            assert(out@ =~= frame@.subrange(0, k + 1));
        }
        k = k + 1;
    }
    out
}

} // verus!
