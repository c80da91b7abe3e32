//! The Pixel Plane Extractor: copies luma and chroma plane bytes out of
//! a platform-owned pixel buffer into owned memory, under the buffer's
//! exclusive lock, which is released on every exit path.

use vstd::prelude::*;
use crate::frame::{FrameView, YUVFrame, view_opt};
use crate::sample::PixelBuffer;

verus! {

/// A buffer yields a frame: both dimensions are non-zero and both plane
/// base addresses are non-null.
pub open spec fn spec_extract_accepts(b: PixelBuffer) -> bool {
    &&& b.width > 0
    &&& b.height > 0
    &&& b.luma.base_present
    &&& b.chroma.base_present
}

/// What extraction returns for a given buffer and timestamp: no frame
/// for a buffer with a zero dimension or a null plane, otherwise a
/// frame holding the first `height * stride` luma bytes and the first
/// `height * stride / 2` chroma bytes.
pub open spec fn spec_extract(b: PixelBuffer, display_time: u64) -> Option<FrameView> {
    if spec_extract_accepts(b) {
        Some(FrameView {
            display_time: display_time,
            width: b.width as int,
            height: b.height as int,
            luminance: b.luma.data@.subrange(0, b.height * b.luma.stride),
            luminance_stride: b.luma.stride as int,
            chrominance: b.chroma.data@.subrange(0, b.height * b.chroma.stride / 2),
            chrominance_stride: b.chroma.stride as int,
        })
    } else {
        None
    }
}

/// Copy the first `n` bytes of `src` into a newly allocated owned
/// buffer.
fn copy_prefix(src: &Vec<u8>, n: usize) -> (r: Vec<u8>)
    requires
        n <= src@.len(),
    ensures
        r@ == src@.subrange(0, n as int),
{
    let mut out: Vec<u8> = Vec::new();
    let mut i: usize = 0;
    while i < n
        invariant
            i <= n,
            n <= src@.len(),
            out@ == src@.subrange(0, i as int),
        decreases n - i,
    {
        out.push(src[i]);
        proof {
            assert(out@ =~= src@.subrange(0, i + 1));
        }
        i = i + 1;
    }
    out
}

/// Extract one frame from a platform pixel buffer.
///
/// The buffer's exclusive lock is acquired on entry and released before
/// every return, early returns included: the lock count always comes
/// back to what it was, and the buffer's contents are untouched. The
/// result is exactly `spec_extract`: no frame for a zero dimension or a
/// null plane base, otherwise an owned deep copy of both planes.
pub fn extract_frame(buffer: &mut PixelBuffer, display_time: u64) -> (r: Option<YUVFrame>)
    requires
        old(buffer).wf(),
        old(buffer).lock_count < u64::MAX,
    ensures
        final(buffer).lock_count == old(buffer).lock_count,
        final(buffer).same_contents(*old(buffer)),
        view_opt(r) == spec_extract(*old(buffer), display_time),
        r matches Some(f) ==> f@.wf(),
{
    buffer.lock_base_address();

    let width = buffer.width;
    let height = buffer.height;
    if width == 0 || height == 0 {
        buffer.unlock_base_address();
        return None;
    }

    if !buffer.luma.base_present || !buffer.chroma.base_present {
        buffer.unlock_base_address();
        return None;
    }

    let luminance_stride = buffer.luma.stride;
    let luminance_len = height * luminance_stride;
    let luminance_bytes = copy_prefix(&buffer.luma.data, luminance_len);

    let chrominance_stride = buffer.chroma.stride;
    let chrominance_len = height * chrominance_stride / 2;
    let chrominance_bytes = copy_prefix(&buffer.chroma.data, chrominance_len);

    buffer.unlock_base_address();

    Some(YUVFrame {
        display_time: display_time,
        width: width as i32,
        height: height as i32,
        luminance_bytes: luminance_bytes,
        luminance_stride: luminance_stride as i32,
        chrominance_bytes: chrominance_bytes,
        chrominance_stride: chrominance_stride as i32,
    })
}

} // verus!
