//! The Frame Object: the immutable, owned result of extracting one
//! video frame's planar pixel data.

use vstd::prelude::*;
use crate::extract::{extract_frame, spec_extract};
use crate::sample::Sample;
use crate::validate::{validate_attachments, spec_attachments_complete, Validation};

verus! {

/// One extracted biplanar 4:2:0 video frame, exclusively owned by its
/// holder. The luma plane holds `height` rows of `luminance_stride`
/// bytes; the interleaved chroma plane holds half as many rows of
/// `chrominance_stride` bytes.
pub struct YUVFrame {
    pub display_time: u64,
    pub width: i32,
    pub height: i32,
    pub luminance_bytes: Vec<u8>,
    pub luminance_stride: i32,
    pub chrominance_bytes: Vec<u8>,
    pub chrominance_stride: i32,
}

/// The mathematical model of a frame: plain integers and byte sequences.
pub struct FrameView {
    pub display_time: u64,
    pub width: int,
    pub height: int,
    pub luminance: Seq<u8>,
    pub luminance_stride: int,
    pub chrominance: Seq<u8>,
    pub chrominance_stride: int,
}

impl View for YUVFrame {
    type V = FrameView;

    open spec fn view(&self) -> FrameView {
        FrameView {
            display_time: self.display_time,
            width: self.width as int,
            height: self.height as int,
            luminance: self.luminance_bytes@,
            luminance_stride: self.luminance_stride as int,
            chrominance: self.chrominance_bytes@,
            chrominance_stride: self.chrominance_stride as int,
        }
    }
}

impl FrameView {
    /// The frame invariant: positive dimensions, and each plane holds
    /// exactly the bytes its geometry calls for.
    pub open spec fn wf(self) -> bool {
        &&& self.width > 0
        &&& self.height > 0
        &&& self.luminance_stride >= 0
        &&& self.chrominance_stride >= 0
        &&& self.luminance.len() == self.height * self.luminance_stride
        &&& self.chrominance.len() == self.height * self.chrominance_stride / 2
    }
}

/// Maps an owned optional frame to its model, so that contracts can
/// speak of "no frame" and "this frame" in one place.
pub open spec fn view_opt(r: Option<YUVFrame>) -> Option<FrameView> {
    match r {
        Some(f) => Some(f@),
        None => None,
    }
}

/// What one whole validate-and-extract pass over a sample yields: no
/// frame unless the attachment records mark the sample complete, and
/// then exactly what extraction yields for its pixel buffer.
pub open spec fn spec_create(s: Sample) -> Option<FrameView> {
    if spec_attachments_complete(s.attachments@) {
        spec_extract(s.pixel_buffer, s.display_time)
    } else {
        None
    }
}

/// Validate a sample's attachment records and, on pass, extract its
/// pixel planes into an owned frame.
///
/// The buffer lock taken during extraction is always released before
/// this function returns, and the sample's contents come back
/// unchanged; the result is exactly `spec_create`.
pub fn create_yuv_frame(sample: &mut Sample) -> (r: Option<YUVFrame>)
    requires
        old(sample).pixel_buffer.wf(),
        old(sample).pixel_buffer.lock_count < u64::MAX,
    ensures
        final(sample).pixel_buffer.lock_count == old(sample).pixel_buffer.lock_count,
        final(sample).pixel_buffer.same_contents(old(sample).pixel_buffer),
        final(sample).frame_status == old(sample).frame_status,
        final(sample).attachments == old(sample).attachments,
        final(sample).display_time == old(sample).display_time,
        view_opt(r) == spec_create(*old(sample)),
        r matches Some(f) ==> f@.wf(),
{
    match validate_attachments(&sample.attachments) {
        Validation::Pass => {
            let display_time = sample.display_time;
            extract_frame(&mut sample.pixel_buffer, display_time)
        }
        Validation::Skip => None,
    }
}

} // verus!
