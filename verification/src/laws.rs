//! The pipeline's general guarantees, each stated over the spec
//! functions the executable contracts use and proved once for all
//! samples.

use vstd::prelude::*;
use crate::capture::spec_dispatch;
use crate::frame::spec_create;
use crate::sample::{AttachmentValue, FrameStatus, Sample, StreamKind, FRAME_INFO_STATUS_KEY, FRAME_STATUS_COMPLETE};
use crate::validate::spec_lookup;

verus! {

/// A sample whose attachment collection is empty yields no frame,
/// whatever its other fields and whatever stream delivered it.
pub proof fn lemma_no_attachments_no_frame(s: Sample, of_type: StreamKind)
    requires
        s.attachments@.len() == 0,
    ensures
        spec_create(s) is None,
        spec_dispatch(s, of_type) is None,
{
}

/// A sample whose completeness status is not the complete code — on the
/// cheap tag, or on the status entry of its first attachment record —
/// yields no frame.
pub proof fn lemma_incomplete_status_no_frame(s: Sample, of_type: StreamKind)
    requires
        ({
            ||| s.frame_status !is Complete
            ||| s.attachments@.len() > 0
                && (spec_lookup(s.attachments@[0].entries@, FRAME_INFO_STATUS_KEY as u64)
                    matches Some(AttachmentValue::Int(v)) ==> v != FRAME_STATUS_COMPLETE)
        }),
    ensures
        spec_dispatch(s, of_type) is None,
{
}

/// A sample whose pixel buffer has width zero or height zero yields no
/// frame, even when every status check passes.
pub proof fn lemma_zero_dimension_no_frame(s: Sample, of_type: StreamKind)
    requires
        s.pixel_buffer.width == 0 || s.pixel_buffer.height == 0,
    ensures
        spec_create(s) is None,
        spec_dispatch(s, of_type) is None,
{
}

/// A sample whose pixel buffer reports a null base address for either
/// plane yields no frame.
pub proof fn lemma_null_plane_no_frame(s: Sample, of_type: StreamKind)
    requires
        !s.pixel_buffer.luma.base_present || !s.pixel_buffer.chroma.base_present,
    ensures
        spec_create(s) is None,
        spec_dispatch(s, of_type) is None,
{
}

/// Whenever a frame is produced from a well-formed buffer, its geometry
/// is exact: the luma plane holds `height * luminance_stride` bytes, the
/// chroma plane `height * chrominance_stride / 2` bytes, the dimensions
/// and strides are the buffer's, and the display time is the sample's
/// reported timestamp.
pub proof fn lemma_produced_frame_geometry(s: Sample, of_type: StreamKind)
    requires
        s.pixel_buffer.wf(),
        spec_dispatch(s, of_type) is Some,
    ensures
        spec_dispatch(s, of_type) matches Some(f) ==> {
            &&& f.wf()
            &&& f.display_time == s.display_time
            &&& f.width == s.pixel_buffer.width
            &&& f.height == s.pixel_buffer.height
            &&& f.luminance_stride == s.pixel_buffer.luma.stride
            &&& f.chrominance_stride == s.pixel_buffer.chroma.stride
            &&& f.luminance.len() == s.pixel_buffer.height * s.pixel_buffer.luma.stride
            &&& f.chrominance.len() == s.pixel_buffer.height * s.pixel_buffer.chroma.stride / 2
        },
{
}

} // verus!
