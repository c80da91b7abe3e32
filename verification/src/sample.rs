//! The model of a delivered capture sample: the plain values the
//! pipeline reads from a native sample handle — the stream tag, the
//! cheap status tag, the attachment records, the presentation
//! timestamp, and the planar pixel buffer with its lock state.

use vstd::prelude::*;

verus! {

/// The status code that marks a delivered frame as complete.
pub const FRAME_STATUS_COMPLETE: i64 = 0;

/// The well-known attachment key under which the capture engine stores
/// the frame completeness status.
pub const FRAME_INFO_STATUS_KEY: u64 = 0;

/// Which output stream of the capture engine produced a sample.
pub enum StreamKind {
    Screen,
    Audio,
}

/// A value held in an attachment record: decodable as a signed 64-bit
/// integer, or opaque (present but of some other shape).
#[derive(Clone, Copy)]
pub enum AttachmentValue {
    Int(i64),
    Opaque,
}

/// One attachment record: an ordered key/value mapping. A lookup takes
/// the first entry whose key matches.
pub struct AttachmentRecord {
    pub entries: Vec<(u64, AttachmentValue)>,
}

/// The cheap per-sample status tag, read without walking the
/// attachment records.
pub enum FrameStatus {
    Complete,
    Idle,
    Blank,
    Suspended,
    Started,
    Stopped,
}

/// One plane of a native pixel buffer: whether its base address is
/// non-null, its per-row byte stride, and the bytes the platform holds
/// for it.
pub struct PixelPlane {
    pub base_present: bool,
    pub stride: usize,
    pub data: Vec<u8>,
}

/// A native pixel buffer: luma-plane dimensions, the two planes, and
/// the platform's per-buffer lock, modelled as a counter so that the
/// locking discipline is checkable.
pub struct PixelBuffer {
    pub width: usize,
    pub height: usize,
    pub luma: PixelPlane,
    pub chroma: PixelPlane,
    pub lock_count: u64,
}

impl PixelBuffer {
    /// The platform's contract for a delivered buffer: each plane holds
    /// at least the bytes its geometry calls for, and the dimensions
    /// and strides fit the signed 32-bit fields of a frame.
    pub open spec fn wf(self) -> bool {
        &&& self.width <= i32::MAX
        &&& self.height <= i32::MAX
        &&& self.luma.stride <= i32::MAX
        &&& self.chroma.stride <= i32::MAX
        &&& self.height * self.luma.stride <= usize::MAX
        &&& self.height * self.chroma.stride <= usize::MAX
        &&& self.luma.data@.len() >= self.height * self.luma.stride
        &&& self.chroma.data@.len() >= self.height * self.chroma.stride / 2
    }

    /// Everything but the lock state is the same in both buffers.
    pub open spec fn same_contents(self, other: PixelBuffer) -> bool {
        &&& self.width == other.width
        &&& self.height == other.height
        &&& self.luma == other.luma
        &&& self.chroma == other.chroma
    }

    /// Acquire the platform's exclusive per-buffer lock.
    pub fn lock_base_address(&mut self)
        requires
            old(self).lock_count < u64::MAX,
        ensures
            final(self).lock_count == old(self).lock_count + 1,
            final(self).same_contents(*old(self)),
    {
        self.lock_count = self.lock_count + 1;
    }

    /// Release the platform's exclusive per-buffer lock.
    pub fn unlock_base_address(&mut self)
        requires
            old(self).lock_count > 0,
        ensures
            final(self).lock_count == old(self).lock_count - 1,
            final(self).same_contents(*old(self)),
    {
        self.lock_count = self.lock_count - 1;
    }
}

/// A delivered sample: everything the dispatcher and its callees read.
pub struct Sample {
    pub frame_status: FrameStatus,
    pub attachments: Vec<AttachmentRecord>,
    pub display_time: u64,
    pub pixel_buffer: PixelBuffer,
}

} // verus!
