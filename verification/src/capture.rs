//! The Frame Dispatcher: the per-sample entry point the capture engine
//! invokes. It filters by stream kind and cheap status tag, runs
//! validation and extraction, and forwards the resulting frame through
//! a channel, swallowing delivery failure so the capture callback never
//! blocks or panics.

use vstd::prelude::*;
use crate::frame::{FrameView, YUVFrame, create_yuv_frame, spec_create};
use crate::sample::{FrameStatus, Sample, StreamKind};

verus! {

#[verifier::external_type_specification]
#[verifier::external_body]
#[verifier::reject_recursive_types(T)]
pub struct ExSender<T>(std::sync::mpsc::Sender<T>);

/// Relies on std::sync::mpsc::Sender::send: it never blocks, moving the
/// frame either into the channel's queue or, when the receiving end has
/// been dropped, into the error it returns; nothing can be promised of
/// which of the two happens.
#[verifier::external_body]
fn send_frame(tx: &std::sync::mpsc::Sender<YUVFrame>, frame: YUVFrame) -> (delivered: bool) {
    tx.send(frame).is_ok()
}

/// The outcome of one dispatcher invocation.
pub enum Delivery {
    /// The sample was filtered out or extraction yielded nothing.
    NoFrame,
    /// A frame was produced and accepted by the channel.
    Delivered,
    /// A frame was produced but the channel refused it; the frame is
    /// discarded and capture goes on.
    SendFailed,
}

/// What one dispatcher invocation produces for a given sample: nothing
/// for a non-screen stream or a sample whose cheap status tag is not
/// complete, otherwise whatever one validate-and-extract pass yields.
pub open spec fn spec_dispatch(s: Sample, of_type: StreamKind) -> Option<FrameView> {
    if !(of_type is Screen) {
        None
    } else if !(s.frame_status is Complete) {
        None
    } else {
        spec_create(s)
    }
}

/// The producer side of the pipeline: holds the channel on which
/// extracted frames are handed to the consumer.
pub struct Capturer {
    pub tx: std::sync::mpsc::Sender<YUVFrame>,
}

impl Capturer {
    pub fn new(tx: std::sync::mpsc::Sender<YUVFrame>) -> (r: Capturer)
        ensures
            r.tx == tx,
    {
        Capturer { tx }
    }

    /// Handle one delivered sample: filter, validate, extract, and send
    /// the frame, if any, on the outbound channel.
    ///
    /// A frame is produced exactly when `spec_dispatch` says so; a
    /// refused send is reported, never raised. At most one frame is
    /// sent per invocation.
    pub fn did_output_sample_buffer(&self, sample: Sample, of_type: StreamKind) -> (r: Delivery)
        requires
            sample.pixel_buffer.wf(),
            sample.pixel_buffer.lock_count < u64::MAX,
        ensures
            (r is NoFrame) <==> spec_dispatch(sample, of_type) is None,
    {
        match of_type {
            StreamKind::Screen => {}
            _ => {
                return Delivery::NoFrame;
            }
        }
        match sample.frame_status {
            FrameStatus::Complete => {}
            _ => {
                return Delivery::NoFrame;
            }
        }
        let mut sample = sample;
        match create_yuv_frame(&mut sample) {
            Some(frame) => {
                if send_frame(&self.tx, frame) {
                    Delivery::Delivered
                } else {
                    Delivery::SendFailed
                }
            }
            None => Delivery::NoFrame,
        }
    }
}

} // verus!
