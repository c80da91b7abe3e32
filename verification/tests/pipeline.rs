use std::sync::mpsc;

use scap::capture::{Capturer, Delivery};
use scap::extract::extract_frame;
use scap::frame::YUVFrame;
use scap::sample::{
    AttachmentRecord, AttachmentValue, FrameStatus, PixelBuffer, PixelPlane, Sample, StreamKind,
    FRAME_INFO_STATUS_KEY, FRAME_STATUS_COMPLETE,
};
use scap::validate::{validate_attachments, Validation};

fn complete_attachments() -> Vec<AttachmentRecord> {
    vec![AttachmentRecord {
        entries: vec![(FRAME_INFO_STATUS_KEY, AttachmentValue::Int(FRAME_STATUS_COMPLETE))],
    }]
}

fn buffer(width: usize, height: usize, luma_stride: usize, chroma_stride: usize) -> PixelBuffer {
    let luma_len = height * luma_stride;
    let chroma_len = ((height + 1) / 2) * chroma_stride;
    PixelBuffer {
        width,
        height,
        luma: PixelPlane {
            base_present: true,
            stride: luma_stride,
            data: (0..luma_len).map(|i| (i % 251) as u8).collect(),
        },
        chroma: PixelPlane {
            base_present: true,
            stride: chroma_stride,
            data: (0..chroma_len).map(|i| (i % 241) as u8).collect(),
        },
        lock_count: 0,
    }
}

fn complete_sample(width: usize, height: usize, luma_stride: usize, chroma_stride: usize) -> Sample {
    Sample {
        frame_status: FrameStatus::Complete,
        attachments: complete_attachments(),
        display_time: 1000,
        pixel_buffer: buffer(width, height, luma_stride, chroma_stride),
    }
}

#[test]
fn complete_full_hd_sample_yields_exact_plane_sizes() {
    let (tx, rx) = mpsc::channel::<YUVFrame>();
    let capturer = Capturer::new(tx);
    let sample = complete_sample(1920, 1080, 1920, 1920);
    let outcome = capturer.did_output_sample_buffer(sample, StreamKind::Screen);
    assert!(matches!(outcome, Delivery::Delivered));
    let frame = rx.try_recv().expect("a frame must have been sent");
    assert_eq!(frame.luminance_bytes.len(), 2_073_600);
    assert_eq!(frame.chrominance_bytes.len(), 1_036_800);
    assert_eq!(frame.width, 1920);
    assert_eq!(frame.height, 1080);
    assert_eq!(frame.luminance_stride, 1920);
    assert_eq!(frame.chrominance_stride, 1920);
    assert_eq!(frame.display_time, 1000);
}

#[test]
fn delivered_frame_is_a_copy_of_the_plane_bytes() {
    let (tx, rx) = mpsc::channel::<YUVFrame>();
    let capturer = Capturer::new(tx);
    let sample = complete_sample(4, 2, 6, 6);
    let expected_luma: Vec<u8> = sample.pixel_buffer.luma.data[..12].to_vec();
    let expected_chroma: Vec<u8> = sample.pixel_buffer.chroma.data[..6].to_vec();
    let outcome = capturer.did_output_sample_buffer(sample, StreamKind::Screen);
    assert!(matches!(outcome, Delivery::Delivered));
    let frame = rx.try_recv().unwrap();
    assert_eq!(frame.luminance_bytes, expected_luma);
    assert_eq!(frame.chrominance_bytes, expected_chroma);
}

#[test]
fn empty_attachments_yield_no_frame() {
    let (tx, rx) = mpsc::channel::<YUVFrame>();
    let capturer = Capturer::new(tx);
    let mut sample = complete_sample(16, 16, 16, 16);
    sample.attachments = Vec::new();
    let outcome = capturer.did_output_sample_buffer(sample, StreamKind::Screen);
    assert!(matches!(outcome, Delivery::NoFrame));
    assert!(rx.try_recv().is_err());
}

#[test]
fn incomplete_status_tag_yields_no_frame() {
    let (tx, rx) = mpsc::channel::<YUVFrame>();
    let capturer = Capturer::new(tx);
    let mut sample = complete_sample(16, 16, 16, 16);
    sample.frame_status = FrameStatus::Idle;
    let outcome = capturer.did_output_sample_buffer(sample, StreamKind::Screen);
    assert!(matches!(outcome, Delivery::NoFrame));
    assert!(rx.try_recv().is_err());
}

#[test]
fn incomplete_attachment_status_yields_no_frame() {
    let (tx, rx) = mpsc::channel::<YUVFrame>();
    let capturer = Capturer::new(tx);
    let mut sample = complete_sample(16, 16, 16, 16);
    sample.attachments = vec![AttachmentRecord {
        entries: vec![(FRAME_INFO_STATUS_KEY, AttachmentValue::Int(FRAME_STATUS_COMPLETE + 1))],
    }];
    let outcome = capturer.did_output_sample_buffer(sample, StreamKind::Screen);
    assert!(matches!(outcome, Delivery::NoFrame));
    assert!(rx.try_recv().is_err());
}

#[test]
fn missing_status_entry_yields_no_frame() {
    let (tx, rx) = mpsc::channel::<YUVFrame>();
    let capturer = Capturer::new(tx);
    let mut sample = complete_sample(16, 16, 16, 16);
    sample.attachments = vec![AttachmentRecord {
        entries: vec![(FRAME_INFO_STATUS_KEY + 1, AttachmentValue::Int(FRAME_STATUS_COMPLETE))],
    }];
    let outcome = capturer.did_output_sample_buffer(sample, StreamKind::Screen);
    assert!(matches!(outcome, Delivery::NoFrame));
    assert!(rx.try_recv().is_err());
}

#[test]
fn undecodable_status_entry_yields_no_frame() {
    let mut sample = complete_sample(16, 16, 16, 16);
    sample.attachments = vec![AttachmentRecord {
        entries: vec![(FRAME_INFO_STATUS_KEY, AttachmentValue::Opaque)],
    }];
    let (tx, rx) = mpsc::channel::<YUVFrame>();
    let capturer = Capturer::new(tx);
    let outcome = capturer.did_output_sample_buffer(sample, StreamKind::Screen);
    assert!(matches!(outcome, Delivery::NoFrame));
    assert!(rx.try_recv().is_err());
}

#[test]
fn zero_width_yields_no_frame() {
    let (tx, rx) = mpsc::channel::<YUVFrame>();
    let capturer = Capturer::new(tx);
    let mut sample = complete_sample(16, 1080, 16, 16);
    sample.pixel_buffer.width = 0;
    let outcome = capturer.did_output_sample_buffer(sample, StreamKind::Screen);
    assert!(matches!(outcome, Delivery::NoFrame));
    assert!(rx.try_recv().is_err());
}

#[test]
fn zero_height_yields_no_frame() {
    let (tx, rx) = mpsc::channel::<YUVFrame>();
    let capturer = Capturer::new(tx);
    let mut sample = complete_sample(16, 16, 16, 16);
    sample.pixel_buffer.height = 0;
    sample.pixel_buffer.luma.data = Vec::new();
    sample.pixel_buffer.chroma.data = Vec::new();
    let outcome = capturer.did_output_sample_buffer(sample, StreamKind::Screen);
    assert!(matches!(outcome, Delivery::NoFrame));
    assert!(rx.try_recv().is_err());
}

#[test]
fn non_screen_stream_is_ignored() {
    let (tx, rx) = mpsc::channel::<YUVFrame>();
    let capturer = Capturer::new(tx);
    let sample = complete_sample(16, 16, 16, 16);
    let outcome = capturer.did_output_sample_buffer(sample, StreamKind::Audio);
    assert!(matches!(outcome, Delivery::NoFrame));
    assert!(rx.try_recv().is_err());
}

#[test]
fn null_plane_base_yields_no_frame() {
    let (tx, rx) = mpsc::channel::<YUVFrame>();
    let capturer = Capturer::new(tx);
    let mut sample = complete_sample(16, 16, 16, 16);
    sample.pixel_buffer.luma.base_present = false;
    let outcome = capturer.did_output_sample_buffer(sample, StreamKind::Screen);
    assert!(matches!(outcome, Delivery::NoFrame));
    assert!(rx.try_recv().is_err());
}

#[test]
fn dropped_receiver_fails_send_without_raising() {
    let (tx, rx) = mpsc::channel::<YUVFrame>();
    drop(rx);
    let capturer = Capturer::new(tx);
    let outcome = capturer.did_output_sample_buffer(complete_sample(8, 8, 8, 8), StreamKind::Screen);
    assert!(matches!(outcome, Delivery::SendFailed));
    // Subsequent callbacks still process normally.
    let outcome = capturer.did_output_sample_buffer(complete_sample(8, 8, 8, 8), StreamKind::Screen);
    assert!(matches!(outcome, Delivery::SendFailed));
    let outcome = capturer.did_output_sample_buffer(complete_sample(0, 8, 8, 8), StreamKind::Screen);
    assert!(matches!(outcome, Delivery::NoFrame));
}

#[test]
fn frames_from_two_invocations_share_no_storage() {
    let (tx, rx) = mpsc::channel::<YUVFrame>();
    let capturer = Capturer::new(tx);
    capturer.did_output_sample_buffer(complete_sample(4, 4, 4, 4), StreamKind::Screen);
    capturer.did_output_sample_buffer(complete_sample(4, 4, 4, 4), StreamKind::Screen);
    let mut first = rx.try_recv().unwrap();
    let second = rx.try_recv().unwrap();
    let untouched = second.luminance_bytes.clone();
    for b in first.luminance_bytes.iter_mut() {
        *b = b.wrapping_add(1);
    }
    for b in first.chrominance_bytes.iter_mut() {
        *b = b.wrapping_add(1);
    }
    assert_eq!(second.luminance_bytes, untouched);
    assert_ne!(first.luminance_bytes, second.luminance_bytes);
}

#[test]
fn extraction_releases_the_lock_on_every_path() {
    // Normal path.
    let mut b = buffer(4, 4, 4, 4);
    assert_eq!(b.lock_count, 0);
    let r = extract_frame(&mut b, 7);
    assert!(r.is_some());
    assert_eq!(b.lock_count, 0);
    // Zero-dimension early return.
    let mut b = buffer(4, 4, 4, 4);
    b.width = 0;
    assert!(extract_frame(&mut b, 7).is_none());
    assert_eq!(b.lock_count, 0);
    // Null-plane early return.
    let mut b = buffer(4, 4, 4, 4);
    b.chroma.base_present = false;
    assert!(extract_frame(&mut b, 7).is_none());
    assert_eq!(b.lock_count, 0);
}

#[test]
fn extraction_copies_rather_than_borrows() {
    let mut b = buffer(4, 4, 4, 4);
    let frame = extract_frame(&mut b, 7).unwrap();
    let before = frame.luminance_bytes.clone();
    for byte in b.luma.data.iter_mut() {
        *byte = byte.wrapping_add(1);
    }
    assert_eq!(frame.luminance_bytes, before);
}

#[test]
fn odd_height_chroma_length_truncates() {
    // height * stride odd products truncate downward: 3 * 5 / 2 == 7.
    let mut b = buffer(4, 3, 5, 5);
    let frame = extract_frame(&mut b, 7).unwrap();
    assert_eq!(frame.luminance_bytes.len(), 15);
    assert_eq!(frame.chrominance_bytes.len(), 7);
}

#[test]
fn validator_decisions() {
    assert!(matches!(validate_attachments(&Vec::new()), Validation::Skip));
    assert!(matches!(validate_attachments(&complete_attachments()), Validation::Pass));
    // The status key is found even when it is not the first entry.
    let atts = vec![AttachmentRecord {
        entries: vec![
            (FRAME_INFO_STATUS_KEY + 9, AttachmentValue::Opaque),
            (FRAME_INFO_STATUS_KEY, AttachmentValue::Int(FRAME_STATUS_COMPLETE)),
        ],
    }];
    assert!(matches!(validate_attachments(&atts), Validation::Pass));
    // Only the first record is inspected.
    let atts = vec![
        AttachmentRecord { entries: Vec::new() },
        AttachmentRecord {
            entries: vec![(FRAME_INFO_STATUS_KEY, AttachmentValue::Int(FRAME_STATUS_COMPLETE))],
        },
    ];
    assert!(matches!(validate_attachments(&atts), Validation::Skip));
}
