//! The Frame Validator: decides, from a sample's attachment records
//! alone, whether a delivered frame is complete and should be
//! extracted. Skipping is an expected, frequent outcome, not an error.

use vstd::prelude::*;
use crate::sample::{AttachmentRecord, AttachmentValue, FRAME_INFO_STATUS_KEY, FRAME_STATUS_COMPLETE};

verus! {

/// The validator's decision: extract the frame, or drop it silently.
pub enum Validation {
    Pass,
    Skip,
}

/// The value under `key` in an ordered record: the first entry whose
/// key matches, if any.
pub open spec fn spec_lookup(entries: Seq<(u64, AttachmentValue)>, key: u64) -> Option<AttachmentValue>
    decreases entries.len(),
{
    if entries.len() == 0 {
        None
    } else if entries[0].0 == key {
        Some(entries[0].1)
    } else {
        spec_lookup(entries.subrange(1, entries.len() as int), key)
    }
}

/// A sample's attachments mark it complete: there is at least one
/// record, and the first record's status entry decodes to the complete
/// status code.
pub open spec fn spec_attachments_complete(atts: Seq<AttachmentRecord>) -> bool {
    &&& atts.len() > 0
    &&& spec_lookup(atts[0].entries@, FRAME_INFO_STATUS_KEY as u64)
        matches Some(AttachmentValue::Int(v)) && v == FRAME_STATUS_COMPLETE
}

/// Look a key up in one attachment record.
pub fn lookup_value(record: &AttachmentRecord, key: u64) -> (r: Option<AttachmentValue>)
    ensures
        r == spec_lookup(record.entries@, key),
{
    let n = record.entries.len();
    let mut i: usize = 0;
    proof {
        assert(record.entries@.subrange(0, n as int) =~= record.entries@);
    }
    while i < n
        invariant
            i <= n,
            n == record.entries@.len(),
            spec_lookup(record.entries@.subrange(i as int, n as int), key)
                == spec_lookup(record.entries@, key),
        decreases n - i,
    {
        let entry = &record.entries[i];
        if entry.0 == key {
            proof {
                let tail = record.entries@.subrange(i as int, n as int);
                assert(tail[0] == record.entries@[i as int]);
            }
            return Some(entry.1);
        }
        proof {
            let tail = record.entries@.subrange(i as int, n as int);
            assert(tail[0] == record.entries@[i as int]);
            assert(tail.subrange(1, tail.len() as int)
                =~= record.entries@.subrange(i + 1, n as int));
        }
        i = i + 1;
    }
    proof {
        assert(record.entries@.subrange(i as int, n as int).len() == 0);
    }
    None
}

/// Decide from the attachment records alone whether the frame should be
/// extracted: `Pass` exactly when the records mark the frame complete.
pub fn validate_attachments(attachments: &Vec<AttachmentRecord>) -> (r: Validation)
    ensures
        (r is Pass) <==> spec_attachments_complete(attachments@),
{
    if attachments.len() == 0 {
        return Validation::Skip;
    }
    let record = &attachments[0];
    match lookup_value(record, FRAME_INFO_STATUS_KEY) {
        Some(AttachmentValue::Int(v)) => {
            if v == FRAME_STATUS_COMPLETE {
                Validation::Pass
            } else {
                Validation::Skip
            }
        }
        Some(AttachmentValue::Opaque) => Validation::Skip,
        None => Validation::Skip,
    }
}

} // verus!
