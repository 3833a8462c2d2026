//! Payload decoder slots.
//!
//! Every registered telemetry format is bound to one [`DecoderSlot`]: a
//! descriptor (embedded format identifier, minimum frame length,
//! destination topic) plus mutable decode state holding the most
//! recently decoded field bytes.
//!
//! A data frame offered to a slot is laid out as
//! `[format id] [field bytes ...] [crc high] [crc low]`: one identifier
//! byte, the payload fields, and a trailing CRC-CCITT checksum, big
//! endian, computed over every byte before it.

use vstd::prelude::*;

use crate::checksum::crc16_spec;
use crate::checksum::crc_ccitt;
use crate::records::AddressedRecord;
use crate::records::Topic;

verus! {

/// The outcome of offering one frame to one decoder slot.
#[derive(Clone, Copy, Debug, PartialEq, Eq, Structural)]
pub enum DecodeOutcome {
    /// Frame matched: fields extracted into the slot's state.
    Success,
    /// The frame's format identifier is not this slot's; the normal
    /// "not for me" case, silently skipped.
    WrongFormat,
    /// Identifier and length matched but the trailing checksum did
    /// not: a reportable anomaly.
    BadChecksum,
    /// The frame is shorter than this slot's minimum length: a
    /// reportable anomaly.
    Truncated,
}

/// One registered payload format with its decode state.
#[derive(Debug)]
pub struct DecoderSlot {
    /// The format identifier this slot accepts, matched against the
    /// first frame byte.
    pub format_id: u8,
    /// The least frame length this format needs (identifier byte plus
    /// fields plus the two checksum bytes).
    pub min_len: usize,
    /// The destination topic of this slot's records.
    pub topic: Topic,
    /// The field bytes of the most recently decoded frame, if any
    /// frame has matched yet.
    pub latest: Option<Vec<u8>>,
}

/// The 16-bit checksum stored in a frame's trailing two bytes,
/// big endian.
pub open spec fn stored_checksum(bytes: Seq<u8>) -> u16
    recommends
        bytes.len() >= 2,
{
    ((bytes[bytes.len() - 2] as u16) << 8) | (bytes[bytes.len() - 1] as u16)
}

/// Whether a frame's trailing checksum equals the CRC-CCITT of the
/// bytes before it.
pub open spec fn checksum_matches(bytes: Seq<u8>) -> bool
    recommends
        bytes.len() >= 2,
{
    crc16_spec(bytes.take(bytes.len() - 2)) == stored_checksum(bytes)
}

/// The field bytes of a frame: everything between the identifier byte
/// and the trailing checksum.
pub open spec fn frame_fields(bytes: Seq<u8>) -> Seq<u8>
    recommends
        bytes.len() >= 3,
{
    bytes.subrange(1, bytes.len() - 2)
}

/// The outcome one slot gives one frame: length precondition first,
/// then the format identifier, then the checksum.
pub open spec fn outcome_of(slot: DecoderSlot, bytes: Seq<u8>) -> DecodeOutcome {
    if bytes.len() < slot.min_len {
        DecodeOutcome::Truncated
    } else if bytes[0] != slot.format_id {
        DecodeOutcome::WrongFormat
    } else if !checksum_matches(bytes) {
        DecodeOutcome::BadChecksum
    } else {
        DecodeOutcome::Success
    }
}

/// The serialized payload of a slot's aggregate record: the format
/// identifier byte followed by the decoded field bytes (the library's
/// compact binary framing).
pub open spec fn serialized_payload(format_id: u8, fields: Seq<u8>) -> Seq<u8> {
    seq![format_id] + fields
}

impl DecoderSlot {
    /// A slot's descriptor is well formed when its minimum length has
    /// room for the identifier byte and the two checksum bytes.
    pub open spec fn wf(&self) -> bool {
        self.min_len >= 3
    }

    /// The slot's decode state as a sequence of field bytes, if any
    /// frame has matched yet.
    pub open spec fn latest_model(&self) -> Option<Seq<u8>> {
        match self.latest {
            Some(v) => Some(v@),
            None => None,
        }
    }

    /// Registers a payload format: no frame decoded yet.
    pub fn new(format_id: u8, min_len: usize, topic: Topic) -> (slot: DecoderSlot)
        requires
            min_len >= 3,
        ensures
            slot.wf(),
            slot.format_id == format_id,
            slot.min_len == min_len,
            slot.topic == topic,
            slot.latest_model() is None,
    {
        DecoderSlot { format_id, min_len, topic, latest: None }
    }

    /// Offers one frame to this slot: checks the minimum length, the
    /// embedded format identifier, and the trailing checksum, and on a
    /// full match extracts the field bytes into the slot's state.
    pub fn decode(&mut self, bytes: &[u8]) -> (out: DecodeOutcome)
        requires
            old(self).wf(),
        ensures
            final(self).wf(),
            out == outcome_of(*old(self), bytes@),
            final(self).format_id == old(self).format_id,
            final(self).min_len == old(self).min_len,
            final(self).topic == old(self).topic,
            out is Success ==> final(self).latest_model() == Some(frame_fields(bytes@)),
            !(out is Success) ==> final(self).latest_model() == old(self).latest_model(),
    {
        if bytes.len() < self.min_len {
            return DecodeOutcome::Truncated;
        }
        if bytes[0] != self.format_id {
            return DecodeOutcome::WrongFormat;
        }
        let body = vstd::slice::slice_subrange(bytes, 0, bytes.len() - 2);
        let computed = crc_ccitt(body);
        let stored = ((bytes[bytes.len() - 2] as u16) << 8u16) | (bytes[bytes.len() - 1] as u16);
        if computed != stored {
            return DecodeOutcome::BadChecksum;
        }
        let fields = vstd::slice::slice_subrange(bytes, 1, bytes.len() - 2);
        self.latest = Some(vstd::slice::slice_to_vec(fields));
        DecodeOutcome::Success
    }

    /// Serializes the slot's current decode state into its addressed
    /// records: one aggregate record per decoder, or none while no
    /// frame has matched yet.
    pub fn serialize(&self) -> (recs: Vec<AddressedRecord>)
        ensures
            match self.latest_model() {
                None => recs@.len() == 0,
                Some(fields) => recs@.len() == 1 && recs@[0]@.topic == self.topic && recs@[0]@.payload
                    == serialized_payload(self.format_id, fields),
            },
    {
        let mut recs: Vec<AddressedRecord> = Vec::new();
        match &self.latest {
            None => {},
            Some(fields) => {
                let mut payload: Vec<u8> = Vec::new();
                payload.push(self.format_id);
                let mut j: usize = 0;
                while j < fields.len()
                    invariant
                        j <= fields@.len(),
                        payload@ == serialized_payload(self.format_id, fields@.take(j as int)),
                    decreases fields@.len() - j,
                {
                    payload.push(fields[j]);
                    proof {
                        assert(fields@.take(j + 1) =~= fields@.take(j as int).push(fields@[j as int]));
                        assert(payload@ =~= serialized_payload(self.format_id, fields@.take(j + 1)));
                    }
                    j = j + 1;
                }
                proof {
                    assert(fields@.take(fields@.len() as int) =~= fields@);
                }
                recs.push(AddressedRecord { topic: self.topic, payload });
            },
        }
        recs
    }
}

} // verus!
