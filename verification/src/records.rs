//! Addressed output records: a destination topic paired with an opaque
//! serialized payload, produced by the payload dispatcher and consumed
//! once by the bus publisher.

use vstd::prelude::*;

verus! {

/// Destination topics form a small set fixed at build time: one per
/// registered telemetry format, plus one for local ground-station
/// reports.
#[derive(Clone, Copy, Debug, PartialEq, Eq, Structural)]
pub enum Topic {
    LowRateTelemetry,
    MidRateTelemetry,
    GroundReport,
}

impl Topic {
    /// The bus subject string this topic is published under.
    pub fn subject(&self) -> (s: String)
        ensures
            s@ == self.subject_spec(),
    {
        match self {
            Topic::LowRateTelemetry => "telemetry.low_rate".to_string(),
            Topic::MidRateTelemetry => "telemetry.mid_rate".to_string(),
            Topic::GroundReport => "telemetry.ground".to_string(),
        }
    }

    /// The subject string of each topic, as a sequence of characters.
    pub open spec fn subject_spec(&self) -> Seq<char> {
        match self {
            Topic::LowRateTelemetry => "telemetry.low_rate"@,
            Topic::MidRateTelemetry => "telemetry.mid_rate"@,
            Topic::GroundReport => "telemetry.ground"@,
        }
    }
}

/// Mathematical model of an [`AddressedRecord`]: the topic and the
/// payload bytes as a sequence.
pub struct RecordModel {
    pub topic: Topic,
    pub payload: Seq<u8>,
}

/// A destination topic paired with a serialized payload.
///
/// Created by the payload dispatcher on a successful decode, moved into
/// the relay channel, and consumed exactly once by the bus publisher.
#[derive(Debug)]
pub struct AddressedRecord {
    pub topic: Topic,
    pub payload: Vec<u8>,
}

impl View for AddressedRecord {
    type V = RecordModel;

    open spec fn view(&self) -> RecordModel {
        RecordModel { topic: self.topic, payload: self.payload@ }
    }
}

impl AddressedRecord {
    /// Pairs a topic with a serialized payload.
    pub fn new(topic: Topic, payload: Vec<u8>) -> (r: AddressedRecord)
        ensures
            r@ == (RecordModel { topic, payload: payload@ }),
    {
        AddressedRecord { topic, payload }
    }
}

} // verus!
