//! The ingest step: what the orchestrator's main loop does with one
//! received transport frame.
//!
//! The transport driver (outside this library) yields decoded
//! transport events. A data frame goes to the payload dispatcher; a
//! telemetry report of the ground station itself re-uses the same
//! serialize-and-relay mechanism for a single local-origin record;
//! acknowledgments and unknown frames are local control traffic and
//! produce nothing. A receive error is reported by the loop outside
//! and never reaches this step, so no single bad frame can stop
//! ingestion.

use vstd::prelude::*;

use crate::dispatch::records_of;
use crate::dispatch::reports_of;
use crate::dispatch::send_all_model;
use crate::dispatch::slot_after_ok;
use crate::dispatch::AnomalyReport;
use crate::dispatch::Dispatcher;
use crate::records::AddressedRecord;
use crate::records::RecordModel;
use crate::records::Topic;
use crate::relay::send_model;
use crate::relay::RelayChannel;

verus! {

/// One decoded transport event, tagged; the byte buffers are opaque to
/// the transport and consumed once by this step.
#[derive(Debug)]
pub enum Frame {
    /// A downlink data frame carrying telemetry payloads.
    Data(Vec<u8>),
    /// A positive acknowledgment of an uplink command.
    Acknowledge,
    /// A negative acknowledgment of an uplink command.
    NegativeAcknowledge,
    /// A local telemetry report of the transceiver itself.
    TelemetryReport(Vec<u8>),
    /// A frame with an unrecognized type code.
    Unknown(u8),
}

/// The single local-origin record a transceiver telemetry report
/// becomes: the report bytes addressed to the ground-report topic.
pub open spec fn report_record(bytes: Seq<u8>) -> RecordModel {
    RecordModel { topic: Topic::GroundReport, payload: bytes }
}

/// Handles one received frame.
///
/// A data frame is offered to every registered decoder and the
/// resulting records go to the relay channel; the step returns the
/// pass's anomaly reports. A telemetry report is relayed as one
/// local-origin record. Control frames change nothing. The step never
/// blocks and never fails.
pub fn ingest_step(disp: &mut Dispatcher, relay: &mut RelayChannel, frame: Frame) -> (reports: Vec<
    AnomalyReport,
>)
    requires
        old(disp).wf(),
        old(relay).wf(),
    ensures
        final(disp).wf(),
        final(relay).wf(),
        match frame {
            Frame::Data(bytes) => {
                &&& reports@ == reports_of(old(disp).slots@, bytes@)
                &&& final(relay)@ == send_all_model(
                    old(relay)@,
                    records_of(old(disp).slots@, bytes@),
                )
                &&& final(disp).slots@.len() == old(disp).slots@.len()
                &&& forall|i: int|
                    0 <= i < old(disp).slots@.len() ==> slot_after_ok(
                        old(disp).slots@[i],
                        #[trigger] final(disp).slots@[i],
                        bytes@,
                    )
            },
            Frame::TelemetryReport(bytes) => {
                &&& reports@.len() == 0
                &&& *final(disp) == *old(disp)
                &&& final(relay)@ == send_model(old(relay)@, report_record(bytes@))
            },
            _ => {
                &&& reports@.len() == 0
                &&& *final(disp) == *old(disp)
                &&& final(relay)@ == old(relay)@
            },
        },
{
    match frame {
        Frame::Data(bytes) => disp.dispatch(bytes.as_slice(), relay),
        Frame::TelemetryReport(bytes) => {
            let rec = AddressedRecord::new(Topic::GroundReport, bytes);
            let _ = relay.send(rec);
            Vec::new()
        },
        Frame::Acknowledge => Vec::new(),
        Frame::NegativeAcknowledge => Vec::new(),
        Frame::Unknown(_) => Vec::new(),
    }
}

} // verus!
