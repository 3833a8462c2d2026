use tmtc_linux_ground::crc_ccitt;
use tmtc_linux_ground::decoder::DecoderSlot;
use tmtc_linux_ground::dispatch::Dispatcher;
use tmtc_linux_ground::ingest::{ingest_step, Frame};
use tmtc_linux_ground::poller::{poll_command, poller_after_send, POLL_COMMAND_ID, POLL_PERIOD_SECS};
use tmtc_linux_ground::records::Topic;
use tmtc_linux_ground::relay::RelayChannel;
use tmtc_linux_ground::GSTConfig;

const A_ID: u8 = 0x11;
const B_ID: u8 = 0x22;

fn frame(id: u8, fields: &[u8]) -> Vec<u8> {
    let mut bytes = vec![id];
    bytes.extend_from_slice(fields);
    let crc = crc_ccitt(&bytes);
    bytes.push((crc >> 8) as u8);
    bytes.push((crc & 0xFF) as u8);
    bytes
}

#[test]
fn data_frame_for_decoder_a_yields_exactly_its_records() {
    // Decoder list [A, B]; a well-formed frame for A: both are
    // queried, A succeeds with one aggregate record, B skips it as
    // wrong format, and the relay channel holds exactly A's record.
    let mut d = Dispatcher::new();
    d.register(DecoderSlot::new(A_ID, 3, Topic::LowRateTelemetry));
    d.register(DecoderSlot::new(B_ID, 3, Topic::MidRateTelemetry));
    let mut relay = RelayChannel::new(30);

    let bytes = frame(A_ID, &[0xAA, 0xBB]);
    let reports = ingest_step(&mut d, &mut relay, Frame::Data(bytes));

    assert_eq!(reports.len(), 0);
    assert_eq!(d.slots[0].latest.as_deref(), Some(&[0xAAu8, 0xBBu8][..]));
    assert!(d.slots[1].latest.is_none());
    assert_eq!(relay.len(), 1);
    let rec = relay.recv().unwrap();
    assert_eq!(rec.topic, Topic::LowRateTelemetry);
    assert_eq!(rec.payload, vec![A_ID, 0xAA, 0xBB]);
    assert!(relay.recv().is_none());
    assert_eq!(relay.dropped_count(), 0);
}

#[test]
fn telemetry_report_is_relayed_as_one_ground_record() {
    let mut d = Dispatcher::new();
    d.register(DecoderSlot::new(A_ID, 3, Topic::LowRateTelemetry));
    let mut relay = RelayChannel::new(4);

    let reports = ingest_step(&mut d, &mut relay, Frame::TelemetryReport(vec![1, 2, 3]));

    assert_eq!(reports.len(), 0);
    assert!(d.slots[0].latest.is_none());
    assert_eq!(relay.len(), 1);
    let rec = relay.recv().unwrap();
    assert_eq!(rec.topic, Topic::GroundReport);
    assert_eq!(rec.payload, vec![1, 2, 3]);
}

#[test]
fn control_frames_produce_nothing() {
    let mut d = Dispatcher::new();
    d.register(DecoderSlot::new(A_ID, 3, Topic::LowRateTelemetry));
    let mut relay = RelayChannel::new(4);

    assert_eq!(ingest_step(&mut d, &mut relay, Frame::Acknowledge).len(), 0);
    assert_eq!(ingest_step(&mut d, &mut relay, Frame::NegativeAcknowledge).len(), 0);
    assert_eq!(ingest_step(&mut d, &mut relay, Frame::Unknown(0x7F)).len(), 0);
    assert_eq!(relay.len(), 0);
    assert!(d.slots[0].latest.is_none());
}

#[test]
fn topics_map_to_their_subjects() {
    assert_eq!(Topic::LowRateTelemetry.subject(), "telemetry.low_rate");
    assert_eq!(Topic::MidRateTelemetry.subject(), "telemetry.mid_rate");
    assert_eq!(Topic::GroundReport.subject(), "telemetry.ground");
}

#[test]
fn poller_sends_the_fixed_command_and_reports_failures() {
    assert_eq!(poll_command(), POLL_COMMAND_ID);
    assert_eq!(POLL_PERIOD_SECS, 10);
    assert!(poller_after_send(false));
    assert!(!poller_after_send(true));
}

#[test]
fn config_defaults_match_the_documented_values() {
    let c = GSTConfig::new();
    assert_eq!(c.nats_address, "127.0.0.1");
    assert_eq!(c.nats_user, "nats");
    assert_eq!(c.nats_pwd, "nats");
    assert_eq!(c.serial_port, "/dev/ttyUSB0");
    assert_eq!(c.serial_baud, 115_200);
}
