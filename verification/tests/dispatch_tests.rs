use tmtc_linux_ground::crc_ccitt;
use tmtc_linux_ground::decoder::{DecodeOutcome, DecoderSlot};
use tmtc_linux_ground::dispatch::{AnomalyKind, Dispatcher};
use tmtc_linux_ground::records::Topic;
use tmtc_linux_ground::relay::RelayChannel;

const LOW_RATE_ID: u8 = 0x11;
const MID_RATE_ID: u8 = 0x22;

fn frame(id: u8, fields: &[u8]) -> Vec<u8> {
    let mut bytes = vec![id];
    bytes.extend_from_slice(fields);
    let crc = crc_ccitt(&bytes);
    bytes.push((crc >> 8) as u8);
    bytes.push((crc & 0xFF) as u8);
    bytes
}

fn two_slot_dispatcher() -> Dispatcher {
    let mut d = Dispatcher::new();
    d.register(DecoderSlot::new(LOW_RATE_ID, 3, Topic::LowRateTelemetry));
    d.register(DecoderSlot::new(MID_RATE_ID, 3, Topic::MidRateTelemetry));
    d
}

#[test]
fn unmatched_format_is_silent_and_produces_nothing() {
    let mut d = two_slot_dispatcher();
    let mut relay = RelayChannel::new(8);
    let bytes = frame(0x99, &[1, 2, 3]);
    let reports = d.dispatch(&bytes, &mut relay);
    assert_eq!(reports.len(), 0);
    assert_eq!(relay.len(), 0);
    assert_eq!(relay.dropped_count(), 0);
}

#[test]
fn corrupted_checksum_reports_exactly_one_bad_checksum() {
    let mut d = two_slot_dispatcher();
    let mut relay = RelayChannel::new(8);
    let mut bytes = frame(LOW_RATE_ID, &[5, 6, 7]);
    let last = bytes.len() - 1;
    bytes[last] ^= 0xFF;
    let reports = d.dispatch(&bytes, &mut relay);
    assert_eq!(reports.len(), 1);
    assert_eq!(reports[0].slot_index, 0);
    assert_eq!(reports[0].kind, AnomalyKind::BadChecksum);
    assert_eq!(relay.len(), 0);
}

#[test]
fn short_frame_reports_exactly_one_truncation() {
    let mut d = Dispatcher::new();
    d.register(DecoderSlot::new(LOW_RATE_ID, 8, Topic::LowRateTelemetry));
    let mut relay = RelayChannel::new(8);
    let bytes = [LOW_RATE_ID, 0x01];
    let reports = d.dispatch(&bytes, &mut relay);
    assert_eq!(reports.len(), 1);
    assert_eq!(reports[0].slot_index, 0);
    assert_eq!(reports[0].kind, AnomalyKind::Truncated);
    assert_eq!(relay.len(), 0);
}

#[test]
fn empty_frame_is_handled_without_panic() {
    let mut d = two_slot_dispatcher();
    let mut relay = RelayChannel::new(8);
    let reports = d.dispatch(&[], &mut relay);
    assert_eq!(reports.len(), 2);
    assert_eq!(reports[0].slot_index, 0);
    assert_eq!(reports[0].kind, AnomalyKind::Truncated);
    assert_eq!(reports[1].slot_index, 1);
    assert_eq!(reports[1].kind, AnomalyKind::Truncated);
    assert_eq!(relay.len(), 0);
}

#[test]
fn matching_frame_updates_only_its_slot() {
    let mut d = two_slot_dispatcher();
    let mut relay = RelayChannel::new(8);
    let bytes = frame(MID_RATE_ID, &[9, 8]);
    let reports = d.dispatch(&bytes, &mut relay);
    assert_eq!(reports.len(), 0);
    assert!(d.slots[0].latest.is_none());
    assert_eq!(d.slots[1].latest.as_deref(), Some(&[9u8, 8u8][..]));
    assert_eq!(relay.len(), 1);
}

#[test]
fn every_slot_sees_the_frame_not_first_match_wins() {
    let mut d = Dispatcher::new();
    d.register(DecoderSlot::new(LOW_RATE_ID, 3, Topic::LowRateTelemetry));
    d.register(DecoderSlot::new(LOW_RATE_ID, 3, Topic::MidRateTelemetry));
    let mut relay = RelayChannel::new(8);
    let bytes = frame(LOW_RATE_ID, &[4, 2]);
    let reports = d.dispatch(&bytes, &mut relay);
    assert_eq!(reports.len(), 0);
    assert_eq!(relay.len(), 2);
    assert_eq!(d.slots[0].latest.as_deref(), Some(&[4u8, 2u8][..]));
    assert_eq!(d.slots[1].latest.as_deref(), Some(&[4u8, 2u8][..]));
}

#[test]
fn full_channel_during_dispatch_drops_the_overflow_in_order() {
    let mut d = Dispatcher::new();
    d.register(DecoderSlot::new(LOW_RATE_ID, 3, Topic::LowRateTelemetry));
    d.register(DecoderSlot::new(LOW_RATE_ID, 3, Topic::MidRateTelemetry));
    let mut relay = RelayChannel::new(1);
    let bytes = frame(LOW_RATE_ID, &[1]);
    let reports = d.dispatch(&bytes, &mut relay);
    assert_eq!(reports.len(), 0);
    // Both slots decoded, but only the first slot's record fit.
    assert_eq!(relay.len(), 1);
    assert_eq!(relay.dropped_count(), 1);
    let rec = relay.recv().unwrap();
    assert_eq!(rec.topic, Topic::LowRateTelemetry);
}

#[test]
fn decode_checks_length_then_id_then_checksum() {
    let mut slot = DecoderSlot::new(LOW_RATE_ID, 3, Topic::LowRateTelemetry);
    assert_eq!(slot.decode(&[]), DecodeOutcome::Truncated);
    assert_eq!(slot.decode(&[0x99, 0x00, 0x00]), DecodeOutcome::WrongFormat);
    assert_eq!(slot.decode(&[LOW_RATE_ID, 0x00, 0x00]), DecodeOutcome::BadChecksum);
    assert!(slot.latest.is_none());
    let good = frame(LOW_RATE_ID, &[1]);
    assert_eq!(slot.decode(&good), DecodeOutcome::Success);
    assert_eq!(slot.latest.as_deref(), Some(&[1u8][..]));
}

#[test]
fn decode_known_checksum_vector_frame() {
    // CRC-CCITT of the single byte 0x00 is 0xE1F0, stored big endian.
    let mut slot = DecoderSlot::new(0x00, 3, Topic::LowRateTelemetry);
    assert_eq!(slot.decode(&[0x00, 0xE1, 0xF0]), DecodeOutcome::Success);
    assert_eq!(slot.latest.as_deref(), Some(&[][..]));
}

#[test]
fn serialize_prefixes_fields_with_format_id() {
    let mut slot = DecoderSlot::new(LOW_RATE_ID, 3, Topic::LowRateTelemetry);
    assert_eq!(slot.serialize().len(), 0);
    let bytes = frame(LOW_RATE_ID, &[10, 20, 30]);
    assert_eq!(slot.decode(&bytes), DecodeOutcome::Success);
    let recs = slot.serialize();
    assert_eq!(recs.len(), 1);
    assert_eq!(recs[0].topic, Topic::LowRateTelemetry);
    assert_eq!(recs[0].payload, vec![LOW_RATE_ID, 10, 20, 30]);
}
