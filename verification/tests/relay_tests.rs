use tmtc_linux_ground::records::{AddressedRecord, Topic};
use tmtc_linux_ground::relay::{RelayChannel, SendOutcome};

fn record(tag: u8) -> AddressedRecord {
    AddressedRecord::new(Topic::GroundReport, vec![tag])
}

#[test]
fn send_into_full_channel_drops_and_counts() {
    let mut relay = RelayChannel::new(2);
    assert_eq!(relay.send(record(1)), SendOutcome::Enqueued);
    assert_eq!(relay.send(record(2)), SendOutcome::Enqueued);
    assert_eq!(relay.dropped_count(), 0);
    assert_eq!(relay.send(record(3)), SendOutcome::DroppedFull);
    assert_eq!(relay.dropped_count(), 1);
    assert_eq!(relay.send(record(4)), SendOutcome::DroppedFull);
    assert_eq!(relay.dropped_count(), 2);
    assert_eq!(relay.len(), 2);
    assert_eq!(relay.capacity(), 2);
}

#[test]
fn records_leave_in_the_order_enqueued() {
    let mut relay = RelayChannel::new(4);
    relay.send(record(1));
    relay.send(record(2));
    relay.send(record(3));
    assert_eq!(relay.recv().map(|r| r.payload), Some(vec![1]));
    assert_eq!(relay.recv().map(|r| r.payload), Some(vec![2]));
    assert_eq!(relay.recv().map(|r| r.payload), Some(vec![3]));
    assert!(relay.recv().is_none());
}

#[test]
fn receiving_from_empty_channel_yields_nothing() {
    let mut relay = RelayChannel::new(1);
    assert!(relay.recv().is_none());
    assert_eq!(relay.dropped_count(), 0);
}

#[test]
fn dropped_record_frees_no_slot() {
    let mut relay = RelayChannel::new(1);
    assert_eq!(relay.send(record(7)), SendOutcome::Enqueued);
    assert_eq!(relay.send(record(8)), SendOutcome::DroppedFull);
    // The queued record is the one accepted first, not the dropped one.
    assert_eq!(relay.recv().map(|r| r.payload), Some(vec![7]));
    assert!(relay.recv().is_none());
}
