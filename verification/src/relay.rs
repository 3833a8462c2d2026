//! Outbound relay channel: a bounded, ordered queue of addressed
//! records decoupling the ingest loop (producer) from the bus
//! publisher (consumer).
//!
//! The documented policy on a full queue is drop-and-report: ingestion
//! from a live radio link must not stall, so the newest record is
//! dropped and a counter is increased instead of blocking the caller.

use vstd::prelude::*;

use crate::records::AddressedRecord;
use crate::records::RecordModel;

verus! {

/// The outcome of a best-effort send into the relay channel.
#[derive(Clone, Copy, Debug, PartialEq, Eq, Structural)]
pub enum SendOutcome {
    /// The record was appended to the queue.
    Enqueued,
    /// The queue was full; the record was dropped and the dropped
    /// counter increased.
    DroppedFull,
}

/// Mathematical model of a [`RelayChannel`]: the queued records in
/// order (front first), the fixed capacity, and the dropped counter.
pub struct RelayModel {
    pub queue: Seq<RecordModel>,
    pub capacity: int,
    pub dropped: u64,
}

/// A bounded FIFO queue of addressed records with a drop-on-full send
/// policy and a counter of dropped records.
#[derive(Debug)]
pub struct RelayChannel {
    queue: Vec<AddressedRecord>,
    capacity: usize,
    dropped: u64,
}

/// What one best-effort send does to the channel model: append when
/// there is room, else leave the queue alone and count the drop
/// (the counter saturates at its maximum).
pub open spec fn send_model(m: RelayModel, r: RecordModel) -> RelayModel {
    if m.queue.len() < m.capacity {
        RelayModel { queue: m.queue.push(r), ..m }
    } else {
        RelayModel {
            dropped: if m.dropped < u64::MAX {
                (m.dropped + 1) as u64
            } else {
                m.dropped
            },
            ..m
        }
    }
}

impl View for RelayChannel {
    type V = RelayModel;

    closed spec fn view(&self) -> RelayModel {
        RelayModel {
            queue: self.queue@.map_values(|r: AddressedRecord| r@),
            capacity: self.capacity as int,
            dropped: self.dropped,
        }
    }
}

impl RelayChannel {
    /// The channel never holds more records than its capacity.
    pub open spec fn wf(&self) -> bool {
        self@.queue.len() <= self@.capacity
    }

    /// Creates an empty channel with the given fixed capacity.
    pub fn new(capacity: usize) -> (c: RelayChannel)
        ensures
            c.wf(),
            c@.queue == Seq::<RecordModel>::empty(),
            c@.capacity == capacity,
            c@.dropped == 0,
    {
        let c = RelayChannel { queue: Vec::new(), capacity, dropped: 0 };
        proof {
            assert(c@.queue =~= Seq::<RecordModel>::empty());
        }
        c
    }

    /// Best-effort send: appends the record when the queue has room,
    /// else drops it, increases the dropped counter, and returns
    /// without blocking.
    pub fn send(&mut self, r: AddressedRecord) -> (out: SendOutcome)
        requires
            old(self).wf(),
        ensures
            final(self).wf(),
            final(self)@ == send_model(old(self)@, r@),
            out == (if old(self)@.queue.len() < old(self)@.capacity {
                SendOutcome::Enqueued
            } else {
                SendOutcome::DroppedFull
            }),
    {
        if self.queue.len() < self.capacity {
            self.queue.push(r);
            proof {
                assert(self@.queue =~= send_model(old(self)@, r@).queue);
            }
            SendOutcome::Enqueued
        } else {
            if self.dropped < u64::MAX {
                self.dropped = self.dropped + 1;
            }
            SendOutcome::DroppedFull
        }
    }

    /// Takes the oldest queued record, or `None` on an empty queue:
    /// records leave in the order they were enqueued.
    pub fn recv(&mut self) -> (r: Option<AddressedRecord>)
        requires
            old(self).wf(),
        ensures
            final(self).wf(),
            final(self)@.capacity == old(self)@.capacity,
            final(self)@.dropped == old(self)@.dropped,
            match r {
                None => old(self)@.queue.len() == 0 && final(self)@.queue == old(self)@.queue,
                Some(rec) => old(self)@.queue.len() > 0 && rec@ == old(self)@.queue[0]
                    && final(self)@.queue == old(self)@.queue.drop_first(),
            },
    {
        if self.queue.len() == 0 {
            None
        } else {
            let rec = self.queue.remove(0);
            proof {
                assert(self@.queue =~= old(self)@.queue.drop_first());
            }
            Some(rec)
        }
    }

    /// How many records are queued now.
    pub fn len(&self) -> (n: usize)
        ensures
            n == self@.queue.len(),
    {
        self.queue.len()
    }

    /// The fixed capacity the channel was created with.
    pub fn capacity(&self) -> (n: usize)
        ensures
            n == self@.capacity,
    {
        self.capacity
    }

    /// How many records have been dropped because the queue was full.
    pub fn dropped_count(&self) -> (n: u64)
        ensures
            n == self@.dropped,
    {
        self.dropped
    }
}

} // verus!
