//! Payload dispatcher: offers each incoming data frame to every
//! registered decoder slot in a fixed priority order.
//!
//! The offer is deliberately not first-match-wins: several telemetry
//! formats are multiplexed onto one physical channel, so every slot
//! sees every frame. A wrong format identifier is the normal "not for
//! me" case and is silent; a short frame or a checksum mismatch is a
//! reportable anomaly that never aborts the other slots. Records of a
//! successful decode are handed to the relay channel as soon as that
//! slot's attempt completes; the dispatcher never blocks on delivery.

use vstd::prelude::*;

use crate::decoder::frame_fields;
use crate::decoder::outcome_of;
use crate::decoder::serialized_payload;
use crate::decoder::DecodeOutcome;
use crate::decoder::DecoderSlot;
use crate::records::RecordModel;
use crate::relay::send_model;
use crate::relay::RelayChannel;
use crate::relay::RelayModel;

verus! {

/// The reportable anomaly kinds: a wrong format identifier is not one.
#[derive(Clone, Copy, Debug, PartialEq, Eq, Structural)]
pub enum AnomalyKind {
    /// The frame matched a slot by length and identifier but its
    /// trailing checksum was invalid.
    BadChecksum,
    /// The frame was shorter than the slot's minimum length.
    Truncated,
}

/// One per-decoder anomaly report emitted by a dispatch pass.
#[derive(Clone, Copy, Debug, PartialEq, Eq, Structural)]
pub struct AnomalyReport {
    /// Which decoder slot (by its position in the dispatch order)
    /// reported the anomaly.
    pub slot_index: usize,
    /// What went wrong in that slot's attempt.
    pub kind: AnomalyKind,
}

/// The reports one slot contributes for one frame: exactly one for a
/// checksum mismatch or a short frame, none otherwise.
pub open spec fn report_of(slot: DecoderSlot, index: usize, bytes: Seq<u8>) -> Seq<AnomalyReport> {
    match outcome_of(slot, bytes) {
        DecodeOutcome::BadChecksum => seq![
            AnomalyReport { slot_index: index, kind: AnomalyKind::BadChecksum },
        ],
        DecodeOutcome::Truncated => seq![
            AnomalyReport { slot_index: index, kind: AnomalyKind::Truncated },
        ],
        _ => Seq::empty(),
    }
}

/// The records one slot contributes for one frame: its aggregate
/// record on a full match, none otherwise.
pub open spec fn slot_records(slot: DecoderSlot, bytes: Seq<u8>) -> Seq<RecordModel> {
    if outcome_of(slot, bytes) is Success {
        seq![
            RecordModel {
                topic: slot.topic,
                payload: serialized_payload(slot.format_id, frame_fields(bytes)),
            },
        ]
    } else {
        Seq::empty()
    }
}

/// All reports of the first `i` slots, in dispatch order.
pub open spec fn reports_upto(slots: Seq<DecoderSlot>, bytes: Seq<u8>, i: int) -> Seq<
    AnomalyReport,
>
    decreases i,
{
    if i <= 0 {
        Seq::empty()
    } else {
        reports_upto(slots, bytes, i - 1) + report_of(slots[i - 1], (i - 1) as usize, bytes)
    }
}

/// All reports a dispatch pass emits for one frame.
pub open spec fn reports_of(slots: Seq<DecoderSlot>, bytes: Seq<u8>) -> Seq<AnomalyReport> {
    reports_upto(slots, bytes, slots.len() as int)
}

/// All records of the first `i` slots, in dispatch order.
pub open spec fn records_upto(slots: Seq<DecoderSlot>, bytes: Seq<u8>, i: int) -> Seq<RecordModel>
    decreases i,
{
    if i <= 0 {
        Seq::empty()
    } else {
        records_upto(slots, bytes, i - 1) + slot_records(slots[i - 1], bytes)
    }
}

/// All records a dispatch pass produces for one frame.
pub open spec fn records_of(slots: Seq<DecoderSlot>, bytes: Seq<u8>) -> Seq<RecordModel> {
    records_upto(slots, bytes, slots.len() as int)
}

/// What offering a whole sequence of records to the relay channel does
/// to its model, front first.
pub open spec fn send_all_model(m: RelayModel, rs: Seq<RecordModel>) -> RelayModel
    decreases rs.len(),
{
    if rs.len() == 0 {
        m
    } else {
        send_all_model(send_model(m, rs[0]), rs.drop_first())
    }
}

/// Sending a concatenation is sending the first part, then the second.
pub proof fn lemma_send_all_append(m: RelayModel, a: Seq<RecordModel>, b: Seq<RecordModel>)
    ensures
        send_all_model(m, a + b) == send_all_model(send_all_model(m, a), b),
    decreases a.len(),
{
    if a.len() == 0 {
        assert(a + b =~= b);
    } else {
        assert((a + b)[0] == a[0]);
        assert((a + b).drop_first() =~= a.drop_first() + b);
        lemma_send_all_append(send_model(m, a[0]), a.drop_first(), b);
    }
}

/// Offering a record sequence to the channel keeps the order
/// enqueued: the queue grows by the longest prefix of the sequence
/// that fits in the remaining room, in the sequence's own order, and
/// every record past that prefix is dropped and counted, none
/// re-ordered or re-queued.
pub proof fn lemma_send_all_fifo(m: RelayModel, rs: Seq<RecordModel>)
    requires
        m.queue.len() <= m.capacity,
        m.dropped + rs.len() <= u64::MAX,
    ensures
        ({
            let room = m.capacity - m.queue.len();
            let taken = if rs.len() <= room {
                rs.len() as int
            } else {
                room
            };
            &&& send_all_model(m, rs).queue == m.queue + rs.take(taken)
            &&& send_all_model(m, rs).dropped == m.dropped + (rs.len() - taken)
            &&& send_all_model(m, rs).capacity == m.capacity
        }),
    decreases rs.len(),
{
    let room = m.capacity - m.queue.len();
    let taken = if rs.len() <= room {
        rs.len() as int
    } else {
        room
    };
    if rs.len() == 0 {
        assert(m.queue + rs.take(0) =~= m.queue);
    } else {
        let m1 = send_model(m, rs[0]);
        let rest = rs.drop_first();
        lemma_send_all_fifo(m1, rest);
        let room1 = m1.capacity - m1.queue.len();
        let taken1 = if rest.len() <= room1 {
            rest.len() as int
        } else {
            room1
        };
        if m.queue.len() < m.capacity {
            assert(taken == taken1 + 1);
            assert(m.queue.push(rs[0]) + rest.take(taken1) =~= m.queue + rs.take(taken));
        } else {
            assert(taken == 0 && taken1 == 0);
            assert(m1.queue + rest.take(0) =~= m.queue + rs.take(0));
        }
    }
}

/// How one dispatch pass may change one slot: the descriptor is kept,
/// and the decode state is replaced exactly on a full match.
pub open spec fn slot_after_ok(s0: DecoderSlot, s1: DecoderSlot, bytes: Seq<u8>) -> bool {
    &&& s1.format_id == s0.format_id
    &&& s1.min_len == s0.min_len
    &&& s1.topic == s0.topic
    &&& s1.latest_model() == (if outcome_of(s0, bytes) is Success {
        Some(frame_fields(bytes))
    } else {
        s0.latest_model()
    })
}

/// The ordered list of decoder slots a frame is offered to.
#[derive(Debug)]
pub struct Dispatcher {
    /// The registered slots, tried in order on every data frame.
    pub slots: Vec<DecoderSlot>,
}

impl Dispatcher {
    /// Every registered slot's descriptor is well formed.
    pub open spec fn wf(&self) -> bool {
        forall|i: int| 0 <= i < self.slots@.len() ==> (#[trigger] self.slots@[i]).wf()
    }

    /// A dispatcher with no registered formats.
    pub fn new() -> (d: Dispatcher)
        ensures
            d.wf(),
            d.slots@.len() == 0,
    {
        Dispatcher { slots: Vec::new() }
    }

    /// Registers one more payload format, after all earlier ones in
    /// the dispatch order.
    pub fn register(&mut self, slot: DecoderSlot)
        requires
            old(self).wf(),
            slot.wf(),
        ensures
            final(self).wf(),
            final(self).slots@ == old(self).slots@.push(slot),
    {
        self.slots.push(slot);
    }

    /// Offers one data frame to every registered slot in order:
    /// updates each matching slot's decode state, hands each
    /// successful slot's records to the relay channel without
    /// blocking, and returns the anomaly reports of the pass.
    pub fn dispatch(&mut self, bytes: &[u8], relay: &mut RelayChannel) -> (reports: Vec<
        AnomalyReport,
    >)
        requires
            old(self).wf(),
            old(relay).wf(),
        ensures
            final(self).wf(),
            final(relay).wf(),
            reports@ == reports_of(old(self).slots@, bytes@),
            final(relay)@ == send_all_model(old(relay)@, records_of(old(self).slots@, bytes@)),
            final(self).slots@.len() == old(self).slots@.len(),
            forall|i: int|
                0 <= i < old(self).slots@.len() ==> slot_after_ok(
                    old(self).slots@[i],
                    #[trigger] final(self).slots@[i],
                    bytes@,
                ),
    {
        let ghost slots0 = self.slots@;
        let ghost relay0 = relay@;
        let mut reports: Vec<AnomalyReport> = Vec::new();
        let n = self.slots.len();
        let mut i: usize = 0;
        while i < n
            invariant
                i <= n,
                n == slots0.len(),
                self.slots@.len() == slots0.len(),
                forall|j: int| i <= j < n ==> #[trigger] self.slots@[j] == slots0[j],
                forall|j: int|
                    0 <= j < i ==> slot_after_ok(slots0[j], #[trigger] self.slots@[j], bytes@),
                forall|j: int| 0 <= j < n ==> (#[trigger] self.slots@[j]).wf(),
                reports@ == reports_upto(slots0, bytes@, i as int),
                relay.wf(),
                relay@ == send_all_model(relay0, records_upto(slots0, bytes@, i as int)),
            decreases n - i,
        {
            let ghost relay_before = relay@;
            let slot = vstd::std_specs::vec::vec_index_mut(&mut self.slots, i);
            let out = slot.decode(bytes);
            match out {
                DecodeOutcome::Success => {
                    let ghost contributed = slot_records(slots0[i as int], bytes@);
                    let mut recs = self.slots[i].serialize();
                    let ghost recs0 = recs@;
                    if let Some(rec) = recs.pop() {
                        proof {
                            assert(rec == recs0[0]);
                            assert(rec@.topic == contributed[0].topic);
                            assert(rec@.payload == contributed[0].payload);
                            assert(rec@ == contributed[0]);
                        }
                        let _ = relay.send(rec);
                        proof {
                            assert(contributed.drop_first() =~= Seq::<RecordModel>::empty());
                            assert(send_all_model(
                                send_model(relay_before, contributed[0]),
                                Seq::<RecordModel>::empty(),
                            ) == send_model(relay_before, contributed[0]));
                            assert(send_all_model(relay_before, contributed) == send_model(
                                relay_before,
                                contributed[0],
                            ));
                            assert(relay@ == send_all_model(relay_before, contributed));
                        }
                    }
                },
                DecodeOutcome::WrongFormat => {},
                DecodeOutcome::BadChecksum => {
                    reports.push(AnomalyReport { slot_index: i, kind: AnomalyKind::BadChecksum });
                },
                DecodeOutcome::Truncated => {
                    reports.push(AnomalyReport { slot_index: i, kind: AnomalyKind::Truncated });
                },
            }
            proof {
                let contributed = slot_records(slots0[i as int], bytes@);
                if !(outcome_of(slots0[i as int], bytes@) is Success) {
                    assert(contributed =~= Seq::<RecordModel>::empty());
                }
                assert(records_upto(slots0, bytes@, i + 1) == records_upto(slots0, bytes@, i as int)
                    + contributed);
                lemma_send_all_append(
                    relay0,
                    records_upto(slots0, bytes@, i as int),
                    contributed,
                );
                assert(reports@ =~= reports_upto(slots0, bytes@, i + 1));
            }
            i = i + 1;
        }
        reports
    }
}

/// For a frame long enough for every registered slot but whose format
/// identifier matches none of them (every attempt ends in a
/// wrong-format skip), a dispatch pass produces no records, emits no
/// reports, and leaves any relay channel unchanged.
pub proof fn lemma_no_matching_decoder(
    slots: Seq<DecoderSlot>,
    bytes: Seq<u8>,
    m: RelayModel,
)
    requires
        forall|i: int|
            0 <= i < slots.len() ==> bytes.len() >= (#[trigger] slots[i]).min_len && bytes[0]
                != slots[i].format_id,
    ensures
        records_of(slots, bytes) == Seq::<RecordModel>::empty(),
        reports_of(slots, bytes) == Seq::<AnomalyReport>::empty(),
        send_all_model(m, records_of(slots, bytes)) == m,
{
    assert forall|k: int|
        0 <= k < slots.len() implies outcome_of(#[trigger] slots[k], bytes) is WrongFormat by {
        assert(bytes.len() >= slots[k].min_len);
    }
    lemma_silent_upto(slots, bytes, slots.len() as int);
}

/// Helper for [`lemma_no_matching_decoder`]: the first `i` slots of an
/// all-wrong-format pass contribute nothing.
proof fn lemma_silent_upto(slots: Seq<DecoderSlot>, bytes: Seq<u8>, i: int)
    requires
        i <= slots.len(),
        forall|k: int| 0 <= k < slots.len() ==> outcome_of(#[trigger] slots[k], bytes) is WrongFormat,
    ensures
        records_upto(slots, bytes, i) == Seq::<RecordModel>::empty(),
        reports_upto(slots, bytes, i) == Seq::<AnomalyReport>::empty(),
    decreases i,
{
    if i > 0 {
        lemma_silent_upto(slots, bytes, i - 1);
        assert(records_upto(slots, bytes, i) =~= Seq::<RecordModel>::empty());
        assert(reports_upto(slots, bytes, i) =~= Seq::<AnomalyReport>::empty());
    }
}

/// Picks the reports that name decoder slot `k`.
pub open spec fn names_slot(k: usize) -> spec_fn(AnomalyReport) -> bool {
    |r: AnomalyReport| r.slot_index == k
}

/// Within one dispatch pass, the reports naming slot `k` are exactly
/// that slot's own contribution: one bad-checksum or one truncation
/// report when that is its outcome for the frame, and none otherwise —
/// no other slot's attempt can add or remove a report for `k`.
pub proof fn lemma_reports_name_their_slot(slots: Seq<DecoderSlot>, bytes: Seq<u8>, k: usize)
    requires
        k < slots.len(),
        slots.len() <= usize::MAX,
    ensures
        reports_of(slots, bytes).filter(names_slot(k)) == report_of(slots[k as int], k, bytes),
{
    lemma_reports_filter_upto(slots, bytes, k, slots.len() as int);
}

/// Helper for [`lemma_reports_name_their_slot`], over the first `i`
/// slots of the pass.
proof fn lemma_reports_filter_upto(slots: Seq<DecoderSlot>, bytes: Seq<u8>, k: usize, i: int)
    requires
        k < slots.len(),
        slots.len() <= usize::MAX,
        i <= slots.len(),
    ensures
        reports_upto(slots, bytes, i).filter(names_slot(k)) == (if (k as int) < i {
            report_of(slots[k as int], k, bytes)
        } else {
            Seq::<AnomalyReport>::empty()
        }),
    decreases i,
{
    reveal_with_fuel(Seq::filter, 2);
    if i <= 0 {
        assert(reports_upto(slots, bytes, i).filter(names_slot(k)) =~= Seq::<
            AnomalyReport,
        >::empty());
    } else {
        lemma_reports_filter_upto(slots, bytes, k, i - 1);
        let head = reports_upto(slots, bytes, i - 1);
        let tail = report_of(slots[i - 1], (i - 1) as usize, bytes);
        Seq::<AnomalyReport>::filter_distributes_over_add(head, tail, names_slot(k));
        lemma_filter_report_of(slots[i - 1], (i - 1) as usize, bytes, k);
        assert(((i - 1) as usize) as int == i - 1);
        assert(reports_upto(slots, bytes, i).filter(names_slot(k)) =~= (if (k as int) < i {
            report_of(slots[k as int], k, bytes)
        } else {
            Seq::<AnomalyReport>::empty()
        }));
    }
}

/// Helper: one slot's contribution filtered for slot `k` is the whole
/// contribution when the slot is `k`, and empty otherwise, since every
/// report a slot emits carries that slot's own index.
proof fn lemma_filter_report_of(slot: DecoderSlot, idx: usize, bytes: Seq<u8>, k: usize)
    ensures
        report_of(slot, idx, bytes).filter(names_slot(k)) == (if idx == k {
            report_of(slot, idx, bytes)
        } else {
            Seq::<AnomalyReport>::empty()
        }),
{
    reveal_with_fuel(Seq::filter, 2);
    let tail = report_of(slot, idx, bytes);
    if tail.len() == 0 {
        assert(tail.filter(names_slot(k)) =~= Seq::<AnomalyReport>::empty());
    } else {
        assert(tail.len() == 1);
        assert(tail.drop_last() =~= Seq::<AnomalyReport>::empty());
        assert(tail.last().slot_index == idx);
        if idx == k {
            assert(tail.filter(names_slot(k)) =~= tail);
        } else {
            assert(tail.filter(names_slot(k)) =~= Seq::<AnomalyReport>::empty());
        }
    }
}

/// A slot whose attempt ends in a checksum mismatch contributes no
/// record and exactly one bad-checksum report naming that slot.
pub proof fn lemma_bad_checksum_reported(slot: DecoderSlot, index: usize, bytes: Seq<u8>)
    requires
        outcome_of(slot, bytes) is BadChecksum,
    ensures
        slot_records(slot, bytes) == Seq::<RecordModel>::empty(),
        report_of(slot, index, bytes) == seq![
            AnomalyReport { slot_index: index, kind: AnomalyKind::BadChecksum },
        ],
{
}

/// A slot offered a frame shorter than its minimum length contributes
/// no record and exactly one truncation report naming that slot,
/// however short the frame is.
pub proof fn lemma_truncated_reported(slot: DecoderSlot, index: usize, bytes: Seq<u8>)
    requires
        bytes.len() < slot.min_len,
    ensures
        outcome_of(slot, bytes) is Truncated,
        slot_records(slot, bytes) == Seq::<RecordModel>::empty(),
        report_of(slot, index, bytes) == seq![
            AnomalyReport { slot_index: index, kind: AnomalyKind::Truncated },
        ],
{
}

} // verus!
