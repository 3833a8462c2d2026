//! Bus publisher decision logic.
//!
//! The publisher task consumes records from the relay channel and
//! publishes each to the message bus. Its connection lifecycle is a
//! two-state machine: while disconnected it retries connecting forever
//! with a fixed delay between attempts; while connected it pulls one
//! record at a time and publishes it, falling back to disconnected on
//! any publish failure. The record being published when a failure hits
//! is lost, never re-queued: delivery to the bus is at most once.
//!
//! The task's loop (awaiting the channel, the network calls, the
//! backoff sleep) runs outside this library; every decision it takes
//! comes from [`bus_step`].

use vstd::prelude::*;

verus! {

/// Seconds the publisher waits between two connect attempts.
pub const BUS_RETRY_DELAY_SECS: u64 = 3;

/// The connection lifecycle state of the bus publisher.
#[derive(Clone, Copy, Debug, PartialEq, Eq, Structural)]
pub enum BusState {
    /// No connection to the bus; publish attempts would fail fast.
    Disconnected,
    /// A live connection; records are pulled and published.
    Connected,
}

/// What the publisher task observed since its last decision.
#[derive(Clone, Copy, Debug, PartialEq, Eq, Structural)]
pub enum BusEvent {
    /// A connect attempt came back with a connection.
    ConnectSucceeded,
    /// A connect attempt failed.
    ConnectFailed,
    /// The current record was published.
    PublishSucceeded,
    /// Publishing the current record failed or the connection broke.
    PublishFailed,
}

/// What the publisher task must do next.
#[derive(Clone, Copy, Debug, PartialEq, Eq, Structural)]
pub enum BusAction {
    /// Attempt to connect to the bus now.
    TryConnect,
    /// Wait [`BUS_RETRY_DELAY_SECS`] seconds, then attempt to connect.
    SleepThenConnect,
    /// Suspend until the relay channel yields a record, then publish
    /// it. Only ever requested in the connected state.
    AwaitRecordAndPublish,
}

/// One decision of the publisher: the state to carry forward, the next
/// action, and whether the event is reported as a failure.
#[derive(Clone, Copy, Debug, PartialEq, Eq, Structural)]
pub struct BusDecision {
    pub state: BusState,
    pub action: BusAction,
    pub report_failure: bool,
}

/// The state the publisher starts in: disconnected, about to make its
/// first connect attempt without any delay.
pub open spec fn bus_init_spec() -> BusDecision {
    BusDecision { state: BusState::Disconnected, action: BusAction::TryConnect, report_failure: false }
}

/// The publisher's transition function.
///
/// A failed connect keeps the machine disconnected, is reported, and
/// schedules the next attempt after the fixed delay — the retry never
/// gives up. A successful connect, or a successful publish, leaves the
/// machine connected and consuming the channel. A failed publish is
/// reported and drops the machine back to an immediate reconnect
/// attempt; the record in flight is lost. An event that cannot occur
/// in the current state changes nothing and continues that state's
/// own action.
pub open spec fn bus_step_spec(state: BusState, event: BusEvent) -> BusDecision {
    match (state, event) {
        (BusState::Disconnected, BusEvent::ConnectSucceeded) => BusDecision {
            state: BusState::Connected,
            action: BusAction::AwaitRecordAndPublish,
            report_failure: false,
        },
        (BusState::Disconnected, BusEvent::ConnectFailed) => BusDecision {
            state: BusState::Disconnected,
            action: BusAction::SleepThenConnect,
            report_failure: true,
        },
        (BusState::Connected, BusEvent::PublishSucceeded) => BusDecision {
            state: BusState::Connected,
            action: BusAction::AwaitRecordAndPublish,
            report_failure: false,
        },
        (BusState::Connected, BusEvent::PublishFailed) => BusDecision {
            state: BusState::Disconnected,
            action: BusAction::TryConnect,
            report_failure: true,
        },
        (BusState::Disconnected, _) => BusDecision {
            state: BusState::Disconnected,
            action: BusAction::TryConnect,
            report_failure: false,
        },
        (BusState::Connected, _) => BusDecision {
            state: BusState::Connected,
            action: BusAction::AwaitRecordAndPublish,
            report_failure: false,
        },
    }
}

/// The publisher's initial decision, see [`bus_init_spec`].
pub fn bus_init() -> (d: BusDecision)
    ensures
        d == bus_init_spec(),
{
    BusDecision { state: BusState::Disconnected, action: BusAction::TryConnect, report_failure: false }
}

/// Takes one publisher decision from the current state and the
/// observed event, exactly as [`bus_step_spec`] lays down.
pub fn bus_step(state: BusState, event: BusEvent) -> (d: BusDecision)
    ensures
        d == bus_step_spec(state, event),
{
    match (state, event) {
        (BusState::Disconnected, BusEvent::ConnectSucceeded) => BusDecision {
            state: BusState::Connected,
            action: BusAction::AwaitRecordAndPublish,
            report_failure: false,
        },
        (BusState::Disconnected, BusEvent::ConnectFailed) => BusDecision {
            state: BusState::Disconnected,
            action: BusAction::SleepThenConnect,
            report_failure: true,
        },
        (BusState::Connected, BusEvent::PublishSucceeded) => BusDecision {
            state: BusState::Connected,
            action: BusAction::AwaitRecordAndPublish,
            report_failure: false,
        },
        (BusState::Connected, BusEvent::PublishFailed) => BusDecision {
            state: BusState::Disconnected,
            action: BusAction::TryConnect,
            report_failure: true,
        },
        (BusState::Disconnected, _) => BusDecision {
            state: BusState::Disconnected,
            action: BusAction::TryConnect,
            report_failure: false,
        },
        (BusState::Connected, _) => BusDecision {
            state: BusState::Connected,
            action: BusAction::AwaitRecordAndPublish,
            report_failure: false,
        },
    }
}

/// The publisher consumes the relay channel only while connected: a
/// decision whose action awaits a record always carries the connected
/// state, and the machine reaches that action only through a
/// successful connect or a successful publish.
pub proof fn lemma_consumes_only_connected(state: BusState, event: BusEvent)
    ensures
        bus_step_spec(state, event).action is AwaitRecordAndPublish ==> bus_step_spec(
            state,
            event,
        ).state is Connected,
        bus_init_spec().action !is AwaitRecordAndPublish,
{
}

/// Every connect failure is reported and never final: the machine
/// stays disconnected and schedules another attempt after the fixed
/// delay, from any number of consecutive failures.
pub proof fn lemma_connect_retry_never_gives_up(event: BusEvent)
    ensures
        bus_step_spec(BusState::Disconnected, BusEvent::ConnectFailed) == (BusDecision {
            state: BusState::Disconnected,
            action: BusAction::SleepThenConnect,
            report_failure: true,
        }),
        bus_step_spec(BusState::Disconnected, event).state !is Connected || event
            is ConnectSucceeded,
{
}

} // verus!
