//! Poller decision logic.
//!
//! An independent periodic task issues an uplink request-telemetry
//! command on a fixed period. The timer and the transport write run
//! outside this library; the command code and the handling of a send
//! result are decided here. A failed send is reported and never
//! terminates the poller — the period itself throttles the retry, so
//! no extra backoff is needed.

use vstd::prelude::*;

verus! {

/// Seconds between two uplink polling commands.
pub const POLL_PERIOD_SECS: u64 = 10;

/// The uplink command code requesting a telemetry frame.
pub const POLL_COMMAND_ID: u8 = 0x54;

/// The command the poller sends on every tick.
pub fn poll_command() -> (c: u8)
    ensures
        c == POLL_COMMAND_ID,
{
    POLL_COMMAND_ID
}

/// Decides what a send result means for the poller: a failure is
/// reported, a success is not, and in either case the poller waits for
/// its next tick — it never stops.
pub fn poller_after_send(send_ok: bool) -> (report_failure: bool)
    ensures
        report_failure == !send_ok,
{
    !send_ok
}

} // verus!
