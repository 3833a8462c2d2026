//! Service configuration and the fatal startup errors.
//!
//! Configuration is supplied externally before the orchestrator
//! starts; only acquiring the transport or the first bus connection
//! can be fatal, and those failures are surfaced to the caller as
//! [`GSTError`] values instead of being retried internally.

use vstd::prelude::*;

verus! {

/// A fatal startup error of the relay service. Each variant carries
/// the underlying error rendered as text.
#[derive(Debug)]
pub enum GSTError {
    /// Connecting to the message bus failed.
    ConnectNATS(String),
    /// Subscribing on the message bus failed.
    SubscribeNATS(String),
    /// Opening the serial transport failed.
    SerialError(String),
}

/// The externally supplied configuration of the relay service.
#[derive(Debug)]
pub struct GSTConfig {
    /// Address of the message bus.
    pub nats_address: String,
    /// User name for the message bus.
    pub nats_user: String,
    /// Password for the message bus.
    pub nats_pwd: String,
    /// Path of the serial device the transceiver is attached to.
    pub serial_port: String,
    /// Baud rate of the serial link.
    pub serial_baud: u32,
}

impl GSTConfig {
    /// Creates a new configuration with default values.
    pub fn new() -> (c: Self)
        ensures
            c.nats_address@ == "127.0.0.1"@,
            c.nats_user@ == "nats"@,
            c.nats_pwd@ == "nats"@,
            c.serial_port@ == "/dev/ttyUSB0"@,
            c.serial_baud == 115200,
    {
        Self {
            nats_address: "127.0.0.1".to_string(),
            nats_user: "nats".to_string(),
            nats_pwd: "nats".to_string(),
            serial_port: "/dev/ttyUSB0".to_string(),
            serial_baud: 115_200,
        }
    }
}

} // verus!
