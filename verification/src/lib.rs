//! Ground-station telemetry relay core: frame checksum validation,
//! multiplex payload dispatch, a bounded outbound relay queue, and the
//! decision logic of the bus-publisher and poller tasks.

pub mod checksum;
pub mod config;
pub mod decoder;
pub mod dispatch;
pub mod ingest;
pub mod poller;
pub mod publisher;
pub mod records;
pub mod relay;

pub use checksum::crc_ccitt;
pub use config::GSTConfig;
pub use config::GSTError;
