//! A bidirectional byte-stream bridge between a host process's standard
//! streams and a serial device: device discovery by USB identifiers,
//! a bounded-wait device session, the two forwarding paths of the relay,
//! and the supervisor that reopens the device after a failure.

pub mod args;
pub mod bridge;
pub mod device;
pub mod error;
pub mod listing;
pub mod relay;
pub mod ports;
pub mod supervisor;
