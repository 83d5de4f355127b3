//! Sampling lifecycle and cross-core data-handoff model for a BLE sensor
//! peripheral: a bounded FIFO sample channel, the acquisition worker's
//! per-tick decision logic, the subscription-driven lifecycle state machine,
//! the notification pump, the connection admission policy, and the
//! little-endian sample serialization.
//!
//! Hardware access (ADC reads, delays) and the BLE stack are outside
//! collaborators: the entry point performs them and feeds their outcomes
//! into the verified transition functions here.

pub mod acquisition;
pub mod admission;
pub mod channel;
pub mod codec;
pub mod config;
pub mod lifecycle;
pub mod pump;
