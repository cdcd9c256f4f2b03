//! Verified core of a telemetry node: a device that periodically reads a
//! temperature/humidity sensor and a real-time clock, assembles the readings
//! into a JSON telemetry record, and publishes the record to a message broker.
//!
//! The hardware and network edges (bus transactions, the native broker
//! client, the wireless join) live outside this crate; this library holds the
//! decisions and computations between them: register decoding, payload
//! assembly, credential validation, outcome classification, and the lifecycle
//! and cadence rules of the publish loop.

pub mod broker;
pub mod clock;
pub mod cycle;
pub mod errors;
pub mod sample;
pub mod text;
