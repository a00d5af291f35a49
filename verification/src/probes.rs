//! Capture path: fingerprints, their bounded store and the distinct-device count.

pub mod counter;
pub mod fingerprint_store;
pub mod probe_parser;
