//! Verified core of a passive Wi-Fi presence sensor.
//!
//! The node listens for IEEE 802.11 probe requests, compresses each probe body
//! into a 16-bit fingerprint, counts the fingerprints that differ by more than
//! a Hamming tolerance, and queues one aggregate count per period for upload.
//! Everything here is plain state and decisions: radio, scheduler and sockets
//! live with the caller, which feeds events in and carries actions out.

pub mod bits;
pub mod clock;
pub mod fixed_vec;
pub mod models;
pub mod packages;
pub mod probes;
pub mod wifi;
