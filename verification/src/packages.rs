//! Aggregates waiting for upload.

pub mod package_store;
