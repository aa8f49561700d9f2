//! Compute API, version 2.

pub mod protocol;
