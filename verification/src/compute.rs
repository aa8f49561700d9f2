//! Compute API.

pub mod v2;
