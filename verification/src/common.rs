//! Structures shared between the services.

pub mod protocol;
