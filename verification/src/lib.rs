//! Typed client-side binding for a cloud compute control-plane REST API.
//!
//! The [`http`] module holds the response pipeline: a guard that validates
//! the status of a response before any of its body is read, and a typed
//! result that accumulates the body and hands the complete buffer to a
//! parser. Both are state machines that take the outcome of each poll of
//! the transport as an event and answer with the next step, so that any
//! cooperative scheduler can drive them.
//!
//! The [`compute`] module holds the enumerations of the Compute API
//! together with their names on the wire, and the structures that the API
//! answers with. The [`common`] module holds what the services share.

pub mod common;
pub mod compute;
pub mod error;
pub mod http;

pub use error::ApiError;
