//! Errors of the response pipeline.

use vstd::prelude::*;

use crate::http::Response;

verus! {

/// Failure of the transport itself: the connection was reset, the name did
/// not resolve, the handshake failed. The cause is opaque to the pipeline.
#[derive(Debug, Clone, PartialEq, Eq)]
pub struct TransportError {
    /// What the transport said of the failure.
    pub message: String,
}

/// Failure of a body parser: the body arrived in full but does not have the
/// shape of the target type.
#[derive(Debug, Clone, PartialEq, Eq)]
pub struct ParseError {
    /// What the parser said of the failure.
    pub message: String,
}

/// Every way in which a request can fail.
#[derive(Debug, Clone, PartialEq, Eq)]
pub enum ApiError {
    /// The network operation itself failed.
    TransportFailure(TransportError),
    /// The service answered with a status code outside the success class.
    /// The response is kept for inspection.
    StatusFailure { code: u16, response: Response },
    /// The complete body could not be converted to the target type.
    ParseFailure(ParseError),
}

} // verus!
