//! Error types

use vstd::prelude::*;

verus! {

/// Why a request to the Steam Web API gave no usable answer.
#[derive(Debug, PartialEq, Eq)]
pub enum RequestFailure {
    /// No answer arrived; the text is what the transport reported.
    Transport(String),
    /// Steam answered with a status other than 200 and 401.
    Status(u16),
    /// Steam answered 200 with a body that is not JSON.
    MalformedBody,
}

/// Represents an error that was returned by a Steam API endpoint.
#[derive(Debug, PartialEq, Eq)]
#[non_exhaustive]
pub enum SteamError {
    /// The request failed, for the reason given.
    FailedRequest(RequestFailure),
    /// Steam answered 401: either the API key is invalid, or the data is private.
    Unauthorized,
    /// The answer did not have the shape that the endpoint documents.
    NoData,
}

} // verus!
