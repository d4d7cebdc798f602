//! Error types surfaced by every endpoint operation.
//!
//! The taxonomy is flat: a transport failure, a classified answer from the
//! server, or a status code outside the endpoint's recognized set.

use vstd::prelude::*;

verus! {

/// The error type every endpoint operation returns.
pub enum ApiError {
    /// The transport failed: connection, timeout, or a body that did not
    /// decode as the expected type. Carries the transport's own message.
    NetworkError(String),
    /// The server answered with a recognized non-success status. Carries a
    /// human-readable message; for validation errors it includes the decoded
    /// envelope content.
    ApiResponseError(String),
    /// The server answered with a status code outside the endpoint's
    /// recognized set.
    UnexpectedResponse,
}

impl ApiError {
    /// A human-readable description of the error.
    pub fn message(&self) -> (m: String)
        ensures
            (match self {
                ApiError::NetworkError(s) => m@ == "Network error: "@ + s@,
                ApiError::ApiResponseError(s) => m@ == "API error: "@ + s@,
                ApiError::UnexpectedResponse => m@ == "Unexpected API response"@,
            }),
    {
        match self {
            ApiError::NetworkError(s) => {
                let mut m = String::from_str("Network error: ");
                m.append(s.as_str());
                m
            },
            ApiError::ApiResponseError(s) => {
                let mut m = String::from_str("API error: ");
                m.append(s.as_str());
                m
            },
            ApiError::UnexpectedResponse => String::from_str("Unexpected API response"),
        }
    }
}

} // verus!
