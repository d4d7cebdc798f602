//! The server's validation-error envelope.

use vstd::prelude::*;

verus! {

/// The body of a 401 or 422 answer: a list of per-field validation errors,
/// or nothing.
#[derive(Clone, Debug)]
pub struct HTTPValidationError {
    pub detail: Option<Vec<ValidationError>>,
}

/// One validation error: where it happened, the message, and the error type.
#[derive(Clone, Debug)]
pub struct ValidationError {
    pub loc: Vec<ValidationErrorLocation>,
    pub msg: String,
    pub error_type: String,
}

/// One segment of an error location. The panel sends strings or integers
/// here; this model keeps only their presence.
#[derive(Clone, Debug)]
pub struct ValidationErrorLocation {}

} // verus!
