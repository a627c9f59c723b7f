//! What can go wrong with a call to the web service.

use std::collections::HashMap;
use vstd::prelude::*;

verus! {

/// The error document the service sends: messages by field.
#[derive(Clone, Debug, PartialEq, Eq)]
pub struct ErrorContent {
    pub errors: HashMap<String, String>,
}

/// Why a call gave no result.
#[derive(Clone, Debug, PartialEq, Eq)]
pub enum RestError {
    /// Status 500.
    InternalServerError { url: String },
    /// Status 503.
    ServiceUnavailable { url: String },
    /// The service does not know the caller, or does not let it.
    Unauthorized { url: String },
    /// Status 400, with what was sent and what came back.
    BadRequest { url: String, request: Option<String>, response: String },
    /// Any other status.
    UnexpectedStatus { status: u16, url: String, request: Option<String>, response: String },
}

} // verus!
