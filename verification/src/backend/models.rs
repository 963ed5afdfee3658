//! Plain records that the backend hands to its callers.

use vstd::prelude::*;

verus! {

/// The body of a failed request.
#[derive(Debug, Clone)]
pub struct ErrorResponse {
    pub error: String,
}

/// A user of the marketplace.
#[derive(Debug, Clone)]
pub struct User {
    pub id: String,
    pub email: String,
    pub role: String,
}

impl ErrorResponse {
    /// The body that carries `error`.
    pub fn new(error: &str) -> (body: ErrorResponse)
        ensures
            body.error@ == error@,
    {
        ErrorResponse { error: error.to_owned() }
    }
}

} // verus!
