//! The controller's API error taxonomy and its mapping onto HTTP status
//! codes.

use vstd::prelude::*;

verus! {

/// Failure of a controller operation.
#[derive(Debug)]
pub enum Error {
    /// The store failed internally.
    Store,
    /// The request body failed validation.
    InvalidEntity(String),
    /// The request is well-formed but cannot be processed.
    UnprocessableEntity(String),
    /// A uniqueness constraint was violated.
    Conflict(String),
    InternalServerError,
    NotFound,
}

/// The HTTP status an error maps to.
pub open spec fn http_status_of(e: Error) -> u16 {
    match e {
        Error::Store => 500,
        Error::InternalServerError => 500,
        Error::InvalidEntity(_) => 422,
        Error::UnprocessableEntity(_) => 422,
        Error::Conflict(_) => 409,
        Error::NotFound => 404,
    }
}

impl Error {
    /// The HTTP status code for this error.
    pub fn status_code(&self) -> (r: u16)
        ensures
            r == http_status_of(*self),
    {
        match self {
            Error::Store => 500,
            Error::InternalServerError => 500,
            Error::InvalidEntity(_) => 422,
            Error::UnprocessableEntity(_) => 422,
            Error::Conflict(_) => 409,
            Error::NotFound => 404,
        }
    }
}

/// The error a create returns when the node reports a failure: the node's
/// failure is the client's bad input, so it surfaces as unprocessable with
/// the node's message attached.
pub fn node_create_error(message: &str) -> (r: Error)
    ensures
        r matches Error::UnprocessableEntity(m) && m@ == "qarax-node: "@ + message@,
{
    let mut m = String::from_str("qarax-node: ");
    m.append(message);
    Error::UnprocessableEntity(m)
}

/// The error when no host is up to schedule onto.
pub fn no_hosts_error() -> (r: Error)
    ensures
        r matches Error::UnprocessableEntity(m) && m@
            == "no hosts in UP state available for scheduling"@,
{
    Error::UnprocessableEntity(String::from_str("no hosts in UP state available for scheduling"))
}

} // verus!
