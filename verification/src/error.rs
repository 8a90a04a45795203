//! The caller-facing refusals the API layer maps to HTTP responses. The
//! mapping to a wire format lives outside the library; what is decided here
//! is which refusal carries which status code and message.

use vstd::prelude::*;

verus! {

/// A request the engine refuses, with the reason shown to the caller.
#[derive(Debug)]
pub enum RejectedApi {
    /// The caller is not who the request requires; maps to 401.
    AuthenticationError(String),
    /// The request cannot be served as asked; maps to 400.
    ClientError(String),
    /// The engine's own state cannot serve any such request; maps to 500.
    InternalError(String),
}

impl RejectedApi {
    /// The HTTP status code this refusal maps to.
    pub fn status_code(&self) -> (c: u16)
        ensures
            c == match self {
                RejectedApi::AuthenticationError(_) => 401u16,
                RejectedApi::ClientError(_) => 400u16,
                RejectedApi::InternalError(_) => 500u16,
            },
    {
        match self {
            RejectedApi::AuthenticationError(_) => 401,
            RejectedApi::ClientError(_) => 400,
            RejectedApi::InternalError(_) => 500,
        }
    }

    /// The reason this refusal carries.
    pub fn reason(&self) -> (m: &String)
        ensures
            m@ == match self {
                RejectedApi::AuthenticationError(s) => s@,
                RejectedApi::ClientError(s) => s@,
                RejectedApi::InternalError(s) => s@,
            },
    {
        match self {
            RejectedApi::AuthenticationError(s) => s,
            RejectedApi::ClientError(s) => s,
            RejectedApi::InternalError(s) => s,
        }
    }
}

} // verus!
