//! The error taxonomy of the session layer: transport failures reported by
//! the HTTP status mapping, and usage failures of the command channel.

use vstd::prelude::*;

use crate::numfmt::dec_nat;
use crate::numfmt::u64_to_dec;

verus! {

/// An error surfaced by the REST transport or the command channel.
/// Distinguished HTTP statuses get their own variant; a bad request
/// carries the response detail; every other non-200 status is carried in
/// `UnexpectedStatus`.
#[derive(Debug, Clone, PartialEq, Eq)]
pub enum ApiError {
    InternalServerError,
    ServiceUnavailable,
    Unauthorized,
    BadRequest(String),
    UnexpectedStatus(u16),
    ChannelClosed,
    ShutdownFailed,
}

/// The message text of each error.
pub open spec fn error_message(e: ApiError) -> Seq<char> {
    match e {
        ApiError::InternalServerError => "Internal Server Error"@,
        ApiError::ServiceUnavailable => "Service Unavailable"@,
        ApiError::Unauthorized => "Unauthorized"@,
        ApiError::BadRequest(detail) => "Bad Request: "@.add(detail@),
        ApiError::UnexpectedStatus(s) => "Received response: "@.add(dec_nat(s as nat)),
        ApiError::ChannelClosed => "not able to send a message"@,
        ApiError::ShutdownFailed => "Error during shutdown"@,
    }
}

impl ApiError {
    /// Renders the error as text.
    pub fn message(&self) -> (r: String)
        ensures
            r@ == error_message(*self),
    {
        match self {
            ApiError::InternalServerError => "Internal Server Error".to_owned(),
            ApiError::ServiceUnavailable => "Service Unavailable".to_owned(),
            ApiError::Unauthorized => "Unauthorized".to_owned(),
            ApiError::BadRequest(detail) => {
                let prefix = "Bad Request: ".to_owned();
                prefix.concat(detail.as_str())
            },
            ApiError::UnexpectedStatus(s) => {
                let prefix = "Received response: ".to_owned();
                let digits = u64_to_dec(*s as u64);
                prefix.concat(digits.as_str())
            },
            ApiError::ChannelClosed => "not able to send a message".to_owned(),
            ApiError::ShutdownFailed => "Error during shutdown".to_owned(),
        }
    }
}

} // verus!
