//! The ways a certificate request can fail, with the status and message of each.
use crate::text::{push_signed_decimal, signed_decimal};
use vstd::prelude::*;
use vstd::string::*;

verus! {

/// Why a request failed. Every failure ends the request with one of these.
#[derive(Clone, Debug, PartialEq, Eq)]
pub enum ErrorKind {
    /// A routing identifier (module id or generation id) is missing.
    BadParam,
    /// The request body did not decode; holds the decoder's account of why.
    BadBody(String),
    /// A required string argument is empty or only whitespace.
    EmptyArgument,
    /// The expiration is not an RFC 3339 / ISO 8601 timestamp.
    InvalidIso8601,
    /// A value lay outside the bounds `low` and `high` that it carries.
    OutOfRange(i64, i64),
    /// The certificate store failed; holds the store's message.
    StoreError(String),
    /// Reading a field of the issued certificate failed; holds the cause.
    IoError(String),
}

pub open spec fn caused_by(context: Seq<char>, cause: Seq<char>) -> Seq<char> {
    context + "\n\tcaused by: "@ + cause
}

/// The human-readable message of each error.
pub open spec fn message_of(e: ErrorKind) -> Seq<char> {
    match e {
        ErrorKind::BadParam => "Bad parameter"@,
        ErrorKind::BadBody(c) => caused_by("Bad body"@, c@),
        ErrorKind::EmptyArgument => "Argument is empty or only has whitespace"@,
        ErrorKind::InvalidIso8601 => "Invalid ISO 8601 date"@,
        ErrorKind::OutOfRange(lo, hi) => "Argument out of range ["@ + signed_decimal(lo as int)
            + ", "@ + signed_decimal(hi as int) + ")"@,
        ErrorKind::StoreError(c) => caused_by("Could not create certificate"@, c@),
        ErrorKind::IoError(c) => caused_by("Could not read certificate"@, c@),
    }
}

/// 400 for faults in what the caller sent, 500 for the rest.
pub open spec fn status_of(e: ErrorKind) -> u16 {
    match e {
        ErrorKind::BadParam | ErrorKind::BadBody(_) => 400,
        _ => 500,
    }
}

impl ErrorKind {
    /// The HTTP status code that answers this error.
    pub fn status(&self) -> (r: u16)
        ensures
            r == status_of(*self),
    {
        match self {
            ErrorKind::BadParam | ErrorKind::BadBody(_) => 400,
            _ => 500,
        }
    }

    /// The message that the error response carries.
    pub fn message(&self) -> (r: String)
        ensures
            r@ == message_of(*self),
    {
        let mut s = String::new();
        match self {
            ErrorKind::BadParam => {
                s.append("Bad parameter");
            },
            ErrorKind::BadBody(c) => {
                s.append("Bad body");
                s.append("\n\tcaused by: ");
                s.append(c.as_str());
            },
            ErrorKind::EmptyArgument => {
                s.append("Argument is empty or only has whitespace");
            },
            ErrorKind::InvalidIso8601 => {
                s.append("Invalid ISO 8601 date");
            },
            ErrorKind::OutOfRange(lo, hi) => {
                s.append("Argument out of range [");
                push_signed_decimal(&mut s, *lo);
                s.append(", ");
                push_signed_decimal(&mut s, *hi);
                s.append(")");
            },
            ErrorKind::StoreError(c) => {
                s.append("Could not create certificate");
                s.append("\n\tcaused by: ");
                s.append(c.as_str());
            },
            ErrorKind::IoError(c) => {
                s.append("Could not read certificate");
                s.append("\n\tcaused by: ");
                s.append(c.as_str());
            },
        }
        s
    }
}

} // verus!
