//! The error type that every service of the library returns.
use vstd::prelude::*;
use vstd::string::*;

verus! {

/// What kind of failure an error reports (the Matrix error kinds the
/// services use, plus the configuration and admin-command failures).
#[derive(Debug, Clone, Copy, PartialEq, Eq, Structural)]
pub enum ErrorKind {
    InvalidParam,
    TooLarge,
    Unknown,
    NotFound,
    Forbidden,
    Exclusive,
    UserInUse,
    LimitExceeded,
    BadJson,
    Unrecognized,
    BadConfig,
    AdminCommand,
    BadServerResponse,
}

/// An error: its kind and a human-readable message.
#[derive(Debug)]
pub struct ServiceError {
    pub kind: ErrorKind,
    pub message: String,
}

/// The error a service reports with `kind` and message `msg`.
pub open spec fn is_error(e: ServiceError, kind: ErrorKind, msg: Seq<char>) -> bool {
    e.kind == kind && e.message@ == msg
}

/// Builds an error of kind `kind` with message `msg`.
pub fn make_error(kind: ErrorKind, msg: &str) -> (e: ServiceError)
    ensures
        is_error(e, kind, msg@),
{
    ServiceError { kind, message: String::from_str(msg) }
}

/// Builds an error whose message is `msg` followed by `detail`.
pub fn make_error_with(kind: ErrorKind, msg: &str, detail: &str) -> (e: ServiceError)
    ensures
        is_error(e, kind, msg@ + detail@),
{
    let mut message = String::from_str(msg);
    message.append(detail);
    ServiceError { kind, message }
}

} // verus!
