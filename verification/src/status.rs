//! Status codes of the authentication subsystem and the error types of the
//! library.

use vstd::prelude::*;

verus! {

/// Outcome of one call into the authentication subsystem, as the library
/// models it. Only the codes this controller reacts to are distinguished;
/// every other code is carried as `Other`.
#[derive(Clone, Copy, Debug, PartialEq, Eq, Structural)]
pub enum PamStatus {
    /// The call succeeded.
    Success,
    /// The caller lacks permission for the operation.
    PermDenied,
    /// Authentication itself failed.
    AuthErr,
    /// The prompt/response conversation failed.
    ConvErr,
    /// The subsystem could not allocate a response buffer.
    BufErr,
    /// Opening or closing the session failed.
    SessionErr,
    /// Any other failure code.
    Other,
}

/// A fatal authentication or session-open failure, carrying the status code
/// that caused it.
#[derive(Clone, Copy, Debug, PartialEq, Eq, Structural)]
pub struct AuthError {
    pub code: PamStatus,
}

/// A failed remote session-control call.
#[derive(Clone, Copy, Debug, PartialEq, Eq, Structural)]
pub enum ControlError {
    /// The call did not return within the channel's timeout.
    Timeout,
    /// The service answered with an error.
    Failed,
}

} // verus!
