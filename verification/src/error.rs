//! The ways in which a call to the remote service can fail.

use vstd::prelude::*;

verus! {

/// Why a call to the remote service failed.
#[derive(Debug, PartialEq, Eq)]
pub enum ApiError {
    /// The request did not get through; the text is the transport's own report.
    Transport(String),
    /// The reply arrived but its body was not what the service promises.
    Parse,
    /// The signing page lacks a field that the direct link needs.
    Resolution,
    /// The service refused the credential.
    Auth,
}

impl Clone for ApiError {
    fn clone(&self) -> (copy: Self)
        ensures
            copy == *self,
    {
        match self {
            ApiError::Transport(report) => ApiError::Transport(report.clone()),
            ApiError::Parse => ApiError::Parse,
            ApiError::Resolution => ApiError::Resolution,
            ApiError::Auth => ApiError::Auth,
        }
    }
}

/// What came back for one request, as the transport saw it.
#[derive(Debug)]
pub enum Reply<T> {
    /// The request could not be sent or no reply arrived.
    Failed(String),
    /// The service refused the credential.
    Rejected,
    /// A reply arrived whose body could not be understood.
    Malformed,
    /// A reply arrived and its body was understood.
    Body(T),
}

/// Whether an HTTP status says that the service refused the credential:
/// 401 and 403 do.
pub open spec fn refuses(status: u16) -> bool {
    status == 401 || status == 403
}

/// Tells whether an HTTP status says that the service refused the credential.
pub fn is_refusal(status: u16) -> (refused: bool)
    ensures
        refused == refuses(status),
{
    status == 401 || status == 403
}

impl<T> Reply<T> {
    /// The body of a reply, or the error that stands for what went wrong.
    pub open spec fn outcome(self) -> Result<T, ApiError> {
        match self {
            Reply::Failed(report) => Err(ApiError::Transport(report)),
            Reply::Rejected => Err(ApiError::Auth),
            Reply::Malformed => Err(ApiError::Parse),
            Reply::Body(body) => Ok(body),
        }
    }

    /// Turns a reply into the result that the caller of the service sees.
    pub fn into_result(self) -> (result: Result<T, ApiError>)
        ensures
            result == self.outcome(),
    {
        match self {
            Reply::Failed(report) => Err(ApiError::Transport(report)),
            Reply::Rejected => Err(ApiError::Auth),
            Reply::Malformed => Err(ApiError::Parse),
            Reply::Body(body) => Ok(body),
        }
    }
}

} // verus!
