use vstd::prelude::*;

verus! {

/// Status codes of the RPC surface; a successful operation returns a value
/// rather than a status, so only failure codes are represented.
#[derive(Clone, Copy, Debug, PartialEq, Eq, Structural)]
pub enum Code {
    NotFound,
    InvalidArgument,
    AlreadyExists,
    FailedPrecondition,
    Internal,
    NotImplemented,
    Unknown,
}

/// A status code together with a human-readable message; every failed
/// operation of the task service surfaces as one of these.
#[derive(Clone, Debug)]
pub struct Status {
    pub code: Code,
    pub message: String,
}

/// The library's error type: either a status destined for the RPC caller,
/// or an internal error message that is mapped to `Code::Internal`.
#[derive(Clone, Debug)]
pub enum ShimError {
    Rpc(Status),
    Internal(String),
}

impl ShimError {
    /// The status that an RPC caller observes for this error.
    pub fn to_status(self) -> (r: Status)
        ensures
            r == self.status_spec(),
    {
        match self {
            ShimError::Rpc(s) => s,
            ShimError::Internal(message) => Status { code: Code::Internal, message },
        }
    }

    pub open spec fn status_spec(self) -> Status {
        match self {
            ShimError::Rpc(s) => s,
            ShimError::Internal(message) => Status { code: Code::Internal, message },
        }
    }

    /// The status code of this error.
    pub fn code(&self) -> (r: Code)
        ensures
            r == self.status_spec().code,
    {
        match self {
            ShimError::Rpc(s) => s.code,
            ShimError::Internal(_) => Code::Internal,
        }
    }
}

/// Builds the status for a failed RPC.
pub fn ttrpc_error(code: Code, message: String) -> (r: Status)
    ensures
        r.code == code,
        r.message == message,
{
    Status { code, message }
}

pub type ShimResult<T> = Result<T, ShimError>;

} // verus!
