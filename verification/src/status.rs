use vstd::prelude::*;

verus! {

/// The gRPC status codes that a request can end with.
#[derive(Clone, Copy, Debug, PartialEq, Eq, Structural)]
pub enum StatusCode {
    /// The request completed (gRPC `OK`).
    NoError,
    Cancelled,
    Unknown,
    InvalidArgument,
    DeadlineExceeded,
    NotFound,
    AlreadyExists,
    PermissionDenied,
    ResourceExhausted,
    FailedPrecondition,
    Aborted,
    OutOfRange,
    Unimplemented,
    Internal,
    Unavailable,
    DataLoss,
    Unauthenticated,
}

/// The outcome of a failed request: a status code and a message.
#[derive(Debug)]
pub struct Status {
    pub code: StatusCode,
    pub message: String,
}

impl Status {
    /// A status with the given code and message.
    pub fn new(code: StatusCode, message: String) -> (s: Status)
        ensures
            s.code == code,
            s.message@ == message@,
    {
        Status { code, message }
    }

    /// An `Internal` status.
    pub fn internal(message: String) -> (s: Status)
        ensures
            s.code == StatusCode::Internal,
            s.message@ == message@,
    {
        Status { code: StatusCode::Internal, message }
    }

    /// A `NotFound` status.
    pub fn not_found(message: String) -> (s: Status)
        ensures
            s.code == StatusCode::NotFound,
            s.message@ == message@,
    {
        Status { code: StatusCode::NotFound, message }
    }

    /// An `InvalidArgument` status.
    pub fn invalid_argument(message: String) -> (s: Status)
        ensures
            s.code == StatusCode::InvalidArgument,
            s.message@ == message@,
    {
        Status { code: StatusCode::InvalidArgument, message }
    }

    /// An `Unimplemented` status.
    pub fn unimplemented(message: String) -> (s: Status)
        ensures
            s.code == StatusCode::Unimplemented,
            s.message@ == message@,
    {
        Status { code: StatusCode::Unimplemented, message }
    }

    /// A `FailedPrecondition` status.
    pub fn failed_precondition(message: String) -> (s: Status)
        ensures
            s.code == StatusCode::FailedPrecondition,
            s.message@ == message@,
    {
        Status { code: StatusCode::FailedPrecondition, message }
    }
}

} // verus!
