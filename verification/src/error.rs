//! The ways in which a request to the store can fail.

use vstd::prelude::*;
use vstd::string::StringExecFns;

verus! {

/// A failed request.
#[derive(Clone, Debug, PartialEq, Eq)]
pub enum BackendError {
    /// The relational store failed: the connection, the statement or a
    /// constraint. Holds the store's own message.
    StorageError(String),
    /// The request cannot be carried out as it stands. Holds the reason.
    InvalidRequest(String),
}

/// The class of failure that is reported to a remote caller.
#[derive(Clone, Copy, Debug, PartialEq, Eq)]
pub enum StatusCode {
    Internal,
    InvalidArgument,
}

/// A failure as a remote caller sees it.
#[derive(Clone, Debug, PartialEq, Eq)]
pub struct Status {
    pub code: StatusCode,
    pub message: String,
}

impl BackendError {
    /// The message the error carries.
    pub open spec fn detail(self) -> Seq<char> {
        match self {
            BackendError::StorageError(msg) => msg@,
            BackendError::InvalidRequest(msg) => msg@,
        }
    }

    /// The class under which the error is reported.
    pub open spec fn class(self) -> StatusCode {
        match self {
            BackendError::StorageError(_) => StatusCode::Internal,
            BackendError::InvalidRequest(_) => StatusCode::InvalidArgument,
        }
    }

    /// The words that introduce the error's message when it is shown.
    pub open spec fn heading(self) -> Seq<char> {
        match self {
            BackendError::StorageError(_) => "Storage error: "@,
            BackendError::InvalidRequest(_) => "Invalid request: "@,
        }
    }

    /// An invalid-request error with the given reason.
    pub fn invalid(reason: &str) -> (error: BackendError)
        ensures
            error is InvalidRequest,
            error.detail() == reason@,
            error.class() == StatusCode::InvalidArgument,
    {
        BackendError::InvalidRequest(String::from_str(reason))
    }

    /// The error as a line of text: its heading, then its message.
    pub fn to_text(&self) -> (line: String)
        ensures
            line@ == self.heading() + self.detail(),
    {
        match self {
            BackendError::StorageError(msg) => {
                let mut line = String::from_str("Storage error: ");
                line.append(msg.as_str());
                line
            },
            BackendError::InvalidRequest(msg) => {
                let mut line = String::from_str("Invalid request: ");
                line.append(msg.as_str());
                line
            },
        }
    }

    /// The status reported to a remote caller: a storage failure is an
    /// internal error, an invalid request an invalid argument; the message is
    /// carried over.
    pub fn into_status(self) -> (status: Status)
        ensures
            status.code == self.class(),
            status.message@ == self.detail(),
    {
        match self {
            BackendError::StorageError(msg) => Status { code: StatusCode::Internal, message: msg },
            BackendError::InvalidRequest(msg) => Status {
                code: StatusCode::InvalidArgument,
                message: msg,
            },
        }
    }
}

} // verus!
