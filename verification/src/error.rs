//! The failures that the API reports to its caller.

use vstd::prelude::*;

verus! {

/// Why an operation of this crate failed.
#[derive(Debug, PartialEq, Eq)]
pub enum ApiError {
    /// The path does not exist.
    NotFound,
    /// The path exists but may not be read.
    PermissionDenied,
    /// The command parser rejected a raw command. `command` is the text that
    /// was rejected and `reason` is what the parser said about it.
    InvalidCommand { command: String, reason: String },
    /// A collaborator (the progress store, the event bus) could not be
    /// reached.
    Upstream,
    /// Anything else went wrong inside the process.
    Internal,
}

impl Clone for ApiError {
    fn clone(&self) -> (copy: Self)
        ensures
            copy == *self,
    {
        match self {
            ApiError::NotFound => ApiError::NotFound,
            ApiError::PermissionDenied => ApiError::PermissionDenied,
            ApiError::InvalidCommand { command, reason } => ApiError::InvalidCommand {
                command: command.clone(),
                reason: reason.clone(),
            },
            ApiError::Upstream => ApiError::Upstream,
            ApiError::Internal => ApiError::Internal,
        }
    }
}

/// Why the file system could not turn a path into its canonical form.
#[derive(Debug, Clone, Copy, PartialEq, Eq, Structural)]
pub enum PathFailure {
    NotFound,
    PermissionDenied,
    Other,
}

impl PathFailure {
    /// The error under which a failed canonicalization is reported.
    pub open spec fn reported_as(self) -> ApiError {
        match self {
            PathFailure::NotFound => ApiError::NotFound,
            PathFailure::PermissionDenied => ApiError::PermissionDenied,
            PathFailure::Other => ApiError::Internal,
        }
    }

    /// Maps a file system failure to the error of the same kind; what is
    /// neither a missing path nor a refused one is an internal error.
    pub fn into_error(self) -> (error: ApiError)
        ensures
            error == self.reported_as(),
    {
        match self {
            PathFailure::NotFound => ApiError::NotFound,
            PathFailure::PermissionDenied => ApiError::PermissionDenied,
            PathFailure::Other => ApiError::Internal,
        }
    }
}

} // verus!
