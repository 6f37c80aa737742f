use vstd::prelude::*;

verus! {

/// The errors of dbnest.
///
/// `Io` and `Json` carry the text of the underlying I/O or JSON error: those
/// errors arise where files are read and written, outside the verified core.
#[derive(Debug)]
pub enum DbnestError {
    InvalidArgument(String),
    InstanceNotFound(String),
    DockerNotAvailable,
    DockerCommandFailed { command: String, stderr: String, hint: String },
    Io(String),
    Json(String),
}

/// `Ok(v)` or an error of dbnest.
pub type Result<T> = core::result::Result<T, DbnestError>;

/// Whether `r` is the error `InvalidArgument` with the message `msg`.
pub open spec fn is_invalid_argument<T>(r: Result<T>, msg: Seq<char>) -> bool {
    r matches Err(DbnestError::InvalidArgument(m)) && m@ == msg
}

} // verus!
