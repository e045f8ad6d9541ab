use vstd::prelude::*;

verus! {

/// Errors of the supervisor.
#[derive(Debug, Clone)]
pub enum Error {
    /// The service no longer exists.
    ServiceNotFound(u64),
    /// A request came without its parameters.
    MissingRequestParams,
    /// A request's parameters could not be read.
    InvalidRequestParams(String),
    /// The requested runtime is not one that the supervisor knows.
    UnknownRuntime,
    /// No usable port could be derived for a workload.
    MissingPortBinding,
    /// A subprocess, network or container-engine operation failed.
    Io(IoErrorKind, String),
}

/// The kind of an I/O error.
#[derive(Debug, Clone, Copy, PartialEq, Eq, Structural)]
pub enum IoErrorKind {
    /// The operation is not supported on this platform.
    Unsupported,
    /// Any other failure.
    Other,
}

} // verus!
