//! Error taxonomy of the service layer.
use vstd::prelude::*;

verus! {

/// Failures surfaced by discovery, status and log operations. Malformed
/// external data (status lines, stamps) is never an error — it degrades to
/// `Unknown` or absent fields; these variants cover input validation,
/// external command failure and filesystem access failure.
#[derive(Debug, Clone)]
pub enum ServiceError {
    /// Filesystem access failed at `path`.
    Io { path: String, message: String },
    /// The external `sv` tool reported a failure for `service`.
    SvCommand { service: String, message: String },
    /// The given service name failed validation.
    InvalidServiceName(String),
    /// A service's log stream could not be provided.
    LogUnavailable(String),
    /// Anything else.
    Other(String),
}

impl ServiceError {
    /// Wrap a filesystem failure together with the path it struck.
    pub fn from_io(path: String, message: String) -> (r: ServiceError)
        ensures
            r matches ServiceError::Io { path: p, message: m } && p@ == path@ && m@ == message@,
    {
        ServiceError::Io { path, message }
    }
}

} // verus!
