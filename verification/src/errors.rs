//! The error taxonomy the server reports to its host.

use vstd::prelude::*;
use vstd::string::StringExecFns;

verus! {

/// The failures the upload server can report to its host. All of them are
/// rendered as a single descriptive string at the UI boundary; per-part
/// upload failures are not among them (those are accumulated into an
/// [`crate::upload::UploadOutcome`] instead).
#[derive(Debug)]
pub enum AppError {
    /// A filesystem operation failed; the payload describes the failure.
    Io(String),
    /// The host's local network address could not be resolved.
    NetworkDetection(String),
    /// The listener could not be bound, or the transport failed.
    Server(String),
    /// A request-level upload fault unrelated to individual parts.
    Upload(String),
    /// A start was attempted while a session is already active.
    AlreadyRunning,
    /// A stop was attempted with no active session.
    NotRunning,
}

impl AppError {
    /// The descriptive text shown for this error at the UI boundary.
    pub open spec fn message_spec(&self) -> Seq<char> {
        match self {
            AppError::Io(d) => "IO error: "@ + d@,
            AppError::NetworkDetection(_) => "Network error: failed to detect local IP address"@,
            AppError::Server(d) => "Server error: "@ + d@,
            AppError::Upload(d) => "Upload error: "@ + d@,
            AppError::AlreadyRunning => "Server is already running"@,
            AppError::NotRunning => "Server is not running"@,
        }
    }

    /// Renders the error as its descriptive string.
    pub fn message(&self) -> (r: String)
        ensures
            r@ == self.message_spec(),
    {
        match self {
            AppError::Io(d) => {
                let mut s = "IO error: ".to_owned();
                s.append(d.as_str());
                s
            },
            AppError::NetworkDetection(_) => {
                "Network error: failed to detect local IP address".to_owned()
            },
            AppError::Server(d) => {
                let mut s = "Server error: ".to_owned();
                s.append(d.as_str());
                s
            },
            AppError::Upload(d) => {
                let mut s = "Upload error: ".to_owned();
                s.append(d.as_str());
                s
            },
            AppError::AlreadyRunning => "Server is already running".to_owned(),
            AppError::NotRunning => "Server is not running".to_owned(),
        }
    }
}

} // verus!
