//! Types shared by the platforms.

use vstd::prelude::*;
use vstd::string::*;

verus! {

/// Why a platform operation failed.
#[derive(Debug)]
pub enum PlatformError {
    PermissionDenied(String),
    NotSupported(String),
    OperationFailed(String),
    WindowHandleUnavailable,
}

impl PlatformError {
    /// The text of `message`.
    pub open spec fn message_spec(self) -> Seq<char> {
        match self {
            PlatformError::PermissionDenied(detail) => "Permission denied: "@ + detail@,
            PlatformError::NotSupported(detail) => "Feature not supported on this platform: "@
                + detail@,
            PlatformError::OperationFailed(detail) => "Platform operation failed: "@ + detail@,
            PlatformError::WindowHandleUnavailable => "Window handle not available"@,
        }
    }

    /// Human-readable description of the error.
    pub fn message(&self) -> (text: String)
        ensures
            text@ == self.message_spec(),
    {
        match self {
            PlatformError::PermissionDenied(detail) => String::from_str(
                "Permission denied: ",
            ).concat(detail.as_str()),
            PlatformError::NotSupported(detail) => String::from_str(
                "Feature not supported on this platform: ",
            ).concat(detail.as_str()),
            PlatformError::OperationFailed(detail) => String::from_str(
                "Platform operation failed: ",
            ).concat(detail.as_str()),
            PlatformError::WindowHandleUnavailable => String::from_str(
                "Window handle not available",
            ),
        }
    }
}

/// Result of a platform operation.
pub type PlatformResult<T> = Result<T, PlatformError>;

/// Where microphone access stands.
#[derive(Debug, Clone, Copy, PartialEq, Eq, Structural)]
pub enum PermissionStatus {
    /// Access has been granted.
    Authorized,
    /// Access has been refused.
    Denied,
    /// The user has not been asked yet.
    NotDetermined,
    /// Access is restricted, by parental controls for one.
    Restricted,
}

impl PermissionStatus {
    /// Access has been granted.
    pub open spec fn granted(self) -> bool {
        self is Authorized
    }

    /// Whether access has been granted.
    pub fn is_granted(&self) -> (granted: bool)
        ensures
            granted == self.granted(),
    {
        match self {
            PermissionStatus::Authorized => true,
            _ => false,
        }
    }
}

} // verus!
