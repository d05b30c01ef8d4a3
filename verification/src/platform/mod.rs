//! What each operating system makes of microphone access.
//!
//! Asking the system is the caller's part. What its answers mean is decided
//! here, once for each platform.

pub mod linux;
pub mod macos;
pub mod types;
pub mod windows;

use crate::platform::types::{PermissionStatus, PlatformError};
use vstd::prelude::*;

verus! {

/// Whether the microphone may be used, given the platform's status.
pub fn is_microphone_authorized(status: PermissionStatus) -> (authorized: bool)
    ensures
        authorized == status.granted(),
{
    status.is_granted()
}

/// Whether a request for the microphone was granted; a request that failed
/// counts as refused.
pub fn request_microphone_permission(outcome: Result<bool, PlatformError>) -> (granted: bool)
    ensures
        granted == (outcome matches Ok(answer) && answer),
{
    match outcome {
        Ok(answer) => answer,
        Err(_) => false,
    }
}

} // verus!
