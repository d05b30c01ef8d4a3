//! Microphone access as macOS reports it; every other system needs no
//! permission on this path.

use crate::platform::types::PermissionStatus;
use crate::whisper::gpu::TargetOs;
use vstd::prelude::*;

verus! {

/// Whether the microphone may be used: on macOS when the status says so,
/// elsewhere always.
pub fn is_microphone_authorized(target_os: TargetOs, status: PermissionStatus) -> (authorized: bool)
    ensures
        authorized == (!(target_os is MacOs) || status.granted()),
{
    match target_os {
        TargetOs::MacOs => status.is_granted(),
        _ => true,
    }
}

/// Whether a request for the microphone is granted. On macOS granted access
/// stays granted, refused or restricted access stays refused, and an open
/// status goes by `user_answer`, the user's answer to the system's dialog
/// (`None` where no answer came). Elsewhere the request is always granted.
pub fn request_microphone_permission(
    target_os: TargetOs,
    status: PermissionStatus,
    user_answer: Option<bool>,
) -> (granted: bool)
    ensures
        granted == (if !(target_os is MacOs) {
            true
        } else if status is Authorized {
            true
        } else if status is NotDetermined {
            user_answer == Some(true)
        } else {
            false
        }),
{
    match target_os {
        TargetOs::MacOs => match status {
            PermissionStatus::Authorized => true,
            PermissionStatus::Denied => false,
            PermissionStatus::Restricted => false,
            PermissionStatus::NotDetermined => match user_answer {
                Some(answer) => answer,
                None => false,
            },
        },
        _ => true,
    }
}

} // verus!
