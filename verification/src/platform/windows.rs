//! Windows: access shows in whether input devices can be listed.

use crate::platform::types::{PermissionStatus, PlatformResult};
use vstd::prelude::*;

verus! {

/// Windows platform integration.
#[derive(Debug, Clone, Copy)]
pub struct WindowsPlatform;

/// What listing the input devices brought.
#[derive(Debug)]
pub enum DeviceListing {
    /// The devices could not be listed.
    Failed(String),
    /// This many input devices were found.
    Found(usize),
}

impl WindowsPlatform {
    /// The status for a listing of the input devices: given with at least
    /// one device, open otherwise.
    pub fn check_microphone_permission(&self, listing: &DeviceListing) -> (status: PermissionStatus)
        ensures
            status == (if listing matches DeviceListing::Found(count) && count > 0 {
                PermissionStatus::Authorized
            } else {
                PermissionStatus::NotDetermined
            }),
    {
        match listing {
            DeviceListing::Found(count) => if *count > 0 {
                PermissionStatus::Authorized
            } else {
                PermissionStatus::NotDetermined
            },
            DeviceListing::Failed(_) => PermissionStatus::NotDetermined,
        }
    }

    /// Whether the privacy settings are to be shown to the user: whenever
    /// access is not given.
    pub fn should_open_settings(&self, status: PermissionStatus) -> (open: bool)
        ensures
            open == !status.granted(),
    {
        !status.is_granted()
    }

    /// Windows cannot be asked from a program: the request always counts as
    /// granted, and opening the device will tell.
    pub fn request_microphone_permission(&self, status: PermissionStatus) -> (outcome:
        PlatformResult<bool>)
        ensures
            outcome matches Ok(granted) && granted,
    {
        Ok(true)
    }
}

} // verus!
