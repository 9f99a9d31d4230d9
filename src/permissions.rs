use vstd::prelude::*;
use vstd::string::*;

verus! {

/// The state of a system permission.
#[derive(Debug, Clone, Copy, PartialEq, Eq, Structural)]
pub enum PermissionStatus {
    Granted,
    Denied,
    NotDetermined,
    Restricted,
    Unknown,
}

/// The permissions that dictation needs.
#[derive(Debug, Clone, Copy, PartialEq, Eq, Structural)]
pub struct PermissionsResult {
    pub microphone: PermissionStatus,
    pub accessibility: PermissionStatus,
}

/// Outside macOS no permission gates the microphone.
pub fn check_microphone_permission() -> (r: PermissionStatus)
    ensures
        r == PermissionStatus::Granted,
{
    PermissionStatus::Granted
}

/// Outside macOS no permission gates simulated typing.
pub fn check_accessibility_permission() -> (r: PermissionStatus)
    ensures
        r == PermissionStatus::Granted,
{
    PermissionStatus::Granted
}

/// The system asks for microphone access on first use; nothing to do here.
pub fn request_microphone_permission() -> (r: Result<(), String>)
    ensures
        r is Ok,
{
    Ok(())
}

/// Outside macOS there is no settings pane to open.
pub fn open_system_preferences(section: &str) -> (r: Result<(), String>)
    ensures
        r is Err,
{
    Err(String::from_str("System Preferences only available on macOS"))
}

/// Both permissions at once.
pub fn check_permissions() -> (r: PermissionsResult)
    ensures
        r.microphone == PermissionStatus::Granted,
        r.accessibility == PermissionStatus::Granted,
{
    PermissionsResult {
        microphone: check_microphone_permission(),
        accessibility: check_accessibility_permission(),
    }
}

} // verus!
