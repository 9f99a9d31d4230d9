use localtype::permissions::{
    check_accessibility_permission, check_microphone_permission, check_permissions,
    open_system_preferences, request_microphone_permission, PermissionStatus,
};

#[test]
fn test_check_permissions() {
    let _ = check_microphone_permission();
    let _ = check_accessibility_permission();
}

#[test]
fn test_request_permission() {
    let result = request_microphone_permission();
    assert!(result.is_ok());
}

#[test]
fn test_open_preferences_invalid_section() {
    let result = open_system_preferences("invalid");
    assert!(result.is_err());
}

#[test]
fn both_permissions_granted_here() {
    let r = check_permissions();
    assert_eq!(r.microphone, PermissionStatus::Granted);
    assert_eq!(r.accessibility, PermissionStatus::Granted);
}
