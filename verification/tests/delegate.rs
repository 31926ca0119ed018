use webkit::delegate::{
    default_permission_decision, permission_kind, script_dialog_kind, EngineDialogType,
    EnginePermissionRequest,
};
use webkit::{DefaultDownloadDelegate, DefaultWebViewDelegate, PermissionDecision, PermissionKind, ScriptDialogKind};

#[test]
fn permissions_are_denied_by_default() {
    for kind in [
        PermissionKind::Camera,
        PermissionKind::Microphone,
        PermissionKind::CameraAndMicrophone,
        PermissionKind::Geolocation,
        PermissionKind::Notifications,
        PermissionKind::ClipboardRead,
        PermissionKind::DeviceInfo,
        PermissionKind::PointerLock,
        PermissionKind::MediaKeySystem,
        PermissionKind::WebsiteDataAccess,
        PermissionKind::Other,
    ] {
        assert_eq!(default_permission_decision(kind), PermissionDecision::Deny);
    }
}

#[test]
fn user_media_requests_by_device() {
    let k = |audio, video| permission_kind(EnginePermissionRequest::UserMedia { audio, video });
    assert_eq!(k(true, true), PermissionKind::CameraAndMicrophone);
    assert_eq!(k(true, false), PermissionKind::Microphone);
    assert_eq!(k(false, true), PermissionKind::Camera);
    assert_eq!(k(false, false), PermissionKind::Other);
}

#[test]
fn other_requests_by_class() {
    assert_eq!(permission_kind(EnginePermissionRequest::Geolocation), PermissionKind::Geolocation);
    assert_eq!(permission_kind(EnginePermissionRequest::Notification), PermissionKind::Notifications);
    assert_eq!(permission_kind(EnginePermissionRequest::Clipboard), PermissionKind::ClipboardRead);
    assert_eq!(permission_kind(EnginePermissionRequest::DeviceInfo), PermissionKind::DeviceInfo);
    assert_eq!(permission_kind(EnginePermissionRequest::PointerLock), PermissionKind::PointerLock);
    assert_eq!(permission_kind(EnginePermissionRequest::MediaKeySystem), PermissionKind::MediaKeySystem);
    assert_eq!(
        permission_kind(EnginePermissionRequest::WebsiteDataAccess),
        PermissionKind::WebsiteDataAccess
    );
    assert_eq!(permission_kind(EnginePermissionRequest::Other), PermissionKind::Other);
}

#[test]
fn dialog_types_map_to_kinds() {
    assert_eq!(script_dialog_kind(EngineDialogType::Alert), ScriptDialogKind::Alert);
    assert_eq!(script_dialog_kind(EngineDialogType::Confirm), ScriptDialogKind::Confirm);
    assert_eq!(script_dialog_kind(EngineDialogType::Prompt), ScriptDialogKind::Prompt);
    assert_eq!(
        script_dialog_kind(EngineDialogType::BeforeUnloadConfirm),
        ScriptDialogKind::BeforeUnloadConfirm
    );
    assert_eq!(script_dialog_kind(EngineDialogType::Other), ScriptDialogKind::Alert);
}

#[test]
fn default_delegates_exist() {
    let _ = DefaultWebViewDelegate;
    let _ = DefaultDownloadDelegate;
    assert_eq!(format!("{:?}", DefaultWebViewDelegate), "DefaultWebViewDelegate");
}

#[test]
fn default_delegates_can_be_made_by_default() {
    let _view: DefaultWebViewDelegate = Default::default();
    let _download: DefaultDownloadDelegate = Default::default();
    let _navigation: webkit::DefaultWebNavigationDelegate = Default::default();
}
