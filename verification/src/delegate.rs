//! View-level decisions: JavaScript dialogs and permission requests.
//!
//! Both fail closed: an unhandled dialog shows no UI and gets the engine's
//! default answer, and a permission is denied unless the application
//! explicitly grants it.

use vstd::prelude::*;

verus! {

/// Default view delegate used when the caller does not provide one.
#[derive(Debug, Default)]
pub struct DefaultWebViewDelegate;

/// The kind of a JavaScript dialog.
#[derive(Debug, Clone, Copy, PartialEq, Eq, Structural)]
pub enum ScriptDialogKind {
    /// `window.alert(message)`
    Alert,
    /// `window.confirm(message)`, answered with a boolean.
    Confirm,
    /// `window.prompt(message, default)`, answered with text.
    Prompt,
    /// An unload confirmation dialog.
    BeforeUnloadConfirm,
}

/// The dialog types the engine reports.
#[derive(Debug, Clone, Copy, PartialEq, Eq, Structural)]
pub enum EngineDialogType {
    Alert,
    Confirm,
    Prompt,
    BeforeUnloadConfirm,
    /// A dialog type this library does not know.
    Other,
}

pub open spec fn spec_dialog_kind(t: EngineDialogType) -> ScriptDialogKind {
    match t {
        EngineDialogType::Confirm => ScriptDialogKind::Confirm,
        EngineDialogType::Prompt => ScriptDialogKind::Prompt,
        EngineDialogType::BeforeUnloadConfirm => ScriptDialogKind::BeforeUnloadConfirm,
        EngineDialogType::Alert => ScriptDialogKind::Alert,
        EngineDialogType::Other => ScriptDialogKind::Alert,
    }
}

/// The dialog kind of an engine dialog type; unknown types are alerts.
pub fn script_dialog_kind(t: EngineDialogType) -> (r: ScriptDialogKind)
    ensures
        r == spec_dialog_kind(t),
{
    match t {
        EngineDialogType::Confirm => ScriptDialogKind::Confirm,
        EngineDialogType::Prompt => ScriptDialogKind::Prompt,
        EngineDialogType::BeforeUnloadConfirm => ScriptDialogKind::BeforeUnloadConfirm,
        _ => ScriptDialogKind::Alert,
    }
}

/// What a page can ask permission for.
#[derive(Debug, Clone, Copy, PartialEq, Eq, Structural)]
pub enum PermissionKind {
    /// Camera access.
    Camera,
    /// Microphone access.
    Microphone,
    /// Camera and microphone at once.
    CameraAndMicrophone,
    /// Geolocation.
    Geolocation,
    /// Notifications.
    Notifications,
    /// Reading the system clipboard.
    ClipboardRead,
    /// Listing media devices.
    DeviceInfo,
    /// Locking the mouse pointer.
    PointerLock,
    /// Access to an EME media key system (DRM).
    MediaKeySystem,
    /// Cross-site website data access.
    WebsiteDataAccess,
    /// Any other or unknown permission.
    Other,
}

/// The application's decision for a permission request.
#[derive(Debug, Clone, Copy, PartialEq, Eq, Structural)]
pub enum PermissionDecision {
    /// Grant the permission.
    Grant,
    /// Deny the permission.
    Deny,
}

/// The permission requests the engine makes, by request class. A user
/// media request says whether it is for an audio device and whether it is
/// for a video device.
#[derive(Debug, Clone, Copy, PartialEq, Eq, Structural)]
pub enum EnginePermissionRequest {
    UserMedia { audio: bool, video: bool },
    Geolocation,
    Notification,
    Clipboard,
    DeviceInfo,
    PointerLock,
    MediaKeySystem,
    WebsiteDataAccess,
    /// A request class this library does not know.
    Other,
}

pub open spec fn spec_permission_kind(req: EnginePermissionRequest) -> PermissionKind {
    match req {
        EnginePermissionRequest::UserMedia { audio, video } => if audio && video {
            PermissionKind::CameraAndMicrophone
        } else if audio {
            PermissionKind::Microphone
        } else if video {
            PermissionKind::Camera
        } else {
            PermissionKind::Other
        },
        EnginePermissionRequest::Geolocation => PermissionKind::Geolocation,
        EnginePermissionRequest::Notification => PermissionKind::Notifications,
        EnginePermissionRequest::Clipboard => PermissionKind::ClipboardRead,
        EnginePermissionRequest::DeviceInfo => PermissionKind::DeviceInfo,
        EnginePermissionRequest::PointerLock => PermissionKind::PointerLock,
        EnginePermissionRequest::MediaKeySystem => PermissionKind::MediaKeySystem,
        EnginePermissionRequest::WebsiteDataAccess => PermissionKind::WebsiteDataAccess,
        EnginePermissionRequest::Other => PermissionKind::Other,
    }
}

/// The permission kind reported to the delegate for an engine request.
pub fn permission_kind(req: EnginePermissionRequest) -> (r: PermissionKind)
    ensures
        r == spec_permission_kind(req),
{
    match req {
        EnginePermissionRequest::UserMedia { audio, video } => {
            if audio && video {
                PermissionKind::CameraAndMicrophone
            } else if audio {
                PermissionKind::Microphone
            } else if video {
                PermissionKind::Camera
            } else {
                PermissionKind::Other
            }
        },
        EnginePermissionRequest::Geolocation => PermissionKind::Geolocation,
        EnginePermissionRequest::Notification => PermissionKind::Notifications,
        EnginePermissionRequest::Clipboard => PermissionKind::ClipboardRead,
        EnginePermissionRequest::DeviceInfo => PermissionKind::DeviceInfo,
        EnginePermissionRequest::PointerLock => PermissionKind::PointerLock,
        EnginePermissionRequest::MediaKeySystem => PermissionKind::MediaKeySystem,
        EnginePermissionRequest::WebsiteDataAccess => PermissionKind::WebsiteDataAccess,
        EnginePermissionRequest::Other => PermissionKind::Other,
    }
}

/// The decision a delegate gives when it does not override permission
/// handling: every kind of permission is denied, so nothing is ever
/// granted silently.
pub fn default_permission_decision(kind: PermissionKind) -> (r: PermissionDecision)
    ensures
        r == PermissionDecision::Deny,
{
    PermissionDecision::Deny
}

/// Each engine dialog type is reported as the dialog kind of the same
/// name, and only an unknown type falls back to an alert: the three
/// answerable kinds come from exactly their own engine type.
pub proof fn lemma_dialog_kinds(t: EngineDialogType)
    ensures
        spec_dialog_kind(t) == ScriptDialogKind::Confirm <==> t == EngineDialogType::Confirm,
        spec_dialog_kind(t) == ScriptDialogKind::Prompt <==> t == EngineDialogType::Prompt,
        spec_dialog_kind(t) == ScriptDialogKind::BeforeUnloadConfirm <==> t
            == EngineDialogType::BeforeUnloadConfirm,
        spec_dialog_kind(t) == ScriptDialogKind::Alert <==> (t == EngineDialogType::Alert || t
            == EngineDialogType::Other),
{
}

/// A media request asks for the camera exactly when it asks for video and
/// for the microphone exactly when it asks for audio; a media request for
/// neither is `Other`. Every other request class is reported as its own
/// kind, and no two classes share one.
pub proof fn lemma_permission_kinds(req: EnginePermissionRequest, audio: bool, video: bool)
    ensures
        spec_permission_kind(EnginePermissionRequest::UserMedia { audio, video })
            == PermissionKind::CameraAndMicrophone <==> audio && video,
        spec_permission_kind(EnginePermissionRequest::UserMedia { audio, video })
            == PermissionKind::Microphone <==> audio && !video,
        spec_permission_kind(EnginePermissionRequest::UserMedia { audio, video }) == PermissionKind::Camera
            <==> video && !audio,
        spec_permission_kind(EnginePermissionRequest::UserMedia { audio, video }) == PermissionKind::Other
            <==> !audio && !video,
        spec_permission_kind(req) == PermissionKind::Geolocation <==> req
            == EnginePermissionRequest::Geolocation,
        spec_permission_kind(req) == PermissionKind::Notifications <==> req
            == EnginePermissionRequest::Notification,
        spec_permission_kind(req) == PermissionKind::ClipboardRead <==> req
            == EnginePermissionRequest::Clipboard,
        spec_permission_kind(req) == PermissionKind::DeviceInfo <==> req
            == EnginePermissionRequest::DeviceInfo,
        spec_permission_kind(req) == PermissionKind::PointerLock <==> req
            == EnginePermissionRequest::PointerLock,
        spec_permission_kind(req) == PermissionKind::MediaKeySystem <==> req
            == EnginePermissionRequest::MediaKeySystem,
        spec_permission_kind(req) == PermissionKind::WebsiteDataAccess <==> req
            == EnginePermissionRequest::WebsiteDataAccess,
{
}

} // verus!
