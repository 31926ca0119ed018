use webkit::{WebKitError, WEBKIT_VERSION};

#[test]
fn error_messages() {
    assert_eq!(WebKitError::InvalidUrl("x".into()).message(), "invalid URL: x");
    assert_eq!(WebKitError::NavigationFailed("timeout".into()).message(), "navigation failed: timeout");
    assert_eq!(WebKitError::Javascript("ReferenceError".into()).message(), "javascript error: ReferenceError");
    assert_eq!(WebKitError::Engine("json: eof".into()).message(), "webkit engine error: json: eof");
    assert_eq!(WebKitError::NoSettings.message(), "web view has no settings");
}

#[test]
fn framework_version() {
    assert_eq!(WEBKIT_VERSION, (26, 1, 0));
}
