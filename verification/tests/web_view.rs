use webkit::navigation::PolicyAction;
use webkit::web_view::{
    check_start_url,
    inspector_open, policy_action_for, toggle_inspector, validate_url, EnginePolicyDecisionType,
    InspectorCommand,
};
use webkit::WebKitError;

#[test]
fn allowed_schemes_load() {
    for url in [
        "http://example.com",
        "https://example.com",
        "file:///tmp/index.html",
        "data:text/html,<p>hi</p>",
        "about:blank",
        "HTTPS://EXAMPLE.COM",
        "Data:text/plain,x",
    ] {
        assert!(validate_url(url).is_ok(), "{url}");
    }
}

#[test]
fn other_schemes_are_rejected() {
    for url in [
        "javascript:alert(1)",
        "JavaScript:alert(1)",
        "ftp://example.com",
        "example.com",
        "",
        "http:/x",
        "file:/etc/passwd",
        "tontoo://settings",
        " https://example.com",
    ] {
        match validate_url(url) {
            Err(WebKitError::InvalidUrl(u)) => assert_eq!(u, url),
            other => panic!("{url}: {:?}", other),
        }
    }
}

#[test]
fn invalid_url_message() {
    let e = validate_url("javascript:alert(1)").unwrap_err();
    assert_eq!(e.message(), "invalid URL: javascript:alert(1)");
}

#[test]
fn policy_decisions_map_to_actions() {
    assert_eq!(policy_action_for(EnginePolicyDecisionType::NavigationAction), PolicyAction::Navigation);
    assert_eq!(policy_action_for(EnginePolicyDecisionType::NewWindowAction), PolicyAction::NewWindow);
    assert_eq!(policy_action_for(EnginePolicyDecisionType::Response), PolicyAction::Response);
    assert_eq!(policy_action_for(EnginePolicyDecisionType::Other), PolicyAction::Response);
}

#[test]
fn inspector_toggling() {
    assert_eq!(toggle_inspector(true), (InspectorCommand::Close, false));
    assert_eq!(toggle_inspector(false), (InspectorCommand::Show, true));
    assert!(inspector_open(Some(true)));
    assert!(!inspector_open(Some(false)));
    assert!(!inspector_open(None));
}

#[test]
fn start_url_checks() {
    assert!(check_start_url(&None).is_ok());
    assert!(check_start_url(&Some("https://example.com".to_string())).is_ok());
    match check_start_url(&Some("javascript:void(0)".to_string())) {
        Err(WebKitError::InvalidUrl(u)) => assert_eq!(u, "javascript:void(0)"),
        other => panic!("{:?}", other),
    }
}
