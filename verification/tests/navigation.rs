use webkit::navigation::{
    load_event_dispatch, load_event_to_navigation, EngineLoadEvent, LoadEventDispatch,
    NavigationCallback, ViewLoadCallback,
};
use webkit::{DefaultWebNavigationDelegate, NavigationAction, NavigationEvent, PolicyAction, WebNavigationDelegate};

#[test]
fn default_navigation_delegate_allows_everything() {
    let mut d = DefaultWebNavigationDelegate;
    assert!(d.decide_policy(Some("https://example.com"), PolicyAction::Navigation));
    assert!(d.decide_policy(None, PolicyAction::NewWindow));
    assert!(d.decide_policy(Some("x"), PolicyAction::Response));
    d.navigation_started(None);
    d.navigation_failed(Some("x"), "error");
}

struct BlockNewWindows {
    started: Vec<String>,
}

impl WebNavigationDelegate for BlockNewWindows {
    fn navigation_started(&mut self, url: Option<&str>) {
        self.started.push(url.unwrap_or("").to_string());
    }

    fn decide_policy(&mut self, _url: Option<&str>, action: PolicyAction) -> bool {
        action != PolicyAction::NewWindow
    }
}

#[test]
fn custom_navigation_delegate_overrides() {
    let mut d = BlockNewWindows { started: Vec::new() };
    assert!(!d.decide_policy(None, PolicyAction::NewWindow));
    assert!(d.decide_policy(None, PolicyAction::Navigation));
    d.navigation_started(Some("https://a.example"));
    assert_eq!(d.started, vec!["https://a.example".to_string()]);
}

#[test]
fn engine_load_events_map_to_navigation_events() {
    assert_eq!(load_event_to_navigation(EngineLoadEvent::Started), NavigationEvent::Started);
    assert_eq!(load_event_to_navigation(EngineLoadEvent::Redirected), NavigationEvent::Redirected);
    assert_eq!(load_event_to_navigation(EngineLoadEvent::Committed), NavigationEvent::Committed);
    assert_eq!(load_event_to_navigation(EngineLoadEvent::Finished), NavigationEvent::Finished);
    assert_eq!(load_event_to_navigation(EngineLoadEvent::Other), NavigationEvent::Failed);
}

#[test]
fn load_events_reach_the_right_callbacks() {
    assert_eq!(
        load_event_dispatch(NavigationEvent::Started),
        LoadEventDispatch {
            navigation: Some(NavigationCallback::Started),
            view: Some(ViewLoadCallback::LoadStarted)
        }
    );
    assert_eq!(
        load_event_dispatch(NavigationEvent::Redirected),
        LoadEventDispatch { navigation: Some(NavigationCallback::Redirected), view: None }
    );
    assert_eq!(
        load_event_dispatch(NavigationEvent::Committed),
        LoadEventDispatch { navigation: Some(NavigationCallback::Committed), view: None }
    );
    assert_eq!(
        load_event_dispatch(NavigationEvent::Finished),
        LoadEventDispatch {
            navigation: Some(NavigationCallback::Finished),
            view: Some(ViewLoadCallback::LoadFinished)
        }
    );
    assert_eq!(
        load_event_dispatch(NavigationEvent::Failed),
        LoadEventDispatch { navigation: None, view: None }
    );
}

#[test]
fn navigation_action_holds_url_and_action() {
    let a = NavigationAction { url: Some("https://example.com".to_string()), action: PolicyAction::NewWindow };
    assert_eq!(a.url.as_deref(), Some("https://example.com"));
    assert_eq!(a.action, PolicyAction::NewWindow);
}

#[test]
fn navigation_delegates_as_trait_objects() {
    let mut delegates: Vec<Box<dyn WebNavigationDelegate>> = vec![
        Box::new(DefaultWebNavigationDelegate),
        Box::new(BlockNewWindows { started: Vec::new() }),
    ];
    let answers: Vec<bool> = delegates
        .iter_mut()
        .map(|d| d.decide_policy(None, PolicyAction::NewWindow))
        .collect();
    assert_eq!(answers, vec![true, false]);
}
