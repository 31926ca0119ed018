//! Navigation state and policy decisions, the equivalent of
//! `WKNavigationDelegate` in Apple WebKit.

use vstd::prelude::*;

verus! {

/// A phase in the page load lifecycle.
#[derive(Debug, Clone, Copy, PartialEq, Eq, Structural)]
pub enum NavigationEvent {
    /// The provisional navigation has started.
    Started,
    /// The server redirected the request.
    Redirected,
    /// The navigation was committed; content is arriving.
    Committed,
    /// The page finished loading.
    Finished,
    /// The page failed to load.
    Failed,
}

/// The kind of navigation a policy decision applies to.
#[derive(Debug, Clone, Copy, PartialEq, Eq, Structural)]
pub enum PolicyAction {
    /// A main-frame navigation.
    Navigation,
    /// A new window/tab requested via `window.open` or a target link.
    NewWindow,
    /// A sub-resource response.
    Response,
}

/// Information about a navigation decision.
#[derive(Debug, Clone)]
pub struct NavigationAction {
    /// The target URL, when available.
    pub url: Option<String>,
    /// The policy action this decision belongs to.
    pub action: PolicyAction,
}

/// Trait for reacting to navigation lifecycle and policy decisions.
///
/// Every method has a default implementation, so only the methods you care
/// about need to be overridden.
pub trait WebNavigationDelegate {
    /// The provisional navigation started.
    fn navigation_started(&mut self, url: Option<&str>) {
    }

    /// The server redirected the provisional navigation.
    fn navigation_redirected(&mut self, url: Option<&str>) {
    }

    /// The navigation was committed and content starts arriving.
    fn navigation_committed(&mut self, url: Option<&str>) {
    }

    /// The page finished loading.
    fn navigation_finished(&mut self, url: Option<&str>) {
    }

    /// The page failed to load.
    fn navigation_failed(&mut self, url: Option<&str>, error: &str) {
    }

    /// Decide whether a navigation is allowed to proceed.
    ///
    /// Return `true` to allow, `false` to cancel. Defaults to `true`.
    fn decide_policy(&mut self, url: Option<&str>, action: PolicyAction) -> (allow: bool)
        default_ensures
            allow,
    {
        true
    }
}

/// Default delegate used when the caller does not provide one: it observes
/// nothing and allows every navigation.
#[derive(Debug, Default)]
pub struct DefaultWebNavigationDelegate;

impl WebNavigationDelegate for DefaultWebNavigationDelegate {}

/// The load events the engine reports.
#[derive(Debug, Clone, Copy, PartialEq, Eq, Structural)]
pub enum EngineLoadEvent {
    Started,
    Redirected,
    Committed,
    Finished,
    /// An event this library does not know.
    Other,
}

pub open spec fn spec_navigation_event(event: EngineLoadEvent) -> NavigationEvent {
    match event {
        EngineLoadEvent::Started => NavigationEvent::Started,
        EngineLoadEvent::Redirected => NavigationEvent::Redirected,
        EngineLoadEvent::Committed => NavigationEvent::Committed,
        EngineLoadEvent::Finished => NavigationEvent::Finished,
        EngineLoadEvent::Other => NavigationEvent::Failed,
    }
}

/// The navigation phase of an engine load event. Unknown events count as
/// failures.
pub fn load_event_to_navigation(event: EngineLoadEvent) -> (r: NavigationEvent)
    ensures
        r == spec_navigation_event(event),
{
    match event {
        EngineLoadEvent::Started => NavigationEvent::Started,
        EngineLoadEvent::Redirected => NavigationEvent::Redirected,
        EngineLoadEvent::Committed => NavigationEvent::Committed,
        EngineLoadEvent::Finished => NavigationEvent::Finished,
        EngineLoadEvent::Other => NavigationEvent::Failed,
    }
}

/// A navigation delegate callback to run for a load event.
#[derive(Debug, Clone, Copy, PartialEq, Eq, Structural)]
pub enum NavigationCallback {
    Started,
    Redirected,
    Committed,
    Finished,
}

/// A view delegate callback to run for a load event.
#[derive(Debug, Clone, Copy, PartialEq, Eq, Structural)]
pub enum ViewLoadCallback {
    LoadStarted,
    LoadFinished,
}

/// The callbacks a load event is delivered to: first the navigation
/// delegate's, then the view delegate's.
#[derive(Debug, Clone, Copy, PartialEq, Eq, Structural)]
pub struct LoadEventDispatch {
    pub navigation: Option<NavigationCallback>,
    pub view: Option<ViewLoadCallback>,
}

pub open spec fn spec_load_dispatch(event: NavigationEvent) -> LoadEventDispatch {
    match event {
        NavigationEvent::Started => LoadEventDispatch {
            navigation: Some(NavigationCallback::Started),
            view: Some(ViewLoadCallback::LoadStarted),
        },
        NavigationEvent::Redirected => LoadEventDispatch {
            navigation: Some(NavigationCallback::Redirected),
            view: None,
        },
        NavigationEvent::Committed => LoadEventDispatch {
            navigation: Some(NavigationCallback::Committed),
            view: None,
        },
        NavigationEvent::Finished => LoadEventDispatch {
            navigation: Some(NavigationCallback::Finished),
            view: Some(ViewLoadCallback::LoadFinished),
        },
        NavigationEvent::Failed => LoadEventDispatch { navigation: None, view: None },
    }
}

/// Which delegate callbacks a load event reaches. Failures are not
/// delivered here: they arrive through the engine's separate failure
/// signal, which reaches `navigation_failed` and `load_failed`.
pub fn load_event_dispatch(event: NavigationEvent) -> (r: LoadEventDispatch)
    ensures
        r == spec_load_dispatch(event),
{
    match event {
        NavigationEvent::Started => LoadEventDispatch {
            navigation: Some(NavigationCallback::Started),
            view: Some(ViewLoadCallback::LoadStarted),
        },
        NavigationEvent::Redirected => LoadEventDispatch {
            navigation: Some(NavigationCallback::Redirected),
            view: None,
        },
        NavigationEvent::Committed => LoadEventDispatch {
            navigation: Some(NavigationCallback::Committed),
            view: None,
        },
        NavigationEvent::Finished => LoadEventDispatch {
            navigation: Some(NavigationCallback::Finished),
            view: Some(ViewLoadCallback::LoadFinished),
        },
        NavigationEvent::Failed => LoadEventDispatch { navigation: None, view: None },
    }
}

/// Every known engine load event is the navigation phase of the same name;
/// only an unknown event counts as a failure.
pub proof fn lemma_load_events_keep_their_phase(event: EngineLoadEvent)
    ensures
        spec_navigation_event(event) == NavigationEvent::Failed <==> event == EngineLoadEvent::Other,
        event == EngineLoadEvent::Started ==> spec_navigation_event(event) == NavigationEvent::Started,
        event == EngineLoadEvent::Redirected ==> spec_navigation_event(event) == NavigationEvent::Redirected,
        event == EngineLoadEvent::Committed ==> spec_navigation_event(event) == NavigationEvent::Committed,
        event == EngineLoadEvent::Finished ==> spec_navigation_event(event) == NavigationEvent::Finished,
{
}

/// A load event reaches the navigation delegate callback of its own phase,
/// and no callback for a failure; the view delegate hears only of the
/// start and the end of a load.
pub proof fn lemma_dispatch_follows_phase(event: NavigationEvent)
    ensures
        spec_load_dispatch(event).navigation is None <==> event == NavigationEvent::Failed,
        event == NavigationEvent::Started ==> spec_load_dispatch(event).navigation == Some(NavigationCallback::Started),
        event == NavigationEvent::Redirected ==> spec_load_dispatch(event).navigation == Some(NavigationCallback::Redirected),
        event == NavigationEvent::Committed ==> spec_load_dispatch(event).navigation == Some(NavigationCallback::Committed),
        event == NavigationEvent::Finished ==> spec_load_dispatch(event).navigation == Some(NavigationCallback::Finished),
        spec_load_dispatch(event).view == Some(ViewLoadCallback::LoadStarted) <==> event == NavigationEvent::Started,
        spec_load_dispatch(event).view == Some(ViewLoadCallback::LoadFinished) <==> event == NavigationEvent::Finished,
{
}

} // verus!
