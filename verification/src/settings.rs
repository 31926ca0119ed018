//! Per-web-view engine settings, the equivalent of the preferences of
//! `WKWebViewConfiguration` in Apple WebKit.
//!
//! A [`WebSettings`] value is plain data: it can be stored, sent through
//! the C interface as JSON, or persisted as an app preference. How it is
//! applied to the engine is computed by [`WebSettings::engine_settings`]
//! and [`WebSettings::engine_cache_model`].

use vstd::prelude::*;

verus! {

/// How automatic media playback is handled.
#[derive(Debug, Clone, Copy, PartialEq, Eq, Structural)]
pub enum AutoPlay {
    /// Media may play without any user interaction.
    Allow,
    /// Media only plays after the user interacts with the page.
    RequireUserGesture,
    /// Muted media may play; unmuted media requires a user gesture.
    AllowSilent,
}

impl Default for AutoPlay {
    fn default() -> (r: Self)
        ensures
            r == AutoPlay::Allow,
    {
        AutoPlay::Allow
    }
}

/// How aggressively the engine caches web content.
#[derive(Debug, Clone, Copy, PartialEq, Eq, Structural)]
pub enum CacheModel {
    /// Minimal caching (document viewers, single-page apps).
    DocumentViewer,
    /// Standard browser caching.
    WebBrowser,
    /// Most aggressive caching (frequently visited sites).
    PrimaryWebBrowser,
}

impl Default for CacheModel {
    fn default() -> (r: Self)
        ensures
            r == CacheModel::WebBrowser,
    {
        CacheModel::WebBrowser
    }
}

/// The cache models the engine itself offers. It has no model beyond
/// `WebBrowser`.
#[derive(Debug, Clone, Copy, PartialEq, Eq, Structural)]
pub enum EngineCacheModel {
    DocumentViewer,
    WebBrowser,
    DocumentBrowser,
}

/// The engine's hardware acceleration policy.
#[derive(Debug, Clone, Copy, PartialEq, Eq, Structural)]
pub enum HardwareAccelerationPolicy {
    Always,
    Never,
}

/// The text held by an optional string, as a value.
pub open spec fn opt_str_view(o: Option<String>) -> Option<Seq<char>> {
    match o {
        Some(s) => Some(s@),
        None => None,
    }
}

/// Mutable engine settings applied to every new web view.
#[derive(Debug, Clone)]
pub struct WebSettings {
    /// Custom user agent string. `None` lets the engine pick a default.
    pub user_agent: Option<String>,
    /// Whether JavaScript is enabled. Defaults to `true`.
    pub javascript_enabled: bool,
    /// Whether developer extras (inspector shortcuts) are enabled.
    pub developer_extras: bool,
    /// Whether WebGL is enabled. Defaults to `true`.
    pub webgl_enabled: bool,
    /// Whether WebAudio is enabled. Defaults to `true`.
    pub webaudio_enabled: bool,
    /// Whether media (audio/video) playback is enabled. Defaults to `true`.
    pub media_enabled: bool,
    /// Whether the media stream (camera/microphone) APIs are enabled.
    pub media_stream_enabled: bool,
    /// Whether the engine allows fullscreen playback.
    pub fullscreen_enabled: bool,
    /// Whether swipe back/forward gestures are enabled.
    pub back_forward_navigation_gestures: bool,
    /// Whether `window.open` from JavaScript is allowed.
    pub javascript_can_open_windows: bool,
    /// Whether modal JavaScript dialogs are allowed.
    pub allow_modal_dialogs: bool,
    /// Automatic media playback policy.
    pub auto_play: AutoPlay,
    /// Cache model.
    pub cache_model: CacheModel,
    /// Whether the page cache keeps rendered pages in memory for instant
    /// back/forward navigation. Defaults to `true`.
    pub page_cache: bool,
    /// Whether scrolling is animated smoothly. Defaults to `true`.
    pub smooth_scrolling: bool,
    /// Whether the engine prefetches DNS for links on the page. Defaults to
    /// `true`.
    pub dns_prefetching: bool,
    /// Whether the view composites through hardware acceleration (GL).
    /// Defaults to `true`.
    pub hardware_acceleration: bool,
    /// Default font family for HTML content.
    pub default_font_family: Option<String>,
    /// Default font size in pixels.
    pub default_font_size: Option<u32>,
    /// Whether web security (same-origin policy) is disabled.
    pub disable_web_security: bool,
}

/// The value of a [`WebSettings`]: the same fields, strings taken as text.
pub struct WebSettingsView {
    pub user_agent: Option<Seq<char>>,
    pub javascript_enabled: bool,
    pub developer_extras: bool,
    pub webgl_enabled: bool,
    pub webaudio_enabled: bool,
    pub media_enabled: bool,
    pub media_stream_enabled: bool,
    pub fullscreen_enabled: bool,
    pub back_forward_navigation_gestures: bool,
    pub javascript_can_open_windows: bool,
    pub allow_modal_dialogs: bool,
    pub auto_play: AutoPlay,
    pub cache_model: CacheModel,
    pub page_cache: bool,
    pub smooth_scrolling: bool,
    pub dns_prefetching: bool,
    pub hardware_acceleration: bool,
    pub default_font_family: Option<Seq<char>>,
    pub default_font_size: Option<u32>,
    pub disable_web_security: bool,
}

impl WebSettingsView {
    /// The recommended defaults for TontooOS apps.
    pub open spec fn recommended() -> WebSettingsView {
        WebSettingsView {
            user_agent: None,
            javascript_enabled: true,
            developer_extras: false,
            webgl_enabled: true,
            webaudio_enabled: true,
            media_enabled: true,
            media_stream_enabled: false,
            fullscreen_enabled: true,
            back_forward_navigation_gestures: true,
            javascript_can_open_windows: false,
            allow_modal_dialogs: true,
            auto_play: AutoPlay::Allow,
            cache_model: CacheModel::WebBrowser,
            page_cache: true,
            smooth_scrolling: true,
            dns_prefetching: true,
            hardware_acceleration: true,
            default_font_family: None,
            default_font_size: None,
            disable_web_security: false,
        }
    }
}

impl View for WebSettings {
    type V = WebSettingsView;

    open spec fn view(&self) -> WebSettingsView {
        WebSettingsView {
            user_agent: opt_str_view(self.user_agent),
            javascript_enabled: self.javascript_enabled,
            developer_extras: self.developer_extras,
            webgl_enabled: self.webgl_enabled,
            webaudio_enabled: self.webaudio_enabled,
            media_enabled: self.media_enabled,
            media_stream_enabled: self.media_stream_enabled,
            fullscreen_enabled: self.fullscreen_enabled,
            back_forward_navigation_gestures: self.back_forward_navigation_gestures,
            javascript_can_open_windows: self.javascript_can_open_windows,
            allow_modal_dialogs: self.allow_modal_dialogs,
            auto_play: self.auto_play,
            cache_model: self.cache_model,
            page_cache: self.page_cache,
            smooth_scrolling: self.smooth_scrolling,
            dns_prefetching: self.dns_prefetching,
            hardware_acceleration: self.hardware_acceleration,
            default_font_family: opt_str_view(self.default_font_family),
            default_font_size: self.default_font_size,
            disable_web_security: self.disable_web_security,
        }
    }
}

/// The engine cache model a settings cache model maps to.
pub open spec fn spec_engine_cache_model(model: CacheModel) -> EngineCacheModel {
    match model {
        CacheModel::DocumentViewer => EngineCacheModel::DocumentViewer,
        CacheModel::WebBrowser => EngineCacheModel::WebBrowser,
        CacheModel::PrimaryWebBrowser => EngineCacheModel::WebBrowser,
    }
}

/// What applying a [`WebSettings`] does to the engine's settings object.
///
/// Every `Option` field is only written when it is `Some`; a `None` field
/// leaves the engine's current value untouched.
pub struct EngineSettings {
    pub enable_javascript: bool,
    pub enable_developer_extras: bool,
    pub enable_webgl: bool,
    pub enable_webaudio: bool,
    pub enable_media: bool,
    pub enable_media_stream: bool,
    pub enable_fullscreen: bool,
    pub enable_back_forward_navigation_gestures: bool,
    pub javascript_can_open_windows_automatically: bool,
    pub allow_modal_dialogs: bool,
    /// Always written; `None` restores the engine's own user agent.
    pub user_agent: Option<String>,
    pub disable_web_security: bool,
    pub enable_page_cache: bool,
    pub enable_smooth_scrolling: bool,
    pub enable_dns_prefetching: bool,
    pub hardware_acceleration_policy: HardwareAccelerationPolicy,
    /// Written only when `Some`.
    pub media_playback_allows_inline: Option<bool>,
    /// Written only when `Some`.
    pub media_playback_requires_user_gesture: Option<bool>,
    /// Written only when `Some`.
    pub default_font_family: Option<String>,
    /// Written only when `Some`.
    pub default_font_size: Option<u32>,
}

/// The media playback switches an autoplay policy writes:
/// (allows inline, requires user gesture).
pub open spec fn autoplay_switches(policy: AutoPlay) -> (Option<bool>, Option<bool>) {
    match policy {
        AutoPlay::Allow => (None, None),
        AutoPlay::RequireUserGesture => (None, Some(true)),
        AutoPlay::AllowSilent => (Some(true), Some(true)),
    }
}

/// The engine writes that a settings value calls for.
pub open spec fn spec_engine_settings(s: WebSettingsView, e: EngineSettings) -> bool {
    &&& e.enable_javascript == s.javascript_enabled
    &&& e.enable_developer_extras == s.developer_extras
    &&& e.enable_webgl == s.webgl_enabled
    &&& e.enable_webaudio == s.webaudio_enabled
    &&& e.enable_media == s.media_enabled
    &&& e.enable_media_stream == s.media_stream_enabled
    &&& e.enable_fullscreen == s.fullscreen_enabled
    &&& e.enable_back_forward_navigation_gestures == s.back_forward_navigation_gestures
    &&& e.javascript_can_open_windows_automatically == s.javascript_can_open_windows
    &&& e.allow_modal_dialogs == s.allow_modal_dialogs
    &&& opt_str_view(e.user_agent) == s.user_agent
    &&& e.disable_web_security == s.disable_web_security
    &&& e.enable_page_cache == s.page_cache
    &&& e.enable_smooth_scrolling == s.smooth_scrolling
    &&& e.enable_dns_prefetching == s.dns_prefetching
    &&& e.hardware_acceleration_policy == (if s.hardware_acceleration {
        HardwareAccelerationPolicy::Always
    } else {
        HardwareAccelerationPolicy::Never
    })
    &&& (e.media_playback_allows_inline, e.media_playback_requires_user_gesture)
        == autoplay_switches(s.auto_play)
    &&& opt_str_view(e.default_font_family) == s.default_font_family
    &&& e.default_font_size == s.default_font_size
}

/// Each engine switch is written from its own settings field, unchanged:
/// JavaScript from `javascript_enabled`, WebGL from `webgl_enabled`,
/// WebAudio from `webaudio_enabled`, and so on for every switch. Hardware
/// acceleration is `Always` when enabled and `Never` otherwise. Autoplay
/// writes nothing when allowed, requires a user gesture for
/// `RequireUserGesture`, and allows inline playback while requiring a
/// gesture for `AllowSilent`.
pub proof fn lemma_engine_switches_follow_their_fields(s: WebSettingsView, e: EngineSettings)
    requires
        spec_engine_settings(s, e),
    ensures
        e.enable_javascript == s.javascript_enabled,
        e.enable_developer_extras == s.developer_extras,
        e.enable_webgl == s.webgl_enabled,
        e.enable_webaudio == s.webaudio_enabled,
        e.enable_media == s.media_enabled,
        e.enable_media_stream == s.media_stream_enabled,
        e.enable_fullscreen == s.fullscreen_enabled,
        e.enable_back_forward_navigation_gestures == s.back_forward_navigation_gestures,
        e.javascript_can_open_windows_automatically == s.javascript_can_open_windows,
        e.allow_modal_dialogs == s.allow_modal_dialogs,
        e.disable_web_security == s.disable_web_security,
        e.enable_page_cache == s.page_cache,
        e.enable_smooth_scrolling == s.smooth_scrolling,
        e.enable_dns_prefetching == s.dns_prefetching,
        s.hardware_acceleration ==> e.hardware_acceleration_policy == HardwareAccelerationPolicy::Always,
        !s.hardware_acceleration ==> e.hardware_acceleration_policy == HardwareAccelerationPolicy::Never,
        s.auto_play == AutoPlay::Allow ==> e.media_playback_allows_inline is None
            && e.media_playback_requires_user_gesture is None,
        s.auto_play == AutoPlay::RequireUserGesture ==> e.media_playback_allows_inline is None
            && e.media_playback_requires_user_gesture == Some(true),
        s.auto_play == AutoPlay::AllowSilent ==> e.media_playback_allows_inline == Some(true)
            && e.media_playback_requires_user_gesture == Some(true),
        e.user_agent is Some <==> s.user_agent is Some,
        e.user_agent matches Some(u) ==> s.user_agent == Some(u@),
        e.default_font_family is Some <==> s.default_font_family is Some,
        e.default_font_family matches Some(f) ==> s.default_font_family == Some(f@),
        e.default_font_size == s.default_font_size,
{
}

/// Two settings values that differ in one field give engine writes that
/// differ at most in that field's switch: changing WebGL leaves WebAudio
/// (and every other switch) as it was, and the other way round.
pub proof fn lemma_engine_switches_independent(s: WebSettingsView, e1: EngineSettings, e2: EngineSettings, webgl: bool, webaudio: bool)
    requires
        spec_engine_settings(s, e1),
        spec_engine_settings(WebSettingsView { webgl_enabled: webgl, webaudio_enabled: webaudio, ..s }, e2),
    ensures
        e2.enable_webaudio == webaudio,
        e2.enable_webgl == webgl,
        webaudio == s.webaudio_enabled ==> e2.enable_webaudio == e1.enable_webaudio,
        webgl == s.webgl_enabled ==> e2.enable_webgl == e1.enable_webgl,
        e2.enable_javascript == e1.enable_javascript,
        e2.enable_media == e1.enable_media,
        e2.enable_media_stream == e1.enable_media_stream,
        e2.enable_fullscreen == e1.enable_fullscreen,
{
}

/// The engine cache model: the document viewer model for
/// `DocumentViewer`, and the web browser model for both browser models.
pub proof fn lemma_engine_cache_model_cases(model: CacheModel)
    ensures
        model == CacheModel::DocumentViewer ==> spec_engine_cache_model(model) == EngineCacheModel::DocumentViewer,
        model != CacheModel::DocumentViewer ==> spec_engine_cache_model(model) == EngineCacheModel::WebBrowser,
{
}

fn clone_opt_string(o: &Option<String>) -> (r: Option<String>)
    ensures
        opt_str_view(r) == opt_str_view(*o),
{
    match o {
        Some(s) => Some(s.clone()),
        None => None,
    }
}

impl WebSettings {
    /// Settings with recommended defaults for TontooOS apps.
    pub fn new() -> (r: Self)
        ensures
            r@ == WebSettingsView::recommended(),
    {
        WebSettings {
            user_agent: None,
            javascript_enabled: true,
            developer_extras: false,
            webgl_enabled: true,
            webaudio_enabled: true,
            media_enabled: true,
            media_stream_enabled: false,
            fullscreen_enabled: true,
            back_forward_navigation_gestures: true,
            javascript_can_open_windows: false,
            allow_modal_dialogs: true,
            auto_play: AutoPlay::Allow,
            cache_model: CacheModel::WebBrowser,
            page_cache: true,
            smooth_scrolling: true,
            dns_prefetching: true,
            hardware_acceleration: true,
            default_font_family: None,
            default_font_size: None,
            disable_web_security: false,
        }
    }

    /// Builder-style entry point, starting from the recommended defaults.
    pub fn builder() -> (r: WebSettingsBuilder)
        ensures
            r@ == WebSettingsView::recommended(),
    {
        WebSettingsBuilder::new()
    }

    /// The engine cache model for these settings. The engine applies it on
    /// the shared web context. `PrimaryWebBrowser` maps to `WebBrowser`,
    /// the strongest mode the engine offers.
    pub fn engine_cache_model(&self) -> (r: EngineCacheModel)
        ensures
            r == spec_engine_cache_model(self.cache_model),
    {
        match self.cache_model {
            CacheModel::DocumentViewer => EngineCacheModel::DocumentViewer,
            CacheModel::WebBrowser => EngineCacheModel::WebBrowser,
            CacheModel::PrimaryWebBrowser => EngineCacheModel::WebBrowser,
        }
    }

    /// The writes to the engine's settings object that these settings
    /// call for.
    pub fn engine_settings(&self) -> (r: EngineSettings)
        ensures
            spec_engine_settings(self@, r),
    {
        let (allows_inline, requires_gesture) = match self.auto_play {
            AutoPlay::Allow => (None, None),
            AutoPlay::RequireUserGesture => (None, Some(true)),
            AutoPlay::AllowSilent => (Some(true), Some(true)),
        };
        EngineSettings {
            enable_javascript: self.javascript_enabled,
            enable_developer_extras: self.developer_extras,
            enable_webgl: self.webgl_enabled,
            enable_webaudio: self.webaudio_enabled,
            enable_media: self.media_enabled,
            enable_media_stream: self.media_stream_enabled,
            enable_fullscreen: self.fullscreen_enabled,
            enable_back_forward_navigation_gestures: self.back_forward_navigation_gestures,
            javascript_can_open_windows_automatically: self.javascript_can_open_windows,
            allow_modal_dialogs: self.allow_modal_dialogs,
            user_agent: clone_opt_string(&self.user_agent),
            disable_web_security: self.disable_web_security,
            enable_page_cache: self.page_cache,
            enable_smooth_scrolling: self.smooth_scrolling,
            enable_dns_prefetching: self.dns_prefetching,
            hardware_acceleration_policy: if self.hardware_acceleration {
                HardwareAccelerationPolicy::Always
            } else {
                HardwareAccelerationPolicy::Never
            },
            media_playback_allows_inline: allows_inline,
            media_playback_requires_user_gesture: requires_gesture,
            default_font_family: clone_opt_string(&self.default_font_family),
            default_font_size: self.default_font_size,
        }
    }
}

impl Default for WebSettings {
    fn default() -> (r: Self)
        ensures
            r@ == WebSettingsView::recommended(),
    {
        WebSettings::new()
    }
}

/// A field of the settings.
#[derive(PartialEq, Eq, Structural)]
pub enum SettingField {
    UserAgent,
    JavascriptEnabled,
    DeveloperExtras,
    WebglEnabled,
    WebaudioEnabled,
    MediaEnabled,
    MediaStreamEnabled,
    FullscreenEnabled,
    BackForwardNavigationGestures,
    JavascriptCanOpenWindows,
    AllowModalDialogs,
    AutoPlay,
    CacheModel,
    PageCache,
    SmoothScrolling,
    DnsPrefetching,
    HardwareAcceleration,
    DefaultFontFamily,
    DefaultFontSize,
    DisableWebSecurity,
}

/// The value a settings field holds.
pub enum SettingValue {
    Flag(bool),
    Text(Option<Seq<char>>),
    AutoPlay(AutoPlay),
    Cache(CacheModel),
    Size(Option<u32>),
}

/// One builder setter call, with its argument.
pub enum SettingChange {
    UserAgent(Seq<char>),
    JavascriptEnabled(bool),
    DeveloperExtras(bool),
    WebglEnabled(bool),
    WebaudioEnabled(bool),
    MediaEnabled(bool),
    MediaStreamEnabled(bool),
    FullscreenEnabled(bool),
    BackForwardNavigationGestures(bool),
    JavascriptCanOpenWindows(bool),
    AllowModalDialogs(bool),
    AutoPlay(AutoPlay),
    CacheModel(CacheModel),
    PageCache(bool),
    SmoothScrolling(bool),
    DnsPrefetching(bool),
    HardwareAcceleration(bool),
    DefaultFontFamily(Seq<char>),
    DefaultFontSize(u32),
    DisableWebSecurity(bool),
}

/// The value of a field in a settings value.
pub open spec fn field_value(s: WebSettingsView, f: SettingField) -> SettingValue {
    match f {
        SettingField::UserAgent => SettingValue::Text(s.user_agent),
        SettingField::JavascriptEnabled => SettingValue::Flag(s.javascript_enabled),
        SettingField::DeveloperExtras => SettingValue::Flag(s.developer_extras),
        SettingField::WebglEnabled => SettingValue::Flag(s.webgl_enabled),
        SettingField::WebaudioEnabled => SettingValue::Flag(s.webaudio_enabled),
        SettingField::MediaEnabled => SettingValue::Flag(s.media_enabled),
        SettingField::MediaStreamEnabled => SettingValue::Flag(s.media_stream_enabled),
        SettingField::FullscreenEnabled => SettingValue::Flag(s.fullscreen_enabled),
        SettingField::BackForwardNavigationGestures => SettingValue::Flag(s.back_forward_navigation_gestures),
        SettingField::JavascriptCanOpenWindows => SettingValue::Flag(s.javascript_can_open_windows),
        SettingField::AllowModalDialogs => SettingValue::Flag(s.allow_modal_dialogs),
        SettingField::AutoPlay => SettingValue::AutoPlay(s.auto_play),
        SettingField::CacheModel => SettingValue::Cache(s.cache_model),
        SettingField::PageCache => SettingValue::Flag(s.page_cache),
        SettingField::SmoothScrolling => SettingValue::Flag(s.smooth_scrolling),
        SettingField::DnsPrefetching => SettingValue::Flag(s.dns_prefetching),
        SettingField::HardwareAcceleration => SettingValue::Flag(s.hardware_acceleration),
        SettingField::DefaultFontFamily => SettingValue::Text(s.default_font_family),
        SettingField::DefaultFontSize => SettingValue::Size(s.default_font_size),
        SettingField::DisableWebSecurity => SettingValue::Flag(s.disable_web_security),
    }
}

/// The field a setter call sets.
pub open spec fn change_field(c: SettingChange) -> SettingField {
    match c {
        SettingChange::UserAgent(_) => SettingField::UserAgent,
        SettingChange::JavascriptEnabled(_) => SettingField::JavascriptEnabled,
        SettingChange::DeveloperExtras(_) => SettingField::DeveloperExtras,
        SettingChange::WebglEnabled(_) => SettingField::WebglEnabled,
        SettingChange::WebaudioEnabled(_) => SettingField::WebaudioEnabled,
        SettingChange::MediaEnabled(_) => SettingField::MediaEnabled,
        SettingChange::MediaStreamEnabled(_) => SettingField::MediaStreamEnabled,
        SettingChange::FullscreenEnabled(_) => SettingField::FullscreenEnabled,
        SettingChange::BackForwardNavigationGestures(_) => SettingField::BackForwardNavigationGestures,
        SettingChange::JavascriptCanOpenWindows(_) => SettingField::JavascriptCanOpenWindows,
        SettingChange::AllowModalDialogs(_) => SettingField::AllowModalDialogs,
        SettingChange::AutoPlay(_) => SettingField::AutoPlay,
        SettingChange::CacheModel(_) => SettingField::CacheModel,
        SettingChange::PageCache(_) => SettingField::PageCache,
        SettingChange::SmoothScrolling(_) => SettingField::SmoothScrolling,
        SettingChange::DnsPrefetching(_) => SettingField::DnsPrefetching,
        SettingChange::HardwareAcceleration(_) => SettingField::HardwareAcceleration,
        SettingChange::DefaultFontFamily(_) => SettingField::DefaultFontFamily,
        SettingChange::DefaultFontSize(_) => SettingField::DefaultFontSize,
        SettingChange::DisableWebSecurity(_) => SettingField::DisableWebSecurity,
    }
}

/// The value a setter call gives its field.
pub open spec fn change_value(c: SettingChange) -> SettingValue {
    match c {
        SettingChange::UserAgent(x) => SettingValue::Text(Some(x)),
        SettingChange::JavascriptEnabled(x) => SettingValue::Flag(x),
        SettingChange::DeveloperExtras(x) => SettingValue::Flag(x),
        SettingChange::WebglEnabled(x) => SettingValue::Flag(x),
        SettingChange::WebaudioEnabled(x) => SettingValue::Flag(x),
        SettingChange::MediaEnabled(x) => SettingValue::Flag(x),
        SettingChange::MediaStreamEnabled(x) => SettingValue::Flag(x),
        SettingChange::FullscreenEnabled(x) => SettingValue::Flag(x),
        SettingChange::BackForwardNavigationGestures(x) => SettingValue::Flag(x),
        SettingChange::JavascriptCanOpenWindows(x) => SettingValue::Flag(x),
        SettingChange::AllowModalDialogs(x) => SettingValue::Flag(x),
        SettingChange::AutoPlay(x) => SettingValue::AutoPlay(x),
        SettingChange::CacheModel(x) => SettingValue::Cache(x),
        SettingChange::PageCache(x) => SettingValue::Flag(x),
        SettingChange::SmoothScrolling(x) => SettingValue::Flag(x),
        SettingChange::DnsPrefetching(x) => SettingValue::Flag(x),
        SettingChange::HardwareAcceleration(x) => SettingValue::Flag(x),
        SettingChange::DefaultFontFamily(x) => SettingValue::Text(Some(x)),
        SettingChange::DefaultFontSize(x) => SettingValue::Size(Some(x)),
        SettingChange::DisableWebSecurity(x) => SettingValue::Flag(x),
    }
}

/// The settings after one setter call: exactly what that setter's
/// contract gives.
#[verifier::opaque]
pub open spec fn apply_change(s: WebSettingsView, c: SettingChange) -> WebSettingsView {
    match c {
        SettingChange::UserAgent(x) => WebSettingsView { user_agent: Some(x), ..s },
        SettingChange::JavascriptEnabled(x) => WebSettingsView { javascript_enabled: x, ..s },
        SettingChange::DeveloperExtras(x) => WebSettingsView { developer_extras: x, ..s },
        SettingChange::WebglEnabled(x) => WebSettingsView { webgl_enabled: x, ..s },
        SettingChange::WebaudioEnabled(x) => WebSettingsView { webaudio_enabled: x, ..s },
        SettingChange::MediaEnabled(x) => WebSettingsView { media_enabled: x, ..s },
        SettingChange::MediaStreamEnabled(x) => WebSettingsView { media_stream_enabled: x, ..s },
        SettingChange::FullscreenEnabled(x) => WebSettingsView { fullscreen_enabled: x, ..s },
        SettingChange::BackForwardNavigationGestures(x) => WebSettingsView { back_forward_navigation_gestures: x, ..s },
        SettingChange::JavascriptCanOpenWindows(x) => WebSettingsView { javascript_can_open_windows: x, ..s },
        SettingChange::AllowModalDialogs(x) => WebSettingsView { allow_modal_dialogs: x, ..s },
        SettingChange::AutoPlay(x) => WebSettingsView { auto_play: x, ..s },
        SettingChange::CacheModel(x) => WebSettingsView { cache_model: x, ..s },
        SettingChange::PageCache(x) => WebSettingsView { page_cache: x, ..s },
        SettingChange::SmoothScrolling(x) => WebSettingsView { smooth_scrolling: x, ..s },
        SettingChange::DnsPrefetching(x) => WebSettingsView { dns_prefetching: x, ..s },
        SettingChange::HardwareAcceleration(x) => WebSettingsView { hardware_acceleration: x, ..s },
        SettingChange::DefaultFontFamily(x) => WebSettingsView { default_font_family: Some(x), ..s },
        SettingChange::DefaultFontSize(x) => WebSettingsView { default_font_size: Some(x), ..s },
        SettingChange::DisableWebSecurity(x) => WebSettingsView { disable_web_security: x, ..s },
    }
}

/// The settings after a sequence of setter calls, in order.
pub open spec fn apply_changes(s: WebSettingsView, cs: Seq<SettingChange>) -> WebSettingsView
    decreases cs.len(),
{
    if cs.len() == 0 {
        s
    } else {
        apply_change(apply_changes(s, cs.drop_last()), cs.last())
    }
}

/// The value of the last call in `cs` that sets field `f`, or `default`
/// when no call sets it.
pub open spec fn last_set_value(cs: Seq<SettingChange>, f: SettingField, default: SettingValue) -> SettingValue
    decreases cs.len(),
{
    if cs.len() == 0 {
        default
    } else if change_field(cs.last()) == f {
        change_value(cs.last())
    } else {
        last_set_value(cs.drop_last(), f, default)
    }
}

// `lemma_apply_change_unfold` below, proved for the setters four at a time
// so that each proof stays small.
#[verifier::spinoff_prover]
#[verifier::rlimit(100)]
proof fn lemma_apply_change_unfold_identity(s: WebSettingsView, c: SettingChange)
    requires
        c is UserAgent || c is JavascriptEnabled || c is DeveloperExtras || c is WebglEnabled,
    ensures
        field_value(apply_change(s, c), change_field(c)) == change_value(c),
        forall|f: SettingField| f != change_field(c) ==> #[trigger] field_value(apply_change(s, c), f) == field_value(s, f),
{
    match c {
        SettingChange::UserAgent(x) => {
            assert(apply_change(s, c) == (WebSettingsView { user_agent: Some(x), ..s })) by {
                reveal(apply_change);
            }
        },
        SettingChange::JavascriptEnabled(x) => {
            assert(apply_change(s, c) == (WebSettingsView { javascript_enabled: x, ..s })) by {
                reveal(apply_change);
            }
        },
        SettingChange::DeveloperExtras(x) => {
            assert(apply_change(s, c) == (WebSettingsView { developer_extras: x, ..s })) by {
                reveal(apply_change);
            }
        },
        SettingChange::WebglEnabled(x) => {
            assert(apply_change(s, c) == (WebSettingsView { webgl_enabled: x, ..s })) by {
                reveal(apply_change);
            }
        },
        _ => {},
    }
}

#[verifier::spinoff_prover]
#[verifier::rlimit(100)]
proof fn lemma_apply_change_unfold_media(s: WebSettingsView, c: SettingChange)
    requires
        c is WebaudioEnabled || c is MediaEnabled || c is MediaStreamEnabled || c is FullscreenEnabled,
    ensures
        field_value(apply_change(s, c), change_field(c)) == change_value(c),
        forall|f: SettingField| f != change_field(c) ==> #[trigger] field_value(apply_change(s, c), f) == field_value(s, f),
{
    match c {
        SettingChange::WebaudioEnabled(x) => {
            assert(apply_change(s, c) == (WebSettingsView { webaudio_enabled: x, ..s })) by {
                reveal(apply_change);
            }
        },
        SettingChange::MediaEnabled(x) => {
            assert(apply_change(s, c) == (WebSettingsView { media_enabled: x, ..s })) by {
                reveal(apply_change);
            }
        },
        SettingChange::MediaStreamEnabled(x) => {
            assert(apply_change(s, c) == (WebSettingsView { media_stream_enabled: x, ..s })) by {
                reveal(apply_change);
            }
        },
        SettingChange::FullscreenEnabled(x) => {
            assert(apply_change(s, c) == (WebSettingsView { fullscreen_enabled: x, ..s })) by {
                reveal(apply_change);
            }
        },
        _ => {},
    }
}

#[verifier::spinoff_prover]
#[verifier::rlimit(100)]
proof fn lemma_apply_change_unfold_windows(s: WebSettingsView, c: SettingChange)
    requires
        c is BackForwardNavigationGestures || c is JavascriptCanOpenWindows || c is AllowModalDialogs || c is AutoPlay,
    ensures
        field_value(apply_change(s, c), change_field(c)) == change_value(c),
        forall|f: SettingField| f != change_field(c) ==> #[trigger] field_value(apply_change(s, c), f) == field_value(s, f),
{
    match c {
        SettingChange::BackForwardNavigationGestures(x) => {
            assert(apply_change(s, c) == (WebSettingsView { back_forward_navigation_gestures: x, ..s })) by {
                reveal(apply_change);
            }
        },
        SettingChange::JavascriptCanOpenWindows(x) => {
            assert(apply_change(s, c) == (WebSettingsView { javascript_can_open_windows: x, ..s })) by {
                reveal(apply_change);
            }
        },
        SettingChange::AllowModalDialogs(x) => {
            assert(apply_change(s, c) == (WebSettingsView { allow_modal_dialogs: x, ..s })) by {
                reveal(apply_change);
            }
        },
        SettingChange::AutoPlay(x) => {
            assert(apply_change(s, c) == (WebSettingsView { auto_play: x, ..s })) by {
                reveal(apply_change);
            }
        },
        _ => {},
    }
}

#[verifier::spinoff_prover]
#[verifier::rlimit(100)]
proof fn lemma_apply_change_unfold_engine(s: WebSettingsView, c: SettingChange)
    requires
        c is CacheModel || c is PageCache || c is SmoothScrolling || c is DnsPrefetching,
    ensures
        field_value(apply_change(s, c), change_field(c)) == change_value(c),
        forall|f: SettingField| f != change_field(c) ==> #[trigger] field_value(apply_change(s, c), f) == field_value(s, f),
{
    match c {
        SettingChange::CacheModel(x) => {
            assert(apply_change(s, c) == (WebSettingsView { cache_model: x, ..s })) by {
                reveal(apply_change);
            }
        },
        SettingChange::PageCache(x) => {
            assert(apply_change(s, c) == (WebSettingsView { page_cache: x, ..s })) by {
                reveal(apply_change);
            }
        },
        SettingChange::SmoothScrolling(x) => {
            assert(apply_change(s, c) == (WebSettingsView { smooth_scrolling: x, ..s })) by {
                reveal(apply_change);
            }
        },
        SettingChange::DnsPrefetching(x) => {
            assert(apply_change(s, c) == (WebSettingsView { dns_prefetching: x, ..s })) by {
                reveal(apply_change);
            }
        },
        _ => {},
    }
}

#[verifier::spinoff_prover]
#[verifier::rlimit(100)]
proof fn lemma_apply_change_unfold_fonts(s: WebSettingsView, c: SettingChange)
    requires
        c is HardwareAcceleration || c is DefaultFontFamily || c is DefaultFontSize || c is DisableWebSecurity,
    ensures
        field_value(apply_change(s, c), change_field(c)) == change_value(c),
        forall|f: SettingField| f != change_field(c) ==> #[trigger] field_value(apply_change(s, c), f) == field_value(s, f),
{
    match c {
        SettingChange::HardwareAcceleration(x) => {
            assert(apply_change(s, c) == (WebSettingsView { hardware_acceleration: x, ..s })) by {
                reveal(apply_change);
            }
        },
        SettingChange::DefaultFontFamily(x) => {
            assert(apply_change(s, c) == (WebSettingsView { default_font_family: Some(x), ..s })) by {
                reveal(apply_change);
            }
        },
        SettingChange::DefaultFontSize(x) => {
            assert(apply_change(s, c) == (WebSettingsView { default_font_size: Some(x), ..s })) by {
                reveal(apply_change);
            }
        },
        SettingChange::DisableWebSecurity(x) => {
            assert(apply_change(s, c) == (WebSettingsView { disable_web_security: x, ..s })) by {
                reveal(apply_change);
            }
        },
        _ => {},
    }
}

/// One setter call changes exactly the field it names, to its argument.
proof fn lemma_apply_change_unfold(s: WebSettingsView, c: SettingChange)
    ensures
        field_value(apply_change(s, c), change_field(c)) == change_value(c),
        forall|f: SettingField| f != change_field(c) ==> #[trigger] field_value(apply_change(s, c), f) == field_value(s, f),
{
    if c is UserAgent || c is JavascriptEnabled || c is DeveloperExtras || c is WebglEnabled {
        lemma_apply_change_unfold_identity(s, c);
    } else if c is WebaudioEnabled || c is MediaEnabled || c is MediaStreamEnabled || c is FullscreenEnabled {
        lemma_apply_change_unfold_media(s, c);
    } else if c is BackForwardNavigationGestures || c is JavascriptCanOpenWindows || c is AllowModalDialogs || c is AutoPlay {
        lemma_apply_change_unfold_windows(s, c);
    } else if c is CacheModel || c is PageCache || c is SmoothScrolling || c is DnsPrefetching {
        lemma_apply_change_unfold_engine(s, c);
    } else {
        lemma_apply_change_unfold_fonts(s, c);
    }
}

/// Building settings with any sequence of setter calls gives, for every
/// field, the value of the last call that set it, and the starting value
/// (the recommended default for a new builder) for every field no call
/// set. Each setter of [`WebSettingsBuilder`] ensures that its result is
/// `apply_change` of its call, and `build` hands the settings out unchanged.
pub proof fn lemma_builder_last_call_wins(start: WebSettingsView, cs: Seq<SettingChange>, f: SettingField)
    ensures
        field_value(apply_changes(start, cs), f) == last_set_value(cs, f, field_value(start, f)),
    decreases cs.len(),
{
    if cs.len() > 0 {
        lemma_builder_last_call_wins(start, cs.drop_last(), f);
        lemma_apply_change_unfold(apply_changes(start, cs.drop_last()), cs.last());
    }
}

/// Fluent builder for [`WebSettings`].
#[derive(Debug, Clone)]
pub struct WebSettingsBuilder {
    settings: WebSettings,
}

impl View for WebSettingsBuilder {
    type V = WebSettingsView;

    closed spec fn view(&self) -> WebSettingsView {
        self.settings@
    }
}

impl Default for WebSettingsBuilder {
    fn default() -> (r: Self)
        ensures
            r@ == WebSettingsView::recommended(),
    {
        WebSettingsBuilder { settings: WebSettings::new() }
    }
}

impl WebSettingsBuilder {
    /// A builder starting from the recommended defaults.
    pub fn new() -> (r: Self)
        ensures
            r@ == WebSettingsView::recommended(),
    {
        WebSettingsBuilder { settings: WebSettings::new() }
    }

    pub fn user_agent(self, agent: &str) -> (r: Self)
        ensures
            r@ == (WebSettingsView { user_agent: Some(agent@), ..self@ }),
            r@ == apply_change(self@, SettingChange::UserAgent(agent@)),
    {
        let mut b = self;
        b.settings.user_agent = Some(agent.to_owned());
        proof {
            reveal(apply_change);
        }
        b
    }

    pub fn javascript_enabled(self, enabled: bool) -> (r: Self)
        ensures
            r@ == (WebSettingsView { javascript_enabled: enabled, ..self@ }),
            r@ == apply_change(self@, SettingChange::JavascriptEnabled(enabled)),
    {
        let mut b = self;
        b.settings.javascript_enabled = enabled;
        proof {
            reveal(apply_change);
        }
        b
    }

    pub fn developer_extras(self, enabled: bool) -> (r: Self)
        ensures
            r@ == (WebSettingsView { developer_extras: enabled, ..self@ }),
            r@ == apply_change(self@, SettingChange::DeveloperExtras(enabled)),
    {
        let mut b = self;
        b.settings.developer_extras = enabled;
        proof {
            reveal(apply_change);
        }
        b
    }

    pub fn webgl_enabled(self, enabled: bool) -> (r: Self)
        ensures
            r@ == (WebSettingsView { webgl_enabled: enabled, ..self@ }),
            r@ == apply_change(self@, SettingChange::WebglEnabled(enabled)),
    {
        let mut b = self;
        b.settings.webgl_enabled = enabled;
        proof {
            reveal(apply_change);
        }
        b
    }

    pub fn webaudio_enabled(self, enabled: bool) -> (r: Self)
        ensures
            r@ == (WebSettingsView { webaudio_enabled: enabled, ..self@ }),
            r@ == apply_change(self@, SettingChange::WebaudioEnabled(enabled)),
    {
        let mut b = self;
        b.settings.webaudio_enabled = enabled;
        proof {
            reveal(apply_change);
        }
        b
    }

    pub fn media_enabled(self, enabled: bool) -> (r: Self)
        ensures
            r@ == (WebSettingsView { media_enabled: enabled, ..self@ }),
            r@ == apply_change(self@, SettingChange::MediaEnabled(enabled)),
    {
        let mut b = self;
        b.settings.media_enabled = enabled;
        proof {
            reveal(apply_change);
        }
        b
    }

    pub fn media_stream_enabled(self, enabled: bool) -> (r: Self)
        ensures
            r@ == (WebSettingsView { media_stream_enabled: enabled, ..self@ }),
            r@ == apply_change(self@, SettingChange::MediaStreamEnabled(enabled)),
    {
        let mut b = self;
        b.settings.media_stream_enabled = enabled;
        proof {
            reveal(apply_change);
        }
        b
    }

    pub fn fullscreen_enabled(self, enabled: bool) -> (r: Self)
        ensures
            r@ == (WebSettingsView { fullscreen_enabled: enabled, ..self@ }),
            r@ == apply_change(self@, SettingChange::FullscreenEnabled(enabled)),
    {
        let mut b = self;
        b.settings.fullscreen_enabled = enabled;
        proof {
            reveal(apply_change);
        }
        b
    }

    pub fn back_forward_navigation_gestures(self, enabled: bool) -> (r: Self)
        ensures
            r@ == (WebSettingsView { back_forward_navigation_gestures: enabled, ..self@ }),
            r@ == apply_change(self@, SettingChange::BackForwardNavigationGestures(enabled)),
    {
        let mut b = self;
        b.settings.back_forward_navigation_gestures = enabled;
        proof {
            reveal(apply_change);
        }
        b
    }

    pub fn javascript_can_open_windows(self, enabled: bool) -> (r: Self)
        ensures
            r@ == (WebSettingsView { javascript_can_open_windows: enabled, ..self@ }),
            r@ == apply_change(self@, SettingChange::JavascriptCanOpenWindows(enabled)),
    {
        let mut b = self;
        b.settings.javascript_can_open_windows = enabled;
        proof {
            reveal(apply_change);
        }
        b
    }

    pub fn allow_modal_dialogs(self, enabled: bool) -> (r: Self)
        ensures
            r@ == (WebSettingsView { allow_modal_dialogs: enabled, ..self@ }),
            r@ == apply_change(self@, SettingChange::AllowModalDialogs(enabled)),
    {
        let mut b = self;
        b.settings.allow_modal_dialogs = enabled;
        proof {
            reveal(apply_change);
        }
        b
    }

    pub fn auto_play(self, policy: AutoPlay) -> (r: Self)
        ensures
            r@ == (WebSettingsView { auto_play: policy, ..self@ }),
            r@ == apply_change(self@, SettingChange::AutoPlay(policy)),
    {
        let mut b = self;
        b.settings.auto_play = policy;
        proof {
            reveal(apply_change);
        }
        b
    }

    pub fn cache_model(self, model: CacheModel) -> (r: Self)
        ensures
            r@ == (WebSettingsView { cache_model: model, ..self@ }),
            r@ == apply_change(self@, SettingChange::CacheModel(model)),
    {
        let mut b = self;
        b.settings.cache_model = model;
        proof {
            reveal(apply_change);
        }
        b
    }

    pub fn page_cache(self, enabled: bool) -> (r: Self)
        ensures
            r@ == (WebSettingsView { page_cache: enabled, ..self@ }),
            r@ == apply_change(self@, SettingChange::PageCache(enabled)),
    {
        let mut b = self;
        b.settings.page_cache = enabled;
        proof {
            reveal(apply_change);
        }
        b
    }

    pub fn smooth_scrolling(self, enabled: bool) -> (r: Self)
        ensures
            r@ == (WebSettingsView { smooth_scrolling: enabled, ..self@ }),
            r@ == apply_change(self@, SettingChange::SmoothScrolling(enabled)),
    {
        let mut b = self;
        b.settings.smooth_scrolling = enabled;
        proof {
            reveal(apply_change);
        }
        b
    }

    pub fn dns_prefetching(self, enabled: bool) -> (r: Self)
        ensures
            r@ == (WebSettingsView { dns_prefetching: enabled, ..self@ }),
            r@ == apply_change(self@, SettingChange::DnsPrefetching(enabled)),
    {
        let mut b = self;
        b.settings.dns_prefetching = enabled;
        proof {
            reveal(apply_change);
        }
        b
    }

    pub fn hardware_acceleration(self, enabled: bool) -> (r: Self)
        ensures
            r@ == (WebSettingsView { hardware_acceleration: enabled, ..self@ }),
            r@ == apply_change(self@, SettingChange::HardwareAcceleration(enabled)),
    {
        let mut b = self;
        b.settings.hardware_acceleration = enabled;
        proof {
            reveal(apply_change);
        }
        b
    }

    pub fn default_font_family(self, family: &str) -> (r: Self)
        ensures
            r@ == (WebSettingsView { default_font_family: Some(family@), ..self@ }),
            r@ == apply_change(self@, SettingChange::DefaultFontFamily(family@)),
    {
        let mut b = self;
        b.settings.default_font_family = Some(family.to_owned());
        proof {
            reveal(apply_change);
        }
        b
    }

    pub fn default_font_size(self, size: u32) -> (r: Self)
        ensures
            r@ == (WebSettingsView { default_font_size: Some(size), ..self@ }),
            r@ == apply_change(self@, SettingChange::DefaultFontSize(size)),
    {
        let mut b = self;
        b.settings.default_font_size = Some(size);
        proof {
            reveal(apply_change);
        }
        b
    }

    pub fn disable_web_security(self, disabled: bool) -> (r: Self)
        ensures
            r@ == (WebSettingsView { disable_web_security: disabled, ..self@ }),
            r@ == apply_change(self@, SettingChange::DisableWebSecurity(disabled)),
    {
        let mut b = self;
        b.settings.disable_web_security = disabled;
        proof {
            reveal(apply_change);
        }
        b
    }

    /// The settings built so far.
    pub fn build(self) -> (r: WebSettings)
        ensures
            r@ == self@,
    {
        self.settings
    }
}

} // verus!
