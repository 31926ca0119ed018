use webkit::settings::{EngineCacheModel, HardwareAccelerationPolicy};
use webkit::{AutoPlay, CacheModel, WebSettings, WebSettingsBuilder};

fn assert_recommended(s: &WebSettings) {
    assert_eq!(s.user_agent, None);
    assert!(s.javascript_enabled);
    assert!(!s.developer_extras);
    assert!(s.webgl_enabled);
    assert!(s.webaudio_enabled);
    assert!(s.media_enabled);
    assert!(!s.media_stream_enabled);
    assert!(s.fullscreen_enabled);
    assert!(s.back_forward_navigation_gestures);
    assert!(!s.javascript_can_open_windows);
    assert!(s.allow_modal_dialogs);
    assert_eq!(s.auto_play, AutoPlay::Allow);
    assert_eq!(s.cache_model, CacheModel::WebBrowser);
    assert!(s.page_cache);
    assert!(s.smooth_scrolling);
    assert!(s.dns_prefetching);
    assert!(s.hardware_acceleration);
    assert_eq!(s.default_font_family, None);
    assert_eq!(s.default_font_size, None);
    assert!(!s.disable_web_security);
}

#[test]
fn new_settings_have_recommended_defaults() {
    assert_recommended(&WebSettings::new());
    assert_recommended(&WebSettings::default());
}

#[test]
fn builder_without_changes_builds_the_defaults() {
    assert_recommended(&WebSettings::builder().build());
    assert_recommended(&WebSettingsBuilder::new().build());
    assert_recommended(&WebSettingsBuilder::default().build());
}

#[test]
fn enum_defaults() {
    assert_eq!(AutoPlay::default(), AutoPlay::Allow);
    assert_eq!(CacheModel::default(), CacheModel::WebBrowser);
}

#[test]
fn builder_sets_each_field() {
    let s = WebSettings::builder()
        .user_agent("TontooOS/1.0")
        .javascript_enabled(false)
        .developer_extras(true)
        .webgl_enabled(false)
        .webaudio_enabled(false)
        .media_enabled(false)
        .media_stream_enabled(true)
        .fullscreen_enabled(false)
        .back_forward_navigation_gestures(false)
        .javascript_can_open_windows(true)
        .allow_modal_dialogs(false)
        .auto_play(AutoPlay::RequireUserGesture)
        .cache_model(CacheModel::DocumentViewer)
        .page_cache(false)
        .smooth_scrolling(false)
        .dns_prefetching(false)
        .hardware_acceleration(false)
        .default_font_family("SF Pro Display")
        .default_font_size(17)
        .disable_web_security(true)
        .build();
    assert_eq!(s.user_agent.as_deref(), Some("TontooOS/1.0"));
    assert!(!s.javascript_enabled);
    assert!(s.developer_extras);
    assert!(!s.webgl_enabled);
    assert!(!s.webaudio_enabled);
    assert!(!s.media_enabled);
    assert!(s.media_stream_enabled);
    assert!(!s.fullscreen_enabled);
    assert!(!s.back_forward_navigation_gestures);
    assert!(s.javascript_can_open_windows);
    assert!(!s.allow_modal_dialogs);
    assert_eq!(s.auto_play, AutoPlay::RequireUserGesture);
    assert_eq!(s.cache_model, CacheModel::DocumentViewer);
    assert!(!s.page_cache);
    assert!(!s.smooth_scrolling);
    assert!(!s.dns_prefetching);
    assert!(!s.hardware_acceleration);
    assert_eq!(s.default_font_family.as_deref(), Some("SF Pro Display"));
    assert_eq!(s.default_font_size, Some(17));
    assert!(s.disable_web_security);
}

#[test]
fn a_setter_leaves_other_fields_alone() {
    let s = WebSettings::builder().webgl_enabled(false).build();
    assert!(!s.webgl_enabled);
    let mut expected = WebSettings::new();
    expected.webgl_enabled = false;
    assert_eq!(format!("{:?}", s), format!("{:?}", expected));
}

#[test]
fn later_setter_call_wins() {
    let s = WebSettings::builder().page_cache(false).page_cache(true).build();
    assert!(s.page_cache);
}

#[test]
fn primary_web_browser_maps_to_engine_web_browser() {
    let mut s = WebSettings::new();
    s.cache_model = CacheModel::PrimaryWebBrowser;
    assert_eq!(s.engine_cache_model(), EngineCacheModel::WebBrowser);
    s.cache_model = CacheModel::WebBrowser;
    assert_eq!(s.engine_cache_model(), EngineCacheModel::WebBrowser);
    s.cache_model = CacheModel::DocumentViewer;
    assert_eq!(s.engine_cache_model(), EngineCacheModel::DocumentViewer);
}

#[test]
fn engine_settings_follow_the_settings() {
    let s = WebSettings::builder()
        .user_agent("UA")
        .developer_extras(true)
        .hardware_acceleration(false)
        .default_font_size(12)
        .build();
    let e = s.engine_settings();
    assert!(e.enable_javascript);
    assert!(e.enable_developer_extras);
    assert_eq!(e.user_agent.as_deref(), Some("UA"));
    assert_eq!(e.hardware_acceleration_policy, HardwareAccelerationPolicy::Never);
    assert_eq!(e.default_font_size, Some(12));
    assert_eq!(e.default_font_family, None);
    assert!(e.enable_page_cache);
    let d = WebSettings::new().engine_settings();
    assert_eq!(d.hardware_acceleration_policy, HardwareAccelerationPolicy::Always);
    assert_eq!(d.user_agent, None);
}

#[test]
fn autoplay_policies_write_media_switches() {
    let allow = WebSettings::builder().auto_play(AutoPlay::Allow).build().engine_settings();
    assert_eq!(allow.media_playback_allows_inline, None);
    assert_eq!(allow.media_playback_requires_user_gesture, None);
    let gesture = WebSettings::builder()
        .auto_play(AutoPlay::RequireUserGesture)
        .build()
        .engine_settings();
    assert_eq!(gesture.media_playback_allows_inline, None);
    assert_eq!(gesture.media_playback_requires_user_gesture, Some(true));
    let silent = WebSettings::builder().auto_play(AutoPlay::AllowSilent).build().engine_settings();
    assert_eq!(silent.media_playback_allows_inline, Some(true));
    assert_eq!(silent.media_playback_requires_user_gesture, Some(true));
}

#[test]
fn interleaved_setters_keep_last_value_per_field() {
    let s = WebSettings::builder()
        .user_agent("first")
        .default_font_size(10)
        .javascript_enabled(false)
        .user_agent("second")
        .default_font_size(14)
        .build();
    let d = WebSettings::new();
    assert_eq!(s.user_agent.as_deref(), Some("second"));
    assert_eq!(s.default_font_size, Some(14));
    assert!(!s.javascript_enabled);
    assert_eq!(s.webgl_enabled, d.webgl_enabled);
    assert_eq!(s.page_cache, d.page_cache);
    assert_eq!(s.default_font_family, d.default_font_family);
}
