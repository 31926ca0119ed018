use webkit::config::WebKitConfiguration;
use webkit::{AutoPlay, DataStoreKind, WebScript, WebSettings};

#[test]
fn new_configuration_is_empty() {
    let c: WebKitConfiguration<u8> = WebKitConfiguration::new();
    assert!(c.start_url.is_none());
    assert!(c.user_scripts.is_empty());
    assert!(c.message_handlers.is_empty());
    assert!(matches!(c.data_store, DataStoreKind::Default));
    assert!(c.settings.javascript_enabled);
    let d: WebKitConfiguration<u8> = WebKitConfiguration::default();
    assert!(d.start_url.is_none());
}

#[test]
fn configuration_builders() {
    let c: WebKitConfiguration<&'static str> = WebKitConfiguration::new()
        .start_url("https://example.com")
        .settings(WebSettings::builder().auto_play(AutoPlay::RequireUserGesture).build())
        .user_script(WebScript::new("a();"))
        .user_script(WebScript::new("b();").at_document_start())
        .add_message_handler("ready")
        .add_message_handler("tontoo");
    assert_eq!(c.start_url.as_deref(), Some("https://example.com"));
    assert_eq!(c.settings.auto_play, AutoPlay::RequireUserGesture);
    assert_eq!(c.user_scripts.len(), 2);
    assert_eq!(c.user_scripts[0].source, "a();");
    assert_eq!(c.user_scripts[1].source, "b();");
    assert_eq!(c.message_handlers, vec!["ready", "tontoo"]);
}

#[test]
fn set_start_url_overwrites() {
    let mut c: WebKitConfiguration<u8> = WebKitConfiguration::new().start_url("https://a.example");
    c.set_start_url("https://b.example");
    assert_eq!(c.start_url.as_deref(), Some("https://b.example"));
}

#[test]
fn private_browsing_selects_the_store() {
    let c: WebKitConfiguration<u8> = WebKitConfiguration::new().private_browsing(true);
    assert!(matches!(c.data_store, DataStoreKind::Ephemeral));
    let c = c.private_browsing(false);
    assert!(matches!(c.data_store, DataStoreKind::Default));
}

#[test]
fn last_data_store_choice_wins() {
    let c: WebKitConfiguration<u8> = WebKitConfiguration::new()
        .private_browsing(true)
        .data_store(DataStoreKind::Custom {
            data_directory: "/home/user/.local/share/MyApp".into(),
            cache_directory: "/home/user/.cache/MyApp".into(),
        });
    match &c.data_store {
        DataStoreKind::Custom { data_directory, cache_directory } => {
            assert_eq!(data_directory, "/home/user/.local/share/MyApp");
            assert_eq!(cache_directory, "/home/user/.cache/MyApp");
        }
        _ => panic!("expected the custom store"),
    }
    let c = c.private_browsing(true);
    assert!(matches!(c.data_store, DataStoreKind::Ephemeral));
}
