use webkit::ffi::{
    c_bool, configuration_from_ffi, ffi_data_store, policy_action_code, policy_allows, status_code,
    FfiConfig, FfiDataStore,
};
use webkit::{DataStoreKind, PolicyAction, WebKitError, WebScript, WebSettings};

fn store(kind: &str, data: &str, cache: &str) -> Option<FfiDataStore> {
    Some(FfiDataStore {
        kind: kind.to_string(),
        data_directory: data.to_string(),
        cache_directory: cache.to_string(),
    })
}

#[test]
fn data_store_kinds() {
    assert!(matches!(ffi_data_store(None, false), DataStoreKind::Default));
    assert!(matches!(ffi_data_store(None, true), DataStoreKind::Ephemeral));
    assert!(matches!(ffi_data_store(store("", "/d", "/c"), false), DataStoreKind::Default));
    assert!(matches!(ffi_data_store(store("default", "", ""), false), DataStoreKind::Default));
    assert!(matches!(ffi_data_store(store("ephemeral", "", ""), false), DataStoreKind::Ephemeral));
    assert!(matches!(ffi_data_store(store("private", "", ""), false), DataStoreKind::Ephemeral));
    assert!(matches!(ffi_data_store(store("unknown", "", ""), false), DataStoreKind::Default));
    match ffi_data_store(store("custom", "/d", "/c"), false) {
        DataStoreKind::Custom { data_directory, cache_directory } => {
            assert_eq!(data_directory, "/d");
            assert_eq!(cache_directory, "/c");
        }
        other => panic!("{:?}", other),
    }
}

#[test]
fn private_browsing_overrides_the_store() {
    assert!(matches!(ffi_data_store(store("custom", "/d", "/c"), true), DataStoreKind::Ephemeral));
}

#[test]
fn configuration_from_parsed_json() {
    let config = FfiConfig {
        start_url: Some("https://example.com".to_string()),
        settings: None,
        user_scripts: vec![WebScript::new("window.tontoo = true;").at_document_start()],
        message_handlers: vec!["ready".to_string(), "tontoo".to_string()],
        private_browsing: false,
        data_store: store("ephemeral", "", ""),
    };
    let c = configuration_from_ffi(config, vec![1u8, 2u8]);
    assert_eq!(c.start_url.as_deref(), Some("https://example.com"));
    assert!(c.settings.javascript_enabled);
    assert_eq!(c.user_scripts.len(), 1);
    assert_eq!(c.message_handlers, vec![1u8, 2u8]);
    assert!(matches!(c.data_store, DataStoreKind::Ephemeral));

    let config = FfiConfig {
        start_url: None,
        settings: Some(WebSettings::builder().user_agent("TontooOS/1.0").build()),
        user_scripts: Vec::new(),
        message_handlers: Vec::new(),
        private_browsing: false,
        data_store: None,
    };
    let c = configuration_from_ffi::<u8>(config, Vec::new());
    assert_eq!(c.settings.user_agent.as_deref(), Some("TontooOS/1.0"));
    assert!(matches!(c.data_store, DataStoreKind::Default));
}

#[test]
fn c_codes() {
    assert_eq!(policy_action_code(PolicyAction::Navigation), 0);
    assert_eq!(policy_action_code(PolicyAction::NewWindow), 1);
    assert_eq!(policy_action_code(PolicyAction::Response), 2);
    assert!(policy_allows(None));
    assert!(policy_allows(Some(1)));
    assert!(policy_allows(Some(-5)));
    assert!(!policy_allows(Some(0)));
    assert_eq!(status_code(&Ok(())), 0);
    assert_eq!(status_code(&Err(WebKitError::NoSettings)), -1);
    assert_eq!(c_bool(true), 1);
    assert_eq!(c_bool(false), 0);
}
