use webkit::lang::{current_language, language_for, locale_from_env, str_equals, t, t_or, LangTable, Language};

#[test]
fn german_locales_select_german() {
    assert_eq!(current_language("de_DE.UTF-8"), "de_de");
    assert_eq!(current_language("DE"), "de_de");
    assert_eq!(current_language("dE_at"), "de_de");
}

#[test]
fn other_locales_fall_back_to_english() {
    assert_eq!(current_language("en_US.UTF-8"), "en_us");
    assert_eq!(current_language(""), "en_us");
    assert_eq!(current_language("d"), "en_us");
    assert_eq!(current_language("fr_FR"), "en_us");
    assert_eq!(current_language("C"), "en_us");
}

#[test]
fn locale_prefers_lang_over_lc_all() {
    assert_eq!(locale_from_env(Some("de_DE".into()), Some("en_US".into())), "de_DE");
    assert_eq!(locale_from_env(None, Some("en_US".into())), "en_US");
    assert_eq!(locale_from_env(None, None), "");
}

#[test]
fn language_codes_pick_tables() {
    assert_eq!(language_for("de"), Language::DeDe);
    assert_eq!(language_for("de_de"), Language::DeDe);
    assert_eq!(language_for("de-DE"), Language::DeDe);
    assert_eq!(language_for("xx"), Language::EnUs);
    assert_eq!(language_for("en_us"), Language::EnUs);
    assert_eq!(language_for("DE"), Language::EnUs);
}

#[test]
fn lookups_in_a_table() {
    let mut table = LangTable::new();
    assert_eq!(t(&table, "webkit.error"), None);
    table.insert("webkit.error".to_string(), "Error".to_string());
    table.insert("webkit.ok".to_string(), "OK".to_string());
    table.insert("webkit.error".to_string(), "Fehler".to_string());
    assert_eq!(t(&table, "webkit.error").as_deref(), Some("Fehler"));
    assert_eq!(t(&table, "webkit.ok").as_deref(), Some("OK"));
    assert_eq!(table.get("webkit.missing"), None);
    assert_eq!(t_or(&table, "webkit.ok", "fallback"), "OK");
    assert_eq!(t_or(&table, "webkit.missing", "fallback"), "fallback");
}

#[test]
fn string_equality() {
    assert!(str_equals("abc", "abc"));
    assert!(!str_equals("abc", "abd"));
    assert!(!str_equals("abc", "ab"));
    assert!(str_equals("", ""));
    assert!(str_equals("äö", "äö"));
}

#[test]
fn language_text_becomes_a_string_table() {
    use_table(r#"{"webkit.error": "Error", "webkit.count": 3, "webkit.none": null, "webkit.ok": "OK"}"#);
}

fn use_table(text: &str) {
    let table = webkit::lang::load_table(text);
    assert_eq!(t(&table, "webkit.error").as_deref(), Some("Error"));
    assert_eq!(t(&table, "webkit.ok").as_deref(), Some("OK"));
    assert_eq!(t(&table, "webkit.count"), None);
    assert_eq!(t(&table, "webkit.none"), None);
    assert_eq!(t_or(&table, "webkit.missing", "fallback"), "fallback");
}

#[test]
fn text_that_is_not_an_object_gives_an_empty_table() {
    for text in ["", "not json", "[\"webkit.error\"]", "\"webkit.error\"", "null", "{\"a\": "] {
        let table = webkit::lang::load_table(text);
        assert_eq!(t(&table, "webkit.error"), None, "{text}");
        assert_eq!(t(&table, "a"), None, "{text}");
    }
}

#[test]
fn later_duplicate_key_wins_in_a_language_file() {
    let table = webkit::lang::load_table(r#"{"k": "first", "k": "second"}"#);
    assert_eq!(t(&table, "k").as_deref(), Some("second"));
}

#[test]
fn entries_become_a_table_in_order() {
    let entries = vec![
        ("a".to_string(), Some("one".to_string())),
        ("b".to_string(), None),
        ("a".to_string(), Some("two".to_string())),
        ("c".to_string(), Some(String::new())),
    ];
    let table = webkit::lang::table_from_entries(entries);
    assert_eq!(t(&table, "a").as_deref(), Some("two"));
    assert_eq!(t(&table, "b"), None);
    assert_eq!(t(&table, "c").as_deref(), Some(""));
    let empty = webkit::lang::table_from_entries(Vec::new());
    assert_eq!(t(&empty, "a"), None);
}
