use webkit::{ScriptFrameInjection, ScriptInjectionTime, WebScript};

#[test]
fn new_script_runs_at_document_end_in_top_frame() {
    let s = WebScript::new("window.tontoo = true;");
    assert_eq!(s.source, "window.tontoo = true;");
    assert_eq!(s.injection_time, ScriptInjectionTime::AtDocumentEnd);
    assert_eq!(s.frames, ScriptFrameInjection::TopFrame);
    assert!(s.allow_list.is_empty());
    assert!(s.block_list.is_empty());
}

#[test]
fn script_default_is_empty_script() {
    let s = WebScript::default();
    assert_eq!(s.source, "");
    assert_eq!(s.injection_time, ScriptInjectionTime::AtDocumentEnd);
    assert_eq!(s.frames, ScriptFrameInjection::TopFrame);
    assert_eq!(ScriptInjectionTime::default(), ScriptInjectionTime::AtDocumentEnd);
    assert_eq!(ScriptFrameInjection::default(), ScriptFrameInjection::TopFrame);
}

#[test]
fn script_builders() {
    let s = WebScript::new("x()")
        .at_document_start()
        .in_all_frames()
        .allow_urls(vec!["https://a.example/*".to_string()])
        .block_urls(vec!["https://b.example/*".to_string(), "https://c.example/*".to_string()]);
    assert_eq!(s.source, "x()");
    assert_eq!(s.injection_time, ScriptInjectionTime::AtDocumentStart);
    assert_eq!(s.frames, ScriptFrameInjection::AllFrames);
    assert_eq!(s.allow_list, vec!["https://a.example/*".to_string()]);
    assert_eq!(s.block_list.len(), 2);
    let s = s.at_document_end();
    assert_eq!(s.injection_time, ScriptInjectionTime::AtDocumentEnd);
}
