use kiro_account_manager::deep_link::{
    deep_link_url_from_payload, first_or_payload, handle_deep_link_event, is_own_log_target,
    is_supported_deep_link, legacy_scheme_needs_registration, log_level_for, split_route,
    string_or_payload, supported_deep_links, LogLevel,
};

#[test]
fn supported_schemes() {
    assert!(is_supported_deep_link("kiro://callback?code=1"));
    assert!(is_supported_deep_link("kiro-account-manager://login"));
    assert!(!is_supported_deep_link("kiro:/x"));
    assert!(!is_supported_deep_link("https://kiro.dev"));
    assert!(!is_supported_deep_link(""));
    assert!(!is_supported_deep_link("Kiro://x"));
}

#[test]
fn arguments_that_are_deep_links() {
    let args = vec![
        "/app/kiro-account-manager".to_string(),
        "kiro://a".to_string(),
        "--flag".to_string(),
        "kiro-account-manager://b".to_string(),
    ];
    assert_eq!(supported_deep_links(&args), vec!["kiro://a".to_string(), "kiro-account-manager://b".to_string()]);
    assert!(supported_deep_links(&vec![]).is_empty());
}

#[test]
fn payload_forms() {
    assert_eq!(deep_link_url_from_payload("[\"kiro://a\",\"kiro://b\"]"), "kiro://a");
    assert_eq!(deep_link_url_from_payload("\"kiro://c\""), "kiro://c");
    assert_eq!(deep_link_url_from_payload("kiro://d"), "kiro://d");
    assert_eq!(deep_link_url_from_payload("[]"), "[]");
    assert_eq!(deep_link_url_from_payload("[not json"), "[not json");
    assert_eq!(deep_link_url_from_payload("\"unterminated"), "\"unterminated");
    assert_eq!(deep_link_url_from_payload(""), "");
    assert_eq!(deep_link_url_from_payload("\"a\\u0041\""), "aA");
}

#[test]
fn parsed_payload_helpers() {
    assert_eq!(first_or_payload("p", Some(vec!["x".to_string(), "y".to_string()])), "x");
    assert_eq!(first_or_payload("p", Some(vec![])), "p");
    assert_eq!(first_or_payload("p", None), "p");
    assert_eq!(string_or_payload("p", Some("s".to_string())), "s");
    assert_eq!(string_or_payload("p", None), "p");
}

#[test]
fn events_with_other_schemes_are_ignored() {
    assert_eq!(handle_deep_link_event("[\"kiro://ok\"]").as_deref(), Some("kiro://ok"));
    assert_eq!(handle_deep_link_event("[\"https://x\"]"), None);
    assert_eq!(handle_deep_link_event("nonsense"), None);
}

#[test]
fn routes_split_at_first_question_mark() {
    assert_eq!(split_route("/accounts?id=1?x"), ("/accounts".to_string(), Some("id=1?x".to_string())));
    assert_eq!(split_route("/home"), ("/home".to_string(), None));
    assert_eq!(split_route("?"), (String::new(), Some(String::new())));
}

#[test]
fn log_levels() {
    assert_eq!(log_level_for(Some("info")), LogLevel::Info);
    assert_eq!(log_level_for(Some("warn")), LogLevel::Warn);
    assert_eq!(log_level_for(Some("error")), LogLevel::Error);
    assert_eq!(log_level_for(Some("trace")), LogLevel::Debug);
    assert_eq!(log_level_for(Some("INFO")), LogLevel::Debug);
    assert_eq!(log_level_for(None), LogLevel::Debug);
    assert!(is_own_log_target("kiro_account_manager::gateway"));
    assert!(!is_own_log_target("hyper::client"));
}

#[test]
fn legacy_scheme_registration() {
    assert!(legacy_scheme_needs_registration("kiro"));
    assert!(!legacy_scheme_needs_registration("kiro-account-manager"));
}
