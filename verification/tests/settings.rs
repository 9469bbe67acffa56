use kiro_account_manager::settings::{
    get_browser_path, settings_to_save, AppSettings, DEFAULT_AUTO_SWITCH_THRESHOLD_BITS,
};

fn empty_update() -> AppSettings {
    AppSettings {
        theme: None,
        locale: None,
        lock_model: None,
        locked_model: None,
        auto_refresh: None,
        auto_refresh_interval: None,
        auto_change_machine_id: None,
        browser_path: None,
        privacy_mode: None,
        auto_switch_enabled: None,
        auto_switch_threshold: None,
        auto_switch_interval: None,
        enable_codebase_indexing: None,
        enable_tab_autocomplete: None,
        usage_summary: None,
        code_references: None,
        enable_debug_logs: None,
        notify_action_required: None,
        notify_failure: None,
        notify_success: None,
        notify_billing: None,
        trusted_tools: None,
        reference_tracker: None,
        configure_mcp: None,
        telemetry_content_collection: None,
        telemetry_usage_analytics: None,
        telemetry_edit_stats: None,
        telemetry_feedback: None,
    }
}

#[test]
fn defaults() {
    let s = AppSettings::default();
    assert_eq!(s.theme.as_deref(), Some("dark"));
    assert_eq!(s.locale.as_deref(), Some("zh-CN"));
    assert_eq!(s.lock_model, Some(false));
    assert_eq!(s.locked_model, None);
    assert_eq!(s.auto_refresh, Some(true));
    assert_eq!(s.auto_refresh_interval, Some(50));
    assert_eq!(s.auto_change_machine_id, Some(true));
    assert_eq!(s.browser_path, None);
    assert_eq!(s.privacy_mode, Some(true));
    assert_eq!(s.auto_switch_enabled, Some(false));
    assert_eq!(s.auto_switch_threshold.map(f64::from_bits), Some(1.0));
    assert_eq!(s.auto_switch_interval, Some(5));
    assert_eq!(s.enable_codebase_indexing, Some(true));
    assert_eq!(s.enable_tab_autocomplete, Some(true));
    assert_eq!(s.usage_summary, Some(true));
    assert_eq!(s.code_references, Some(true));
    assert_eq!(s.enable_debug_logs, Some(false));
    assert_eq!(s.notify_action_required, Some(true));
    assert_eq!(s.notify_failure, Some(true));
    assert_eq!(s.notify_success, Some(true));
    assert_eq!(s.notify_billing, Some(true));
    assert_eq!(s.trusted_tools, None);
    assert_eq!(s.reference_tracker, Some(false));
    assert_eq!(s.configure_mcp.as_deref(), Some("Enabled"));
    assert_eq!(s.telemetry_content_collection, Some(false));
    assert_eq!(s.telemetry_usage_analytics, Some(false));
    assert_eq!(s.telemetry_edit_stats, Some(false));
    assert_eq!(s.telemetry_feedback, Some(false));
    assert_eq!(f64::from_bits(DEFAULT_AUTO_SWITCH_THRESHOLD_BITS), 1.0);
}

#[test]
fn apply_updates_only_changes_given_fields() {
    let mut s = AppSettings::default();
    let mut u = empty_update();
    u.theme = Some("light".to_string());
    u.auto_refresh_interval = Some(10);
    u.trusted_tools = Some(vec!["git".to_string()]);
    u.auto_switch_threshold = Some(0.5f64.to_bits());
    s.apply_updates(u);
    assert_eq!(s.theme.as_deref(), Some("light"));
    assert_eq!(s.auto_refresh_interval, Some(10));
    assert_eq!(s.trusted_tools, Some(vec!["git".to_string()]));
    assert_eq!(s.auto_switch_threshold.map(f64::from_bits), Some(0.5));
    assert_eq!(s.locale.as_deref(), Some("zh-CN"));
    assert_eq!(s.browser_path, None);
    assert_eq!(s.configure_mcp.as_deref(), Some("Enabled"));
}

#[test]
fn empty_update_changes_nothing() {
    let mut s = AppSettings::default();
    s.apply_updates(empty_update());
    let d = AppSettings::default();
    assert_eq!(format!("{:?}", s), format!("{:?}", d));
}

#[test]
fn same_update_twice_is_once() {
    let mut a = AppSettings::default();
    let mut u1 = empty_update();
    u1.locale = Some("en".to_string());
    let mut u2 = empty_update();
    u2.locale = Some("en".to_string());
    a.apply_updates(u1);
    let once = format!("{:?}", a);
    a.apply_updates(u2);
    assert_eq!(once, format!("{:?}", a));
}

#[test]
fn save_over_unreadable_settings_uses_defaults() {
    let mut u = empty_update();
    u.privacy_mode = Some(false);
    let s = settings_to_save(Err("bad json".to_string()), u);
    assert_eq!(s.privacy_mode, Some(false));
    assert_eq!(s.theme.as_deref(), Some("dark"));
}

#[test]
fn save_over_loaded_settings_keeps_them() {
    let mut loaded = empty_update();
    loaded.theme = Some("light".to_string());
    let mut u = empty_update();
    u.lock_model = Some(true);
    let s = settings_to_save(Ok(loaded), u);
    assert_eq!(s.theme.as_deref(), Some("light"));
    assert_eq!(s.lock_model, Some(true));
    assert_eq!(s.locale, None);
}

#[test]
fn browser_path_rules() {
    let mut s = AppSettings::default();
    s.browser_path = Some("/usr/bin/firefox".to_string());
    assert_eq!(get_browser_path(Ok(s)).as_deref(), Some("/usr/bin/firefox"));
    let mut s = AppSettings::default();
    s.browser_path = Some(String::new());
    assert_eq!(get_browser_path(Ok(s)), None);
    assert_eq!(get_browser_path(Ok(AppSettings::default())), None);
    assert_eq!(get_browser_path(Err("missing".to_string())), None);
}

#[test]
fn two_updates_compose_into_one() {
    let mut u1 = empty_update();
    u1.theme = Some("light".to_string());
    u1.locale = Some("en".to_string());
    let mut u2 = empty_update();
    u2.locale = Some("fr".to_string());
    u2.lock_model = Some(true);
    let mut a = AppSettings::default();
    a.apply_updates(u1);
    a.apply_updates(u2);

    let mut v1 = empty_update();
    v1.theme = Some("light".to_string());
    v1.locale = Some("en".to_string());
    let mut v2 = empty_update();
    v2.locale = Some("fr".to_string());
    v2.lock_model = Some(true);
    v1.apply_updates(v2);
    let mut b = AppSettings::default();
    b.apply_updates(v1);
    assert_eq!(format!("{:?}", a), format!("{:?}", b));
    assert_eq!(a.locale.as_deref(), Some("fr"));
}

#[test]
fn full_update_replaces_everything() {
    let mut full = AppSettings::default();
    full.locked_model = Some("m".to_string());
    full.browser_path = Some("b".to_string());
    full.trusted_tools = Some(vec![]);
    let expected = format!("{:?}", AppSettings {
        locked_model: Some("m".to_string()),
        browser_path: Some("b".to_string()),
        trusted_tools: Some(vec![]),
        ..AppSettings::default()
    });
    let mut s = empty_update();
    s.apply_updates(full);
    assert_eq!(format!("{:?}", s), expected);
}
