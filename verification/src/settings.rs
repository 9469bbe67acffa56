//! The application's own settings and how a partial update is applied.
use vstd::prelude::*;

verus! {

/// `1.0`, the default auto-switch threshold, as an `f64` bit pattern.
pub const DEFAULT_AUTO_SWITCH_THRESHOLD_BITS: u64 = 0x3ff0_0000_0000_0000;

/// The settings of the account manager. Every field is optional: a value of
/// this type is also what the front end sends as a partial update.
#[derive(Debug)]
pub struct AppSettings {
    pub theme: Option<String>,
    /// Interface language.
    pub locale: Option<String>,
    pub lock_model: Option<bool>,
    pub locked_model: Option<String>,
    pub auto_refresh: Option<bool>,
    pub auto_refresh_interval: Option<i32>,
    /// Whether switching account also changes the machine id.
    pub auto_change_machine_id: Option<bool>,
    pub browser_path: Option<String>,
    /// Privacy mode: e-mail addresses are masked.
    pub privacy_mode: Option<bool>,
    pub auto_switch_enabled: Option<bool>,
    /// The auto-switch threshold, an `f64` held by its IEEE-754 bit pattern
    /// (`f64::to_bits`); the library only moves it, never computes with it.
    pub auto_switch_threshold: Option<u64>,
    pub auto_switch_interval: Option<i32>,
    pub enable_codebase_indexing: Option<bool>,
    pub enable_tab_autocomplete: Option<bool>,
    pub usage_summary: Option<bool>,
    pub code_references: Option<bool>,
    pub enable_debug_logs: Option<bool>,
    pub notify_action_required: Option<bool>,
    pub notify_failure: Option<bool>,
    pub notify_success: Option<bool>,
    pub notify_billing: Option<bool>,
    pub trusted_tools: Option<Vec<String>>,
    pub reference_tracker: Option<bool>,
    pub configure_mcp: Option<String>,
    pub telemetry_content_collection: Option<bool>,
    pub telemetry_usage_analytics: Option<bool>,
    pub telemetry_edit_stats: Option<bool>,
    pub telemetry_feedback: Option<bool>,
}

/// `o` holds a string whose characters are `t`.
pub open spec fn holds_text(o: Option<String>, t: Seq<char>) -> bool {
    o matches Some(v) && v@ == t
}

/// `s` holds the default settings.
pub open spec fn is_default_settings(s: AppSettings) -> bool {
    &&& holds_text(s.theme, "dark"@)
    &&& holds_text(s.locale, "zh-CN"@)
    &&& s.lock_model == Some(false)
    &&& s.locked_model is None
    &&& s.auto_refresh == Some(true)
    &&& s.auto_refresh_interval == Some(50i32)
    &&& s.auto_change_machine_id == Some(true)
    &&& s.browser_path is None
    &&& s.privacy_mode == Some(true)
    &&& s.auto_switch_enabled == Some(false)
    &&& s.auto_switch_threshold == Some(DEFAULT_AUTO_SWITCH_THRESHOLD_BITS)
    &&& s.auto_switch_interval == Some(5i32)
    &&& s.enable_codebase_indexing == Some(true)
    &&& s.enable_tab_autocomplete == Some(true)
    &&& s.usage_summary == Some(true)
    &&& s.code_references == Some(true)
    &&& s.enable_debug_logs == Some(false)
    &&& s.notify_action_required == Some(true)
    &&& s.notify_failure == Some(true)
    &&& s.notify_success == Some(true)
    &&& s.notify_billing == Some(true)
    &&& s.trusted_tools is None
    &&& s.reference_tracker == Some(false)
    &&& holds_text(s.configure_mcp, "Enabled"@)
    &&& s.telemetry_content_collection == Some(false)
    &&& s.telemetry_usage_analytics == Some(false)
    &&& s.telemetry_edit_stats == Some(false)
    &&& s.telemetry_feedback == Some(false)
}

impl Default for AppSettings {
    fn default() -> (s: Self)
        ensures
            is_default_settings(s),
    {
        AppSettings {
            theme: Some("dark".to_owned()),
            locale: Some("zh-CN".to_owned()),
            lock_model: Some(false),
            locked_model: None,
            auto_refresh: Some(true),
            auto_refresh_interval: Some(50),
            auto_change_machine_id: Some(true),
            browser_path: None,
            privacy_mode: Some(true),
            auto_switch_enabled: Some(false),
            auto_switch_threshold: Some(DEFAULT_AUTO_SWITCH_THRESHOLD_BITS),
            auto_switch_interval: Some(5),
            enable_codebase_indexing: Some(true),
            enable_tab_autocomplete: Some(true),
            usage_summary: Some(true),
            code_references: Some(true),
            enable_debug_logs: Some(false),
            notify_action_required: Some(true),
            notify_failure: Some(true),
            notify_success: Some(true),
            notify_billing: Some(true),
            trusted_tools: None,
            reference_tracker: Some(false),
            configure_mcp: Some("Enabled".to_owned()),
            telemetry_content_collection: Some(false),
            telemetry_usage_analytics: Some(false),
            telemetry_edit_stats: Some(false),
            telemetry_feedback: Some(false),
        }
    }
}

/// `update` when it is set, else `base`.
pub open spec fn pick<T>(base: Option<T>, update: Option<T>) -> Option<T> {
    if update is Some {
        update
    } else {
        base
    }
}

/// `base` with every field that `updates` sets replaced by the update.
pub open spec fn overlay(base: AppSettings, updates: AppSettings) -> AppSettings {
    AppSettings {
        theme: pick(base.theme, updates.theme),
        locale: pick(base.locale, updates.locale),
        lock_model: pick(base.lock_model, updates.lock_model),
        locked_model: pick(base.locked_model, updates.locked_model),
        auto_refresh: pick(base.auto_refresh, updates.auto_refresh),
        auto_refresh_interval: pick(base.auto_refresh_interval, updates.auto_refresh_interval),
        auto_change_machine_id: pick(base.auto_change_machine_id, updates.auto_change_machine_id),
        browser_path: pick(base.browser_path, updates.browser_path),
        privacy_mode: pick(base.privacy_mode, updates.privacy_mode),
        auto_switch_enabled: pick(base.auto_switch_enabled, updates.auto_switch_enabled),
        auto_switch_threshold: pick(base.auto_switch_threshold, updates.auto_switch_threshold),
        auto_switch_interval: pick(base.auto_switch_interval, updates.auto_switch_interval),
        enable_codebase_indexing: pick(base.enable_codebase_indexing, updates.enable_codebase_indexing),
        enable_tab_autocomplete: pick(base.enable_tab_autocomplete, updates.enable_tab_autocomplete),
        usage_summary: pick(base.usage_summary, updates.usage_summary),
        code_references: pick(base.code_references, updates.code_references),
        enable_debug_logs: pick(base.enable_debug_logs, updates.enable_debug_logs),
        notify_action_required: pick(base.notify_action_required, updates.notify_action_required),
        notify_failure: pick(base.notify_failure, updates.notify_failure),
        notify_success: pick(base.notify_success, updates.notify_success),
        notify_billing: pick(base.notify_billing, updates.notify_billing),
        trusted_tools: pick(base.trusted_tools, updates.trusted_tools),
        reference_tracker: pick(base.reference_tracker, updates.reference_tracker),
        configure_mcp: pick(base.configure_mcp, updates.configure_mcp),
        telemetry_content_collection: pick(base.telemetry_content_collection, updates.telemetry_content_collection),
        telemetry_usage_analytics: pick(base.telemetry_usage_analytics, updates.telemetry_usage_analytics),
        telemetry_edit_stats: pick(base.telemetry_edit_stats, updates.telemetry_edit_stats),
        telemetry_feedback: pick(base.telemetry_feedback, updates.telemetry_feedback),
    }
}

/// `u` sets no field.
pub open spec fn is_empty_update(u: AppSettings) -> bool {
    &&& u.theme is None
    &&& u.locale is None
    &&& u.lock_model is None
    &&& u.locked_model is None
    &&& u.auto_refresh is None
    &&& u.auto_refresh_interval is None
    &&& u.auto_change_machine_id is None
    &&& u.browser_path is None
    &&& u.privacy_mode is None
    &&& u.auto_switch_enabled is None
    &&& u.auto_switch_threshold is None
    &&& u.auto_switch_interval is None
    &&& u.enable_codebase_indexing is None
    &&& u.enable_tab_autocomplete is None
    &&& u.usage_summary is None
    &&& u.code_references is None
    &&& u.enable_debug_logs is None
    &&& u.notify_action_required is None
    &&& u.notify_failure is None
    &&& u.notify_success is None
    &&& u.notify_billing is None
    &&& u.trusted_tools is None
    &&& u.reference_tracker is None
    &&& u.configure_mcp is None
    &&& u.telemetry_content_collection is None
    &&& u.telemetry_usage_analytics is None
    &&& u.telemetry_edit_stats is None
    &&& u.telemetry_feedback is None
}

/// `u` sets every field.
pub open spec fn is_full_update(u: AppSettings) -> bool {
    &&& u.theme is Some
    &&& u.locale is Some
    &&& u.lock_model is Some
    &&& u.locked_model is Some
    &&& u.auto_refresh is Some
    &&& u.auto_refresh_interval is Some
    &&& u.auto_change_machine_id is Some
    &&& u.browser_path is Some
    &&& u.privacy_mode is Some
    &&& u.auto_switch_enabled is Some
    &&& u.auto_switch_threshold is Some
    &&& u.auto_switch_interval is Some
    &&& u.enable_codebase_indexing is Some
    &&& u.enable_tab_autocomplete is Some
    &&& u.usage_summary is Some
    &&& u.code_references is Some
    &&& u.enable_debug_logs is Some
    &&& u.notify_action_required is Some
    &&& u.notify_failure is Some
    &&& u.notify_success is Some
    &&& u.notify_billing is Some
    &&& u.trusted_tools is Some
    &&& u.reference_tracker is Some
    &&& u.configure_mcp is Some
    &&& u.telemetry_content_collection is Some
    &&& u.telemetry_usage_analytics is Some
    &&& u.telemetry_edit_stats is Some
    &&& u.telemetry_feedback is Some
}

/// Replaces `*slot` by `update` when `update` is set.
fn set_if_given<T>(slot: &mut Option<T>, update: Option<T>)
    ensures
        *final(slot) == pick(*old(slot), update),
{
    if update.is_some() {
        *slot = update;
    }
}

impl AppSettings {
    /// Copies into `self` every field that `updates` sets; the others keep
    /// their value.
    pub fn apply_updates(&mut self, updates: Self)
        ensures
            *final(self) == overlay(*old(self), updates),
            updates.theme is Some ==> final(self).theme == updates.theme,
            updates.theme is None ==> final(self).theme == old(self).theme,
            updates.locale is Some ==> final(self).locale == updates.locale,
            updates.locale is None ==> final(self).locale == old(self).locale,
            updates.lock_model is Some ==> final(self).lock_model == updates.lock_model,
            updates.lock_model is None ==> final(self).lock_model == old(self).lock_model,
            updates.locked_model is Some ==> final(self).locked_model == updates.locked_model,
            updates.locked_model is None ==> final(self).locked_model == old(self).locked_model,
            updates.auto_refresh is Some ==> final(self).auto_refresh == updates.auto_refresh,
            updates.auto_refresh is None ==> final(self).auto_refresh == old(self).auto_refresh,
            updates.auto_refresh_interval is Some ==> final(self).auto_refresh_interval == updates.auto_refresh_interval,
            updates.auto_refresh_interval is None ==> final(self).auto_refresh_interval == old(self).auto_refresh_interval,
            updates.auto_change_machine_id is Some ==> final(self).auto_change_machine_id == updates.auto_change_machine_id,
            updates.auto_change_machine_id is None ==> final(self).auto_change_machine_id == old(self).auto_change_machine_id,
            updates.browser_path is Some ==> final(self).browser_path == updates.browser_path,
            updates.browser_path is None ==> final(self).browser_path == old(self).browser_path,
            updates.privacy_mode is Some ==> final(self).privacy_mode == updates.privacy_mode,
            updates.privacy_mode is None ==> final(self).privacy_mode == old(self).privacy_mode,
            updates.auto_switch_enabled is Some ==> final(self).auto_switch_enabled == updates.auto_switch_enabled,
            updates.auto_switch_enabled is None ==> final(self).auto_switch_enabled == old(self).auto_switch_enabled,
            updates.auto_switch_threshold is Some ==> final(self).auto_switch_threshold == updates.auto_switch_threshold,
            updates.auto_switch_threshold is None ==> final(self).auto_switch_threshold == old(self).auto_switch_threshold,
            updates.auto_switch_interval is Some ==> final(self).auto_switch_interval == updates.auto_switch_interval,
            updates.auto_switch_interval is None ==> final(self).auto_switch_interval == old(self).auto_switch_interval,
            updates.enable_codebase_indexing is Some ==> final(self).enable_codebase_indexing == updates.enable_codebase_indexing,
            updates.enable_codebase_indexing is None ==> final(self).enable_codebase_indexing == old(self).enable_codebase_indexing,
            updates.enable_tab_autocomplete is Some ==> final(self).enable_tab_autocomplete == updates.enable_tab_autocomplete,
            updates.enable_tab_autocomplete is None ==> final(self).enable_tab_autocomplete == old(self).enable_tab_autocomplete,
            updates.usage_summary is Some ==> final(self).usage_summary == updates.usage_summary,
            updates.usage_summary is None ==> final(self).usage_summary == old(self).usage_summary,
            updates.code_references is Some ==> final(self).code_references == updates.code_references,
            updates.code_references is None ==> final(self).code_references == old(self).code_references,
            updates.enable_debug_logs is Some ==> final(self).enable_debug_logs == updates.enable_debug_logs,
            updates.enable_debug_logs is None ==> final(self).enable_debug_logs == old(self).enable_debug_logs,
            updates.notify_action_required is Some ==> final(self).notify_action_required == updates.notify_action_required,
            updates.notify_action_required is None ==> final(self).notify_action_required == old(self).notify_action_required,
            updates.notify_failure is Some ==> final(self).notify_failure == updates.notify_failure,
            updates.notify_failure is None ==> final(self).notify_failure == old(self).notify_failure,
            updates.notify_success is Some ==> final(self).notify_success == updates.notify_success,
            updates.notify_success is None ==> final(self).notify_success == old(self).notify_success,
            updates.notify_billing is Some ==> final(self).notify_billing == updates.notify_billing,
            updates.notify_billing is None ==> final(self).notify_billing == old(self).notify_billing,
            updates.trusted_tools is Some ==> final(self).trusted_tools == updates.trusted_tools,
            updates.trusted_tools is None ==> final(self).trusted_tools == old(self).trusted_tools,
            updates.reference_tracker is Some ==> final(self).reference_tracker == updates.reference_tracker,
            updates.reference_tracker is None ==> final(self).reference_tracker == old(self).reference_tracker,
            updates.configure_mcp is Some ==> final(self).configure_mcp == updates.configure_mcp,
            updates.configure_mcp is None ==> final(self).configure_mcp == old(self).configure_mcp,
            updates.telemetry_content_collection is Some ==> final(self).telemetry_content_collection == updates.telemetry_content_collection,
            updates.telemetry_content_collection is None ==> final(self).telemetry_content_collection == old(self).telemetry_content_collection,
            updates.telemetry_usage_analytics is Some ==> final(self).telemetry_usage_analytics == updates.telemetry_usage_analytics,
            updates.telemetry_usage_analytics is None ==> final(self).telemetry_usage_analytics == old(self).telemetry_usage_analytics,
            updates.telemetry_edit_stats is Some ==> final(self).telemetry_edit_stats == updates.telemetry_edit_stats,
            updates.telemetry_edit_stats is None ==> final(self).telemetry_edit_stats == old(self).telemetry_edit_stats,
            updates.telemetry_feedback is Some ==> final(self).telemetry_feedback == updates.telemetry_feedback,
            updates.telemetry_feedback is None ==> final(self).telemetry_feedback == old(self).telemetry_feedback,
    {
        let AppSettings {
            theme,
            locale,
            lock_model,
            locked_model,
            auto_refresh,
            auto_refresh_interval,
            auto_change_machine_id,
            browser_path,
            privacy_mode,
            auto_switch_enabled,
            auto_switch_threshold,
            auto_switch_interval,
            enable_codebase_indexing,
            enable_tab_autocomplete,
            usage_summary,
            code_references,
            enable_debug_logs,
            notify_action_required,
            notify_failure,
            notify_success,
            notify_billing,
            trusted_tools,
            reference_tracker,
            configure_mcp,
            telemetry_content_collection,
            telemetry_usage_analytics,
            telemetry_edit_stats,
            telemetry_feedback,
        } = updates;
        set_if_given(&mut self.theme, theme);
        set_if_given(&mut self.locale, locale);
        set_if_given(&mut self.lock_model, lock_model);
        set_if_given(&mut self.locked_model, locked_model);
        set_if_given(&mut self.auto_refresh, auto_refresh);
        set_if_given(&mut self.auto_refresh_interval, auto_refresh_interval);
        set_if_given(&mut self.auto_change_machine_id, auto_change_machine_id);
        set_if_given(&mut self.browser_path, browser_path);
        set_if_given(&mut self.privacy_mode, privacy_mode);
        set_if_given(&mut self.auto_switch_enabled, auto_switch_enabled);
        set_if_given(&mut self.auto_switch_threshold, auto_switch_threshold);
        set_if_given(&mut self.auto_switch_interval, auto_switch_interval);
        set_if_given(&mut self.enable_codebase_indexing, enable_codebase_indexing);
        set_if_given(&mut self.enable_tab_autocomplete, enable_tab_autocomplete);
        set_if_given(&mut self.usage_summary, usage_summary);
        set_if_given(&mut self.code_references, code_references);
        set_if_given(&mut self.enable_debug_logs, enable_debug_logs);
        set_if_given(&mut self.notify_action_required, notify_action_required);
        set_if_given(&mut self.notify_failure, notify_failure);
        set_if_given(&mut self.notify_success, notify_success);
        set_if_given(&mut self.notify_billing, notify_billing);
        set_if_given(&mut self.trusted_tools, trusted_tools);
        set_if_given(&mut self.reference_tracker, reference_tracker);
        set_if_given(&mut self.configure_mcp, configure_mcp);
        set_if_given(&mut self.telemetry_content_collection, telemetry_content_collection);
        set_if_given(&mut self.telemetry_usage_analytics, telemetry_usage_analytics);
        set_if_given(&mut self.telemetry_edit_stats, telemetry_edit_stats);
        set_if_given(&mut self.telemetry_feedback, telemetry_feedback);
    }
}

/// The settings to store after applying `updates` to those that were loaded;
/// settings that could not be loaded count as the defaults.
pub fn settings_to_save(loaded: Result<AppSettings, String>, updates: AppSettings) -> (r:
    AppSettings)
    ensures
        match loaded {
            Ok(current) => r == overlay(current, updates),
            Err(_) => exists|base: AppSettings| #[trigger]
                is_default_settings(base) && r == overlay(base, updates),
        },
{
    let mut current = match loaded {
        Ok(s) => s,
        Err(_) => AppSettings::default(),
    };
    let ghost base = current;
    current.apply_updates(updates);
    proof {
        if loaded is Err {
            assert(is_default_settings(base));
        }
    }
    current
}

/// The custom browser for opening external links: the stored browser path
/// when the settings could be loaded and the path is not empty.
pub fn get_browser_path(loaded: Result<AppSettings, String>) -> (r: Option<String>)
    ensures
        r == match loaded {
            Ok(s) => match s.browser_path {
                Some(p) => if p@.len() > 0 {
                    Some(p)
                } else {
                    None
                },
                None => None,
            },
            Err(_) => None,
        },
{
    match loaded {
        Ok(s) => match s.browser_path {
            Some(p) => {
                if p.as_str().is_empty() {
                    None
                } else {
                    Some(p)
                }
            },
            None => None,
        },
        Err(_) => None,
    }
}

/// An update changes exactly the fields it sets: each field of the result is
/// the update's value where the update sets that field, and the old value
/// where it does not, whatever the update's other fields hold.
pub proof fn law_update_changes_only_given_fields(s: AppSettings, u: AppSettings)
    ensures
        u.theme is Some ==> overlay(s, u).theme == u.theme,
        u.theme is None ==> overlay(s, u).theme == s.theme,
        u.locale is Some ==> overlay(s, u).locale == u.locale,
        u.locale is None ==> overlay(s, u).locale == s.locale,
        u.lock_model is Some ==> overlay(s, u).lock_model == u.lock_model,
        u.lock_model is None ==> overlay(s, u).lock_model == s.lock_model,
        u.locked_model is Some ==> overlay(s, u).locked_model == u.locked_model,
        u.locked_model is None ==> overlay(s, u).locked_model == s.locked_model,
        u.auto_refresh is Some ==> overlay(s, u).auto_refresh == u.auto_refresh,
        u.auto_refresh is None ==> overlay(s, u).auto_refresh == s.auto_refresh,
        u.auto_refresh_interval is Some ==> overlay(s, u).auto_refresh_interval == u.auto_refresh_interval,
        u.auto_refresh_interval is None ==> overlay(s, u).auto_refresh_interval == s.auto_refresh_interval,
        u.auto_change_machine_id is Some ==> overlay(s, u).auto_change_machine_id == u.auto_change_machine_id,
        u.auto_change_machine_id is None ==> overlay(s, u).auto_change_machine_id == s.auto_change_machine_id,
        u.browser_path is Some ==> overlay(s, u).browser_path == u.browser_path,
        u.browser_path is None ==> overlay(s, u).browser_path == s.browser_path,
        u.privacy_mode is Some ==> overlay(s, u).privacy_mode == u.privacy_mode,
        u.privacy_mode is None ==> overlay(s, u).privacy_mode == s.privacy_mode,
        u.auto_switch_enabled is Some ==> overlay(s, u).auto_switch_enabled == u.auto_switch_enabled,
        u.auto_switch_enabled is None ==> overlay(s, u).auto_switch_enabled == s.auto_switch_enabled,
        u.auto_switch_threshold is Some ==> overlay(s, u).auto_switch_threshold == u.auto_switch_threshold,
        u.auto_switch_threshold is None ==> overlay(s, u).auto_switch_threshold == s.auto_switch_threshold,
        u.auto_switch_interval is Some ==> overlay(s, u).auto_switch_interval == u.auto_switch_interval,
        u.auto_switch_interval is None ==> overlay(s, u).auto_switch_interval == s.auto_switch_interval,
        u.enable_codebase_indexing is Some ==> overlay(s, u).enable_codebase_indexing == u.enable_codebase_indexing,
        u.enable_codebase_indexing is None ==> overlay(s, u).enable_codebase_indexing == s.enable_codebase_indexing,
        u.enable_tab_autocomplete is Some ==> overlay(s, u).enable_tab_autocomplete == u.enable_tab_autocomplete,
        u.enable_tab_autocomplete is None ==> overlay(s, u).enable_tab_autocomplete == s.enable_tab_autocomplete,
        u.usage_summary is Some ==> overlay(s, u).usage_summary == u.usage_summary,
        u.usage_summary is None ==> overlay(s, u).usage_summary == s.usage_summary,
        u.code_references is Some ==> overlay(s, u).code_references == u.code_references,
        u.code_references is None ==> overlay(s, u).code_references == s.code_references,
        u.enable_debug_logs is Some ==> overlay(s, u).enable_debug_logs == u.enable_debug_logs,
        u.enable_debug_logs is None ==> overlay(s, u).enable_debug_logs == s.enable_debug_logs,
        u.notify_action_required is Some ==> overlay(s, u).notify_action_required == u.notify_action_required,
        u.notify_action_required is None ==> overlay(s, u).notify_action_required == s.notify_action_required,
        u.notify_failure is Some ==> overlay(s, u).notify_failure == u.notify_failure,
        u.notify_failure is None ==> overlay(s, u).notify_failure == s.notify_failure,
        u.notify_success is Some ==> overlay(s, u).notify_success == u.notify_success,
        u.notify_success is None ==> overlay(s, u).notify_success == s.notify_success,
        u.notify_billing is Some ==> overlay(s, u).notify_billing == u.notify_billing,
        u.notify_billing is None ==> overlay(s, u).notify_billing == s.notify_billing,
        u.trusted_tools is Some ==> overlay(s, u).trusted_tools == u.trusted_tools,
        u.trusted_tools is None ==> overlay(s, u).trusted_tools == s.trusted_tools,
        u.reference_tracker is Some ==> overlay(s, u).reference_tracker == u.reference_tracker,
        u.reference_tracker is None ==> overlay(s, u).reference_tracker == s.reference_tracker,
        u.configure_mcp is Some ==> overlay(s, u).configure_mcp == u.configure_mcp,
        u.configure_mcp is None ==> overlay(s, u).configure_mcp == s.configure_mcp,
        u.telemetry_content_collection is Some ==> overlay(s, u).telemetry_content_collection == u.telemetry_content_collection,
        u.telemetry_content_collection is None ==> overlay(s, u).telemetry_content_collection == s.telemetry_content_collection,
        u.telemetry_usage_analytics is Some ==> overlay(s, u).telemetry_usage_analytics == u.telemetry_usage_analytics,
        u.telemetry_usage_analytics is None ==> overlay(s, u).telemetry_usage_analytics == s.telemetry_usage_analytics,
        u.telemetry_edit_stats is Some ==> overlay(s, u).telemetry_edit_stats == u.telemetry_edit_stats,
        u.telemetry_edit_stats is None ==> overlay(s, u).telemetry_edit_stats == s.telemetry_edit_stats,
        u.telemetry_feedback is Some ==> overlay(s, u).telemetry_feedback == u.telemetry_feedback,
        u.telemetry_feedback is None ==> overlay(s, u).telemetry_feedback == s.telemetry_feedback,
{
}

/// An update that sets nothing leaves the settings as they are.
pub proof fn law_empty_update_keeps_settings(s: AppSettings, u: AppSettings)
    requires
        is_empty_update(u),
    ensures
        overlay(s, u) == s,
{
}

/// Applying the same update twice is applying it once.
pub proof fn law_update_idempotent(s: AppSettings, u: AppSettings)
    ensures
        overlay(overlay(s, u), u) == overlay(s, u),
{
}

proof fn lemma_pick_compose<T>(a: Option<T>, b: Option<T>, c: Option<T>)
    ensures
        pick(pick(a, b), c) == pick(a, pick(b, c)),
{
}

/// Two updates in a row are one update that takes, field by field, the later
/// value where the second sets one.
pub proof fn law_updates_compose(s: AppSettings, u1: AppSettings, u2: AppSettings)
    ensures
        overlay(overlay(s, u1), u2) == overlay(s, overlay(u1, u2)),
{
    lemma_pick_compose(s.theme, u1.theme, u2.theme);
    lemma_pick_compose(s.locale, u1.locale, u2.locale);
    lemma_pick_compose(s.lock_model, u1.lock_model, u2.lock_model);
    lemma_pick_compose(s.locked_model, u1.locked_model, u2.locked_model);
    lemma_pick_compose(s.auto_refresh, u1.auto_refresh, u2.auto_refresh);
    lemma_pick_compose(s.auto_refresh_interval, u1.auto_refresh_interval, u2.auto_refresh_interval);
    lemma_pick_compose(s.auto_change_machine_id, u1.auto_change_machine_id, u2.auto_change_machine_id);
    lemma_pick_compose(s.browser_path, u1.browser_path, u2.browser_path);
    lemma_pick_compose(s.privacy_mode, u1.privacy_mode, u2.privacy_mode);
    lemma_pick_compose(s.auto_switch_enabled, u1.auto_switch_enabled, u2.auto_switch_enabled);
    lemma_pick_compose(s.auto_switch_threshold, u1.auto_switch_threshold, u2.auto_switch_threshold);
    lemma_pick_compose(s.auto_switch_interval, u1.auto_switch_interval, u2.auto_switch_interval);
    lemma_pick_compose(s.enable_codebase_indexing, u1.enable_codebase_indexing, u2.enable_codebase_indexing);
    lemma_pick_compose(s.enable_tab_autocomplete, u1.enable_tab_autocomplete, u2.enable_tab_autocomplete);
    lemma_pick_compose(s.usage_summary, u1.usage_summary, u2.usage_summary);
    lemma_pick_compose(s.code_references, u1.code_references, u2.code_references);
    lemma_pick_compose(s.enable_debug_logs, u1.enable_debug_logs, u2.enable_debug_logs);
    lemma_pick_compose(s.notify_action_required, u1.notify_action_required, u2.notify_action_required);
    lemma_pick_compose(s.notify_failure, u1.notify_failure, u2.notify_failure);
    lemma_pick_compose(s.notify_success, u1.notify_success, u2.notify_success);
    lemma_pick_compose(s.notify_billing, u1.notify_billing, u2.notify_billing);
    lemma_pick_compose(s.trusted_tools, u1.trusted_tools, u2.trusted_tools);
    lemma_pick_compose(s.reference_tracker, u1.reference_tracker, u2.reference_tracker);
    lemma_pick_compose(s.configure_mcp, u1.configure_mcp, u2.configure_mcp);
    lemma_pick_compose(s.telemetry_content_collection, u1.telemetry_content_collection, u2.telemetry_content_collection);
    lemma_pick_compose(s.telemetry_usage_analytics, u1.telemetry_usage_analytics, u2.telemetry_usage_analytics);
    lemma_pick_compose(s.telemetry_edit_stats, u1.telemetry_edit_stats, u2.telemetry_edit_stats);
    lemma_pick_compose(s.telemetry_feedback, u1.telemetry_feedback, u2.telemetry_feedback);
}

/// An update that sets every field replaces the settings by itself.
pub proof fn law_full_update_replaces(s: AppSettings, u: AppSettings)
    requires
        is_full_update(u),
    ensures
        overlay(s, u) == u,
{
}

} // verus!
