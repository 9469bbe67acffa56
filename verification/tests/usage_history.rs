use kiro_account_manager::usage_history::{
    history_with_entry, merge_usage_history_entry, sort_entries_by_date, UsageHistory,
    UsageHistoryEntry, MAX_HISTORY_DAYS,
};
use kiro_account_manager::usage_history::date_le_exec;

fn entry(date: &str, quota: i32, used: i32, accounts: i32) -> UsageHistoryEntry {
    UsageHistoryEntry {
        date: date.to_string(),
        total_quota: quota,
        total_used: used,
        account_count: accounts,
    }
}

fn dates(h: &UsageHistory) -> Vec<String> {
    h.entries.iter().map(|e| e.date.clone()).collect()
}

fn day(i: usize) -> String {
    format!("2024-{:02}-{:02}", 1 + i / 28, 1 + i % 28)
}

#[test]
fn merge_into_empty_history_appends() {
    let mut h = UsageHistory::default();
    merge_usage_history_entry(&mut h, entry("2024-05-01", 100, 10, 2));
    assert_eq!(h.entries.len(), 1);
    assert_eq!(h.entries[0].date, "2024-05-01");
    assert_eq!(h.entries[0].total_quota, 100);
    assert_eq!(h.entries[0].total_used, 10);
    assert_eq!(h.entries[0].account_count, 2);
}

#[test]
fn merge_same_date_updates_figures() {
    let mut h = UsageHistory { entries: vec![entry("2024-05-01", 100, 10, 2), entry("2024-05-02", 50, 5, 1)] };
    merge_usage_history_entry(&mut h, entry("2024-05-01", 200, 20, 3));
    assert_eq!(dates(&h), vec!["2024-05-01", "2024-05-02"]);
    assert_eq!(h.entries[0].total_quota, 200);
    assert_eq!(h.entries[0].total_used, 20);
    assert_eq!(h.entries[0].account_count, 3);
    assert_eq!(h.entries[1].total_quota, 50);
}

#[test]
fn merge_sorts_by_date() {
    let mut h = UsageHistory {
        entries: vec![entry("2024-05-03", 1, 1, 1), entry("2024-05-01", 2, 2, 2)],
    };
    merge_usage_history_entry(&mut h, entry("2024-05-02", 3, 3, 3));
    assert_eq!(dates(&h), vec!["2024-05-01", "2024-05-02", "2024-05-03"]);
    assert_eq!(h.entries[1].total_quota, 3);
}

#[test]
fn merge_keeps_only_the_most_recent_days() {
    let mut h = UsageHistory::default();
    for i in 0..MAX_HISTORY_DAYS {
        h.entries.push(entry(&day(i), i as i32, 0, 0));
    }
    merge_usage_history_entry(&mut h, entry(&day(MAX_HISTORY_DAYS), 99, 0, 0));
    assert_eq!(h.entries.len(), MAX_HISTORY_DAYS);
    assert_eq!(h.entries[0].date, day(1));
    assert_eq!(h.entries[MAX_HISTORY_DAYS - 1].date, day(MAX_HISTORY_DAYS));
    assert_eq!(h.entries[MAX_HISTORY_DAYS - 1].total_quota, 99);
}

#[test]
fn merge_drops_an_entry_older_than_a_full_journal() {
    let mut h = UsageHistory::default();
    for i in 1..=MAX_HISTORY_DAYS {
        h.entries.push(entry(&day(i), i as i32, 0, 0));
    }
    let before = dates(&h);
    merge_usage_history_entry(&mut h, entry(&day(0), 7, 0, 0));
    assert_eq!(dates(&h), before);
}

#[test]
fn merge_twice_is_merge_once() {
    let mut h1 = UsageHistory { entries: vec![entry("2024-05-03", 1, 1, 1), entry("2024-05-01", 2, 2, 2)] };
    merge_usage_history_entry(&mut h1, entry("2024-05-02", 3, 3, 3));
    let once: Vec<(String, i32, i32, i32)> =
        h1.entries.iter().map(|e| (e.date.clone(), e.total_quota, e.total_used, e.account_count)).collect();
    merge_usage_history_entry(&mut h1, entry("2024-05-02", 3, 3, 3));
    let twice: Vec<(String, i32, i32, i32)> =
        h1.entries.iter().map(|e| (e.date.clone(), e.total_quota, e.total_used, e.account_count)).collect();
    assert_eq!(once, twice);
}

#[test]
fn sort_is_stable_for_equal_dates() {
    let v = vec![
        entry("2024-05-02", 1, 0, 0),
        entry("2024-05-01", 2, 0, 0),
        entry("2024-05-02", 3, 0, 0),
        entry("2024-05-01", 4, 0, 0),
    ];
    let s = sort_entries_by_date(v);
    let got: Vec<(String, i32)> = s.iter().map(|e| (e.date.clone(), e.total_quota)).collect();
    assert_eq!(
        got,
        vec![
            ("2024-05-01".to_string(), 2),
            ("2024-05-01".to_string(), 4),
            ("2024-05-02".to_string(), 1),
            ("2024-05-02".to_string(), 3)
        ]
    );
}

#[test]
fn date_order_is_the_order_of_strings() {
    let cases = ["", "2024-01-01", "2024-01-02", "2024-1-1", "2023-12-31", "a", "ä", "2024-01-01x"];
    for a in cases.iter() {
        for b in cases.iter() {
            assert_eq!(date_le_exec(a, b), a <= b, "{a:?} <= {b:?}");
        }
    }
}

#[test]
fn save_into_unreadable_history_starts_afresh() {
    let h = history_with_entry(Err("broken".to_string()), entry("2024-05-01", 1, 2, 3));
    assert_eq!(dates(&h), vec!["2024-05-01"]);
    let h2 = history_with_entry(Ok(h), entry("2024-04-30", 4, 5, 6));
    assert_eq!(dates(&h2), vec!["2024-04-30", "2024-05-01"]);
}
