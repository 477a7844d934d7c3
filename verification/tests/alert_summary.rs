use key_store::alerts::summary::{recent_alerts_summary_windows, summarize_alert_type_counts, AlertTypeCount};

fn defaults(types: &[&str]) -> Vec<AlertTypeCount> {
    types.iter().map(|t| AlertTypeCount { alert_type: t.to_string(), count: 0 }).collect()
}

fn pairs(counts: &[AlertTypeCount]) -> Vec<(String, i64)> {
    counts.iter().map(|c| (c.alert_type.clone(), c.count)).collect()
}

#[test]
fn known_types_take_their_counted_rows_in_their_own_order() {
    let rows = vec![("b".to_string(), 7), ("a".to_string(), 3)];
    let result = summarize_alert_type_counts(defaults(&["a", "b", "c"]), &rows);
    assert_eq!(pairs(&result), vec![("a".to_string(), 3), ("b".to_string(), 7), ("c".to_string(), 0)]);
}

#[test]
fn unknown_types_are_ignored_and_the_last_row_wins() {
    let rows = vec![("a".to_string(), 3), ("zzz".to_string(), 9), ("a".to_string(), 5)];
    let result = summarize_alert_type_counts(defaults(&["a"]), &rows);
    assert_eq!(pairs(&result), vec![("a".to_string(), 5)]);
}

#[test]
fn a_type_listed_twice_is_counted_at_its_last_place() {
    let rows = vec![("a".to_string(), 4)];
    let result = summarize_alert_type_counts(defaults(&["a", "b", "a"]), &rows);
    assert_eq!(pairs(&result), vec![("a".to_string(), 0), ("b".to_string(), 0), ("a".to_string(), 4)]);
}

#[test]
fn summary_window_is_clamped_to_one_hour_through_thirty_days() {
    let now = 10_000_000;
    let w = recent_alerts_summary_windows(now, 0);
    assert_eq!(w.window_hours, 1);
    assert_eq!(w.since, now - 3600);
    let w = recent_alerts_summary_windows(now, 10_000);
    assert_eq!(w.window_hours, 720);
    assert_eq!(w.since, now - 720 * 3600);
    let w = recent_alerts_summary_windows(now, 48);
    assert_eq!(w.window_hours, 48);
    assert_eq!(w.since, now - 48 * 3600);
    assert_eq!(w.grouped, vec![(1, now - 3600), (24, now - 86_400), (168, now - 604_800)]);
}

#[test]
fn summary_window_starts_saturate() {
    let w = recent_alerts_summary_windows(i64::MIN + 5, 24);
    assert_eq!(w.since, i64::MIN);
    assert_eq!(w.grouped[0], (1, i64::MIN));
}
