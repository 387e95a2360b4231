use seris::database::{database_file_components, summarize_usage, UsageRow};

fn row(command: &str, count: i64, last_used: i64) -> UsageRow {
    UsageRow {
        command: command.to_string(),
        count,
        last_used,
    }
}

#[test]
fn summarizes_usage_rows() {
    let summary = summarize_usage(&vec![row("ping", 2, 10), row("uptime", 1, 11)]).expect("summary");

    assert_eq!(summary.total_uses, 3);
    assert_eq!(summary.distinct_commands, 2);
    assert_eq!(summary.favorite_command.as_deref(), Some("ping"));
    assert_eq!(summary.favorite_count, 2);
}

#[test]
fn favorite_ties_break_by_recency_then_name() {
    let summary = summarize_usage(&vec![row("ping", 2, 10), row("uptime", 2, 11)]).expect("summary");
    assert_eq!(summary.favorite_command.as_deref(), Some("uptime"));

    let summary = summarize_usage(&vec![row("uptime", 2, 10), row("about", 2, 10), row("ping", 2, 10)]).expect("summary");
    assert_eq!(summary.favorite_command.as_deref(), Some("about"));
}

#[test]
fn empty_usage_has_no_favorite() {
    let summary = summarize_usage(&Vec::new()).expect("summary");
    assert_eq!(summary.total_uses, 0);
    assert_eq!(summary.distinct_commands, 0);
    assert_eq!(summary.favorite_command, None);
    assert_eq!(summary.favorite_count, 0);
}

#[test]
fn overflowing_totals_are_refused() {
    assert!(summarize_usage(&vec![row("ping", i64::MAX, 1), row("uptime", 1, 2)]).is_none());
}

#[test]
fn database_path_prefers_explicit_then_xdg_then_home() {
    assert_eq!(
        database_file_components(Some("/db".to_string()), Some("/xdg".to_string()), None),
        Some(vec!["/db".to_string()])
    );
    assert_eq!(
        database_file_components(None, Some("/xdg".to_string()), Some("/h".to_string())),
        Some(vec!["/xdg".to_string(), "seris".to_string(), "seris.sqlite3".to_string()])
    );
    assert_eq!(
        database_file_components(None, None, Some("/h".to_string())),
        Some(vec![
            "/h".to_string(),
            ".local".to_string(),
            "share".to_string(),
            "seris".to_string(),
            "seris.sqlite3".to_string()
        ])
    );
    assert_eq!(database_file_components(None, None, None), None);
}
