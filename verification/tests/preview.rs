use aish::preview::{
    active_duration_text, format_active_duration, last_n_rows_from_chars, preview_branch_for_phase,
    PreviewBranch,
};
use std::time::{Duration, SystemTime};

#[test]
fn last_n_rows_empty_input() {
    let rows: Vec<Vec<char>> = vec![];
    assert_eq!(last_n_rows_from_chars(rows, 6), Vec::<String>::new());
}

#[test]
fn last_n_rows_fewer_than_n() {
    let rows = vec![vec!['$', ' ', 'l', 's'], vec!['f', 'o', 'o']];
    assert_eq!(
        last_n_rows_from_chars(rows, 6),
        vec!["$ ls".to_string(), "foo".to_string()]
    );
}

#[test]
fn last_n_rows_exactly_n() {
    let rows: Vec<Vec<char>> = (0..6).map(|i| vec![char::from(b'0' + i)]).collect();
    let result = last_n_rows_from_chars(rows, 6);
    assert_eq!(result.len(), 6);
    assert_eq!(result[0], "0");
    assert_eq!(result[5], "5");
}

#[test]
fn last_n_rows_more_than_n_takes_last() {
    let rows: Vec<Vec<char>> = (0..10).map(|i| vec![char::from(b'a' + i)]).collect();
    let result = last_n_rows_from_chars(rows, 6);
    assert_eq!(result.len(), 6);
    assert_eq!(result[0], "e");
    assert_eq!(result[5], "j");
}

#[test]
fn last_n_rows_trim_trailing_whitespace() {
    let rows = vec![vec!['$', ' ', 'l', 's', ' ', ' ', ' ', ' ']];
    assert_eq!(last_n_rows_from_chars(rows, 6), vec!["$ ls".to_string()]);
}

#[test]
fn preview_branch_connected_with_content() {
    assert_eq!(
        preview_branch_for_phase(true, false, false, false),
        PreviewBranch::ShowCells
    );
}

#[test]
fn preview_branch_connected_empty() {
    assert_eq!(
        preview_branch_for_phase(true, false, false, true),
        PreviewBranch::WaitingForOutput
    );
}

#[test]
fn preview_branch_connecting() {
    assert_eq!(
        preview_branch_for_phase(false, true, false, false),
        PreviewBranch::Loading
    );
    assert_eq!(
        preview_branch_for_phase(false, true, false, true),
        PreviewBranch::Loading
    );
}

#[test]
fn preview_branch_disconnected() {
    assert_eq!(
        preview_branch_for_phase(false, false, true, false),
        PreviewBranch::DisconnectedHint
    );
}

#[test]
fn format_active_duration_less_than_minute() {
    let now = SystemTime::UNIX_EPOCH + Duration::from_secs(100);
    let connected_at = SystemTime::UNIX_EPOCH + Duration::from_secs(70);
    assert_eq!(format_active_duration(connected_at, now), "刚刚连接");
}

#[test]
fn format_active_duration_minutes_hours_days() {
    let base = SystemTime::UNIX_EPOCH;
    assert_eq!(
        format_active_duration(base, base + Duration::from_secs(5 * 60)),
        "已连接 5 分钟"
    );
    assert_eq!(
        format_active_duration(base, base + Duration::from_secs(12 * 3600)),
        "已连接 12 小时"
    );
    assert_eq!(
        format_active_duration(base, base + Duration::from_secs(2 * 86400)),
        "已连接 2 天"
    );
}

#[test]
fn format_active_duration_clock_skew_returns_zero_dur() {
    let now = SystemTime::UNIX_EPOCH + Duration::from_secs(100);
    let connected_at = SystemTime::UNIX_EPOCH + Duration::from_secs(200);
    assert_eq!(format_active_duration(connected_at, now), "刚刚连接");
}

#[test]
fn active_duration_boundaries() {
    assert_eq!(active_duration_text(59), "刚刚连接");
    assert_eq!(active_duration_text(60), "已连接 1 分钟");
    assert_eq!(active_duration_text(3599), "已连接 59 分钟");
    assert_eq!(active_duration_text(3600), "已连接 1 小时");
    assert_eq!(active_duration_text(86399), "已连接 23 小时");
    assert_eq!(active_duration_text(86400), "已连接 1 天");
}
