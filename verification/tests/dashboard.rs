use rara_channels::telegram::dashboard::{
    dashboard_keyboard, format_uptime, html_escape, render_dashboard, scoped_sessions,
    truncate_html_safe, DashTab, SessionState, SessionStats,
};

#[test]
fn dash_tab_roundtrip() {
    assert_eq!(DashTab::from_str_prefix("tasks"), DashTab::Tasks);
    assert_eq!(DashTab::from_str_prefix("sess"), DashTab::Sessions);
    assert_eq!(DashTab::from_str_prefix("unknown"), DashTab::Tasks);
}

#[test]
fn keyboard_callback_data_within_64_bytes() {
    let tid = "01JRWQY1234567890ABCDEFGH";
    let kb = dashboard_keyboard(DashTab::Tasks, -1001234567890, 2147483647, Some(tid));
    for row in &kb {
        for btn in row {
            if let Some(ref data) = btn.callback_data {
                assert!(data.len() <= 64, "callback data too long ({} bytes): {data}", data.len());
            }
        }
    }
}

#[test]
fn keyboard_layout() {
    let kb = dashboard_keyboard(DashTab::Sessions, 5, 7, None);
    assert_eq!(kb.len(), 1);
    assert_eq!(kb[0][0].text, "\u{1f4cb} Tasks");
    assert_eq!(kb[0][1].text, "\u{1f5a5} Sessions \u{b7}");
    assert_eq!(kb[0][2].callback_data.as_deref(), Some("dash:sess:5:7:-"));
    let kb = dashboard_keyboard(DashTab::Tasks, 5, 7, Some("t"));
    assert_eq!(kb[1][0].callback_data.as_deref(), Some("trace:hide:5:7:t"));
}

#[test]
fn html_escape_special_chars() {
    assert_eq!(html_escape("<b>&test</b>"), "&lt;b&gt;&amp;test&lt;/b&gt;");
}

#[test]
fn format_uptime_values() {
    assert_eq!(format_uptime(500), "0s");
    assert_eq!(format_uptime(5_000), "5s");
    assert_eq!(format_uptime(65_000), "1m 5s");
    assert_eq!(format_uptime(3_665_000), "1h 1m");
}

#[test]
fn render_empty_tasks() {
    let text = render_dashboard(DashTab::Tasks, &vec![], &vec![]);
    assert!(text.contains("No background tasks"));
}

#[test]
fn truncate_html_safe_preserves_valid_html() {
    let mut s = "line1\nline2\nline3\nline4".to_string();
    truncate_html_safe(&mut s, 12);
    assert!(s.starts_with("line1\nline2"));
    assert!(s.ends_with("truncated</i>"));
}

#[test]
fn truncate_html_safe_noop_when_short() {
    let mut s = "short".to_string();
    truncate_html_safe(&mut s, 4000);
    assert_eq!(s, "short");
}

#[test]
fn render_empty_sessions() {
    let text = render_dashboard(DashTab::Sessions, &vec![], &vec![]);
    assert!(text.contains("No active sessions"));
}

fn stats(key: u128, parent: Option<u128>, state: SessionState, name: &str) -> SessionStats {
    SessionStats {
        session_key: key,
        parent_id: parent,
        state,
        manifest_name: name.into(),
        uptime_ms: 65_000,
        tool_calls: 3,
        tokens_consumed: 2_000,
    }
}

#[test]
fn tasks_tab_lists_running_and_recent_done() {
    let mut ss = vec![stats(1, None, SessionState::Active, "root")];
    ss.push(stats(2, Some(1), SessionState::Active, "runner"));
    for i in 0..12u128 {
        ss.push(stats(10 + i, Some(1), SessionState::Suspended, &format!("done{i}")));
    }
    let text = render_dashboard(DashTab::Tasks, &ss, &vec![String::new(); ss.len()]);
    assert!(text.contains("\u{1f504} <b>Running (1)</b>\n\u{23f3} \u{1f916} runner\n   1m 5s \u{b7} 3 tools\n"));
    assert!(text.contains("<b>Done (12)</b>\n\u{2714} done11 \u{2014} 1m 5s\n"));
    assert!(!text.contains("done1 \u{2014}"));
    assert!(text.contains("  <i>\u{2026} and 2 more</i>\n"));
}

#[test]
fn sessions_tab_uses_token_labels() {
    let ss = vec![stats(2, Some(1), SessionState::Ready, "kid")];
    let text = render_dashboard(DashTab::Sessions, &ss, &vec!["1.0k".to_string()]);
    assert!(text.contains("\u{25b6} <b>kid</b> (child) \u{2014} Idle \u{b7} 1m 5s\n  \u{2191}1.0k \u{2193}1.0k \u{b7} 3 tools\n"));
}

#[test]
fn scoping_keeps_root_and_children() {
    let ss = vec![
        stats(1, None, SessionState::Active, "a"),
        stats(2, Some(1), SessionState::Active, "b"),
        stats(3, Some(9), SessionState::Active, "c"),
        stats(9, None, SessionState::Active, "d"),
    ];
    assert_eq!(scoped_sessions(&ss, 1), vec![0, 1]);
    assert_eq!(scoped_sessions(&ss, 9), vec![2, 3]);
}
