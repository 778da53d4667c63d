use rara_channels::telegram::commands::anchor_dot::{
    escape_dot, node_id, render_dot, truncate, AnchorNode, AnchorTree, ForkEdge, SessionBranch,
};
use rara_channels::telegram::commands::anchor_mode::{
    parse_anchor_mode_request, render_anchor_mode_report, update_notice, usage_text as anchor_usage_text,
    AnchorModePreset,
    AnchorModeRequest, FoldingSummary,
};
use rara_channels::telegram::commands::callbacks::{
    callback_payload, delete_confirm_reply, delete_prompt_reply, detail_reply, model_switch_reply,
    switch_reply, SessionDeleteCancelHandler,
};
use rara_channels::telegram::commands::client::{
    ChatModelItem, GatewayAgentStatus, GatewayCommandOutcome, GatewayStatus, GatewayUpdateStatus,
    SessionDetail, SessionListItem,
};
use rara_channels::telegram::commands::mcp::extract_mcp_package_name;
use rara_channels::telegram::commands::ops::{
    parse_gateway_subcommand, render_outcome, render_status, short_rev, GatewaySubcommand,
};
use rara_channels::telegram::commands::session::{
    format_relative_time, format_timestamp, models_keyboard, relative_time_since, session_ages,
    session_display_name, sessions_keyboard, usage_text,
};
use rara_channels::telegram::commands::status::{
    all_jobs_reply, format_uptime, status_reply, truncate_msg, JobLine, RuntimeStats, SystemStats,
};
use rara_channels::telegram::commands::{CallbackReply, CommandReply};

fn detail(title: Option<&str>, model: Option<&str>) -> SessionDetail {
    SessionDetail {
        key: "0123456789abcdef".into(),
        title: title.map(String::from),
        model: model.map(String::from),
        message_count: 3,
        preview: Some("hello <world>".into()),
        created_at: "2025-01-02T03:04:05Z".into(),
        updated_at: "2025-02-03T04:05:06Z".into(),
    }
}

fn sent(r: CallbackReply) -> String {
    match r {
        CallbackReply::SendMessage { text } => text,
        _ => panic!("expected a new message"),
    }
}

#[test]
fn timestamps_are_shortened() {
    assert_eq!(format_timestamp("2025-01-02T03:04:05Z"), "2025-01-02 03:04");
    assert_eq!(format_timestamp("short"), "short");
}

#[test]
fn relative_times() {
    assert_eq!(format_relative_time(None), "");
    assert_eq!(format_relative_time(Some(-5)), "now");
    assert_eq!(format_relative_time(Some(59)), "now");
    assert_eq!(format_relative_time(Some(180)), "3m ago");
    assert_eq!(format_relative_time(Some(7200)), "2h ago");
    assert_eq!(format_relative_time(Some(5 * 86400)), "5d ago");
    assert_eq!(format_relative_time(Some(31 * 86400)), "30d+ ago");
}

#[test]
fn display_names_prefer_title_then_preview() {
    let mut item = SessionListItem {
        key: "k".into(),
        title: Some("a very long session title that goes on and on".into()),
        preview: Some("preview".into()),
        message_count: 1,
        updated_at: String::new(),
    };
    assert_eq!(session_display_name(&item), "a very long session title th");
    item.title = None;
    assert_eq!(session_display_name(&item), "preview");
    item.preview = None;
    assert_eq!(session_display_name(&item), "Untitled");
}

#[test]
fn sessions_keyboard_marks_active_session() {
    let items = vec![
        SessionListItem {
            key: "aaa".into(),
            title: Some("One".into()),
            preview: None,
            message_count: 1,
            updated_at: String::new(),
        },
        SessionListItem {
            key: "bbb".into(),
            title: None,
            preview: None,
            message_count: 1,
            updated_at: String::new(),
        },
    ];
    let ages = vec!["3m ago".to_string(), String::new()];
    let rows = sessions_keyboard(&items, &Some("aaa".to_string()), &ages);
    assert_eq!(rows.len(), 2);
    assert_eq!(rows[0][0].text, "\u{2705} One \u{b7} 3m ago");
    assert_eq!(rows[0][0].callback_data.as_deref(), Some("detail:aaa"));
    assert_eq!(rows[0][1].callback_data.as_deref(), Some("delete:aaa"));
    assert_eq!(rows[1][0].text, "Untitled");
    assert_eq!(rows[1][0].callback_data.as_deref(), Some("switch:bbb"));
}

#[test]
fn usage_report_lists_details() {
    let text = usage_text(&detail(Some("T"), Some("m1")));
    assert_eq!(
        text,
        "<b>Session:</b> T\n<b>Key:</b> <code>0123456789abcdef</code>\n<b>Model:</b> m1\n\
         <b>Created:</b> 2025-01-02 03:04\n<b>Last active:</b> 2025-02-03 04:05\n\
         \n<b>Last message:</b>\nhello &lt;world&gt;\n"
    );
}

#[test]
fn models_keyboard_marks_current_model() {
    let models = vec![
        ChatModelItem { id: "m1".into(), name: "Model One".into(), context_length: Some(128_000) },
        ChatModelItem { id: "m2".into(), name: "Model Two".into(), context_length: None },
    ];
    let rows = models_keyboard(&models, &Some("m2".to_string()));
    assert_eq!(rows[0][0].text, "Model One \u{b7} 128k");
    assert_eq!(rows[1][0].text, "\u{2705} Model Two");
    assert_eq!(rows[1][0].callback_data.as_deref(), Some("model:m2"));
}

#[test]
fn callback_payload_strips_prefix() {
    assert_eq!(callback_payload("switch:abc", "switch:"), "abc");
}

#[test]
fn switch_replies() {
    let key = "0123456789abcdef";
    assert_eq!(
        sent(switch_reply(key, &Err("gone".into()), &Ok(()))),
        "Session no longer exists."
    );
    assert_eq!(
        sent(switch_reply(key, &Ok(detail(None, None)), &Ok(()))),
        "Switched to session: <b>hello &lt;world&gt;</b>\n<code>0123456789abcdef</code>"
    );
    assert_eq!(
        sent(switch_reply(key, &Ok(detail(None, None)), &Err("boom".into()))),
        "Failed to switch session: boom"
    );
}

#[test]
fn model_switch_replies() {
    assert_eq!(
        sent(model_switch_reply("x", &Ok(None), &Err("e".into()))),
        "No active session. Send a message to create one."
    );
    match model_switch_reply("gpt", &Ok(Some("k".into())), &Ok(detail(None, None))) {
        CallbackReply::EditMessage { text } => {
            assert_eq!(text, "\u{2705} Model switched to <b>gpt</b>")
        }
        _ => panic!("expected an edit"),
    }
}

#[test]
fn detail_reply_lists_session() {
    assert_eq!(
        sent(detail_reply(&Ok(detail(Some("T"), None)))),
        "<b>T</b>\nKey: <code>0123456789abcdef</code>\nModel: (default)\n\
         Created: 2025-01-02 03:04\nLast active: 2025-02-03 04:05"
    );
}

#[test]
fn delete_prompt_uses_key_prefix_without_title() {
    match delete_prompt_reply("0123456789abcdef", &Err("x".into())) {
        CallbackReply::SendMessageWithKeyboard { text, keyboard } => {
            assert_eq!(text, "Delete session <b>01234567</b>?\nThis cannot be undone.");
            assert_eq!(keyboard[0][0].callback_data.as_deref(), Some("confirm_del:0123456789abcdef"));
            assert_eq!(keyboard[0][1].callback_data.as_deref(), Some("cancel_del:0123456789abcdef"));
        }
        _ => panic!("expected a keyboard"),
    }
    assert_eq!(
        sent(delete_confirm_reply("k<", &Ok(()))),
        "Session <code>k&lt;</code> deleted."
    );
}

#[test]
fn cancel_handler_cancels() {
    let h = SessionDeleteCancelHandler::new();
    assert_eq!(h.prefix(), "cancel_del:");
    assert_eq!(sent(h.handle()), "Cancelled.");
}

#[test]
fn mcp_package_names() {
    assert_eq!(
        extract_mcp_package_name("https://github.com/org/repo-name.git"),
        "repo-name"
    );
    assert_eq!(extract_mcp_package_name("https://github.com/org/repo?x=1"), "repo");
    assert_eq!(extract_mcp_package_name("github.com/org"), "github.com/org");
    assert_eq!(extract_mcp_package_name("@scope/pkg"), "@scope/pkg");
}

#[test]
fn gateway_status_report() {
    assert_eq!(parse_gateway_subcommand(""), GatewaySubcommand::Status);
    assert_eq!(parse_gateway_subcommand("  restart now"), GatewaySubcommand::Restart);
    assert_eq!(parse_gateway_subcommand("bogus"), GatewaySubcommand::Usage);
    assert_eq!(short_rev("abcdef1234567890"), "abcdef123456");
    let status = GatewayStatus {
        agent: GatewayAgentStatus { running: true, pid: None, restart_count: 2 },
        update: GatewayUpdateStatus {
            current_rev: "abcdef1234567890".into(),
            upstream_rev: None,
            update_available: false,
            last_check_time: Some("2025-01-02T03:04:05Z".into()),
        },
    };
    let text = render_status(&status);
    assert!(text.contains("<b>PID:</b> <code>n/a</code>"));
    assert!(text.contains("<code>abcdef123456</code>"));
    assert!(text.contains("<b>Upstream rev:</b> <code>unknown</code>"));
    assert!(text.contains("<b>Last check:</b> 2025-01-02 03:04"));
    let outcome = GatewayCommandOutcome {
        action: "restart".into(),
        ok: true,
        status: "ok".into(),
        detail: "done".into(),
        target_rev: None,
        active_rev: Some("1234".into()),
        rolled_back: Some(false),
    };
    let text = render_outcome(&outcome);
    assert!(text.starts_with("<b>Gateway restart</b>: accepted\n"));
    assert!(text.contains("<b>Active rev:</b> <code>1234</code>\n<b>Rolled back:</b> no\n"));
}

#[test]
fn status_truncation_and_uptime() {
    assert_eq!(truncate_msg("first line\nsecond", 40), "first line");
    assert_eq!(truncate_msg("abcdefghij", 8), "abcdef...");
    assert_eq!(format_uptime(59_999), "0m");
    assert_eq!(format_uptime(3_900_000), "1h 5m");
}

#[test]
fn status_reply_offers_all_jobs_beyond_five() {
    let jobs: Vec<JobLine> = (0..6)
        .map(|i| JobLine {
            message: format!("job {i}"),
            schedule: "daily".into(),
            next_at: "2025-01-02T03:04:05Z".into(),
        })
        .collect();
    let sys = SystemStats { active_sessions: 1, uptime_ms: 120_000, total_tokens_consumed: 9 };
    let runtime = Some(RuntimeStats {
        state: "Active".into(),
        llm_calls: 1,
        tool_calls: 2,
        tokens_consumed: 3,
        children: 0,
    });
    match status_reply("sess-key", &Ok(detail(None, None)), &runtime, &Some(jobs), &sys) {
        CommandReply::HtmlWithKeyboard { html, keyboard } => {
            assert!(html.contains("Key: <code>01234567</code>"));
            assert!(html.contains("<b>Scheduled jobs</b> (6)"));
            assert!(html.contains("  job 4 | daily | 2025-01-02 03:04\n"));
            assert!(!html.contains("job 5"));
            assert!(html.contains("Uptime: 2m"));
            assert_eq!(keyboard[0][0].callback_data.as_deref(), Some("status_jobs:sess-key"));
        }
        _ => panic!("expected a keyboard"),
    }
    match all_jobs_reply(&None) {
        CallbackReply::SendMessage { text } => assert_eq!(text, "Invalid session key."),
        _ => panic!("expected a message"),
    }
}

#[test]
fn anchor_mode_presets() {
    assert_eq!(AnchorModePreset::parse(" Deep_Work "), Some(AnchorModePreset::DeepWork));
    assert_eq!(AnchorModePreset::parse("CHAT"), Some(AnchorModePreset::Chat));
    assert_eq!(AnchorModePreset::parse("turbo"), None);
    assert_eq!(AnchorModePreset::Balanced.label(), "balanced");
    assert_eq!(parse_anchor_mode_request("status"), AnchorModeRequest::Show);
    assert_eq!(parse_anchor_mode_request("turbo"), AnchorModeRequest::Usage);
    assert_eq!(
        parse_anchor_mode_request("chat"),
        AnchorModeRequest::Switch(AnchorModePreset::Chat)
    );
    let summary = FoldingSummary {
        preset: Some(AnchorModePreset::Balanced),
        enabled: true,
        threshold_text: "0.60".into(),
        min_entries_between_folds: 15,
        fold_model: None,
    };
    let text = render_anchor_mode_report(&summary, Some(update_notice(AnchorModePreset::Balanced)));
    assert!(text.starts_with("Updated anchor mode to <b>balanced</b>."));
    assert!(text.contains("<b>Anchor mode</b>: balanced\n"));
    assert!(text.contains("<b>Fold threshold</b>: 0.60\n"));
    assert!(text.contains("<b>Fold model</b>: session default\n"));
}

fn sample_tree() -> AnchorTree {
    AnchorTree {
        root: SessionBranch {
            session_key: "root".into(),
            title: Some("Root Session".into()),
            anchors: vec![
                AnchorNode { name: "session/start".into(), summary: None, entry_id: 1 },
                AnchorNode { name: "topic/a".into(), summary: Some("Discussed A".into()), entry_id: 5 },
            ],
            forks: vec![ForkEdge {
                at_anchor: "topic/a".into(),
                branch: SessionBranch {
                    session_key: "fork-1".into(),
                    title: Some("Fork 1".into()),
                    anchors: vec![AnchorNode {
                        name: "session/start".into(),
                        summary: None,
                        entry_id: 1,
                    }],
                    forks: vec![],
                },
            }],
        },
        current_session: "fork-1".into(),
    }
}

#[test]
fn generates_valid_dot() {
    let dot = render_dot(&sample_tree());
    assert!(dot.contains("digraph"));
    assert!(dot.contains("topic/a"));
    assert!(dot.contains("Fork 1"));
    assert!(dot.contains("fork-1"));
    assert!(dot.contains("style=dashed"));
    assert!(dot.ends_with("}\n"));
}

#[test]
fn dot_helpers() {
    assert_eq!(escape_dot("a\"b\\c\nd"), "a\\\"b\\\\c\\nd");
    assert_eq!(truncate("abcdef", 3), "abc...");
    assert_eq!(truncate("abc", 3), "abc");
    let id = node_id("s", "a");
    assert!(id.starts_with("n_"));
    assert_eq!(id, node_id("s", "a"));
    assert_ne!(id, node_id("s", "b"));
}

#[test]
fn relative_time_from_rfc3339() {
    let now = 1_767_225_600 + 600;
    assert_eq!(relative_time_since("2026-01-01T00:05:00Z", now, 0), "5m ago");
    assert_eq!(relative_time_since("2026-01-01T00:09:30.500Z", now, 0), "now");
    assert_eq!(relative_time_since("2025-12-01T00:00:00+00:00", now, 0), "30d+ ago");
    assert_eq!(relative_time_since("2025-12-30T00:10:00+01:00", now, 0), "2d ago");
    assert_eq!(relative_time_since("yesterday", now, 0), "");
    let sessions = vec![SessionListItem {
        key: "k".into(),
        title: None,
        preview: None,
        message_count: 1,
        updated_at: "2025-12-31T22:10:00Z".into(),
    }];
    assert_eq!(session_ages(&sessions, now, 0), vec!["2h ago".to_string()]);
}

/// Runs `/anchor_mode` as the handler does for requests that change
/// nothing: the report of the current (balanced) settings or the usage.
fn anchor_mode_reply(args: &str) -> Result<String, String> {
    let current = FoldingSummary {
        preset: Some(AnchorModePreset::Balanced),
        enabled: true,
        threshold_text: "0.60".to_owned(),
        min_entries_between_folds: AnchorModePreset::Balanced.min_entries_between_folds(),
        fold_model: None,
    };
    match parse_anchor_mode_request(args) {
        AnchorModeRequest::Show => Ok(render_anchor_mode_report(&current, None)),
        AnchorModeRequest::Switch(p) => Ok(render_anchor_mode_report(&current, Some(update_notice(p)))),
        AnchorModeRequest::Usage => Err(anchor_usage_text().to_owned()),
    }
}

#[test]
fn show_reports_current_mode() {
    let text = anchor_mode_reply("").unwrap();
    assert!(text.contains("Anchor mode"));
    assert!(text.contains("balanced"));
}

#[test]
fn invalid_mode_returns_usage() {
    let text = anchor_mode_reply("turbo").unwrap_err();
    assert!(text.contains("/anchor_mode"));
    assert!(text.contains("deep-work"));
}
