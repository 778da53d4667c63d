use rara_channels::telegram::commands::anchor_dot::{AnchorNode, ForkEdge, SessionBranch};
use rara_channels::telegram::commands::basic::{
    basic_reply, basic_commands, menu_entries, session_commands, tape_commands, CommandDefinition,
    WELCOME,
};
use rara_channels::telegram::commands::client::{
    ChatModelItem, CheckoutResult, McpServerInfo, McpServerStatus, SessionDetail, SessionListItem,
};
use rara_channels::telegram::commands::debug::{
    render_debug_html, requested_message_id, DebugSummary, DebugTool, TimelineItem, DEBUG_USAGE,
};
use rara_channels::telegram::commands::mcp::{
    install_command, install_failed_reply, install_outcome, install_step, mcp_status_reply,
    poll_stops, InstallStep,
};
use rara_channels::telegram::commands::session_flow::{
    clear_reply, detail_timestamps_ok, model_list_reply, model_update_reply, new_session_reply,
    no_session_reply, rename_reply, rename_title, requested_model, resolve_failed_reply,
    sessions_reply, stop_reply, usage_reply, RENAME_USAGE,
};
use rara_channels::telegram::commands::tape::{
    anchors_caption_text, checkout_anchor, checkout_reply, count_sessions, image_failed_reply,
    tree_failed_reply, NO_SESSION,
};
use rara_channels::telegram::commands::CommandReply;

fn text(r: CommandReply) -> String {
    match r {
        CommandReply::Text(t) => t,
        _ => panic!("expected text"),
    }
}

fn html(r: CommandReply) -> String {
    match r {
        CommandReply::Html(t) => t,
        _ => panic!("expected html"),
    }
}

fn detail() -> SessionDetail {
    SessionDetail {
        key: "k1".into(),
        title: Some("Plan".into()),
        model: Some("sonnet-4".into()),
        message_count: 3,
        preview: None,
        created_at: "2026-01-01T10:00:00Z".into(),
        updated_at: "2026-01-02T11:30:00Z".into(),
    }
}

#[test]
fn session_command_replies() {
    assert_eq!(text(resolve_failed_reply("down")), "Failed to resolve session: down");
    assert_eq!(text(no_session_reply()), "No active session. Send a message to create one.");
    assert_eq!(text(new_session_reply(&Ok("k".into()))), "New chat session started.");
    assert_eq!(text(new_session_reply(&Err("x".into()))), "Failed to create session: x");
    assert_eq!(text(clear_reply(&Err("e".into()), &Ok(()), false)), "Error: e");
    assert_eq!(
        text(clear_reply(&Ok(None), &Ok(()), false)),
        "No active session. Send a message to start one."
    );
    assert_eq!(text(clear_reply(&Ok(Some("k".into())), &Err("no".into()), false)), "Failed to clear: no");
    assert_eq!(text(clear_reply(&Ok(Some("k".into())), &Ok(()), false)), "Session history cleared.");
    assert!(matches!(clear_reply(&Ok(Some("k".into())), &Ok(()), true), CommandReply::Nothing));
}

#[test]
fn sessions_listing_replies() {
    assert_eq!(text(sessions_reply(&None, &Err("x".into()), 0, 0)), "Failed to list sessions: x");
    assert_eq!(
        text(sessions_reply(&None, &Ok(vec![]), 0, 0)),
        "No sessions found. Send a message to create one."
    );
    let items = vec![SessionListItem {
        key: "k1".into(),
        title: Some("Plan".into()),
        preview: None,
        message_count: 2,
        updated_at: "2026-01-01T00:00:00Z".into(),
    }];
    match sessions_reply(&Some("k1".into()), &Ok(items), 1_767_225_600 + 7_200, 0) {
        CommandReply::HtmlWithKeyboard { html, keyboard } => {
            assert_eq!(html, "📋 Sessions (1 total)");
            assert_eq!(keyboard[0][0].text, "✅ Plan · 2h ago");
            assert_eq!(keyboard[0][0].callback_data.as_deref(), Some("detail:k1"));
        }
        _ => panic!("expected a keyboard"),
    }
}

#[test]
fn usage_and_model_replies() {
    let d = detail();
    assert!(detail_timestamps_ok(&d));
    let u = html(usage_reply(&Ok(d.clone())));
    assert!(u.starts_with("<b>Session:</b> Plan\n<b>Key:</b> <code>k1</code>\n"), "got {u}");
    assert!(u.contains("<b>Created:</b> 2026-01-01 10:00"), "got {u}");
    assert_eq!(text(usage_reply(&Err("gone".into()))), "Failed to get session details: gone");
    assert_eq!(requested_model("  sonnet-4 "), Some("sonnet-4".to_string()));
    assert_eq!(requested_model("   "), None);
    let models = vec![
        ChatModelItem { id: "a".into(), name: "Alpha".into(), context_length: Some(200_000) },
        ChatModelItem { id: "b".into(), name: "Beta".into(), context_length: None },
    ];
    match model_list_reply(&Ok(models), &Some("a".into())) {
        CommandReply::HtmlWithKeyboard { html, keyboard } => {
            assert_eq!(html, "🤖 Models (2 total)");
            assert_eq!(keyboard.len(), 2);
            assert!(keyboard[0][0].text.starts_with("✅ Alpha"));
        }
        _ => panic!("expected a keyboard"),
    }
    assert_eq!(
        html(model_list_reply(&Ok(vec![]), &None)),
        "Model: <b>(default)</b>\n\nSwitch: <code>/model model-name</code>"
    );
    assert_eq!(
        html(model_list_reply(&Err("x".into()), &Some("m<1>".into()))),
        "Model: <b>m&lt;1&gt;</b>\n\nSwitch: <code>/model model-name</code>"
    );
    assert_eq!(
        html(model_update_reply(&Ok(detail()))),
        "Model updated.\nSession <code>k1</code>\nModel: <b>sonnet-4</b>"
    );
    assert_eq!(text(model_update_reply(&Err("no".into()))), "Failed to update model: no");
}

#[test]
fn stop_and_rename_replies() {
    assert_eq!(text(stop_reply(&Ok(Some("k".into())), true)), "已中断当前操作。");
    assert_eq!(text(stop_reply(&Ok(Some("k".into())), false)), "当前没有活跃的会话。");
    assert_eq!(text(stop_reply(&Ok(None), true)), "当前没有活跃的会话。");
    assert_eq!(text(stop_reply(&Err("x".into()), true)), "当前没有活跃的会话。");
    assert_eq!(rename_title("  Project planning "), Some("Project planning".to_string()));
    assert_eq!(rename_title(" "), None);
    assert_eq!(rename_title(&"é".repeat(200)).unwrap().chars().count(), 128);
    assert_eq!(RENAME_USAGE, "Usage: /rename <name>\nExample: /rename Project planning");
    assert_eq!(html(rename_reply("A&B", &Ok(()))), "✅ Session renamed to \"A&amp;B\"");
    assert_eq!(text(rename_reply("A", &Err("no".into()))), "Failed to rename: no");
}

#[test]
fn help_lists_every_command() {
    assert_eq!(text(basic_reply("start", &Vec::new())), WELCOME);
    let mut all = basic_commands();
    all.push(CommandDefinition { name: "x".into(), description: "a<b".into(), usage: None });
    assert_eq!(
        html(basic_reply("help", &all)),
        "<b>Available commands:</b>\n\n<code>/start</code>\n  Start the bot\n\n<code>/help</code>\n  Show available commands\n\n<code>/x</code>\n  a&lt;b\n\n"
    );
    assert!(matches!(basic_reply("other", &all), CommandReply::Nothing));
    let s = session_commands();
    assert_eq!(s.len(), 5);
    assert_eq!(s[4].name, "model");
    assert_eq!(s[4].usage.as_deref(), Some("/model [name]"));
    assert_eq!(tape_commands()[1].name, "checkout");
}

#[test]
fn debug_view_renders_summary_tools_and_timeline() {
    assert_eq!(requested_message_id("  m-1 "), Some("m-1".to_string()));
    assert_eq!(requested_message_id(""), None);
    assert!(DEBUG_USAGE.starts_with("Usage: /debug <message_id>"));
    let empty = DebugSummary {
        message_id: "m<1>".into(),
        entry_count: 0,
        model: None,
        iterations: 0,
        stream_secs: None,
        input_tokens: 0,
        output_tokens: 0,
        input_label: String::new(),
        output_label: String::new(),
        tools: vec![],
        tool_failures: 0,
        timeline: vec![],
    };
    assert_eq!(
        render_debug_html(&empty),
        "<b>🔍 Debug: <code>m&lt;1&gt;</code></b>\n\n<i>No tape entries found for this message ID. It may have expired or never existed.</i>"
    );
    let full = DebugSummary {
        message_id: "m1".into(),
        entry_count: 4,
        model: Some("sonnet-4".into()),
        iterations: 2,
        stream_secs: Some("1.5".into()),
        input_tokens: 15_200,
        output_tokens: 300,
        input_label: "15.2k".into(),
        output_label: "300".into(),
        tools: vec![
            DebugTool { name: "grep".into(), duration_ms: Some(12), success: true, error: None },
            DebugTool { name: "bash".into(), duration_ms: None, success: false, error: Some("x".repeat(200)) },
        ],
        tool_failures: 1,
        timeline: vec![TimelineItem {
            timestamp: "10:00:00".into(),
            kind: "message".into(),
            detail: "hi <there>".into(),
        }],
    };
    let out = render_debug_html(&full);
    let expected = format!(
        "<b>🔍 Debug: <code>m1</code></b>\n\n<b>📊 Summary</b>\n• Entries: 4\n• Model: <code>sonnet-4</code>\n• Iterations: 2\n• Stream: 1.5s\n• Tokens: ↑15.2k ↓300\n• Tool calls: 2 (1 failed)\n\n<b>🔧 Tools</b>\n  ✓ <code>grep</code> (12ms)\n  ✗ <code>bash</code> (—)\n    ⚠️ {}\n\n<b>📝 Timeline</b>\n<code>10:00:00</code> [message] hi &lt;there&gt;\n",
        "x".repeat(150)
    );
    assert_eq!(out, expected);
}

fn server(name: &str, status: McpServerStatus) -> McpServerInfo {
    McpServerInfo { name: name.into(), status }
}

#[test]
fn mcp_status_and_install_flow() {
    assert_eq!(text(mcp_status_reply(&Err("down".into()))), "Failed to fetch MCP status: down");
    assert_eq!(text(mcp_status_reply(&Ok(vec![]))), "No MCP servers configured.");
    let servers = vec![
        server("context-mode", McpServerStatus::Connected),
        server("fs", McpServerStatus::Error { message: "a<b".into() }),
        server("git", McpServerStatus::Connecting),
    ];
    assert_eq!(
        html(mcp_status_reply(&Ok(servers.clone()))),
        "<b>MCP Servers</b> (3)\n\n● <b>context-mode</b> — connected (interceptor: ✓)\n✘ <b>fs</b> — error: a&lt;b\n◐ <b>git</b> — connecting\n\n1/3 connected"
    );
    match install_step(Some(&servers), "fs") {
        InstallStep::Restart(r) => assert_eq!(html(r), "<b>fs</b> already configured (was error), restarting..."),
        _ => panic!("expected a restart"),
    }
    match install_step(Some(&servers), "git") {
        InstallStep::AlreadyConfigured(r) => assert_eq!(html(r), "<b>git</b> already configured (connecting)."),
        _ => panic!("expected already configured"),
    }
    assert!(matches!(install_step(Some(&servers), "new"), InstallStep::Install));
    assert!(matches!(install_step(None, "fs"), InstallStep::Install));
    let (cmd, args) = install_command("@scope/pkg");
    assert_eq!(cmd, "npx");
    assert_eq!(args, vec!["-y".to_string(), "@scope/pkg".to_string()]);
    assert_eq!(text(install_failed_reply("p<1>", "boom")), "Failed to install p&lt;1&gt;: boom");
    assert!(poll_stops(&None));
    assert!(poll_stops(&Some(McpServerStatus::Connected)));
    assert!(!poll_stops(&Some(McpServerStatus::Connecting)));
    let (r, remove) = install_outcome("p", &Some(McpServerStatus::Connected));
    assert!(!remove);
    assert_eq!(html(r), "<b>p</b> installed and connected.");
    let (r, remove) = install_outcome("p", &Some(McpServerStatus::Error { message: "bad".into() }));
    assert!(remove);
    assert_eq!(html(r), "Failed to start <b>p</b>: bad\nConfig removed.");
    let (r, remove) = install_outcome("p", &None);
    assert!(!remove);
    assert_eq!(html(r), "<b>p</b> added, still connecting. Use /mcp to check status later.");
}

fn leaf(key: &str) -> SessionBranch {
    SessionBranch { session_key: key.into(), title: None, anchors: vec![], forks: vec![] }
}

#[test]
fn tape_replies() {
    let mut root = leaf("root");
    let mut child = leaf("c1");
    child.forks.push(ForkEdge { at_anchor: "a".into(), branch: leaf("c2") });
    root.forks.push(ForkEdge { at_anchor: "a".into(), branch: child });
    root.forks.push(ForkEdge { at_anchor: "b".into(), branch: leaf("c3") });
    root.anchors.push(AnchorNode { name: "a".into(), summary: None, entry_id: 1 });
    assert_eq!(count_sessions(&root), 4);
    assert_eq!(anchors_caption_text(&root), "Anchor tree (4 sessions)");
    assert_eq!(NO_SESSION, "No active session.");
    assert_eq!(text(tree_failed_reply("x")), "Failed to build anchor tree: x");
    assert_eq!(text(image_failed_reply("y")), "Failed to render anchor tree image: y");
    assert_eq!(checkout_anchor("  topic/a "), Some("topic/a".to_string()));
    assert_eq!(checkout_anchor(""), None);
    assert_eq!(text(checkout_reply(&Err("e".into()))), "Failed to checkout: e");
    assert_eq!(text(checkout_reply(&Ok(CheckoutResult::NoParent))), "Current session has no parent session.");
    assert_eq!(
        text(checkout_reply(&Ok(CheckoutResult::SwitchedToParent { session_key: "p".into() }))),
        "Switched to parent session: p"
    );
    assert_eq!(
        text(checkout_reply(&Ok(CheckoutResult::ForkedFromAnchor {
            anchor_name: "a".into(),
            session_key: "f".into()
        }))),
        "Forked from anchor 'a' into session: f"
    );
}

#[test]
fn slash_menu_lists_every_handler_in_order() {
    let menu = menu_entries(&vec![basic_commands(), vec![], tape_commands()]);
    let names: Vec<&str> = menu.iter().map(|(n, _)| n.as_str()).collect();
    assert_eq!(names, vec!["start", "help", "anchors", "checkout"]);
    assert_eq!(menu[0].1, "Start the bot");
    assert!(menu_entries(&vec![]).is_empty());
}
