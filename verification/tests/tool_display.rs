use rara_channels::tool_display::{
    clean_shell_command, first_string_value, tool_activity_label, tool_arguments_summary,
    tool_display_info, tool_display_name, truncate_summary, ToolArg, ToolArgs, ToolKind,
};

fn args(fields: &[(&str, Option<&str>)]) -> ToolArgs {
    ToolArgs {
        fields: fields
            .iter()
            .map(|(k, v)| ToolArg { key: k.to_string(), text: v.map(|s| s.to_string()) })
            .collect(),
    }
}

#[test]
fn tool_kind_from_str() {
    assert_eq!(ToolKind::parse("bash"), Some(ToolKind::Bash));
    assert_eq!(ToolKind::parse("shell_execute"), Some(ToolKind::ShellExecute));
    assert_eq!(ToolKind::parse("http-fetch"), Some(ToolKind::WebFetch));
    assert_eq!(ToolKind::parse("composio_list"), Some(ToolKind::Composio));
    assert_eq!(ToolKind::parse("composio_execute"), Some(ToolKind::Composio));
    assert_eq!(ToolKind::parse("user-note"), Some(ToolKind::UserNote));
    assert_eq!(ToolKind::parse("write-user-note"), Some(ToolKind::UserNote));
    assert_eq!(ToolKind::parse("unknown_tool"), None);
}

#[test]
fn tool_kind_messages() {
    assert_eq!(ToolKind::Bash.get_message(), Some("执行命令"));
    assert_eq!(ToolKind::Bash.get_detailed_message(), Some("bash"));
    assert_eq!(ToolKind::WebSearch.get_message(), Some("搜索网页"));
    assert_eq!(ToolKind::WebSearch.get_detailed_message(), Some("search"));
    assert_eq!(ToolKind::ListMcp.get_message(), Some("检查 MCP"));
    assert_eq!(ToolKind::ListMcp.get_detailed_message(), Some("mcp-list"));
}

#[test]
fn activity_label_via_function() {
    assert_eq!(tool_activity_label("shell_execute"), "执行命令");
    assert_eq!(tool_activity_label("bash"), "执行命令");
    assert_eq!(tool_activity_label("web_search"), "搜索网页");
    assert_eq!(tool_activity_label("list-mcp-servers"), "检查 MCP");
    assert_eq!(tool_activity_label("remove-mcp-server"), "移除 MCP");
    assert_eq!(tool_activity_label("unknown_tool"), "处理中");
}

#[test]
fn display_name_via_function() {
    assert_eq!(tool_display_name("shell_execute"), "shell");
    assert_eq!(tool_display_name("web_search"), "search");
    assert_eq!(tool_display_name("web_fetch"), "fetch");
    assert_eq!(tool_display_name("read-file"), "read");
    assert_eq!(tool_display_name("bash"), "bash");
    assert_eq!(tool_display_name("grep"), "grep");
    assert_eq!(tool_display_name("tape-handoff"), "tape-handoff");
    assert_eq!(tool_display_name("memory_search"), "memory-search");
    assert_eq!(tool_display_name("some-custom-tool"), "some-custom-tool");
}

#[test]
fn summary_shell() {
    let a = args(&[("command", Some("ls -la /tmp"))]);
    assert_eq!(tool_arguments_summary("shell_execute", &a), "ls -la /tmp");
}

#[test]
fn summary_fallback_first_string() {
    let a = args(&[("foo", Some("bar"))]);
    assert_eq!(tool_arguments_summary("unknown_tool", &a), "bar");
}

#[test]
fn summary_empty_on_no_strings() {
    let a = args(&[("count", None)]);
    assert_eq!(tool_arguments_summary("unknown_tool", &a), "");
}

#[test]
fn truncate_long_line() {
    let long = "a".repeat(100);
    let result = truncate_summary(&long, 80);
    assert_eq!(result.chars().count(), 81);
    assert!(result.ends_with('\u{2026}'));
}

#[test]
fn truncate_multiline() {
    let s = "first line\nsecond line";
    assert_eq!(truncate_summary(s, 80), "first line");
}

#[test]
fn clean_shell_strips_redirect() {
    assert_eq!(clean_shell_command("ls -la 2>&1"), "ls -la");
}

#[test]
fn clean_shell_strips_pipes() {
    assert_eq!(clean_shell_command("cat file.txt | grep foo | head -20 2>&1"), "cat file.txt");
}

#[test]
fn clean_shell_preserves_meaningful_pipes() {
    assert_eq!(clean_shell_command("cat file.txt | sort | uniq"), "cat file.txt | sort | uniq");
}

#[test]
fn display_info_agent_browser() {
    let a = args(&[("command", Some("agent-browser click @e1 2>&1"))]);
    let (name, summary) = tool_display_info("shell_execute", &a);
    assert_eq!(name, "browser");
    assert_eq!(summary, "click @e1");
}

#[test]
fn display_info_regular_shell() {
    let a = args(&[("command", Some("ls -la /tmp | head -5 2>&1"))]);
    let (name, summary) = tool_display_info("shell_execute", &a);
    assert_eq!(name, "shell");
    assert_eq!(summary, "ls -la /tmp");
}

#[test]
fn display_info_non_shell() {
    let a = args(&[("query", Some("rust async"))]);
    let (name, summary) = tool_display_info("web_search", &a);
    assert_eq!(name, "search");
    assert_eq!(summary, "rust async");
}

#[test]
fn summary_prefers_known_keys_over_first_string() {
    let a = args(&[("alpha", Some("first")), ("path", Some("/etc/hosts"))]);
    assert_eq!(tool_arguments_summary("custom", &a), "/etc/hosts");
    assert_eq!(first_string_value(&a), Some("first".to_string()));
}

#[test]
fn send_email_falls_back_to_recipient() {
    let a = args(&[("to", Some("ops@example.com"))]);
    assert_eq!(tool_display_info("send-email", &a), ("email".to_string(), "ops@example.com".to_string()));
}

#[test]
fn summary_truncates_to_eighty_chars() {
    let long = "x".repeat(90);
    let a = args(&[("query", Some(long.as_str()))]);
    let out = tool_arguments_summary("web_search", &a);
    assert_eq!(out.chars().count(), 81);
}
