use rara_channels::telegram::adapter::{
    contains_rara_keyword, derive_initial_topic_name, format_duration_compact, format_session_key,
    forum_topic_link, mime_to_filename, parse_chat_id, parse_message_id, slice_after_char_prefix,
    slice_after_prefix_if_matches, strip_group_mention, strip_tool_call_xml, topic_rename, forum_topic_ids,
    attachment_kind, AttachmentKind,
};

#[test]
fn matched_tags_are_stripped() {
    let input = "Hello <toolcall>grep something</toolcall> world";
    assert_eq!(strip_tool_call_xml(input), "Hello  world");
}

#[test]
fn mismatched_tag_names_are_stripped() {
    let input = "Hello <toolcall>\n<function=grep>\n</function>\n</tool_call> world";
    let result = strip_tool_call_xml(input);
    assert!(!result.contains("toolcall"));
    assert!(!result.contains("tool_call"));
    assert!(!result.contains("function"));
    assert!(result.contains("Hello"));
    assert!(result.contains("world"));
}

#[test]
fn orphaned_opening_tag_is_stripped() {
    let input = "Hello world\n<toolcall>\n<function=grep>";
    let result = strip_tool_call_xml(input);
    assert!(!result.contains("<toolcall>"));
    assert!(!result.contains("<function=grep>"));
}

#[test]
fn orphaned_closing_tag_is_stripped() {
    let input = "</tool_call>\nHello world";
    let result = strip_tool_call_xml(input);
    assert!(!result.contains("</tool_call>"));
    assert_eq!(result.trim(), "Hello world");
}

#[test]
fn self_closing_tag_is_stripped() {
    let input = "Hello <tool_call /> world";
    assert_eq!(strip_tool_call_xml(input), "Hello  world");
}

#[test]
fn clean_text_is_unchanged() {
    let input = "Hello world, nothing to strip here.";
    assert_eq!(strip_tool_call_xml(input), input);
}

#[test]
fn mixed_content_and_orphans() {
    let input = "Before <toolcall>inner</toolcall> middle </tool_call> after";
    let result = strip_tool_call_xml(input);
    assert!(!result.contains("toolcall"));
    assert!(!result.contains("tool_call"));
    assert!(result.contains("Before"));
    assert!(result.contains("after"));
}

#[test]
fn slice_after_prefix_if_matches_returns_suffix() {
    let content = "hello world and beyond";
    let prefix = "hello world";
    assert_eq!(slice_after_prefix_if_matches(content, prefix), " and beyond");
}

#[test]
fn slice_after_prefix_if_matches_keeps_content_when_not_matched() {
    let content = "hello world and beyond";
    let prefix = "goodbye world";
    assert_eq!(slice_after_prefix_if_matches(content, prefix), content);
}

#[test]
fn slice_after_char_prefix_handles_multibyte_chars() {
    let content = "你好世界abc";
    assert_eq!(slice_after_char_prefix(content, 4), "abc");
}

#[test]
fn slice_after_char_prefix_keeps_content_when_too_short() {
    assert_eq!(slice_after_char_prefix("abc", 5), "abc");
    assert_eq!(slice_after_char_prefix("abc", 3), "");
    assert_eq!(slice_after_char_prefix("abc", 0), "abc");
}

#[test]
fn forum_topic_link_strips_100_prefix_from_supergroup_chat_id() {
    let link = forum_topic_link(-1001234567890, 5);
    assert_eq!(link, "https://t.me/c/1234567890/5");
}

#[test]
fn derive_initial_topic_name_falls_back_when_text_missing() {
    assert_eq!(derive_initial_topic_name(None, None), "New chat");
}

#[test]
fn derive_initial_topic_name_falls_back_on_empty_text() {
    assert_eq!(derive_initial_topic_name(Some(""), None), "New chat");
}

#[test]
fn derive_initial_topic_name_keeps_plain_text_verbatim() {
    assert_eq!(derive_initial_topic_name(Some("hello"), None), "hello");
}

#[test]
fn derive_initial_topic_name_strips_bot_mention() {
    assert_eq!(
        derive_initial_topic_name(Some("@rarabot hello world"), Some("rarabot")),
        "hello world"
    );
}

#[test]
fn derive_initial_topic_name_strips_leading_slash_command() {
    assert_eq!(derive_initial_topic_name(Some("/new my task"), None), "my task");
}

#[test]
fn derive_initial_topic_name_falls_back_when_only_command() {
    assert_eq!(derive_initial_topic_name(Some("/new"), None), "New chat");
}

#[test]
fn derive_initial_topic_name_truncates_to_thirty_chars() {
    let long = "a".repeat(40);
    assert_eq!(derive_initial_topic_name(Some(&long), None), "a".repeat(30));
}

#[test]
fn session_key_round_trip() {
    assert_eq!(format_session_key(-100123), "tg:-100123");
    assert_eq!(parse_chat_id("tg:-100123"), Ok(-100123));
    assert_eq!(parse_chat_id("42"), Ok(42));
    let err = parse_chat_id("tg:abc").unwrap_err();
    assert_eq!(err.message, "invalid telegram session key: tg:abc");
}

#[test]
fn chat_id_overflow_is_rejected() {
    assert!(parse_chat_id("tg:9223372036854775808").is_err());
    assert_eq!(parse_chat_id("-9223372036854775808"), Ok(i64::MIN));
}

#[test]
fn message_id_parse() {
    assert_eq!(parse_message_id("+17"), Ok(17));
    assert!(parse_message_id("2147483648").is_err());
    assert_eq!(
        parse_message_id("").unwrap_err().message,
        "invalid telegram message id: "
    );
}

#[test]
fn mime_names() {
    assert_eq!(mime_to_filename("image/jpg"), "photo.jpg");
    assert_eq!(mime_to_filename("image/webp"), "photo.webp");
    assert_eq!(mime_to_filename("application/pdf"), "photo.bin");
}

#[test]
fn durations() {
    assert_eq!(format_duration_compact(850), "850ms");
    assert_eq!(format_duration_compact(12_345), "12.3s");
    assert_eq!(format_duration_compact(125_000), "2m5s");
}

#[test]
fn group_mentions() {
    assert_eq!(strip_group_mention("  hi @bot there ", Some("bot")), "hi  there");
    assert_eq!(strip_group_mention("  hi ", None), "hi");
    assert!(contains_rara_keyword("Hey RaRa!"));
    assert!(contains_rara_keyword("こんにちはらら"));
    assert!(!contains_rara_keyword("hello"));
}

#[test]
fn topic_rename_targets() {
    assert_eq!(topic_rename("-100123", Some("45"), "Plans"), Some((-100123, 45, "Plans".to_string())));
    assert_eq!(topic_rename("-100123", None, "Plans"), None);
    assert_eq!(topic_rename("abc", Some("45"), "Plans"), None);
    assert_eq!(topic_rename("-100123", Some("99999999999"), "Plans"), None);
    let long: String = "é".repeat(130);
    let (_, _, name) = topic_rename("1", Some("2"), &long).unwrap();
    assert_eq!(name.chars().count(), 128);
}

#[test]
fn attachments_by_mime_type() {
    assert_eq!(attachment_kind("image/png"), AttachmentKind::Photo);
    assert_eq!(attachment_kind("application/pdf"), AttachmentKind::Document);
    assert_eq!(attachment_kind("IMAGE/png"), AttachmentKind::Document);
}

#[test]
fn forum_topic_ids_parse_both_ids() {
    assert_eq!(forum_topic_ids("-1001", "17"), Some((-1001, 17)));
    assert_eq!(forum_topic_ids("-1001", "x"), None);
    assert_eq!(forum_topic_ids("", "17"), None);
}
