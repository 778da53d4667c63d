use rara_channels::telegram::prompts::{
    approval_chat_id, approval_keyboard, approval_prompt_text, clock_time_text,
    question_keyboard, question_prompt_text, risk_label, route_question, QuestionRoute, RiskLevel,
    APPROVAL_QUESTION, PRIVATE_QUESTION_NOTE,
};
use rara_channels::telegram::routing::{
    answered_by_reply_text, check_reply_answer, combine_transcript, command_failed_text,
    decide_group_message, find_command_handler, is_group_mention, new_topic_notice_text,
    parse_command, policy_needs_member_count, rate_limited_text, route_callback,
    topic_intro_text, CallbackRoute, GroupGate, GroupPolicy, ReplyAnswer, TelegramConfig,
    BUSY_REPLY, NOT_ASKER_REPLY, NOT_TEXT_REPLY, TRANSCRIPTION_FAILED, UNAUTHORIZED_GROUP_REPLY,
};
use rara_channels::telegram::inline_callbacks::PendingQuestion;
use rara_channels::tool_display::{ToolArg, ToolArgs};

const UUID_VALUE: u128 = 0x550e8400_e29b_41d4_a716_446655440000;

#[test]
fn default_config_answers_mentions_and_small_groups() {
    let c = TelegramConfig::default();
    assert_eq!(c.primary_chat_id, None);
    assert_eq!(c.allowed_group_chat_id, None);
    assert_eq!(c.group_policy, GroupPolicy::MentionOrSmallGroup);
}

#[test]
fn callbacks_route_by_prefix_after_authorization() {
    let allowed = vec![10_i64];
    let prefixes = vec!["switch:".to_string(), "sw".to_string()];
    let r = |d: &str, chat: i64, group: bool, g: Option<i64>| {
        route_callback(d, chat, group, &allowed, g, &prefixes)
    };
    assert_eq!(r("guard:approve:x", 99, false, None), CallbackRoute::Guard);
    assert_eq!(r("limit:stop:s:1", 99, false, None), CallbackRoute::Limit);
    assert_eq!(r("au:x:1", 99, false, None), CallbackRoute::AskUser);
    assert_eq!(r("trace:show:1:2:t", 99, false, None), CallbackRoute::UnauthorizedChat);
    assert_eq!(r("trace:show:1:2:t", 10, true, Some(11)), CallbackRoute::UnauthorizedGroup);
    assert_eq!(r("trace:show:1:2:t", 10, false, Some(11)), CallbackRoute::Trace);
    assert_eq!(r("cas:show:1:2:t", 10, true, Some(10)), CallbackRoute::Cascade);
    assert_eq!(r("dash:tasks:1:2", 10, false, None), CallbackRoute::Dashboard);
    assert_eq!(r("switch:abc", 10, false, None), CallbackRoute::Handler(0));
    assert_eq!(r("swap", 10, false, None), CallbackRoute::Handler(1));
    assert_eq!(r("other", 10, false, None), CallbackRoute::Unhandled);
    assert_eq!(
        route_callback("other", 5, false, &Vec::new(), None, &Vec::new()),
        CallbackRoute::Unhandled
    );
}

#[test]
fn group_mentions_by_entity_or_text() {
    let mentions = vec![" @RaraBot ".to_string()];
    assert!(is_group_mention(&mentions, "hi", Some("rarabot")));
    assert!(is_group_mention(&Vec::new(), "hey @RARABOT there", Some("RaraBot")));
    assert!(!is_group_mention(&Vec::new(), "hey rarabot", Some("rarabot")));
    assert!(!is_group_mention(&mentions, "@rarabot", None));
}

#[test]
fn group_gate_follows_policy() {
    assert!(policy_needs_member_count(GroupPolicy::MentionOrSmallGroup));
    assert!(!policy_needs_member_count(GroupPolicy::All));
    let g = |p, m, n, a| decide_group_message(p, m, n, -5, a);
    assert_eq!(g(GroupPolicy::Ignore, true, None, None), GroupGate::Ignore);
    assert_eq!(g(GroupPolicy::MentionOnly, false, None, None), GroupGate::Ignore);
    assert_eq!(g(GroupPolicy::MentionOnly, true, None, None), GroupGate::Accept { proactive: false });
    assert_eq!(
        g(GroupPolicy::MentionOrSmallGroup, false, Some(3), None),
        GroupGate::Accept { proactive: false }
    );
    assert_eq!(
        g(GroupPolicy::MentionOrSmallGroup, false, Some(4), None),
        GroupGate::Accept { proactive: true }
    );
    assert_eq!(
        g(GroupPolicy::MentionOrSmallGroup, false, None, None),
        GroupGate::Accept { proactive: true }
    );
    assert_eq!(
        g(GroupPolicy::ProactiveJudgment, false, None, Some(-5)),
        GroupGate::Accept { proactive: true }
    );
    assert_eq!(g(GroupPolicy::All, false, None, Some(-6)), GroupGate::Unauthorized);
    assert!(UNAUTHORIZED_GROUP_REPLY.starts_with("This group is not authorized."));
}

#[test]
fn slash_commands_are_parsed() {
    let c = parse_command("/sessions@RaraBot  list all").unwrap();
    assert_eq!(c.name, "sessions");
    assert_eq!(c.args, "list all");
    let c = parse_command("//model").unwrap();
    assert_eq!(c.name, "model");
    assert_eq!(c.args, "");
    assert!(parse_command("/@bot x").is_none());
    assert!(parse_command("hello /x").is_none());
    let handlers = vec![
        vec!["new".to_string(), "clear".to_string()],
        vec!["sessions".to_string()],
    ];
    assert_eq!(find_command_handler(&handlers, "sessions"), Some(1));
    assert_eq!(find_command_handler(&handlers, "clear"), Some(0));
    assert_eq!(find_command_handler(&handlers, "nope"), None);
    assert_eq!(command_failed_text("boom"), "Command failed: boom");
}

#[test]
fn replies_to_questions() {
    let q = PendingQuestion {
        expected_user_id: Some("7".into()),
        options: None,
        question_text: "Key?".into(),
    };
    assert!(matches!(check_reply_answer(None, Some("7"), Some("x")), ReplyAnswer::Gone));
    assert!(matches!(check_reply_answer(Some(&q), Some("8"), Some("x")), ReplyAnswer::NotAsker));
    assert!(matches!(check_reply_answer(Some(&q), None, Some("x")), ReplyAnswer::NotAsker));
    assert!(matches!(check_reply_answer(Some(&q), Some("7"), None), ReplyAnswer::NotText));
    match check_reply_answer(Some(&q), Some("7"), Some("abc")) {
        ReplyAnswer::Answer(a) => assert_eq!(a, "abc"),
        _ => panic!("expected the answer"),
    }
    assert_eq!(answered_by_reply_text("a<b"), "<b>✅ Answered</b>\n\n<s>a&lt;b</s>");
    assert_eq!(NOT_ASKER_REPLY, "⚠️ Only the original asker can answer this question.");
    assert_eq!(NOT_TEXT_REPLY, "⚠️ Please reply with a text message.");
}

#[test]
fn voice_and_topic_texts() {
    assert_eq!(combine_transcript(Some("note"), "hello"), "note\n\nhello");
    assert_eq!(combine_transcript(Some("  "), "hello"), "hello");
    assert_eq!(combine_transcript(None, "hello"), "hello");
    assert_eq!(TRANSCRIPTION_FAILED, "[voice message — transcription failed]");
    assert_eq!(
        new_topic_notice_text(-1001234567890, 42, "a<b"),
        "💬 New topic: <a href=\"https://t.me/c/1234567890/42\">a&lt;b</a>"
    );
    assert_eq!(topic_intro_text("Plans"), "💬 Plans");
    assert_eq!(rate_limited_text("slow down"), "⚠️ slow down");
    assert_eq!(BUSY_REPLY, "⚠️ System is busy, please try again later.");
}

#[test]
fn approval_prompt_renders_request() {
    let args = ToolArgs {
        fields: vec![ToolArg { key: "command".into(), text: Some("rm -rf /tmp/x".into()) }],
    };
    let (info, display) = approval_prompt_text(
        "shell_execute",
        &args,
        Some("cleanup"),
        "deletes files",
        RiskLevel::High,
        120,
        3_723,
        3_843,
    );
    assert_eq!(
        info,
        "<b>🛡 Guard Blocked Tool Call</b>\n\n<b>Tool:</b> <code>shell_execute</code>\n<b>Action:</b> <code>rm -rf /tmp/x</code>\n<b>Context:</b> cleanup\n<b>Reason:</b> deletes files\n<b>Risk:</b> High\n\n⏱ <b>Requested:</b> 01:02:03\n⏳ <b>Expires:</b> 120s (at 01:04:03)"
    );
    assert_eq!(display, format!("{info}{APPROVAL_QUESTION}"));
    assert_eq!(risk_label(RiskLevel::Critical), "Critical");
    assert_eq!(clock_time_text(-1), "23:59:59");
    let row = approval_keyboard(UUID_VALUE);
    assert_eq!(
        row[0].callback_data.as_deref(),
        Some("guard:approve:550e8400-e29b-41d4-a716-446655440000")
    );
    assert_eq!(row[1].text, "❌ Deny");
}

#[test]
fn approval_goes_to_bound_chat_else_primary() {
    assert_eq!(approval_chat_id(Some("-100"), Some(5)), Some(-100));
    assert_eq!(approval_chat_id(Some("web"), Some(5)), Some(5));
    assert_eq!(approval_chat_id(None, None), None);
}

#[test]
fn questions_are_routed_and_rendered() {
    assert_eq!(
        route_question(true, Some((-100, Some(3))), Some(7)),
        QuestionRoute::Send { chat_id: 7, thread_id: None, breadcrumb: Some((-100, Some(3))) }
    );
    assert_eq!(
        route_question(true, Some((7, None)), Some(7)),
        QuestionRoute::Send { chat_id: 7, thread_id: None, breadcrumb: None }
    );
    assert_eq!(route_question(true, None, None), QuestionRoute::DroppedSensitive);
    assert_eq!(
        route_question(false, Some((-100, Some(3))), Some(7)),
        QuestionRoute::Send { chat_id: -100, thread_id: Some(3), breadcrumb: None }
    );
    assert_eq!(route_question(false, None, None), QuestionRoute::DroppedNoChat);
    assert!(PRIVATE_QUESTION_NOTE.starts_with("🔒"));
    assert_eq!(
        question_prompt_text("Pick <one>", true),
        "<b>❓ Agent Question</b>\n\nPick &lt;one&gt;"
    );
    assert_eq!(
        question_prompt_text("Why?", false),
        "<b>❓ Agent Question</b>\n\nWhy?\n\n<i>Reply to this message to answer.</i>"
    );
    let kb = question_keyboard(UUID_VALUE, &vec!["yes".to_string(), "no".to_string()]);
    assert_eq!(kb.len(), 2);
    assert_eq!(kb[1][0].text, "no");
    assert_eq!(
        kb[1][0].callback_data.as_deref(),
        Some("au:550e8400-e29b-41d4-a716-446655440000:1")
    );
}
