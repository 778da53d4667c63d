use rara_channels::telegram::dashboard::DashTab;
use rara_channels::telegram::inline_callbacks::{
    answered_text, cascade_action_of, cascade_fallback_text, cascade_hidden_keyboard,
    cascade_shown_keyboard, check_answer, guard_answer_text, guard_compact_text,
    limit_answer_text, limit_decided_text, parse_ask_user_callback, parse_dashboard_callback,
    parse_guard_callback, parse_limit_callback, parse_toggle, target_ids, trace_toggle_keyboard,
    AnswerCheck, AskUserCallback, CascadeAction, Decision, GuardCallback, GuardResolution,
    LimitCallback, PendingQuestion, TRACE_EXPIRED,
};
use rara_channels::telegram::progress_message::summary_keyboard;

const UUID: &str = "550e8400-e29b-41d4-a716-446655440000";
const UUID_VALUE: u128 = 0x550e8400_e29b_41d4_a716_446655440000;

#[test]
fn guard_callback_parsing() {
    let allowed = vec![7_i64];
    assert_eq!(
        parse_guard_callback(&format!("guard:approve:{UUID}"), 8, &allowed),
        GuardCallback::Unauthorized
    );
    assert_eq!(
        parse_guard_callback(&format!("guard:approve:{UUID}"), 7, &allowed),
        GuardCallback::Decide { request_id: UUID_VALUE, decision: Decision::Yes }
    );
    assert_eq!(
        parse_guard_callback(&format!("guard:deny:{UUID}"), 99, &Vec::new()),
        GuardCallback::Decide { request_id: UUID_VALUE, decision: Decision::No }
    );
    assert_eq!(parse_guard_callback("guard:approve", 7, &allowed), GuardCallback::Malformed);
    assert_eq!(parse_guard_callback("guard:approve:nope", 7, &allowed), GuardCallback::InvalidId);
    assert_eq!(
        parse_guard_callback(&format!("guard:maybe:{UUID}"), 7, &allowed),
        GuardCallback::UnknownAction
    );
}

#[test]
fn guard_outcome_texts() {
    assert_eq!(guard_answer_text(Decision::Yes), "✅ Approved");
    assert_eq!(guard_answer_text(Decision::No), "❌ Denied");
    assert_eq!(
        guard_compact_text(Decision::Yes, &GuardResolution::Resolved, "alice"),
        "🛡 <b>Guard</b> ✅ by @alice"
    );
    assert_eq!(
        guard_compact_text(Decision::No, &GuardResolution::Resolved, "bob"),
        "🛡 <b>Guard</b> ❌ by @bob"
    );
    assert_eq!(
        guard_compact_text(Decision::Yes, &GuardResolution::Expired, "x"),
        "🛡 <b>Guard</b> ⏰ timed out"
    );
    assert_eq!(
        guard_compact_text(Decision::Yes, &GuardResolution::NotFound, "x"),
        "🛡 <b>Guard</b> ⏰ already resolved"
    );
    assert_eq!(
        guard_compact_text(Decision::No, &GuardResolution::Failed("a<b".into()), "x"),
        "🛡 <b>Guard</b> ⚠️ a&lt;b"
    );
}

#[test]
fn ask_user_callback_parsing() {
    assert_eq!(parse_ask_user_callback("guard:x"), AskUserCallback::NotOurs);
    assert_eq!(parse_ask_user_callback("au:abc"), AskUserCallback::Malformed);
    assert_eq!(parse_ask_user_callback("au:abc:1"), AskUserCallback::InvalidQuestionId);
    assert_eq!(
        parse_ask_user_callback(&format!("au:{UUID}:x")),
        AskUserCallback::InvalidIndex
    );
    assert_eq!(
        parse_ask_user_callback(&format!("au:{UUID}:-1")),
        AskUserCallback::InvalidIndex
    );
    assert_eq!(
        parse_ask_user_callback(&format!("au:{UUID}:2")),
        AskUserCallback::Answer { question_id: UUID_VALUE, index: 2 }
    );
    assert_eq!(
        parse_ask_user_callback(&format!("au:{UUID}:+3")),
        AskUserCallback::Answer { question_id: UUID_VALUE, index: 3 }
    );
}

#[test]
fn answers_are_checked_against_the_question() {
    let q = PendingQuestion {
        expected_user_id: Some("42".into()),
        options: Some(vec!["red".into(), "blue".into()]),
        question_text: "Color?".into(),
    };
    assert!(matches!(check_answer(None, "42", 0), AnswerCheck::NotPending));
    assert!(matches!(check_answer(Some(&q), "43", 0), AnswerCheck::NotAsker));
    assert!(matches!(check_answer(Some(&q), "42", 2), AnswerCheck::OutOfRange));
    match check_answer(Some(&q), "42", 1) {
        AnswerCheck::Answer(a) => assert_eq!(a, "blue"),
        _ => panic!("expected an answer"),
    }
    let open = PendingQuestion { expected_user_id: None, options: None, question_text: "?".into() };
    assert!(matches!(check_answer(Some(&open), "1", 0), AnswerCheck::NoOptions));
    assert_eq!(
        answered_text("a < b?", "yes & no"),
        "<b>✅ Answered</b>\n\n<s>a &lt; b?</s>\n\n<i>→ yes &amp; no</i>"
    );
}

#[test]
fn limit_callback_parsing() {
    let allowed = vec![-100_i64];
    assert!(matches!(
        parse_limit_callback("limit:continue:k:1", 5, &allowed),
        LimitCallback::Unauthorized
    ));
    match parse_limit_callback("limit:continue:sess:9", -100, &allowed) {
        LimitCallback::Decide { session_key, limit_id, decision } => {
            assert_eq!(session_key, "sess");
            assert_eq!(limit_id, 9);
            assert_eq!(decision, Decision::Yes);
        }
        _ => panic!("expected a decision"),
    }
    assert!(matches!(
        parse_limit_callback("limit:continue:a:b:9", -100, &allowed),
        LimitCallback::InvalidLimitId
    ));
    match parse_limit_callback("limit:stop:sess-1:18446744073709551615", -100, &allowed) {
        LimitCallback::Decide { session_key, limit_id, decision } => {
            assert_eq!(session_key, "sess-1");
            assert_eq!(limit_id, u64::MAX);
            assert_eq!(decision, Decision::No);
        }
        _ => panic!("expected a decision"),
    }
    assert!(matches!(
        parse_limit_callback("limit:stop:s:-1", -100, &allowed),
        LimitCallback::InvalidLimitId
    ));
    assert!(matches!(
        parse_limit_callback("limit:pause:s:1", -100, &allowed),
        LimitCallback::UnknownAction
    ));
    assert!(matches!(parse_limit_callback("limit:stop", -100, &allowed), LimitCallback::Malformed));
}

#[test]
fn limit_decision_texts() {
    assert_eq!(limit_answer_text(Decision::Yes), "▶️ Continuing");
    assert_eq!(limit_answer_text(Decision::No), "⏹ Stopped");
    assert_eq!(
        limit_decided_text("Paused <now>", Decision::Yes, true, "al"),
        "Paused &lt;now&gt;\n\n▶️ <b>Continued</b> by @al"
    );
    assert_eq!(
        limit_decided_text("P", Decision::No, false, "al"),
        "P\n\n⚠️ Decision expired (agent already finished or timed out)"
    );
}

#[test]
fn trace_toggle_round_trip() {
    let row = summary_keyboard(-1001, 55, "01HX:weird", false);
    let data = row[0].callback_data.clone().unwrap();
    let t = parse_toggle(&data).expect("summary data parses");
    assert_eq!(t.action, "show");
    assert_eq!(t.trace_id, "01HX:weird");
    assert_eq!(target_ids(&t), Some((-1001, 55)));
    let (show, kb) = trace_toggle_keyboard(&t);
    assert!(show);
    assert_eq!(kb[0].text, "📊 收起");
    assert_eq!(kb[0].callback_data.as_deref(), Some("trace:hide:-1001:55:01HX:weird"));
    assert_eq!(kb[1].callback_data.as_deref(), Some("cas:show:-1001:55:01HX:weird"));
    let hidden = parse_toggle("trace:hide:-1001:55:t").unwrap();
    let (show, kb) = trace_toggle_keyboard(&hidden);
    assert!(!show);
    assert_eq!(kb[0].text, "📊 详情");
    assert!(parse_toggle("trace:show:1:2").is_none());
    assert_eq!(TRACE_EXPIRED, "Trace expired after update, please trigger a new one");
}

#[test]
fn cascade_toggles() {
    let t = parse_toggle("cas:show:5:6:tr").unwrap();
    assert_eq!(cascade_action_of(&t), CascadeAction::Show);
    let kb = cascade_shown_keyboard(&t);
    assert_eq!(kb.len(), 1);
    assert_eq!(kb[0].callback_data.as_deref(), Some("cas:hide:5:6:tr"));
    let h = parse_toggle("cas:hide:5:6:tr").unwrap();
    assert_eq!(cascade_action_of(&h), CascadeAction::Hide);
    let kb = cascade_hidden_keyboard(&h);
    assert_eq!(kb[0].callback_data.as_deref(), Some("trace:show:5:6:tr"));
    assert_eq!(kb[1].callback_data.as_deref(), Some("cas:show:5:6:tr"));
    assert_eq!(cascade_action_of(&parse_toggle("cas:zap:5:6:tr").unwrap()), CascadeAction::Unknown);
    assert_eq!(target_ids(&parse_toggle("cas:show:x:6:tr").unwrap()), None);
    assert_eq!(
        cascade_fallback_text(5000, 3, 12),
        "⚠️ Cascade rendering failed (HTML too complex, 5000 bytes).\nTicks: 3, entries: 12"
    );
}

#[test]
fn dashboard_callbacks() {
    let d = parse_dashboard_callback("dash:sess:-5:7:tr-1").unwrap();
    assert_eq!(d.tab, DashTab::Sessions);
    assert_eq!((d.chat_id, d.message_id), (-5, 7));
    assert_eq!(d.trace_id.as_deref(), Some("tr-1"));
    let d = parse_dashboard_callback("dash:tasks:5:7:-").unwrap();
    assert_eq!(d.tab, DashTab::Tasks);
    assert_eq!(d.trace_id, None);
    let d = parse_dashboard_callback("dash:tasks:5:7").unwrap();
    assert_eq!(d.trace_id, None);
    assert!(parse_dashboard_callback("dash:tasks:5").is_none());
    assert!(parse_dashboard_callback("dash:tasks:5:99999999999").is_none());
}
