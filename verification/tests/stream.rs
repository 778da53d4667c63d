use rara_channels::telegram::progress::BackgroundTaskStatus;
use rara_channels::telegram::progress_message::{
    summary_keyboard, tool_call_limit_prompt, PlanStepStatus, ProgressAction, ProgressMessage,
};
use rara_channels::telegram::progress::StepStatus;
use rara_channels::telegram::stream::{
    classify_edit_error, flush_target, plan_final_reply, FlushResult, FlushTarget,
    StreamingMessage, SENTINEL_MESSAGE_ID,
};

#[test]
fn short_deltas_do_not_split() {
    let mut s = StreamingMessage::new(7, 0);
    assert!(s.push_text("Hello ").is_none());
    assert!(s.push_text("**world**").is_none());
    assert_eq!(s.accumulated, "Hello **world**");
    assert!(s.dirty);
    let req = s.tick_request().expect("dirty text is flushed on the tick");
    assert_eq!(req.text_html, "Hello <b>world</b>");
    assert_eq!(req.split_chars, 0);
    assert_eq!(flush_target(&req.message_ids), FlushTarget::SendNew);
}

#[test]
fn long_text_triggers_split_with_stripped_xml() {
    let mut s = StreamingMessage::new(1, 0);
    let body = "a".repeat(3790);
    assert!(s.push_text(&body).is_none());
    let req = s
        .push_text(" tail <toolcall>x</toolcall>")
        .expect("past the threshold a split is requested");
    assert!(!req.text_html.contains("toolcall"));
    assert_eq!(req.split_chars, 3790 + " tail ".chars().count());
}

#[test]
fn sent_then_split_then_new_message() {
    let mut s = StreamingMessage::new(1, 0);
    s.push_text("first");
    s.apply_flush_result(FlushResult::Sent(42), 100);
    assert_eq!(s.message_ids, vec![42]);
    assert!(!s.dirty);
    assert_eq!(s.last_edit_ms, 100);
    assert_eq!(flush_target(&s.message_ids), FlushTarget::Edit(42));

    s.complete_split(5, FlushResult::Edited, 200);
    assert_eq!(s.message_ids, vec![42, SENTINEL_MESSAGE_ID]);
    assert_eq!(s.streamed_prefix_chars, 5);
    assert!(s.accumulated.is_empty());
    assert_eq!(flush_target(&s.message_ids), FlushTarget::SendNew);

    s.apply_flush_result(FlushResult::Sent(43), 300);
    assert_eq!(s.message_ids, vec![42, 43]);
}

#[test]
fn rate_limited_flush_stays_dirty() {
    let mut s = StreamingMessage::new(1, 10);
    s.push_text("x");
    s.apply_flush_result(FlushResult::RateLimited, 500);
    assert!(s.dirty);
    assert_eq!(s.last_edit_ms, 10);
    s.apply_flush_result(FlushResult::SendFailed, 600);
    assert!(!s.dirty);
    assert_eq!(s.last_edit_ms, 10);
}

#[test]
fn failed_split_keeps_text() {
    let mut s = StreamingMessage::new(1, 0);
    s.push_text("abc");
    s.complete_split(3, FlushResult::Failed, 50);
    assert_eq!(s.accumulated, "abc");
    assert_eq!(s.streamed_prefix_chars, 0);
    assert!(s.message_ids.is_empty());
}

#[test]
fn edit_errors_are_classified() {
    assert_eq!(
        classify_edit_error("Bad Request: message is not modified: specified new message content"),
        FlushResult::Edited
    );
    assert_eq!(classify_edit_error("Too Many Requests: retry after 5"), FlushResult::RateLimited);
    assert_eq!(classify_edit_error("please retry after 3"), FlushResult::RateLimited);
    assert_eq!(classify_edit_error("Bad Request: chat not found"), FlushResult::Failed);
}

#[test]
fn clearing_narration_hands_out_real_ids() {
    let mut s = StreamingMessage::new(1, 0);
    s.message_ids = vec![3, 4, SENTINEL_MESSAGE_ID];
    s.accumulated = "x".into();
    s.streamed_prefix_chars = 9;
    s.dirty = true;
    assert_eq!(s.clear_narration(), vec![3, 4]);
    assert!(s.message_ids.is_empty());
    assert!(s.accumulated.is_empty());
    assert_eq!(s.streamed_prefix_chars, 0);
    assert!(!s.dirty);
}

#[test]
fn close_request_strips_tool_calls() {
    let mut s = StreamingMessage::new(1, 0);
    assert!(s.close_request().is_none());
    s.push_text("done <tool_call />");
    let req = s.close_request().unwrap();
    assert_eq!(req.text_html, "done ");
}

#[test]
fn final_reply_without_stream_goes_out_whole() {
    let plan = plan_final_reply("hello", None, false);
    assert_eq!(plan.content, "hello");
    assert!(!plan.skip);
    assert_eq!(plan.edit_target, None);
    assert_eq!(plan.fallback, "hello");
    assert!(plan_final_reply("", None, false).skip);
    assert!(!plan_final_reply("", None, true).skip);
}

#[test]
fn final_reply_after_stream_edits_and_drops_shown_text() {
    let mut s = StreamingMessage::new(1, 0);
    s.message_ids = vec![10, 11];
    s.streamed_prefix_chars = 6;
    s.accumulated = "world".into();
    let plan = plan_final_reply("Hello world, again", Some(&s), false);
    assert_eq!(plan.content, "world, again");
    assert_eq!(plan.edit_target, Some(11));
    assert_eq!(plan.fallback, ", again");
}

#[test]
fn final_reply_with_unsent_stream_keeps_content() {
    let mut s = StreamingMessage::new(1, 0);
    s.message_ids = vec![10, SENTINEL_MESSAGE_ID];
    s.streamed_prefix_chars = 2;
    s.accumulated = "cd".into();
    let plan = plan_final_reply("abcd", Some(&s), false);
    assert_eq!(plan.content, "cd");
    assert_eq!(plan.edit_target, None);
    assert_eq!(plan.fallback, "cd");
    let all = plan_final_reply("ab", Some(&s), false);
    assert!(all.skip);
}

fn tool_start(p: &mut ProgressMessage, id: &str, now: u64) -> ProgressAction {
    p.on_tool_call_start(
        id.into(),
        "read_file".into(),
        "read_file".into(),
        "reading".into(),
        String::new(),
        "📖".into(),
        now,
    )
}

#[test]
fn progress_first_tool_sends_then_throttles() {
    let mut p = ProgressMessage::new("m1".into(), 10_000);
    assert_eq!(p.last_edit_ms, 8_500);
    assert_eq!(tool_start(&mut p, "t1", 10_000), ProgressAction::SendNew);
    p.set_message_id(77);
    assert_eq!(tool_start(&mut p, "t2", 10_500), ProgressAction::Nothing);
    assert!(p.dirty);
    assert_eq!(p.tick(10_600), ProgressAction::Edit(77));
    assert!(!p.dirty);
    assert_eq!(
        p.on_tool_call_end("t1", true, None, Some("12 lines".into()), 12_100),
        ProgressAction::Edit(77)
    );
    assert!(p.tools[0].finished);
    assert_eq!(p.tools[0].duration_ms, Some(2_100));
    assert!(!p.tools[1].finished);
}

#[test]
fn progress_tick_without_message_needs_content() {
    let mut p = ProgressMessage::new("m1".into(), 0);
    assert_eq!(p.tick(100), ProgressAction::Nothing);
    assert!(p.begin_thinking());
    p.append_reasoning("let me think");
    assert_eq!(p.tick(200), ProgressAction::SendNew);
    assert!(!p.begin_thinking());
}

#[test]
fn progress_reasoning_preview_is_capped() {
    let mut p = ProgressMessage::new("m1".into(), 0);
    p.append_reasoning(&"x".repeat(498));
    p.append_reasoning("abcdef");
    assert_eq!(p.reasoning_preview, format!("{}ab…", "x".repeat(498)));
    p.append_reasoning("more");
    assert_eq!(p.reasoning_preview.chars().count(), 501);
}

#[test]
fn progress_plan_lifecycle() {
    let mut p = ProgressMessage::new("m1".into(), 0);
    assert!(!p.on_plan_created(1, "tiny".into()));
    assert!(p.plan_steps.is_none());
    assert!(p.on_plan_created(3, "Ship it".into()));
    p.set_message_id(5);
    assert_eq!(
        p.on_plan_progress(0, PlanStepStatus::Running, "第1步：Write code…", 10_000),
        ProgressAction::Edit(5)
    );
    {
        let steps = p.plan_steps.as_ref().unwrap();
        assert_eq!(steps[0].task, "Write code");
        assert!(matches!(steps[0].status, StepStatus::Running));
    }
    tool_start(&mut p, "t1", 10_100);
    p.on_plan_progress(1, PlanStepStatus::Running, "Test", 10_200);
    assert!(p.tools.is_empty());
    {
        let steps = p.plan_steps.as_ref().unwrap();
        assert!(matches!(steps[0].status, StepStatus::Done));
        assert_eq!(steps[1].task, "Test");
    }
    p.on_plan_progress(4, PlanStepStatus::Failed { reason: "boom".into() }, "Extra", 20_000);
    assert_eq!(p.plan_steps.as_ref().unwrap().len(), 5);
    assert_eq!(p.on_plan_replan("retry".into(), 21_000), ProgressAction::Edit(5));
    {
        let steps = p.plan_steps.as_ref().unwrap();
        assert_eq!(steps.len(), 3);
        assert!(steps.iter().all(|s| !matches!(s.status, StepStatus::Pending)));
    }
    assert_eq!(p.on_plan_completed("All good"), ProgressAction::Edit(5));
    assert_eq!(
        p.saved_plan_steps,
        vec![
            "✅ 第1步：Write code".to_string(),
            "✅ 第2步：Test".to_string(),
            "❌ 第3步：Extra".to_string(),
            "✅ All good".to_string(),
        ]
    );
}

#[test]
fn progress_render_and_trace() {
    let mut p = ProgressMessage::new("m1".into(), 0);
    tool_start(&mut p, "t1", 0);
    p.on_tool_call_end("t1", true, None, None, 100);
    p.on_usage_update(0, 0, 0, 200);
    p.on_background_task_started("b1".into(), "scout".into(), "look".into(), 300);
    p.on_background_task_done("b1", BackgroundTaskStatus::Completed);
    p.on_turn_metrics("sonnet-4".into(), 3);
    let text = p.render_text(2_000, "0", "0", "Pondering", "thinking").unwrap();
    assert_eq!(text.lines().next(), Some("✅ 📖 read_file 100ms"));
    assert!(text.ends_with("✳️ pondering... 2.0s"), "got: {text}");
    let trace = p.to_trace(45_000, "0", "0");
    assert_eq!(trace.duration_secs, 45);
    assert_eq!(trace.tools.len(), 1);
    assert_eq!(trace.tools[0].duration_ms, Some(100));
    assert_eq!(trace.model, "sonnet-4");
    assert_eq!(trace.iterations, 3);
}

#[test]
fn summary_keyboard_callbacks() {
    let row = summary_keyboard(-100123, 42, "tr-1", false);
    assert_eq!(row.len(), 2);
    assert_eq!(row[0].callback_data.as_deref(), Some("trace:show:-100123:42:tr-1"));
    assert_eq!(row[1].callback_data.as_deref(), Some("cas:show:-100123:42:tr-1"));
    let row = summary_keyboard(5, 6, "x", true);
    assert_eq!(row[2].callback_data.as_deref(), Some("dash:tasks:5:6:x"));
    assert_eq!(row[2].text, "📱 Dashboard");
}

#[test]
fn tool_call_limit_prompt_text_and_buttons() {
    let (text, row) = tool_call_limit_prompt("tg:1", 9, 30, 120);
    assert_eq!(
        text,
        "⚠️ <b>Agent Paused</b>\n\n已执行 <b>30</b> 次工具调用（耗时 120s）。\n是否继续？"
    );
    assert_eq!(row[0].callback_data.as_deref(), Some("limit:continue:tg:1:9"));
    assert_eq!(row[1].callback_data.as_deref(), Some("limit:stop:tg:1:9"));
}
