use rara_channels::telegram::progress::{
    format_tool_line, render_cascade_html, render_compact_summary, render_plan_progress,
    render_progress, render_trace_detail, thinking_hint, BackgroundTaskState,
    BackgroundTaskStatus, CascadeEntry, CascadeEntryKind, CascadeSummary, CascadeTick,
    CascadeTrace, ExecutionTrace, PlanStepState, ProgressView, StepStatus, TokenUsage,
    ToolProgress, ToolTraceEntry,
};

const THINKING: &str = "thinking";
const LOADING_HINT: &str = "Consulting the stars";

fn no_usage() -> TokenUsage {
    TokenUsage {
        input_tokens: 0,
        output_tokens: 0,
        input_label: String::new(),
        output_label: String::new(),
        thinking_ms: 0,
    }
}

fn test_progress(thinking: bool, tools: Vec<ToolProgress>) -> ProgressView {
    ProgressView {
        thinking,
        reasoning_preview: String::new(),
        loading_hint: LOADING_HINT.to_string(),
        verb: "Pondering".to_string(),
        turn_elapsed_ms: 1000,
        usage: no_usage(),
        tools,
        background_tasks: Vec::new(),
    }
}

fn finished_tool(name: &str) -> ToolProgress {
    ToolProgress {
        id: "tool-1".into(),
        raw_name: name.into(),
        name: name.into(),
        activity: name.into(),
        summary: String::new(),
        emoji: "📖".into(),
        elapsed_ms: 100,
        finished: true,
        success: true,
        duration_ms: Some(100),
        error: None,
        result_hint: None,
    }
}

#[test]
fn render_progress_omits_rationale_from_live_progress() {
    let mut pm = test_progress(false, vec![finished_tool("read_file")]);
    pm.turn_elapsed_ms = 1000;
    let output = render_progress(&pm, THINKING);
    assert!(
        !output.contains("Reading config files"),
        "rationale should not appear in live progress, got: {output}"
    );
}

#[test]
fn render_progress_omits_rationale_when_none() {
    let pm = test_progress(false, vec![finished_tool("read_file")]);
    let output = render_progress(&pm, THINKING);
    assert!(!output.contains('\u{1f4ad}'), "expected no rationale line, got: {output}");
}

#[test]
fn render_progress_shows_loading_hint_when_thinking() {
    let mut pm = test_progress(true, Vec::new());
    pm.turn_elapsed_ms = 2000;
    let output = render_progress(&pm, THINKING);
    assert!(output.contains(LOADING_HINT), "expected loading hint in output, got: {output}");
    assert!(output.contains('\u{2733}'), "expected footer with elapsed time, got: {output}");
}

#[test]
fn render_progress_empty_when_not_thinking_and_no_tools() {
    let pm = test_progress(false, Vec::new());
    let output = render_progress(&pm, THINKING);
    assert!(output.is_empty(), "expected empty output, got: {output}");
}

#[test]
fn render_progress_shows_tools_not_hint_after_thinking_ends() {
    let pm = test_progress(false, vec![finished_tool("read_file")]);
    let output = render_progress(&pm, THINKING);
    assert!(!output.contains(LOADING_HINT), "expected no loading hint, got: {output}");
    assert!(output.contains("read_file"), "expected tool name in output, got: {output}");
}

#[test]
fn render_progress_exact_thinking_without_tools() {
    let mut pm = test_progress(true, Vec::new());
    pm.turn_elapsed_ms = 2000;
    assert_eq!(
        render_progress(&pm, THINKING),
        "🧠 Consulting the stars\n✳️ pondering... 2.0s"
    );
}

#[test]
fn render_progress_exact_with_tool_and_footer() {
    let mut pm = test_progress(false, vec![finished_tool("read_file")]);
    pm.turn_elapsed_ms = 65_000;
    pm.usage = TokenUsage {
        input_tokens: 12_500,
        output_tokens: 1_200,
        input_label: "12.5k".into(),
        output_label: "1.2k".into(),
        thinking_ms: 9_500,
    };
    assert_eq!(
        render_progress(&pm, THINKING),
        "✅ 📖 read_file 100ms\n✳️ pondering... 1m5s · ↑12.5k ↓1.2k · thought 9s"
    );
}

#[test]
fn render_progress_shows_hint_again_when_all_tools_done_and_thinking() {
    let pm = test_progress(true, vec![finished_tool("read_file")]);
    assert_eq!(
        render_progress(&pm, THINKING),
        "✅ 📖 read_file 100ms\n🧠 Consulting the stars\n✳️ pondering... 1.0s"
    );
}

#[test]
fn render_progress_folds_old_finished_tools() {
    let tools: Vec<ToolProgress> = (0..7).map(|_| finished_tool("grep")).collect();
    let pm = test_progress(false, tools);
    let out = render_progress(&pm, THINKING);
    let lines: Vec<&str> = out.lines().collect();
    assert_eq!(lines[0], "⋯ 5 tools done (500ms)");
    assert_eq!(lines[1], "✅ 📖 grep 100ms");
    assert_eq!(lines[2], "✅ 📖 grep 100ms");
    assert_eq!(lines.len(), 4);
}

#[test]
fn render_progress_lists_background_tasks() {
    let mut pm = test_progress(false, vec![finished_tool("read_file")]);
    pm.background_tasks = vec![BackgroundTaskState {
        task_id: "t1".into(),
        agent_name: "scout".into(),
        description: "look around".into(),
        elapsed_ms: 3000,
        finished: false,
        status: None,
    }];
    let out = render_progress(&pm, THINKING);
    assert!(out.contains("scout"), "got: {out}");
    let done = BackgroundTaskState {
        task_id: "t2".into(),
        agent_name: "helper".into(),
        description: "done".into(),
        elapsed_ms: 3000,
        finished: true,
        status: Some(BackgroundTaskStatus::Completed),
    };
    pm.background_tasks.push(done);
    let out2 = render_progress(&pm, THINKING);
    assert!(out2.contains("helper"), "got: {out2}");
}

#[test]
fn tool_line_states() {
    let mut t = finished_tool("shell_execute");
    t.summary = "ls -la\nsecond line".into();
    assert_eq!(format_tool_line(&t, THINKING), "✅ 📖 $ ls -la 100ms");
    t.success = false;
    t.error = Some("permission denied".into());
    assert_eq!(format_tool_line(&t, THINKING), "❌ 📖 $ ls -la 100ms: permission denied");
    t.finished = false;
    t.elapsed_ms = 12_345;
    assert_eq!(format_tool_line(&t, THINKING), "⏳ 📖 $ ls -la 12.3s");
    t.activity = THINKING.into();
    assert_eq!(format_tool_line(&t, THINKING), "");
}

#[test]
fn tool_line_with_result_hint() {
    let mut t = finished_tool("read_file");
    t.result_hint = Some("42 lines".into());
    assert_eq!(format_tool_line(&t, THINKING), "✅ 📖 read_file 42 lines 100ms");
}

#[test]
fn thinking_hint_prefers_reasoning_preview() {
    assert_eq!(thinking_hint("  \n", "Musing"), "🧠 Musing");
    assert_eq!(thinking_hint("\n  first thought\nsecond", "Musing"), "🧠 first thought");
    let long = "x".repeat(70);
    assert_eq!(thinking_hint(&long, "Musing"), format!("🧠 {}…", "x".repeat(60)));
}

#[test]
fn plan_progress_marks_steps() {
    let steps = vec![
        PlanStepState { task: "read".into(), status: StepStatus::Done },
        PlanStepState { task: "write".into(), status: StepStatus::Running },
        PlanStepState { task: "check".into(), status: StepStatus::Failed("boom".into()) },
        PlanStepState { task: "ship".into(), status: StepStatus::Pending },
    ];
    let pm = test_progress(false, Vec::new());
    let out = render_plan_progress(Some("Release"), &steps, &pm, THINKING);
    assert!(out.contains("✅ 第1步：read"), "got: {out}");
    assert!(out.contains("▶️ 第2步：write"), "got: {out}");
    assert!(out.contains("❌ 第3步：check: boom"), "got: {out}");
    assert!(out.contains("⬜ 第4步：ship"), "got: {out}");
    assert!(out.starts_with("📋 Release（4步）\n\n"), "got: {out}");
}

fn trace() -> ExecutionTrace {
    ExecutionTrace {
        duration_secs: 45,
        usage: TokenUsage {
            input_tokens: 12_500,
            output_tokens: 1_200,
            input_label: "12.5k".into(),
            output_label: "1.2k".into(),
            thinking_ms: 9_000,
        },
        turn_rationale: None,
        thinking_preview: String::new(),
        plan_steps: Vec::new(),
        tools: vec![ToolTraceEntry {
            name: "grep".into(),
            duration_ms: Some(1500),
            success: false,
            summary: "a<b".into(),
            error: Some("x & y".into()),
        }],
        iterations: 3,
        model: "sonnet-4".into(),
        rara_message_id: "msg-1".into(),
    }
}

#[test]
fn compact_summary_line() {
    assert_eq!(render_compact_summary(&trace()), "✅ 45.0s · ↑12.5k ↓1.2k · thought 9s");
    let mut t = trace();
    t.usage = no_usage();
    assert_eq!(render_compact_summary(&t), "✅ 45.0s");
}

#[test]
fn trace_detail_escapes_and_ends_with_message_id() {
    let out = render_trace_detail(&trace());
    assert!(out.starts_with("✅ 45.0s · ↑12.5k ↓1.2k · thought 9s\n─────\n"), "got: {out}");
    assert!(out.contains("x &amp; y"), "got: {out}");
    assert!(out.contains("3 iterations"), "got: {out}");
    assert!(out.contains("sonnet-4"), "got: {out}");
    assert!(out.ends_with("<code>msg-1</code>"), "got: {out}");
}

#[test]
fn trace_detail_is_capped() {
    let mut t = trace();
    t.tools = (0..200)
        .map(|_| ToolTraceEntry {
            name: "grep".into(),
            duration_ms: Some(10),
            success: true,
            summary: "some long summary of the call".into(),
            error: None,
        })
        .collect();
    let out = render_trace_detail(&t);
    assert!(out.len() <= 4000 + "\n…(truncated)".len(), "len {}", out.len());
    assert!(out.ends_with("\n…(truncated)"));
}

fn cascade(entries: usize, content: &str) -> CascadeTrace {
    CascadeTrace {
        summary: CascadeSummary { tick_count: 1, tool_call_count: 2, total_entries: entries as u64 },
        ticks: vec![CascadeTick {
            index: 0,
            entries: (0..entries)
                .map(|i| CascadeEntry {
                    kind: CascadeEntryKind::Thought,
                    id: format!("e{i}"),
                    content: content.to_string(),
                })
                .collect(),
        }],
    }
}

#[test]
fn cascade_html_renders_ticks_and_entries() {
    let out = render_cascade_html(&cascade(1, "a < b"));
    assert_eq!(
        out,
        "🔍 <b>Cascade Trace</b>\n<i>1 ticks · 2 tool calls · 1 entries</i>\n\n▶ <b>TICK 1</b>\n  🧠 <b>Thought</b> · <code>e0</code>\n<blockquote>a &lt; b</blockquote>\n"
    );
}

#[test]
fn cascade_html_empty_content_placeholder() {
    let out = render_cascade_html(&cascade(1, ""));
    assert!(out.contains("<blockquote>(empty)</blockquote>"), "got: {out}");
}

#[test]
fn cascade_html_cuts_long_entries() {
    let out = render_cascade_html(&cascade(1, &"y".repeat(400)));
    assert!(out.contains(&format!("<blockquote>{}…</blockquote>", "y".repeat(301))), "got: {out}");
}

#[test]
fn cascade_html_truncates_whole_blocks() {
    let out = render_cascade_html(&cascade(40, &"z".repeat(250)));
    assert!(out.ends_with("</blockquote>\n\n…(truncated)"), "got tail: {}", &out[out.len() - 40..]);
    assert!(out.len() <= 4000 + "\n…(truncated)".len());
}
