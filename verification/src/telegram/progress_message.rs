//! The progress message of a turn as a state machine: each stream event
//! updates the state and says whether the message is to be sent, edited or
//! left for the next throttle tick.
//!
//! The caller runs the event loop: it hands each event here, performs the
//! returned action (rendering the text with [`ProgressMessage::render_text`])
//! and reports what the Bot API returned. Times are milliseconds on a
//! monotonic clock the caller reads.

use vstd::prelude::*;

use super::loading_hints::{hint_text, random_hint, HINT_COUNT};
use super::commands::{button_view, callback_button, row_view, ButtonView, InlineButton};
use super::progress::{
    durations_fit, durations_summable, plan_lines, progress_lines, render_plan_progress,
    render_progress, BackgroundTaskState, BackgroundTaskStatus, ExecutionTrace, PlanStepState,
    ProgressView, StepStatus, TokenUsage, ToolProgress, ToolTraceEntry,
};
use crate::text::{
    chars_of, decimal, find_char, find_char_exec, join_lines, opt_view, push_decimal, push_seq,
    push_signed, push_str, signed_decimal, slice_of, str_eq, string_of, trim_end_all,
    trim_end_all_exec, utf8_len,
};

verus! {

/// Minimum time between two edits of the progress message.
pub const MIN_EDIT_INTERVAL_MS: u64 = 1500;

/// Characters of reasoning kept for the trace.
pub const REASONING_PREVIEW_CHARS: usize = 500;

/// A tool call of the turn.
pub struct ToolCall {
    pub id: String,
    pub raw_name: String,
    pub name: String,
    pub activity: String,
    pub summary: String,
    pub emoji: String,
    pub started_ms: u64,
    pub finished: bool,
    pub success: bool,
    pub duration_ms: Option<u64>,
    pub error: Option<String>,
    pub result_hint: Option<String>,
}

/// A background task (sub-agent) of the turn.
pub struct BackgroundTask {
    pub task_id: String,
    pub agent_name: String,
    pub description: String,
    pub started_ms: u64,
    pub finished: bool,
    pub status: Option<BackgroundTaskStatus>,
}

/// What to do with the progress message after an event.
#[derive(Debug, Clone, Copy, PartialEq, Eq, Structural)]
pub enum ProgressAction {
    /// Nothing now.
    Nothing,
    /// Edit the message with this id to the rendered text.
    Edit(i32),
    /// Send the rendered text as a new message (and record its id).
    SendNew,
}

/// State of the progress message of one turn.
pub struct ProgressMessage {
    pub message_id: Option<i32>,
    pub tools: Vec<ToolCall>,
    pub last_edit_ms: u64,
    pub turn_started_ms: u64,
    /// Prompt tokens of the latest iteration.
    pub input_tokens: u32,
    /// Completion tokens so far.
    pub output_tokens: u32,
    pub thinking_ms: u64,
    /// The start of the reasoning text, for the trace.
    pub reasoning_preview: String,
    pub model: String,
    pub iterations: u64,
    pub rara_message_id: String,
    /// Plan steps as display lines, for the trace.
    pub saved_plan_steps: Vec<String>,
    pub loading_hint: String,
    /// The plan steps in plan mode.
    pub plan_steps: Option<Vec<PlanStepState>>,
    pub plan_goal: Option<String>,
    pub plan_current_step: Option<usize>,
    pub turn_rationale: Option<String>,
    /// The model is reasoning before its next tool call.
    pub thinking: bool,
    pub background_tasks: Vec<BackgroundTask>,
    /// Something changed that the message does not show yet.
    pub dirty: bool,
}

/// Milliseconds from `start` to `now`, zero when `now` is earlier.
pub open spec fn elapsed(now: u64, start: u64) -> nat {
    if now >= start {
        (now - start) as nat
    } else {
        0
    }
}

/// Whether an edit is due: the minimum interval has passed since the last.
pub open spec fn edit_due(m: ProgressMessage, now: u64) -> bool {
    elapsed(now, m.last_edit_ms) >= MIN_EDIT_INTERVAL_MS
}

/// Edit the message when there is one, else send a new one.
pub open spec fn edit_or_send(mid: Option<i32>) -> ProgressAction {
    match mid {
        Some(id) => ProgressAction::Edit(id),
        None => ProgressAction::SendNew,
    }
}

/// Edit the message when there is one, else nothing.
pub open spec fn edit_if_any(mid: Option<i32>) -> ProgressAction {
    match mid {
        Some(id) => ProgressAction::Edit(id),
        None => ProgressAction::Nothing,
    }
}

/// The fields that say what the message shows and when it was last
/// touched are the same.
pub open spec fn same_output(a: ProgressMessage, b: ProgressMessage) -> bool {
    &&& a.message_id == b.message_id
    &&& a.last_edit_ms == b.last_edit_ms
    &&& a.dirty == b.dirty
}

/// The turn's plan fields are the same.
pub open spec fn same_plan(a: ProgressMessage, b: ProgressMessage) -> bool {
    &&& a.plan_steps == b.plan_steps
    &&& a.plan_goal == b.plan_goal
    &&& a.plan_current_step == b.plan_current_step
    &&& a.saved_plan_steps == b.saved_plan_steps
}

/// The turn's counters and labels are the same.
pub open spec fn same_meta(a: ProgressMessage, b: ProgressMessage) -> bool {
    &&& a.turn_started_ms == b.turn_started_ms
    &&& a.input_tokens == b.input_tokens
    &&& a.output_tokens == b.output_tokens
    &&& a.thinking_ms == b.thinking_ms
    &&& a.model == b.model
    &&& a.iterations == b.iterations
    &&& a.rara_message_id == b.rara_message_id
    &&& a.loading_hint == b.loading_hint
    &&& a.turn_rationale == b.turn_rationale
}

/// The reasoning fields are the same.
pub open spec fn same_reasoning(a: ProgressMessage, b: ProgressMessage) -> bool {
    &&& a.reasoning_preview == b.reasoning_preview
    &&& a.thinking == b.thinking
}

/// Everything but the output fields is the same.
pub open spec fn same_content(a: ProgressMessage, b: ProgressMessage) -> bool {
    &&& a.tools == b.tools
    &&& same_plan(a, b)
    &&& same_meta(a, b)
    &&& same_reasoning(a, b)
    &&& a.background_tasks == b.background_tasks
}

/// The output fields after a throttled refresh: when an edit is due the
/// time is stamped and the flag cleared, else the flag is set.
pub open spec fn refreshed(a: ProgressMessage, b: ProgressMessage, now: u64) -> bool {
    &&& b.message_id == a.message_id
    &&& if edit_due(a, now) {
        b.last_edit_ms == now && !b.dirty
    } else {
        b.last_edit_ms == a.last_edit_ms && b.dirty
    }
}

/// The first tool call with this id.
pub open spec fn first_with_id(tools: Seq<ToolCall>, id: Seq<char>, i: int) -> Option<int>
    decreases tools.len() - i,
{
    if i < 0 || i >= tools.len() {
        None
    } else if tools[i].id@ == id {
        Some(i)
    } else {
        first_with_id(tools, id, i + 1)
    }
}

/// The first background task with this id.
pub open spec fn first_task_with_id(tasks: Seq<BackgroundTask>, id: Seq<char>, i: int) -> Option<int>
    decreases tasks.len() - i,
{
    if i < 0 || i >= tasks.len() {
        None
    } else if tasks[i].task_id@ == id {
        Some(i)
    } else {
        first_task_with_id(tasks, id, i + 1)
    }
}

/// `b` is tool call `a` finished with this outcome at `now`.
pub open spec fn finished_call(
    a: ToolCall,
    b: ToolCall,
    success: bool,
    error: Option<String>,
    result_hint: Option<String>,
    now: u64,
) -> bool {
    &&& b.id == a.id
    &&& b.raw_name == a.raw_name
    &&& b.name == a.name
    &&& b.activity == a.activity
    &&& b.summary == a.summary
    &&& b.emoji == a.emoji
    &&& b.started_ms == a.started_ms
    &&& b.finished
    &&& b.success == success
    &&& b.duration_ms == Some(elapsed(now, a.started_ms) as u64)
    &&& b.error == error
    &&& b.result_hint == result_hint
}

/// The reasoning preview after `text` arrives: appended while under 500
/// characters, cut at 500 with `…` when it would go past.
pub open spec fn preview_after(p: Seq<char>, t: Seq<char>) -> Seq<char> {
    if p.len() < REASONING_PREVIEW_CHARS {
        if t.len() <= REASONING_PREVIEW_CHARS - p.len() {
            p + t
        } else {
            p + t.take(REASONING_PREVIEW_CHARS - p.len()) + "…"@
        }
    } else {
        p
    }
}

/// Status of a plan step as the kernel reports it.
pub enum PlanStepStatus {
    Running,
    Done,
    Failed { reason: String },
    NeedsReplan { reason: String },
}

/// A step's status in the specification.
pub enum StepV {
    Pending,
    Running,
    Done,
    Failed(Seq<char>),
}

/// A plan step in the specification: its task and status.
pub type StepView = (Seq<char>, StepV);

/// The view of a step status.
pub open spec fn status_v(s: StepStatus) -> StepV {
    match s {
        StepStatus::Pending => StepV::Pending,
        StepStatus::Running => StepV::Running,
        StepStatus::Done => StepV::Done,
        StepStatus::Failed(r) => StepV::Failed(r@),
    }
}

/// The view of a plan step.
pub open spec fn step_v(s: PlanStepState) -> StepView {
    (s.task@, status_v(s.status))
}

/// The view of plan steps.
pub open spec fn steps_v(v: Seq<PlanStepState>) -> Seq<StepView> {
    v.map_values(|s: PlanStepState| step_v(s))
}

/// The step status that a reported status sets (a step that needs a
/// replan shows as failed with its reason).
pub open spec fn reported_v(s: PlanStepStatus) -> StepV {
    match s {
        PlanStepStatus::Running => StepV::Running,
        PlanStepStatus::Done => StepV::Done,
        PlanStepStatus::Failed { reason } => StepV::Failed(reason@),
        PlanStepStatus::NeedsReplan { reason } => StepV::Failed(reason@),
    }
}

/// The task named by a status text: what follows the first `：`, with
/// trailing `…` removed; the whole text when it has no `：`.
pub open spec fn task_from(text: Seq<char>) -> Seq<char> {
    match find_char(text, '：') {
        Some(k) => trim_end_all(text.skip(k + 1), "…"@),
        None => text,
    }
}

/// A pending step with no task yet.
pub open spec fn blank_step() -> StepView {
    (seq![], StepV::Pending)
}

/// The steps after a progress report for step `cur`: when the current step
/// changes, the previous one is done if it was running; steps are added up
/// to `cur`; step `cur` takes the reported status, and its task from the
/// status text when it has none.
pub open spec fn steps_after_progress(
    steps: Seq<StepView>,
    prev: Option<usize>,
    cur: nat,
    st: StepV,
    text: Seq<char>,
) -> Seq<StepView> {
    let a = match prev {
        Some(p) => if p != cur && p < steps.len() && steps[p as int].1 == StepV::Running {
            steps.update(p as int, (steps[p as int].0, StepV::Done))
        } else {
            steps
        },
        None => steps,
    };
    let b = if cur < a.len() {
        a
    } else {
        a + Seq::new((cur + 1 - a.len()) as nat, |i: int| blank_step())
    };
    b.update(cur as int, (if b[cur as int].0.len() == 0 { task_from(text) } else { b[cur as int].0 }, st))
}

/// The steps without the pending ones, in order.
pub open spec fn drop_pending(s: Seq<StepView>) -> Seq<StepView>
    decreases s.len(),
{
    if s.len() == 0 {
        seq![]
    } else if s.last().1 == StepV::Pending {
        drop_pending(s.drop_last())
    } else {
        drop_pending(s.drop_last()).push(s.last())
    }
}

/// The steps after the plan completes: running steps are done.
pub open spec fn steps_completed(s: Seq<StepView>) -> Seq<StepView> {
    s.map_values(|x: StepView| if x.1 == StepV::Running { (x.0, StepV::Done) } else { x })
}

/// The trace line of step `i`: its icon, `第N步：` and its task.
pub open spec fn saved_step_line(i: nat, s: StepView) -> Seq<char> {
    (match s.1 {
        StepV::Done => "✅"@,
        StepV::Failed(_) => "❌"@,
        _ => "⬜"@,
    }) + " 第"@ + decimal(i + 1) + "步："@ + s.0
}

/// The trace lines of completed steps, and the summary when there is one.
pub open spec fn saved_lines(s: Seq<StepView>, summary: Seq<char>) -> Seq<Seq<char>> {
    Seq::new(s.len(), |i: int| saved_step_line(i as nat, s[i])) + if summary.len() > 0 {
        seq!["✅ "@ + summary]
    } else {
        seq![]
    }
}

proof fn lemma_steps_v_push(v: Seq<PlanStepState>, x: PlanStepState)
    ensures
        steps_v(v.push(x)) == steps_v(v).push(step_v(x)),
{
    assert(steps_v(v.push(x)) =~= steps_v(v).push(step_v(x)));
}

/// The reasoning preview stays bounded: at most 500 characters and the
/// `…` that marks a cut.
pub proof fn law_preview_bounded(p: Seq<char>, t: Seq<char>)
    requires
        p.len() <= REASONING_PREVIEW_CHARS + 1,
    ensures
        preview_after(p, t).len() <= REASONING_PREVIEW_CHARS + 1,
        p.len() < REASONING_PREVIEW_CHARS ==> preview_after(p, t).take(p.len() as int) == p,
{
    reveal_strlit("…");
    if p.len() < REASONING_PREVIEW_CHARS {
        assert(preview_after(p, t).take(p.len() as int) =~= p);
    }
}

/// After a replan no pending step is left, and the steps that were not
/// pending stay, in order.
pub proof fn law_replan_leaves_no_pending(s: Seq<StepView>)
    ensures
        forall|i: int| 0 <= i < drop_pending(s).len() ==> drop_pending(s)[i].1 != StepV::Pending,
        drop_pending(s).len() <= s.len(),
    decreases s.len(),
{
    if s.len() > 0 {
        law_replan_leaves_no_pending(s.drop_last());
    }
}

/// A progress report for step `cur` leaves that step in the plan with the
/// reported status, keeps every earlier step's task, and never shortens
/// the plan.
pub proof fn law_progress_reaches_reported_step(
    steps: Seq<StepView>,
    prev: Option<usize>,
    cur: nat,
    st: StepV,
    text: Seq<char>,
)
    ensures
        steps_after_progress(steps, prev, cur, st, text).len() == if cur < steps.len() {
            steps.len()
        } else {
            cur + 1
        },
        steps_after_progress(steps, prev, cur, st, text)[cur as int].1 == st,
        forall|i: int|
            0 <= i < steps.len() && i != cur ==> #[trigger] steps_after_progress(
                steps,
                prev,
                cur,
                st,
                text,
            )[i].0 == steps[i].0,
{
}

fn blank_plan_step() -> (r: PlanStepState)
    ensures
        step_v(r) == blank_step(),
{
    PlanStepState { task: String::new(), status: StepStatus::Pending }
}

fn task_from_exec(text: &str) -> (r: String)
    ensures
        r@ == task_from(text@),
{
    let t = chars_of(text);
    let n = t.len();
    match find_char_exec(&t, '：', 0) {
        Some(k) => {
            let rest = slice_of(&t, k + 1, n);
            proof {
                assert(rest@ =~= text@.skip(k + 1));
            }
            string_of(&trim_end_all_exec(&rest, &chars_of("…")))
        },
        None => text.to_string(),
    }
}

fn reported_status(s: PlanStepStatus) -> (r: StepStatus)
    ensures
        status_v(r) == reported_v(s),
{
    match s {
        PlanStepStatus::Running => StepStatus::Running,
        PlanStepStatus::Done => StepStatus::Done,
        PlanStepStatus::Failed { reason } => StepStatus::Failed(reason),
        PlanStepStatus::NeedsReplan { reason } => StepStatus::Failed(reason),
    }
}

/// Set the status of step `i`.
fn set_step_status(steps: &mut Vec<PlanStepState>, i: usize, status: StepStatus)
    requires
        i < old(steps)@.len(),
    ensures
        steps_v(final(steps)@) == steps_v(old(steps)@).update(i as int, (old(steps)@[i as int].task@, status_v(status))),
{
    let mut st = steps.remove(i);
    st.status = status;
    steps.insert(i, st);
    proof {
        assert(steps_v(steps@) =~= steps_v(old(steps)@).update(
            i as int,
            (old(steps)@[i as int].task@, status_v(status)),
        ));
    }
}

/// Progress line `p` shows tool call `t` at `now`.
pub open spec fn shows_call(p: ToolProgress, t: ToolCall, now: u64) -> bool {
    &&& p.id@ == t.id@
    &&& p.raw_name@ == t.raw_name@
    &&& p.name@ == t.name@
    &&& p.activity@ == t.activity@
    &&& p.summary@ == t.summary@
    &&& p.emoji@ == t.emoji@
    &&& p.elapsed_ms == elapsed(now, t.started_ms)
    &&& p.finished == t.finished
    &&& p.success == t.success
    &&& p.duration_ms == t.duration_ms
    &&& opt_view(p.error) == opt_view(t.error)
    &&& opt_view(p.result_hint) == opt_view(t.result_hint)
}

/// Task line `p` shows background task `t` at `now`.
pub open spec fn shows_task(p: BackgroundTaskState, t: BackgroundTask, now: u64) -> bool {
    &&& p.task_id@ == t.task_id@
    &&& p.agent_name@ == t.agent_name@
    &&& p.description@ == t.description@
    &&& p.elapsed_ms == elapsed(now, t.started_ms)
    &&& p.finished == t.finished
    &&& p.status == t.status
}

/// View `v` shows state `m` at `now`, with the token counts rendered as
/// `input_label` / `output_label` and the spinner verb `verb`.
pub open spec fn shows(
    v: ProgressView,
    m: ProgressMessage,
    now: u64,
    input_label: Seq<char>,
    output_label: Seq<char>,
    verb: Seq<char>,
) -> bool {
    &&& v.thinking == m.thinking
    &&& v.reasoning_preview@ == m.reasoning_preview@
    &&& v.loading_hint@ == m.loading_hint@
    &&& v.verb@ == verb
    &&& v.turn_elapsed_ms == elapsed(now, m.turn_started_ms)
    &&& v.usage.input_tokens == m.input_tokens
    &&& v.usage.output_tokens == m.output_tokens
    &&& v.usage.input_label@ == input_label
    &&& v.usage.output_label@ == output_label
    &&& v.usage.thinking_ms == m.thinking_ms
    &&& v.tools@.len() == m.tools@.len()
    &&& forall|i: int| 0 <= i < m.tools@.len() ==> shows_call(#[trigger] v.tools@[i], m.tools@[i], now)
    &&& v.background_tasks@.len() == m.background_tasks@.len()
    &&& forall|i: int|
        0 <= i < m.background_tasks@.len() ==> shows_task(
            #[trigger] v.background_tasks@[i],
            m.background_tasks@[i],
            now,
        )
}

/// Trace entry `e` records tool call `t`.
pub open spec fn records_call(e: ToolTraceEntry, t: ToolCall) -> bool {
    &&& e.name@ == t.name@
    &&& e.duration_ms == t.duration_ms
    &&& e.success == t.success
    &&& e.summary@ == t.summary@
    &&& opt_view(e.error) == opt_view(t.error)
}

/// Trace `tr` records state `m` finished at `now`.
pub open spec fn records(
    tr: ExecutionTrace,
    m: ProgressMessage,
    now: u64,
    input_label: Seq<char>,
    output_label: Seq<char>,
) -> bool {
    &&& tr.duration_secs == elapsed(now, m.turn_started_ms) / 1000
    &&& tr.usage.input_tokens == m.input_tokens
    &&& tr.usage.output_tokens == m.output_tokens
    &&& tr.usage.input_label@ == input_label
    &&& tr.usage.output_label@ == output_label
    &&& tr.usage.thinking_ms == m.thinking_ms
    &&& opt_view(tr.turn_rationale) == opt_view(m.turn_rationale)
    &&& tr.thinking_preview@ == m.reasoning_preview@
    &&& tr.plan_steps@.map_values(|x: String| x@) == m.saved_plan_steps@.map_values(|x: String| x@)
    &&& tr.tools@.len() == m.tools@.len()
    &&& forall|i: int| 0 <= i < m.tools@.len() ==> records_call(#[trigger] tr.tools@[i], m.tools@[i])
    &&& tr.iterations == m.iterations
    &&& tr.model@ == m.model@
    &&& tr.rara_message_id@ == m.rara_message_id@
}

/// The callback data of a summary button: `prefix:chat:message:trace`.
pub open spec fn summary_callback(prefix: Seq<char>, chat_id: i64, message_id: i32, trace_id: Seq<char>) -> Seq<char> {
    prefix + ":"@ + signed_decimal(chat_id as int) + ":"@ + signed_decimal(message_id as int) + ":"@
        + trace_id
}

/// The buttons under the compact summary of a finished turn: details and
/// cascade, and the dashboard when the turn had background tasks.
pub open spec fn summary_buttons(chat_id: i64, message_id: i32, trace_id: Seq<char>, has_tasks: bool) -> Seq<
    ButtonView,
> {
    seq![
        ("📊 详情"@, Some(summary_callback("trace:show"@, chat_id, message_id, trace_id)), None),
        ("🔍 Cascade"@, Some(summary_callback("cas:show"@, chat_id, message_id, trace_id)), None),
    ] + if has_tasks {
        seq![
            ("📱 Dashboard"@, Some(summary_callback("dash:tasks"@, chat_id, message_id, trace_id)), None),
        ]
    } else {
        seq![]
    }
}

/// The text of the prompt when the agent hit its tool-call limit.
pub open spec fn limit_prompt_text(tool_calls_made: u64, elapsed_secs: u64) -> Seq<char> {
    "⚠️ <b>Agent Paused</b>\n\n已执行 <b>"@ + decimal(tool_calls_made as nat) + "</b> 次工具调用（耗时 "@
        + decimal(elapsed_secs as nat) + "s）。\n是否继续？"@
}

/// The buttons of that prompt: continue and stop, with the session key
/// and limit id in their callback data.
pub open spec fn limit_prompt_buttons(session_key: Seq<char>, limit_id: u64) -> Seq<ButtonView> {
    seq![
        ("▶️ 继续"@, Some("limit:continue:"@ + session_key + ":"@ + decimal(limit_id as nat)), None),
        ("⏹ 停止"@, Some("limit:stop:"@ + session_key + ":"@ + decimal(limit_id as nat)), None),
    ]
}

fn elapsed_ms(now_ms: u64, start_ms: u64) -> (r: u64)
    ensures
        r == elapsed(now_ms, start_ms),
{
    if now_ms >= start_ms {
        now_ms - start_ms
    } else {
        0
    }
}

impl ProgressMessage {
    /// A fresh progress state for the turn that `rara_message_id` started
    /// at `now_ms`, with a loading hint drawn for it. The last edit is
    /// placed one interval back so the first edit is due at once.
    pub fn new(rara_message_id: String, now_ms: u64) -> (r: ProgressMessage)
        ensures
            r.message_id is None,
            r.tools@.len() == 0,
            r.last_edit_ms == if now_ms >= MIN_EDIT_INTERVAL_MS {
                (now_ms - MIN_EDIT_INTERVAL_MS) as u64
            } else {
                now_ms
            },
            r.turn_started_ms == now_ms,
            r.input_tokens == 0 && r.output_tokens == 0 && r.thinking_ms == 0,
            r.reasoning_preview@.len() == 0,
            r.model@.len() == 0,
            r.iterations == 0,
            r.rara_message_id == rara_message_id,
            r.saved_plan_steps@.len() == 0,
            exists|i: nat| i < HINT_COUNT && r.loading_hint@ == hint_text(i),
            r.plan_steps is None,
            r.plan_goal is None,
            r.plan_current_step is None,
            r.turn_rationale is None,
            !r.thinking,
            r.background_tasks@.len() == 0,
            !r.dirty,
    {
        let loading_hint = random_hint().to_string();
        ProgressMessage {
            message_id: None,
            tools: Vec::new(),
            last_edit_ms: if now_ms >= MIN_EDIT_INTERVAL_MS {
                now_ms - MIN_EDIT_INTERVAL_MS
            } else {
                now_ms
            },
            turn_started_ms: now_ms,
            input_tokens: 0,
            output_tokens: 0,
            thinking_ms: 0,
            reasoning_preview: String::new(),
            model: String::new(),
            iterations: 0,
            rara_message_id,
            saved_plan_steps: Vec::new(),
            loading_hint,
            plan_steps: None,
            plan_goal: None,
            plan_current_step: None,
            turn_rationale: None,
            thinking: false,
            background_tasks: Vec::new(),
            dirty: false,
        }
    }

    /// Whether an edit is due at `now_ms`.
    pub fn is_edit_due(&self, now_ms: u64) -> (r: bool)
        ensures
            r == edit_due(*self, now_ms),
    {
        elapsed_ms(now_ms, self.last_edit_ms) >= MIN_EDIT_INTERVAL_MS
    }

    /// The throttled refresh after a tool event: when due, edit the
    /// message (or send the first one) now; else leave it for the tick.
    fn refresh_now_or_later(&mut self, now_ms: u64) -> (r: ProgressAction)
        ensures
            refreshed(*old(self), *final(self), now_ms),
            same_content(*old(self), *final(self)),
            r == if edit_due(*old(self), now_ms) {
                edit_or_send(old(self).message_id)
            } else {
                ProgressAction::Nothing
            },
    {
        if self.is_edit_due(now_ms) {
            self.last_edit_ms = now_ms;
            self.dirty = false;
            match self.message_id {
                Some(id) => ProgressAction::Edit(id),
                None => ProgressAction::SendNew,
            }
        } else {
            self.dirty = true;
            ProgressAction::Nothing
        }
    }

    /// A tool call started: thinking ends, the call is listed, and the
    /// message is refreshed when an edit is due.
    pub fn on_tool_call_start(
        &mut self,
        id: String,
        raw_name: String,
        name: String,
        activity: String,
        summary: String,
        emoji: String,
        now_ms: u64,
    ) -> (r: ProgressAction)
        ensures
            !final(self).thinking,
            final(self).reasoning_preview == old(self).reasoning_preview,
            final(self).tools@.len() == old(self).tools@.len() + 1,
            final(self).tools@.drop_last() == old(self).tools@,
            final(self).tools@.last() == (ToolCall {
                id,
                raw_name,
                name,
                activity,
                summary,
                emoji,
                started_ms: now_ms,
                finished: false,
                success: false,
                duration_ms: None,
                error: None,
                result_hint: None,
            }),
            same_plan(*old(self), *final(self)),
            same_meta(*old(self), *final(self)),
            final(self).background_tasks == old(self).background_tasks,
            refreshed(*old(self), *final(self), now_ms),
            r == if edit_due(*old(self), now_ms) {
                edit_or_send(old(self).message_id)
            } else {
                ProgressAction::Nothing
            },
    {
        self.thinking = false;
        self.tools.push(
            ToolCall {
                id,
                raw_name,
                name,
                activity,
                summary,
                emoji,
                started_ms: now_ms,
                finished: false,
                success: false,
                duration_ms: None,
                error: None,
                result_hint: None,
            },
        );
        proof {
            assert(self.tools@.drop_last() =~= old(self).tools@);
        }
        self.refresh_now_or_later(now_ms)
    }

    /// A tool call ended: the first call with this id is marked finished
    /// with its outcome and duration, and the message is refreshed when an
    /// edit is due.
    pub fn on_tool_call_end(
        &mut self,
        id: &str,
        success: bool,
        error: Option<String>,
        result_hint: Option<String>,
        now_ms: u64,
    ) -> (r: ProgressAction)
        ensures
            final(self).tools@.len() == old(self).tools@.len(),
            match first_with_id(old(self).tools@, id@, 0) {
                Some(i) => {
                    &&& finished_call(
                        old(self).tools@[i],
                        final(self).tools@[i],
                        success,
                        error,
                        result_hint,
                        now_ms,
                    )
                    &&& forall|j: int|
                        0 <= j < old(self).tools@.len() && j != i ==> final(self).tools@[j]
                            == old(self).tools@[j]
                },
                None => final(self).tools@ == old(self).tools@,
            },
            same_plan(*old(self), *final(self)),
            same_meta(*old(self), *final(self)),
            same_reasoning(*old(self), *final(self)),
            final(self).background_tasks == old(self).background_tasks,
            refreshed(*old(self), *final(self), now_ms),
            r == if edit_due(*old(self), now_ms) {
                edit_or_send(old(self).message_id)
            } else {
                ProgressAction::Nothing
            },
    {
        let n = self.tools.len();
        let mut i: usize = 0;
        while i < n
            invariant
                n == self.tools@.len(),
                self.tools == old(self).tools,
                i <= n,
                first_with_id(self.tools@, id@, 0) == first_with_id(self.tools@, id@, i as int),
            ensures
                i <= n,
                self.tools == old(self).tools,
                first_with_id(self.tools@, id@, 0) == first_with_id(self.tools@, id@, i as int),
                i < n ==> self.tools@[i as int].id@ == id@,
            decreases n - i,
        {
            if str_eq(self.tools[i].id.as_str(), id) {
                break;
            }
            i = i + 1;
        }
        if i < n {
            let mut t = self.tools.remove(i);
            t.finished = true;
            t.success = success;
            t.duration_ms = Some(elapsed_ms(now_ms, t.started_ms));
            t.error = error;
            t.result_hint = result_hint;
            self.tools.insert(i, t);
            proof {
                assert forall|j: int| 0 <= j < n && j != i implies self.tools@[j] == old(self).tools@[j] by {
                }
            }
        }
        self.refresh_now_or_later(now_ms)
    }

    /// The turn's rationale arrived: kept for the trace, and the message
    /// is marked for the next tick.
    pub fn on_turn_rationale(&mut self, text: String)
        ensures
            final(self).turn_rationale == Some(text),
            final(self).dirty,
            final(self).message_id == old(self).message_id,
            final(self).last_edit_ms == old(self).last_edit_ms,
            final(self).tools == old(self).tools,
            same_plan(*old(self), *final(self)),
            same_reasoning(*old(self), *final(self)),
            final(self).background_tasks == old(self).background_tasks,
    {
        self.turn_rationale = Some(text);
        self.dirty = true;
    }

    /// New token counts: they are kept, and once there is a message or a
    /// tool line the message is edited when due (an edit is due but there
    /// is no message yet: only the time is stamped), else marked for the
    /// tick.
    pub fn on_usage_update(&mut self, input_tokens: u32, output_tokens: u32, thinking_ms: u64, now_ms: u64) -> (r:
        ProgressAction)
        ensures
            final(self).input_tokens == input_tokens,
            final(self).output_tokens == output_tokens,
            final(self).thinking_ms == thinking_ms,
            final(self).message_id == old(self).message_id,
            final(self).tools == old(self).tools,
            same_plan(*old(self), *final(self)),
            same_reasoning(*old(self), *final(self)),
            final(self).background_tasks == old(self).background_tasks,
            final(self).turn_started_ms == old(self).turn_started_ms,
            final(self).model == old(self).model,
            final(self).iterations == old(self).iterations,
            final(self).turn_rationale == old(self).turn_rationale,
            if old(self).message_id is Some || old(self).tools@.len() > 0 {
                if edit_due(*old(self), now_ms) {
                    &&& final(self).last_edit_ms == now_ms
                    &&& final(self).dirty == old(self).dirty
                    &&& r == edit_if_any(old(self).message_id)
                } else {
                    &&& final(self).last_edit_ms == old(self).last_edit_ms
                    &&& final(self).dirty
                    &&& r is Nothing
                }
            } else {
                &&& final(self).last_edit_ms == old(self).last_edit_ms
                &&& final(self).dirty == old(self).dirty
                &&& r is Nothing
            },
    {
        self.input_tokens = input_tokens;
        self.output_tokens = output_tokens;
        self.thinking_ms = thinking_ms;
        if self.message_id.is_some() || self.tools.len() > 0 {
            if self.is_edit_due(now_ms) {
                self.last_edit_ms = now_ms;
                match self.message_id {
                    Some(id) => ProgressAction::Edit(id),
                    None => ProgressAction::Nothing,
                }
            } else {
                self.dirty = true;
                ProgressAction::Nothing
            }
        } else {
            ProgressAction::Nothing
        }
    }

    /// The first reasoning text of a round arrived: the model is thinking.
    /// Whether the caller is to show it at once (typing indicator, then the
    /// rendered message, then [`Self::mark_edited`]): on the first
    /// reasoning text when no message exists yet.
    pub fn begin_thinking(&mut self) -> (r: bool)
        ensures
            final(self).thinking,
            r == (!old(self).thinking && old(self).message_id is None),
            final(self).reasoning_preview == old(self).reasoning_preview,
            same_output(*old(self), *final(self)),
            final(self).tools == old(self).tools,
            same_plan(*old(self), *final(self)),
            same_meta(*old(self), *final(self)),
            final(self).background_tasks == old(self).background_tasks,
    {
        let first = !self.thinking;
        self.thinking = true;
        first && self.message_id.is_none()
    }

    /// Reasoning text arrived: its start is kept for the trace (at most 500
    /// characters, `…` when cut) and the message is marked for the tick.
    pub fn append_reasoning(&mut self, text: &str)
        ensures
            final(self).reasoning_preview@ == preview_after(old(self).reasoning_preview@, text@),
            final(self).dirty,
            final(self).thinking == old(self).thinking,
            final(self).message_id == old(self).message_id,
            final(self).last_edit_ms == old(self).last_edit_ms,
            final(self).tools == old(self).tools,
            same_plan(*old(self), *final(self)),
            same_meta(*old(self), *final(self)),
            final(self).background_tasks == old(self).background_tasks,
    {
        let mut p = chars_of(self.reasoning_preview.as_str());
        let t = chars_of(text);
        let cur = p.len();
        if cur < REASONING_PREVIEW_CHARS {
            let remaining = REASONING_PREVIEW_CHARS - cur;
            if t.len() <= remaining {
                push_seq(&mut p, &t);
            } else {
                let head = slice_of(&t, 0, remaining);
                push_seq(&mut p, &head);
                push_str(&mut p, "…");
            }
            self.reasoning_preview = string_of(&p);
        }
        proof {
            assert(self.reasoning_preview@ =~= preview_after(old(self).reasoning_preview@, text@));
        }
        self.dirty = true;
    }

    /// The turn's metrics arrived: model and iteration count, for the
    /// trace.
    pub fn on_turn_metrics(&mut self, model: String, iterations: u64)
        ensures
            final(self).model == model,
            final(self).iterations == iterations,
            same_output(*old(self), *final(self)),
            final(self).tools == old(self).tools,
            same_plan(*old(self), *final(self)),
            same_reasoning(*old(self), *final(self)),
            final(self).background_tasks == old(self).background_tasks,
            final(self).input_tokens == old(self).input_tokens,
            final(self).output_tokens == old(self).output_tokens,
            final(self).turn_rationale == old(self).turn_rationale,
    {
        self.model = model;
        self.iterations = iterations;
    }

    /// A background task started: it is listed and the message marked.
    pub fn on_background_task_started(
        &mut self,
        task_id: String,
        agent_name: String,
        description: String,
        now_ms: u64,
    )
        ensures
            final(self).background_tasks@ == old(self).background_tasks@.push(
                BackgroundTask {
                    task_id,
                    agent_name,
                    description,
                    started_ms: now_ms,
                    finished: false,
                    status: None,
                },
            ),
            final(self).dirty,
            final(self).message_id == old(self).message_id,
            final(self).last_edit_ms == old(self).last_edit_ms,
            final(self).tools == old(self).tools,
            same_plan(*old(self), *final(self)),
            same_meta(*old(self), *final(self)),
            same_reasoning(*old(self), *final(self)),
    {
        self.background_tasks.push(
            BackgroundTask {
                task_id,
                agent_name,
                description,
                started_ms: now_ms,
                finished: false,
                status: None,
            },
        );
        self.dirty = true;
    }

    /// A background task ended: the first task with this id is marked
    /// finished with its status and the message marked; an unknown id
    /// changes nothing.
    pub fn on_background_task_done(&mut self, task_id: &str, status: BackgroundTaskStatus)
        ensures
            final(self).background_tasks@.len() == old(self).background_tasks@.len(),
            match first_task_with_id(old(self).background_tasks@, task_id@, 0) {
                Some(i) => {
                    &&& final(self).background_tasks@[i].task_id == old(self).background_tasks@[i].task_id
                    &&& final(self).background_tasks@[i].agent_name == old(self).background_tasks@[i].agent_name
                    &&& final(self).background_tasks@[i].description == old(self).background_tasks@[i].description
                    &&& final(self).background_tasks@[i].started_ms == old(self).background_tasks@[i].started_ms
                    &&& final(self).background_tasks@[i].finished
                    &&& final(self).background_tasks@[i].status == Some(status)
                    &&& forall|j: int|
                        0 <= j < old(self).background_tasks@.len() && j != i ==> final(self).background_tasks@[j] == old(self).background_tasks@[j]
                    &&& final(self).dirty
                },
                None => {
                    &&& final(self).background_tasks@ == old(self).background_tasks@
                    &&& final(self).dirty == old(self).dirty
                },
            },
            final(self).message_id == old(self).message_id,
            final(self).last_edit_ms == old(self).last_edit_ms,
            final(self).tools == old(self).tools,
            same_plan(*old(self), *final(self)),
            same_meta(*old(self), *final(self)),
            same_reasoning(*old(self), *final(self)),
    {
        let n = self.background_tasks.len();
        let mut i: usize = 0;
        while i < n
            invariant
                n == self.background_tasks@.len(),
                self.background_tasks == old(self).background_tasks,
                i <= n,
                first_task_with_id(self.background_tasks@, task_id@, 0) == first_task_with_id(
                    self.background_tasks@,
                    task_id@,
                    i as int,
                ),
            ensures
                i <= n,
                self.background_tasks == old(self).background_tasks,
                first_task_with_id(self.background_tasks@, task_id@, 0) == first_task_with_id(
                    self.background_tasks@,
                    task_id@,
                    i as int,
                ),
                i < n ==> self.background_tasks@[i as int].task_id@ == task_id@,
            decreases n - i,
        {
            if str_eq(self.background_tasks[i].task_id.as_str(), task_id) {
                break;
            }
            i = i + 1;
        }
        if i < n {
            let mut t = self.background_tasks.remove(i);
            t.finished = true;
            t.status = Some(status);
            self.background_tasks.insert(i, t);
            self.dirty = true;
            proof {
                assert forall|j: int| 0 <= j < n && j != i implies self.background_tasks@[j] == old(self).background_tasks@[j] by {}
            }
        }
    }

    /// The throttle tick: once a message exists it is always refreshed
    /// (its elapsed time moves on); before that, one is sent only for
    /// pending changes with something to show (a tool line or thinking).
    pub fn tick(&mut self, now_ms: u64) -> (r: ProgressAction)
        ensures
            final(self).message_id == old(self).message_id,
            same_content(*old(self), *final(self)),
            if old(self).message_id is Some || (old(self).dirty && (old(self).tools@.len() > 0
                || old(self).thinking)) {
                &&& r == edit_or_send(old(self).message_id)
                &&& final(self).last_edit_ms == now_ms
                &&& !final(self).dirty
            } else {
                &&& r is Nothing
                &&& final(self).last_edit_ms == old(self).last_edit_ms
                &&& final(self).dirty == old(self).dirty
            },
    {
        if self.message_id.is_some() || (self.dirty && (self.tools.len() > 0 || self.thinking)) {
            self.last_edit_ms = now_ms;
            self.dirty = false;
            match self.message_id {
                Some(id) => ProgressAction::Edit(id),
                None => ProgressAction::SendNew,
            }
        } else {
            ProgressAction::Nothing
        }
    }

    /// A new progress message went out with this id.
    pub fn set_message_id(&mut self, id: i32)
        ensures
            final(self).message_id == Some(id),
            final(self).last_edit_ms == old(self).last_edit_ms,
            final(self).dirty == old(self).dirty,
            same_content(*old(self), *final(self)),
    {
        self.message_id = Some(id);
    }

    /// The message was sent or edited outside a throttled refresh.
    pub fn mark_edited(&mut self, now_ms: u64)
        ensures
            final(self).last_edit_ms == now_ms,
            final(self).message_id == old(self).message_id,
            final(self).dirty == old(self).dirty,
            same_content(*old(self), *final(self)),
    {
        self.last_edit_ms = now_ms;
    }

    /// A plan was created. A plan of one step is shown like a reactive
    /// turn (nothing changes, `false`); else the plan starts with that many
    /// pending steps and its goal, and the caller sends its first rendering.
    pub fn on_plan_created(&mut self, total_steps: usize, goal: String) -> (r: bool)
        ensures
            r == (total_steps > 1),
            r ==> {
                &&& final(self).plan_steps matches Some(v) && steps_v(v@) == Seq::new(
                    total_steps as nat,
                    |i: int| blank_step(),
                )
                &&& final(self).plan_goal == Some(goal)
            },
            !r ==> final(self).plan_steps == old(self).plan_steps && final(self).plan_goal == old(self).plan_goal,
            final(self).plan_current_step == old(self).plan_current_step,
            final(self).saved_plan_steps == old(self).saved_plan_steps,
            same_output(*old(self), *final(self)),
            final(self).tools == old(self).tools,
            same_meta(*old(self), *final(self)),
            same_reasoning(*old(self), *final(self)),
            final(self).background_tasks == old(self).background_tasks,
    {
        if total_steps <= 1 {
            return false;
        }
        let mut steps: Vec<PlanStepState> = Vec::new();
        for i in 0..total_steps
            invariant
                steps_v(steps@) == Seq::new(i as nat, |k: int| blank_step()),
        {
            let ghost prev = steps@;
            let x = blank_plan_step();
            steps.push(x);
            proof {
                lemma_steps_v_push(prev, x);
                assert(steps_v(steps@) =~= Seq::new(i as nat + 1, |k: int| blank_step()));
            }
        }
        self.plan_steps = Some(steps);
        self.plan_goal = Some(goal);
        true
    }

    /// Progress of plan step `current_step` (plan mode only; else nothing
    /// changes). When the current step changes, the previous one is done if
    /// it was running and the tool list starts over; steps are added up to
    /// the reported one (a replan numbers its steps on); the step takes the
    /// reported status, and its task from the status text when it has
    /// none. The message is edited when due, else marked for the tick.
    pub fn on_plan_progress(
        &mut self,
        current_step: usize,
        step_status: PlanStepStatus,
        status_text: &str,
        now_ms: u64,
    ) -> (r: ProgressAction)
        ensures
            same_meta(*old(self), *final(self)),
            same_reasoning(*old(self), *final(self)),
            final(self).background_tasks == old(self).background_tasks,
            final(self).plan_goal == old(self).plan_goal,
            final(self).saved_plan_steps == old(self).saved_plan_steps,
            final(self).message_id == old(self).message_id,
            match old(self).plan_steps {
                None => {
                    &&& *final(self) == *old(self)
                    &&& r is Nothing
                },
                Some(v) => {
                    &&& final(self).plan_steps matches Some(w) && steps_v(w@) == steps_after_progress(
                        steps_v(v@),
                        old(self).plan_current_step,
                        current_step as nat,
                        reported_v(step_status),
                        status_text@,
                    )
                    &&& final(self).plan_current_step == Some(current_step)
                    &&& if old(self).plan_current_step == Some(current_step) {
                        final(self).tools == old(self).tools
                    } else {
                        final(self).tools@.len() == 0
                    }
                    &&& refreshed(*old(self), *final(self), now_ms)
                    &&& r == if edit_due(*old(self), now_ms) {
                        edit_if_any(old(self).message_id)
                    } else {
                        ProgressAction::Nothing
                    }
                },
            },
    {
        if self.plan_steps.is_none() {
            return ProgressAction::Nothing;
        }
        let ghost v0 = steps_v(self.plan_steps->0@);
        let mut steps = match self.plan_steps.take() {
            Some(v) => v,
            None => Vec::new(),
        };
        let transition = match self.plan_current_step {
            Some(p) => p != current_step,
            None => true,
        };
        if transition {
            match self.plan_current_step {
                Some(p) => {
                    if p < steps.len() && matches!(steps[p].status, StepStatus::Running) {
                        set_step_status(&mut steps, p, StepStatus::Done);
                    }
                },
                None => {},
            }
            self.tools = Vec::new();
            self.plan_current_step = Some(current_step);
        }
        let ghost a = steps_v(steps@);
        proof {
            assert(a == match old(self).plan_current_step {
                Some(p) => if p != current_step && p < v0.len() && v0[p as int].1 == StepV::Running {
                    v0.update(p as int, (v0[p as int].0, StepV::Done))
                } else {
                    v0
                },
                None => v0,
            });
        }
        while steps.len() <= current_step
            invariant
                a.len() <= steps@.len(),
                a.len() <= current_step ==> steps@.len() <= current_step + 1,
                a.len() > current_step ==> steps@.len() == a.len(),
                steps_v(steps@) == a + Seq::new((steps@.len() - a.len()) as nat, |i: int| blank_step()),
            decreases current_step + 1 - steps@.len(),
        {
            let ghost prev = steps@;
            let x = blank_plan_step();
            steps.push(x);
            proof {
                lemma_steps_v_push(prev, x);
                assert(steps_v(steps@) =~= a + Seq::new((steps@.len() - a.len()) as nat, |i: int| blank_step()));
            }
        }
        let ghost b = steps_v(steps@);
        proof {
            if current_step < a.len() {
                assert(b =~= a);
            } else {
                assert(b =~= a + Seq::new((current_step + 1 - a.len()) as nat, |i: int| blank_step()));
            }
        }
        let mut st = steps.remove(current_step);
        st.status = reported_status(step_status);
        if chars_of(st.task.as_str()).len() == 0 {
            st.task = task_from_exec(status_text);
        }
        steps.insert(current_step, st);
        proof {
            assert(steps_v(steps@) =~= b.update(
                current_step as int,
                (if b[current_step as int].0.len() == 0 {
                    task_from(status_text@)
                } else {
                    b[current_step as int].0
                }, reported_v(step_status)),
            ));
        }
        self.plan_steps = Some(steps);
        if self.is_edit_due(now_ms) {
            self.last_edit_ms = now_ms;
            self.dirty = false;
            match self.message_id {
                Some(id) => ProgressAction::Edit(id),
                None => ProgressAction::Nothing,
            }
        } else {
            self.dirty = true;
            ProgressAction::Nothing
        }
    }

    /// The plan is being replanned (plan mode only; else nothing changes):
    /// the current step failed with the reason, the steps still pending are
    /// dropped (the new ones arrive numbered on), and the message is edited
    /// at once.
    pub fn on_plan_replan(&mut self, reason: String, now_ms: u64) -> (r: ProgressAction)
        ensures
            final(self).tools == old(self).tools,
            same_meta(*old(self), *final(self)),
            same_reasoning(*old(self), *final(self)),
            final(self).background_tasks == old(self).background_tasks,
            final(self).plan_goal == old(self).plan_goal,
            final(self).plan_current_step == old(self).plan_current_step,
            final(self).saved_plan_steps == old(self).saved_plan_steps,
            final(self).message_id == old(self).message_id,
            final(self).dirty == old(self).dirty,
            match old(self).plan_steps {
                None => {
                    &&& *final(self) == *old(self)
                    &&& r is Nothing
                },
                Some(v) => {
                    &&& final(self).plan_steps matches Some(w) && steps_v(w@) == drop_pending(
                        match old(self).plan_current_step {
                            Some(c) => if c < v@.len() {
                                steps_v(v@).update(c as int, (v@[c as int].task@, StepV::Failed(reason@)))
                            } else {
                                steps_v(v@)
                            },
                            None => steps_v(v@),
                        },
                    )
                    &&& final(self).last_edit_ms == now_ms
                    &&& r == edit_if_any(old(self).message_id)
                },
            },
    {
        if self.plan_steps.is_none() {
            return ProgressAction::Nothing;
        }
        let mut steps = match self.plan_steps.take() {
            Some(v) => v,
            None => Vec::new(),
        };
        match self.plan_current_step {
            Some(c) => {
                if c < steps.len() {
                    set_step_status(&mut steps, c, StepStatus::Failed(reason));
                }
            },
            None => {},
        }
        let ghost a = steps_v(steps@);
        let mut rest = steps;
        let mut kept: Vec<PlanStepState> = Vec::new();
        while rest.len() > 0
            invariant
                a.len() >= rest@.len(),
                steps_v(rest@) == a.skip(a.len() - rest@.len()),
                steps_v(kept@) == drop_pending(a.take(a.len() - rest@.len())),
            decreases rest@.len(),
        {
            let ghost k = a.len() - rest@.len();
            let ghost prev_kept = kept@;
            let ghost prev_rest = rest@;
            let x = rest.remove(0);
            proof {
                assert(step_v(x) == a[k]) by {
                    assert(steps_v(prev_rest)[0] == a.skip(k)[0]);
                }
                assert forall|j: int| 0 <= j < rest@.len() implies steps_v(rest@)[j] == a.skip(k + 1)[j] by {
                    assert(rest@[j] == prev_rest[j + 1]);
                    assert(steps_v(prev_rest)[j + 1] == a.skip(k)[j + 1]);
                }
                assert(steps_v(rest@) =~= a.skip(k + 1));
                assert(a.take(k + 1).drop_last() =~= a.take(k));
                assert(a.take(k + 1).last() == a[k]);
            }
            if !matches!(x.status, StepStatus::Pending) {
                kept.push(x);
                proof {
                    lemma_steps_v_push(prev_kept, x);
                }
            }
        }
        proof {
            assert(a.take(a.len() as int) =~= a);
        }
        self.plan_steps = Some(kept);
        self.last_edit_ms = now_ms;
        match self.message_id {
            Some(id) => ProgressAction::Edit(id),
            None => ProgressAction::Nothing,
        }
    }

    /// The plan completed (plan mode only; else nothing changes): running
    /// steps are done (pending ones stay pending), the steps are saved as
    /// trace lines with the summary when there is one, and the message is
    /// edited to its final rendering.
    pub fn on_plan_completed(&mut self, summary: &str) -> (r: ProgressAction)
        ensures
            final(self).tools == old(self).tools,
            same_meta(*old(self), *final(self)),
            same_reasoning(*old(self), *final(self)),
            same_output(*old(self), *final(self)),
            final(self).background_tasks == old(self).background_tasks,
            final(self).plan_goal == old(self).plan_goal,
            final(self).plan_current_step == old(self).plan_current_step,
            match old(self).plan_steps {
                None => {
                    &&& *final(self) == *old(self)
                    &&& r is Nothing
                },
                Some(v) => {
                    &&& final(self).plan_steps matches Some(w) && steps_v(w@) == steps_completed(
                        steps_v(v@),
                    )
                    &&& final(self).saved_plan_steps@.map_values(|x: String| x@) == saved_lines(
                        steps_completed(steps_v(v@)),
                        summary@,
                    )
                    &&& r == edit_if_any(old(self).message_id)
                },
            },
    {
        if self.plan_steps.is_none() {
            return ProgressAction::Nothing;
        }
        let mut steps = match self.plan_steps.take() {
            Some(v) => v,
            None => Vec::new(),
        };
        let ghost v0 = steps_v(steps@);
        let n = steps.len();
        for i in 0..n
            invariant
                n == steps@.len(),
                n == v0.len(),
                steps_v(steps@) == steps_completed(v0).take(i as int) + v0.skip(i as int),
        {
            let ghost before = steps_v(steps@);
            if matches!(steps[i].status, StepStatus::Running) {
                set_step_status(&mut steps, i, StepStatus::Done);
            }
            proof {
                assert(before[i as int] == v0[i as int]);
                assert(steps_v(steps@) =~= steps_completed(v0).take(i as int + 1) + v0.skip(i as int + 1));
            }
        }
        let ghost w = steps_v(steps@);
        proof {
            assert(w =~= steps_completed(v0));
        }
        let mut lines: Vec<String> = Vec::new();
        for i in 0..n
            invariant
                n == steps@.len(),
                w == steps_v(steps@),
                lines@.map_values(|x: String| x@) == Seq::new(i as nat, |k: int| saved_step_line(k as nat, w[k])),
        {
            let mut l: Vec<char> = Vec::new();
            match steps[i].status {
                StepStatus::Done => push_str(&mut l, "✅"),
                StepStatus::Failed(_) => push_str(&mut l, "❌"),
                _ => push_str(&mut l, "⬜"),
            }
            push_str(&mut l, " 第");
            push_decimal(&mut l, i as u128 + 1);
            push_str(&mut l, "步：");
            push_str(&mut l, steps[i].task.as_str());
            let ghost prev = lines@;
            let ls = string_of(&l);
            lines.push(ls);
            proof {
                assert(l@ =~= saved_step_line(i as nat, w[i as int]));
                assert(lines@.map_values(|x: String| x@) =~= prev.map_values(|x: String| x@).push(ls@));
                assert(lines@.map_values(|x: String| x@) =~= Seq::new(i as nat + 1, |k: int| saved_step_line(k as nat, w[k])));
            }
        }
        if chars_of(summary).len() > 0 {
            let mut l: Vec<char> = Vec::new();
            push_str(&mut l, "✅ ");
            push_str(&mut l, summary);
            let ghost prev = lines@;
            let ls = string_of(&l);
            lines.push(ls);
            proof {
                assert(lines@.map_values(|x: String| x@) =~= prev.map_values(|x: String| x@).push(ls@));
            }
        }
        proof {
            assert(lines@.map_values(|x: String| x@) =~= saved_lines(w, summary@));
        }
        self.plan_steps = Some(steps);
        self.saved_plan_steps = lines;
        match self.message_id {
            Some(id) => ProgressAction::Edit(id),
            None => ProgressAction::Nothing,
        }
    }

    /// What the message shows at `now_ms`, with the token counts rendered
    /// by the caller and the spinner verb it picked.
    pub fn view(&self, now_ms: u64, input_label: &str, output_label: &str, verb: &str) -> (r: ProgressView)
        ensures
            shows(r, *self, now_ms, input_label@, output_label@, verb@),
    {
        let mut tools: Vec<ToolProgress> = Vec::new();
        for i in 0..self.tools.len()
            invariant
                tools@.len() == i,
                forall|k: int| 0 <= k < i ==> shows_call(#[trigger] tools@[k], self.tools@[k], now_ms),
        {
            let t = &self.tools[i];
            tools.push(
                ToolProgress {
                    id: t.id.clone(),
                    raw_name: t.raw_name.clone(),
                    name: t.name.clone(),
                    activity: t.activity.clone(),
                    summary: t.summary.clone(),
                    emoji: t.emoji.clone(),
                    elapsed_ms: elapsed_ms(now_ms, t.started_ms),
                    finished: t.finished,
                    success: t.success,
                    duration_ms: t.duration_ms,
                    error: copy_opt(&t.error),
                    result_hint: copy_opt(&t.result_hint),
                },
            );
        }
        let mut tasks: Vec<BackgroundTaskState> = Vec::new();
        for i in 0..self.background_tasks.len()
            invariant
                tasks@.len() == i,
                forall|k: int|
                    0 <= k < i ==> shows_task(#[trigger] tasks@[k], self.background_tasks@[k], now_ms),
        {
            let t = &self.background_tasks[i];
            tasks.push(
                BackgroundTaskState {
                    task_id: t.task_id.clone(),
                    agent_name: t.agent_name.clone(),
                    description: t.description.clone(),
                    elapsed_ms: elapsed_ms(now_ms, t.started_ms),
                    finished: t.finished,
                    status: t.status,
                },
            );
        }
        ProgressView {
            thinking: self.thinking,
            reasoning_preview: self.reasoning_preview.clone(),
            loading_hint: self.loading_hint.clone(),
            verb: verb.to_string(),
            turn_elapsed_ms: elapsed_ms(now_ms, self.turn_started_ms),
            usage: TokenUsage {
                input_tokens: self.input_tokens,
                output_tokens: self.output_tokens,
                input_label: input_label.to_string(),
                output_label: output_label.to_string(),
                thinking_ms: self.thinking_ms,
            },
            tools,
            background_tasks: tasks,
        }
    }

    /// The text of the message at `now_ms`: the plan rendering in plan
    /// mode, else the reactive one. `None` exactly when, outside plan mode,
    /// the folded tools' total duration overflows (where the renderer has
    /// no value to show).
    pub fn render_text(
        &self,
        now_ms: u64,
        input_label: &str,
        output_label: &str,
        verb: &str,
        thinking_stage: &str,
    ) -> (r: Option<String>)
        ensures
            exists|v: ProgressView|
                {
                    &&& shows(v, *self, now_ms, input_label@, output_label@, verb@)
                    &&& match self.plan_steps {
                        Some(steps) => r matches Some(t) && t@ == join_lines(
                            plan_lines(opt_view(self.plan_goal), steps@, v, thinking_stage@),
                        ),
                        None => if durations_summable(v.tools@) {
                            r matches Some(t) && t@ == join_lines(progress_lines(v, thinking_stage@))
                        } else {
                            r is None
                        },
                    }
                },
    {
        let v = self.view(now_ms, input_label, output_label, verb);
        let r = match &self.plan_steps {
            Some(steps) => {
                let goal: Option<&str> = match &self.plan_goal {
                    Some(g) => Some(g.as_str()),
                    None => None,
                };
                Some(render_plan_progress(goal, steps, &v, thinking_stage))
            },
            None => {
                if durations_fit(&v.tools) {
                    Some(render_progress(&v, thinking_stage))
                } else {
                    None
                }
            },
        };
        proof {
            assert(shows(v, *self, now_ms, input_label@, output_label@, verb@));
        }
        r
    }

    /// The execution trace of the turn, finished at `now_ms`.
    pub fn to_trace(&self, now_ms: u64, input_label: &str, output_label: &str) -> (r: ExecutionTrace)
        ensures
            records(r, *self, now_ms, input_label@, output_label@),
    {
        let mut tools: Vec<ToolTraceEntry> = Vec::new();
        for i in 0..self.tools.len()
            invariant
                tools@.len() == i,
                forall|k: int| 0 <= k < i ==> records_call(#[trigger] tools@[k], self.tools@[k]),
        {
            let t = &self.tools[i];
            tools.push(
                ToolTraceEntry {
                    name: t.name.clone(),
                    duration_ms: t.duration_ms,
                    success: t.success,
                    summary: t.summary.clone(),
                    error: copy_opt(&t.error),
                },
            );
        }
        let mut steps: Vec<String> = Vec::new();
        for i in 0..self.saved_plan_steps.len()
            invariant
                steps@.map_values(|x: String| x@) == self.saved_plan_steps@.take(i as int).map_values(
                    |x: String| x@,
                ),
        {
            let ghost prev = steps@;
            let c = self.saved_plan_steps[i].clone();
            steps.push(c);
            proof {
                assert(steps@.map_values(|x: String| x@) =~= prev.map_values(|x: String| x@).push(c@));
                assert(self.saved_plan_steps@.take(i as int + 1).map_values(|x: String| x@)
                    =~= self.saved_plan_steps@.take(i as int).map_values(|x: String| x@).push(
                    self.saved_plan_steps@[i as int]@,
                ));
                assert(steps@.map_values(|x: String| x@) =~= self.saved_plan_steps@.take(i as int + 1).map_values(
                    |x: String| x@,
                ));
            }
        }
        proof {
            assert(self.saved_plan_steps@.take(self.saved_plan_steps@.len() as int) =~= self.saved_plan_steps@);
        }
        ExecutionTrace {
            duration_secs: elapsed_ms(now_ms, self.turn_started_ms) / 1000,
            usage: TokenUsage {
                input_tokens: self.input_tokens,
                output_tokens: self.output_tokens,
                input_label: input_label.to_string(),
                output_label: output_label.to_string(),
                thinking_ms: self.thinking_ms,
            },
            turn_rationale: copy_opt(&self.turn_rationale),
            thinking_preview: self.reasoning_preview.clone(),
            plan_steps: steps,
            tools,
            iterations: self.iterations,
            model: self.model.clone(),
            rara_message_id: self.rara_message_id.clone(),
        }
    }
}

fn copy_opt(o: &Option<String>) -> (r: Option<String>)
    ensures
        opt_view(r) == opt_view(*o),
{
    match o {
        Some(x) => Some(x.clone()),
        None => None,
    }
}

fn summary_callback_exec(prefix: &str, chat_id: i64, message_id: i32, trace_id: &str) -> (r: String)
    ensures
        r@ == summary_callback(prefix@, chat_id, message_id, trace_id@),
{
    let mut out: Vec<char> = Vec::new();
    push_str(&mut out, prefix);
    push_str(&mut out, ":");
    push_signed(&mut out, chat_id);
    push_str(&mut out, ":");
    push_signed(&mut out, message_id as i64);
    push_str(&mut out, ":");
    push_str(&mut out, trace_id);
    proof {
        assert(out@ =~= summary_callback(prefix@, chat_id, message_id, trace_id@));
    }
    string_of(&out)
}

/// The buttons under the compact summary of a finished turn whose trace
/// was saved as `trace_id`.
pub fn summary_keyboard(chat_id: i64, message_id: i32, trace_id: &str, has_background_tasks: bool) -> (r: Vec<
    InlineButton,
>)
    ensures
        row_view(r) == summary_buttons(chat_id, message_id, trace_id@, has_background_tasks),
{
    let mut row: Vec<InlineButton> = Vec::new();
    row.push(callback_button("📊 详情".to_string(), summary_callback_exec("trace:show", chat_id, message_id, trace_id)));
    row.push(callback_button("🔍 Cascade".to_string(), summary_callback_exec("cas:show", chat_id, message_id, trace_id)));
    if has_background_tasks {
        row.push(
            callback_button("📱 Dashboard".to_string(), summary_callback_exec("dash:tasks", chat_id, message_id, trace_id)),
        );
    }
    proof {
        assert(row_view(row) =~= summary_buttons(chat_id, message_id, trace_id@, has_background_tasks));
    }
    row
}

/// The prompt sent when the agent hit its tool-call limit: the text and a
/// row with the continue and stop buttons.
pub fn tool_call_limit_prompt(session_key: &str, limit_id: u64, tool_calls_made: u64, elapsed_secs: u64) -> (r: (
    String,
    Vec<InlineButton>,
))
    ensures
        r.0@ == limit_prompt_text(tool_calls_made, elapsed_secs),
        row_view(r.1) == limit_prompt_buttons(session_key@, limit_id),
{
    let mut text: Vec<char> = Vec::new();
    push_str(&mut text, "⚠️ <b>Agent Paused</b>\n\n已执行 <b>");
    push_decimal(&mut text, tool_calls_made as u128);
    push_str(&mut text, "</b> 次工具调用（耗时 ");
    push_decimal(&mut text, elapsed_secs as u128);
    push_str(&mut text, "s）。\n是否继续？");
    let mut cont: Vec<char> = Vec::new();
    push_str(&mut cont, "limit:continue:");
    push_str(&mut cont, session_key);
    push_str(&mut cont, ":");
    push_decimal(&mut cont, limit_id as u128);
    let mut stop: Vec<char> = Vec::new();
    push_str(&mut stop, "limit:stop:");
    push_str(&mut stop, session_key);
    push_str(&mut stop, ":");
    push_decimal(&mut stop, limit_id as u128);
    let mut row: Vec<InlineButton> = Vec::new();
    row.push(callback_button("▶️ 继续".to_string(), string_of(&cont)));
    row.push(callback_button("⏹ 停止".to_string(), string_of(&stop)));
    proof {
        assert(text@ =~= limit_prompt_text(tool_calls_made, elapsed_secs));
        assert(row_view(row) =~= limit_prompt_buttons(session_key@, limit_id));
    }
    (string_of(&text), row)
}

} // verus!
