//! The live progress message of a turn (tool lines, plan steps, background
//! tasks, a footer with elapsed time and tokens) and the summaries of a
//! finished turn's execution trace.
//!
//! Times are passed in as elapsed milliseconds. Token counts are shown with
//! one decimal (`12.5k`), a floating-point rendering this crate does not
//! do: callers pass the rendered counts. The tool emoji, the spinner verb
//! and the loading hint are chosen by the caller too.

use vstd::prelude::*;

use super::adapter::{compact_duration, format_duration_compact};
use crate::text::{
    chars_of, decimal, eq_lit, escape_html, first_line, first_line_exec, join_lines,
    join_lines_exec, push_decimal, push_escaped_html, push_escaped_str, push_seq, push_str,
    slice_of, starts_within, starts_within_exec, str_eq, lemma_utf8_len_append, str_to_lowercase, string_of, trim,
    trim_exec, utf8_len, utf8_len_exec, views,
};
use crate::tool_display::{summary_line, truncate_summary};

verus! {

// ---------------------------------------------------------------------------
// Tool lines
// ---------------------------------------------------------------------------

/// Progress of one tool call within a turn.
pub struct ToolProgress {
    pub id: String,
    /// Raw tool name from the model (e.g. `shell_execute`).
    pub raw_name: String,
    /// Display name of the tool.
    pub name: String,
    /// Activity label of the tool.
    pub activity: String,
    /// Argument summary.
    pub summary: String,
    /// Emoji of the tool.
    pub emoji: String,
    /// Milliseconds since the call started.
    pub elapsed_ms: u64,
    pub finished: bool,
    pub success: bool,
    /// How long the call took, once finished.
    pub duration_ms: Option<u64>,
    pub error: Option<String>,
    /// Compact hint about the result.
    pub result_hint: Option<String>,
}

/// The verb of a tool line: `$` for shell tools, else the display name.
pub open spec fn tool_verb(t: ToolProgress) -> Seq<char> {
    if t.raw_name@ == "shell_execute"@ || t.raw_name@ == "bash"@ {
        "$"@
    } else {
        t.name@
    }
}

/// The summary part of a tool line: a space and the summary's first line
/// cut to 50 characters, when there is a summary.
pub open spec fn summary_part(t: ToolProgress) -> Seq<char> {
    let s = summary_line(t.summary@, 50);
    if s.len() == 0 {
        seq![]
    } else {
        " "@ + s
    }
}

/// The duration part of a finished tool line.
pub open spec fn duration_part(t: ToolProgress) -> Seq<char> {
    match t.duration_ms {
        Some(ms) => " "@ + compact_duration(ms as nat),
        None => seq![],
    }
}

/// The result-hint part of a successful tool line.
pub open spec fn hint_part(t: ToolProgress) -> Seq<char> {
    match t.result_hint {
        Some(h) => " "@ + h@,
        None => seq![],
    }
}

/// The error part of a failed tool line: its first 40 characters.
pub open spec fn error_part(t: ToolProgress) -> Seq<char> {
    match t.error {
        Some(e) => ": "@ + e@.take(if e@.len() < 40 { e@.len() as int } else { 40 }),
        None => seq![],
    }
}

/// One tool line: done (`✅`), failed (`❌`) or running (`⏳`, with the
/// elapsed time); a running call in the thinking stage has no line.
pub open spec fn tool_line(t: ToolProgress, thinking_stage: Seq<char>) -> Seq<char> {
    let head = t.emoji@ + " "@ + tool_verb(t) + summary_part(t);
    if t.finished {
        if t.success {
            "✅ "@ + head + hint_part(t) + duration_part(t)
        } else {
            "❌ "@ + head + duration_part(t) + error_part(t)
        }
    } else if t.activity@ == thinking_stage {
        seq![]
    } else {
        "⏳ "@ + head + " "@ + compact_duration(t.elapsed_ms as nat)
    }
}

/// Append the head of a tool line: emoji, verb and summary part.
fn push_tool_head(out: &mut Vec<char>, t: &ToolProgress)
    ensures
        final(out)@ == old(out)@ + t.emoji@ + " "@ + tool_verb(*t) + summary_part(*t),
{
    let ghost start = out@;
    push_str(out, t.emoji.as_str());
    push_str(out, " ");
    let raw = chars_of(t.raw_name.as_str());
    if eq_lit(&raw, "shell_execute") || eq_lit(&raw, "bash") {
        push_str(out, "$");
    } else {
        push_str(out, t.name.as_str());
    }
    let summary = truncate_summary(t.summary.as_str(), 50);
    let ghost before_summary = out@;
    if chars_of(summary.as_str()).len() > 0 {
        push_str(out, " ");
        push_str(out, summary.as_str());
    }
    proof {
        reveal_strlit("");
        assert(out@ =~= before_summary + summary_part(*t));
        assert(out@ =~= start + t.emoji@ + " "@ + tool_verb(*t) + summary_part(*t));
    }
}

/// Append the tail of a failed tool line: duration and error.
fn push_failure_tail(out: &mut Vec<char>, t: &ToolProgress)
    ensures
        final(out)@ == old(out)@ + duration_part(*t) + error_part(*t),
{
    let ghost start = out@;
    push_duration(out, t.duration_ms);
    let ghost after_dur = out@;
    match &t.error {
        Some(e) => {
            push_str(out, ": ");
            let ev = chars_of(e.as_str());
            let k = if ev.len() < 40 {
                ev.len()
            } else {
                40
            };
            push_seq(out, &slice_of(&ev, 0, k));
            proof {
                assert(ev@.subrange(0, k as int) =~= e@.take(k as int));
            }
        },
        None => {},
    }
    proof {
        assert(out@ =~= after_dur + error_part(*t));
        assert(out@ =~= start + duration_part(*t) + error_part(*t));
    }
}

/// Append the tail of a successful tool line: result hint and duration.
fn push_success_tail(out: &mut Vec<char>, t: &ToolProgress)
    ensures
        final(out)@ == old(out)@ + hint_part(*t) + duration_part(*t),
{
    let ghost start = out@;
    match &t.result_hint {
        Some(h) => {
            push_str(out, " ");
            push_str(out, h.as_str());
        },
        None => {},
    }
    let ghost after_hint = out@;
    push_duration(out, t.duration_ms);
    proof {
        assert(after_hint =~= start + hint_part(*t));
        assert(out@ =~= start + hint_part(*t) + duration_part(*t));
    }
}

/// Format a single tool line of the progress message.
pub fn format_tool_line(t: &ToolProgress, thinking_stage: &str) -> (r: String)
    ensures
        r@ == tool_line(*t, thinking_stage@),
{
    let mut out: Vec<char> = Vec::new();
    if !t.finished && str_eq(t.activity.as_str(), thinking_stage) {
        proof {
            assert(out@ =~= tool_line(*t, thinking_stage@));
        }
        return string_of(&out);
    }
    if t.finished {
        if t.success {
            push_str(&mut out, "✅ ");
            push_tool_head(&mut out, t);
            push_success_tail(&mut out, t);
        } else {
            push_str(&mut out, "❌ ");
            push_tool_head(&mut out, t);
            push_failure_tail(&mut out, t);
        }
    } else {
        push_str(&mut out, "⏳ ");
        push_tool_head(&mut out, t);
        push_str(&mut out, " ");
        push_str(&mut out, format_duration_compact(t.elapsed_ms as u128).as_str());
    }
    proof {
        assert(out@ =~= tool_line(*t, thinking_stage@));
    }
    string_of(&out)
}

/// Append the duration part of a finished tool line.
fn push_duration(out: &mut Vec<char>, duration_ms: Option<u64>)
    ensures
        final(out)@ == old(out)@ + match duration_ms {
            Some(ms) => " "@ + compact_duration(ms as nat),
            None => seq![],
        },
{
    let ghost start = out@;
    match duration_ms {
        Some(ms) => {
            push_str(out, " ");
            push_str(out, format_duration_compact(ms as u128).as_str());
            proof {
                assert(out@ =~= start + " "@ + compact_duration(ms as nat));
            }
        },
        None => {
            proof {
                assert(out@ =~= start);
            }
        },
    }
}

// ---------------------------------------------------------------------------
// Thinking hint
// ---------------------------------------------------------------------------

/// The thinking hint: the first line of the reasoning so far (60
/// characters, `…` when cut), else the loading hint.
pub open spec fn thinking_hint_text(reasoning: Seq<char>, loading_hint: Seq<char>) -> Seq<char> {
    let p = trim(reasoning);
    if p.len() == 0 {
        "🧠 "@ + loading_hint
    } else {
        let line = first_line(p);
        "🧠 "@ + line.take(if line.len() < 60 { line.len() as int } else { 60 }) + if line.len() > 60 {
            "…"@
        } else {
            seq![]
        }
    }
}

/// Build the thinking hint of the progress message.
pub fn thinking_hint(reasoning_preview: &str, loading_hint: &str) -> (r: String)
    ensures
        r@ == thinking_hint_text(reasoning_preview@, loading_hint@),
{
    let p = trim_exec(&chars_of(reasoning_preview));
    let mut out: Vec<char> = Vec::new();
    push_str(&mut out, "🧠 ");
    if p.len() == 0 {
        push_str(&mut out, loading_hint);
        return string_of(&out);
    }
    let line = first_line_exec(&p);
    let k = if line.len() < 60 {
        line.len()
    } else {
        60
    };
    push_seq(&mut out, &slice_of(&line, 0, k));
    if line.len() > 60 {
        push_str(&mut out, "…");
    }
    proof {
        reveal_strlit("");
        assert(line@.subrange(0, k as int) =~= line@.take(k as int));
        assert(out@ =~= thinking_hint_text(reasoning_preview@, loading_hint@));
    }
    string_of(&out)
}

// ---------------------------------------------------------------------------
// Background tasks and footer
// ---------------------------------------------------------------------------

/// How a background task ended.
#[derive(Debug, Clone, Copy, PartialEq, Eq, Structural)]
pub enum BackgroundTaskStatus {
    Completed,
    Failed,
    Cancelled,
}

/// A background task (sub-agent) spawned during the turn.
pub struct BackgroundTaskState {
    pub task_id: String,
    pub agent_name: String,
    pub description: String,
    /// Milliseconds since the task started.
    pub elapsed_ms: u64,
    pub finished: bool,
    pub status: Option<BackgroundTaskStatus>,
}

/// The status icon of a background task.
pub open spec fn task_icon(t: BackgroundTaskState) -> Seq<char> {
    if t.finished {
        match t.status {
            Some(BackgroundTaskStatus::Failed) => "❌"@,
            Some(BackgroundTaskStatus::Cancelled) => "⏹️"@,
            _ => "✅"@,
        }
    } else {
        "⏳"@
    }
}

/// The line of a background task.
pub open spec fn task_line(t: BackgroundTaskState) -> Seq<char> {
    task_icon(t) + " 🤖 "@ + t.agent_name@ + " — "@ + t.description@ + " "@ + compact_duration(
        t.elapsed_ms as nat,
    )
}

/// The background-task lines: none without tasks, else a blank line and
/// one line per task.
pub open spec fn task_lines(ts: Seq<BackgroundTaskState>) -> Seq<Seq<char>> {
    if ts.len() == 0 {
        seq![]
    } else {
        seq![seq![]] + ts.map_values(|t: BackgroundTaskState| task_line(t))
    }
}

/// The background-task lines of the progress message.
fn background_lines(ts: &Vec<BackgroundTaskState>) -> (r: Vec<Vec<char>>)
    ensures
        views(r@) == task_lines(ts@),
{
    let mut lines: Vec<Vec<char>> = Vec::new();
    if ts.len() == 0 {
        proof {
            assert(views(lines@) =~= task_lines(ts@));
        }
        return lines;
    }
    lines.push(Vec::new());
    for i in 0..ts.len()
        invariant
            views(lines@) == seq![Seq::<char>::empty()] + ts@.take(i as int).map_values(
                |t: BackgroundTaskState| task_line(t),
            ),
    {
        let t = &ts[i];
        let mut l: Vec<char> = Vec::new();
        if t.finished {
            match t.status {
                Some(BackgroundTaskStatus::Failed) => push_str(&mut l, "❌"),
                Some(BackgroundTaskStatus::Cancelled) => push_str(&mut l, "⏹️"),
                _ => push_str(&mut l, "✅"),
            }
        } else {
            push_str(&mut l, "⏳");
        }
        let ghost icon = l@;
        push_str(&mut l, " 🤖 ");
        push_str(&mut l, t.agent_name.as_str());
        push_str(&mut l, " — ");
        push_str(&mut l, t.description.as_str());
        push_str(&mut l, " ");
        push_str(&mut l, format_duration_compact(t.elapsed_ms as u128).as_str());
        proof {
            assert(icon == task_icon(*t));
            assert(l@ =~= task_line(*t));
        }
        let ghost before = lines@;
        lines.push(l);
        proof {
            assert(views(lines@) =~= views(before).push(l@));
            assert(ts@.take(i + 1) =~= ts@.take(i as int).push(*t));
            assert(views(lines@) =~= seq![Seq::<char>::empty()] + ts@.take(i + 1).map_values(
                |t: BackgroundTaskState| task_line(t),
            ));
        }
    }
    proof {
        assert(ts@.take(ts@.len() as int) =~= ts@);
    }
    lines
}

/// Token counts of the turn, with their renderings (`12.5k`).
pub struct TokenUsage {
    pub input_tokens: u32,
    pub output_tokens: u32,
    pub input_label: String,
    pub output_label: String,
    pub thinking_ms: u64,
}

/// Elapsed time, then the token counts when any, then the thinking time
/// when at least a second, separated by ` · `.
pub open spec fn footer_text(elapsed_ms: u64, u: TokenUsage) -> Seq<char> {
    compact_duration(elapsed_ms as nat) + (if u.input_tokens > 0 || u.output_tokens > 0 {
        " · ↑"@ + u.input_label@ + " ↓"@ + u.output_label@
    } else {
        seq![]
    }) + if u.thinking_ms / 1000 > 0 {
        " · thought "@ + decimal((u.thinking_ms / 1000) as nat) + "s"@
    } else {
        seq![]
    }
}

/// Append the footer text.
fn push_footer(out: &mut Vec<char>, elapsed_ms: u64, u: &TokenUsage)
    ensures
        final(out)@ == old(out)@ + footer_text(elapsed_ms, *u),
{
    let ghost start = out@;
    push_str(out, format_duration_compact(elapsed_ms as u128).as_str());
    let ghost a = out@;
    if u.input_tokens > 0 || u.output_tokens > 0 {
        push_str(out, " · ↑");
        push_str(out, u.input_label.as_str());
        push_str(out, " ↓");
        push_str(out, u.output_label.as_str());
    }
    let ghost b = out@;
    let secs = u.thinking_ms / 1000;
    if secs > 0 {
        push_str(out, " · thought ");
        push_decimal(out, secs as u128);
        push_str(out, "s");
    }
    proof {
        let tokens: Seq<char> = if u.input_tokens > 0 || u.output_tokens > 0 {
            " · ↑"@ + u.input_label@ + " ↓"@ + u.output_label@
        } else {
            seq![]
        };
        assert(b =~= a + tokens);
        assert(out@ =~= start + footer_text(elapsed_ms, *u));
    }
}

// ---------------------------------------------------------------------------
// Reactive progress
// ---------------------------------------------------------------------------

/// Number of finished tools among the first `n`.
pub open spec fn finished_count(tools: Seq<ToolProgress>, n: nat) -> nat
    decreases n,
{
    if n == 0 {
        0
    } else {
        finished_count(tools, (n - 1) as nat) + if tools[n - 1].finished {
            1nat
        } else {
            0nat
        }
    }
}

/// How many of the oldest finished tools are folded into one line: with
/// more than five tools, all finished ones but the last two.
pub open spec fn collapse_count(tools: Seq<ToolProgress>) -> nat {
    let f = finished_count(tools, tools.len());
    if tools.len() <= 5 || f <= 2 {
        0
    } else {
        (f - 2) as nat
    }
}

/// Whether tool `i` is one of the folded finished tools.
pub open spec fn folded(tools: Seq<ToolProgress>, i: int, collapse: nat) -> bool {
    tools[i].finished && finished_count(tools, (i + 1) as nat) <= collapse
}

/// Total duration of the folded tools among the first `n`, in milliseconds.
pub open spec fn folded_ms(tools: Seq<ToolProgress>, n: nat, collapse: nat) -> nat
    decreases n,
{
    if n == 0 {
        0
    } else {
        folded_ms(tools, (n - 1) as nat, collapse) + if folded(tools, n - 1, collapse) {
            match tools[n - 1].duration_ms {
                Some(ms) => ms as nat,
                None => 0nat,
            }
        } else {
            0nat
        }
    }
}

/// The lines of the tools among the first `n` that are not folded (and
/// have a line).
pub open spec fn shown_tool_lines(tools: Seq<ToolProgress>, n: nat, collapse: nat, stage: Seq<char>) -> Seq<
    Seq<char>,
>
    decreases n,
{
    if n == 0 {
        seq![]
    } else {
        let prev = shown_tool_lines(tools, (n - 1) as nat, collapse, stage);
        let line = tool_line(tools[n - 1], stage);
        if !folded(tools, n - 1, collapse) && line.len() > 0 {
            prev.push(line)
        } else {
            prev
        }
    }
}

/// The tool section: a line for the folded tools (with their total
/// duration when not zero), then the other tools' lines.
pub open spec fn tool_section(tools: Seq<ToolProgress>, stage: Seq<char>) -> Seq<Seq<char>> {
    let c = collapse_count(tools);
    (if c > 0 {
        let ms = folded_ms(tools, tools.len(), c);
        seq!["⋯ "@ + decimal(c) + " tools done"@ + if ms == 0 {
            seq![]
        } else {
            " ("@ + compact_duration(ms) + ")"@
        }]
    } else {
        seq![]
    }) + shown_tool_lines(tools, tools.len(), c, stage)
}

/// Whether every tool has finished.
pub open spec fn all_finished(tools: Seq<ToolProgress>) -> bool {
    forall|i: int| 0 <= i < tools.len() ==> #[trigger] tools[i].finished
}

/// The state the progress message renders.
pub struct ProgressView {
    /// The model is thinking (reasoning before any tool of this round).
    pub thinking: bool,
    pub reasoning_preview: String,
    pub loading_hint: String,
    /// The spinner verb of the footer.
    pub verb: String,
    pub turn_elapsed_ms: u64,
    pub usage: TokenUsage,
    pub tools: Vec<ToolProgress>,
    pub background_tasks: Vec<BackgroundTaskState>,
}

/// The lines of the reactive progress message: nothing before the first
/// tool unless thinking (then the hint and the spinner); else the tool
/// section, the hint when all tools are done and the model thinks again,
/// the background tasks and the footer.
pub open spec fn progress_lines(p: ProgressView, stage: Seq<char>) -> Seq<Seq<char>> {
    let hint = thinking_hint_text(p.reasoning_preview@, p.loading_hint@);
    let verb = str_to_lowercase(p.verb@);
    if p.tools@.len() == 0 {
        if !p.thinking {
            seq![]
        } else {
            seq![hint, "✳️ "@ + verb + "... "@ + compact_duration(p.turn_elapsed_ms as nat)]
        }
    } else {
        tool_section(p.tools@, stage) + (if all_finished(p.tools@) && p.thinking {
            seq![hint]
        } else {
            seq![]
        }) + task_lines(p.background_tasks@) + seq![
            "✳️ "@ + verb + "... "@ + footer_text(p.turn_elapsed_ms, p.usage),
        ]
    }
}

/// Whether the folded tools' total duration is one `Duration` can hold
/// (whole seconds fit 64 bits).
pub open spec fn durations_summable(tools: Seq<ToolProgress>) -> bool {
    folded_ms(tools, tools.len(), collapse_count(tools)) / 1000 <= u64::MAX
}

/// Count the finished tools.
fn count_finished(tools: &Vec<ToolProgress>) -> (r: usize)
    ensures
        r == finished_count(tools@, tools@.len()),
        r <= tools@.len(),
{
    let mut c: usize = 0;
    for i in 0..tools.len()
        invariant
            c == finished_count(tools@, i as nat),
            c <= i,
    {
        if tools[i].finished {
            c = c + 1;
        }
    }
    c
}

/// The tool section of the progress message.
fn tool_section_lines(tools: &Vec<ToolProgress>, stage: &str) -> (r: Vec<Vec<char>>)
    requires
        durations_summable(tools@),
    ensures
        views(r@) == tool_section(tools@, stage@),
{
    let total = tools.len();
    let f = count_finished(tools);
    let c: usize = if total <= 5 || f <= 2 {
        0
    } else {
        f - 2
    };
    let mut ms: u128 = 0;
    let mut seen: usize = 0;
    let mut shown: Vec<Vec<char>> = Vec::new();
    for i in 0..total
        invariant
            total == tools@.len(),
            c == collapse_count(tools@),
            durations_summable(tools@),
            seen == finished_count(tools@, i as nat),
            seen <= i,
            ms == folded_ms(tools@, i as nat, c as nat),
            ms <= i * 18446744073709551615,
            views(shown@) == shown_tool_lines(tools@, i as nat, c as nat, stage@),
    {
        let t = &tools[i];
        if t.finished {
            seen = seen + 1;
        }
        let is_folded = t.finished && seen <= c;
        if is_folded {
            match t.duration_ms {
                Some(d) => {
                    assert(i < total);
                    ms = ms + d as u128;
                },
                None => {},
            }
        } else {
            let line = format_tool_line(t, stage);
            let lv = chars_of(line.as_str());
            if lv.len() > 0 {
                let ghost before = shown@;
                shown.push(lv);
                proof {
                    assert(views(shown@) =~= views(before).push(lv@));
                }
            }
        }
        proof {
            assert(is_folded == folded(tools@, i as int, c as nat));
        }
    }
    let mut lines: Vec<Vec<char>> = Vec::new();
    if c > 0 {
        let mut l: Vec<char> = Vec::new();
        push_str(&mut l, "⋯ ");
        push_decimal(&mut l, c as u128);
        push_str(&mut l, " tools done");
        if ms > 0 {
            push_str(&mut l, " (");
            push_str(&mut l, format_duration_compact(ms).as_str());
            push_str(&mut l, ")");
        }
        proof {
            reveal_strlit("");
            let expect: Seq<char> = "⋯ "@ + decimal(c as nat) + " tools done"@ + if ms == 0 {
                seq![]
            } else {
                " ("@ + compact_duration(ms as nat) + ")"@
            };
            assert(l@ =~= expect);
        }
        lines.push(l);
    }
    let ghost head = views(lines@);
    let ghost shown_view = views(shown@);
    let mut shown = shown;
    lines.append(&mut shown);
    proof {
        assert(views(lines@) =~= head + shown_view);
        assert(ms == folded_ms(tools@, total as nat, c as nat));
        assert(views(lines@) =~= tool_section(tools@, stage@));
    }
    lines
}

/// Whether the folded tools' total duration is one the renderer can hold
/// (see [`durations_summable`]).
pub fn durations_fit(tools: &Vec<ToolProgress>) -> (r: bool)
    ensures
        r == durations_summable(tools@),
{
    let total = tools.len();
    let f = count_finished(tools);
    let c: usize = if total <= 5 || f <= 2 {
        0
    } else {
        f - 2
    };
    let mut ms: u128 = 0;
    let mut seen: usize = 0;
    for i in 0..total
        invariant
            total == tools@.len(),
            c == collapse_count(tools@),
            seen == finished_count(tools@, i as nat),
            seen <= i,
            ms == folded_ms(tools@, i as nat, c as nat),
            ms <= i * 18446744073709551615,
    {
        let t = &tools[i];
        if t.finished {
            seen = seen + 1;
        }
        if t.finished && seen <= c {
            match t.duration_ms {
                Some(d) => {
                    ms = ms + d as u128;
                },
                None => {},
            }
        }
        proof {
            assert((t.finished && seen <= c) == folded(tools@, i as int, c as nat));
        }
    }
    ms / 1000 <= 18446744073709551615
}

/// Whether all tools have finished.
fn all_done(tools: &Vec<ToolProgress>) -> (r: bool)
    ensures
        r == all_finished(tools@),
{
    for i in 0..tools.len()
        invariant
            forall|k: int| 0 <= k < i ==> #[trigger] tools@[k].finished,
    {
        if !tools[i].finished {
            return false;
        }
    }
    true
}

/// The spinner line: the verb, lowercased, then `rest`.
fn spinner_line(verb: &str, rest: &Vec<char>) -> (r: Vec<char>)
    ensures
        r@ == "✳️ "@ + str_to_lowercase(verb@) + "... "@ + rest@,
{
    let mut l: Vec<char> = Vec::new();
    push_str(&mut l, "✳️ ");
    push_str(&mut l, crate::text::to_lowercase(verb).as_str());
    push_str(&mut l, "... ");
    push_seq(&mut l, rest);
    l
}

/// Render the reactive progress message.
pub fn render_progress(p: &ProgressView, thinking_stage: &str) -> (r: String)
    requires
        durations_summable(p.tools@),
    ensures
        r@ == join_lines(progress_lines(*p, thinking_stage@)),
{
    let hint = thinking_hint(p.reasoning_preview.as_str(), p.loading_hint.as_str());
    let mut lines: Vec<Vec<char>> = Vec::new();
    if p.tools.len() == 0 {
        if p.thinking {
            lines.push(chars_of(hint.as_str()));
            let dur = chars_of(format_duration_compact(p.turn_elapsed_ms as u128).as_str());
            lines.push(spinner_line(p.verb.as_str(), &dur));
        }
        proof {
            assert(views(lines@) =~= progress_lines(*p, thinking_stage@));
        }
        return string_of(&join_lines_exec(&lines));
    }
    let mut section = tool_section_lines(&p.tools, thinking_stage);
    lines.append(&mut section);
    let ghost a = views(lines@);
    if all_done(&p.tools) && p.thinking {
        lines.push(chars_of(hint.as_str()));
    }
    let ghost b = views(lines@);
    let mut bg = background_lines(&p.background_tasks);
    let ghost bgv = views(bg@);
    lines.append(&mut bg);
    let ghost c = views(lines@);
    let mut footer: Vec<char> = Vec::new();
    push_footer(&mut footer, p.turn_elapsed_ms, &p.usage);
    let last = spinner_line(p.verb.as_str(), &footer);
    lines.push(last);
    proof {
        let h: Seq<Seq<char>> = if all_finished(p.tools@) && p.thinking {
            seq![thinking_hint_text(p.reasoning_preview@, p.loading_hint@)]
        } else {
            seq![]
        };
        assert(b =~= a + h);
        assert(c =~= b + bgv);
        assert(views(lines@) =~= c.push(last@));
        assert(views(lines@) =~= progress_lines(*p, thinking_stage@));
    }
    string_of(&join_lines_exec(&lines))
}

// ---------------------------------------------------------------------------
// Plan progress
// ---------------------------------------------------------------------------

/// Status of a plan step.
#[derive(Debug, Clone)]
pub enum StepStatus {
    Pending,
    Running,
    Done,
    Failed(String),
}

/// A plan step for display.
#[derive(Debug, Clone)]
pub struct PlanStepState {
    pub task: String,
    pub status: StepStatus,
}

/// The line of step `i` (0-based): status icon, `第N步：` and the task, and
/// for a failed step the start of the reason.
pub open spec fn step_line(step: PlanStepState, i: nat) -> Seq<char> {
    let (icon, suffix) = match step.status {
        StepStatus::Done => ("✅"@, seq![]),
        StepStatus::Running => ("▶️"@, seq![]),
        StepStatus::Failed(reason) => (
            "❌"@,
            ": "@ + reason@.take(if reason@.len() < 40 { reason@.len() as int } else { 40 }),
        ),
        StepStatus::Pending => ("⬜"@, seq![]),
    };
    icon + " 第"@ + decimal(i + 1) + "步："@ + step.task@ + suffix
}

/// The tool lines nested under the running step (indented), for the first
/// `n` tools that have a line.
pub open spec fn nested_tool_lines(tools: Seq<ToolProgress>, n: nat, stage: Seq<char>) -> Seq<Seq<char>>
    decreases n,
{
    if n == 0 {
        seq![]
    } else {
        let prev = nested_tool_lines(tools, (n - 1) as nat, stage);
        let line = tool_line(tools[n - 1], stage);
        if line.len() > 0 {
            prev.push("  "@ + line)
        } else {
            prev
        }
    }
}

/// The lines of the first `n` steps, tools nested under a running step.
pub open spec fn step_lines(steps: Seq<PlanStepState>, n: nat, tools: Seq<ToolProgress>, stage: Seq<char>) -> Seq<
    Seq<char>,
>
    decreases n,
{
    if n == 0 {
        seq![]
    } else {
        let step = steps[n - 1];
        step_lines(steps, (n - 1) as nat, tools, stage) + seq![step_line(step, (n - 1) as nat)] + if step.status
            is Running && tools.len() > 0 {
            nested_tool_lines(tools, tools.len(), stage)
        } else {
            seq![]
        }
    }
}

/// The lines of the plan progress message: the goal with the step count,
/// the steps, the background tasks and the footer.
pub open spec fn plan_lines(
    goal: Option<Seq<char>>,
    steps: Seq<PlanStepState>,
    p: ProgressView,
    stage: Seq<char>,
) -> Seq<Seq<char>> {
    seq![
        "📋 "@ + match goal {
            Some(g) => g,
            None => "Plan"@,
        } + "（"@ + decimal(steps.len()) + "步）"@,
        seq![],
    ] + step_lines(steps, steps.len(), p.tools@, stage) + task_lines(p.background_tasks@) + seq![
        seq![],
        "✳ "@ + footer_text(p.turn_elapsed_ms, p.usage),
    ]
}

/// The nested tool lines.
fn nested_lines(tools: &Vec<ToolProgress>, stage: &str) -> (r: Vec<Vec<char>>)
    ensures
        views(r@) == nested_tool_lines(tools@, tools@.len(), stage@),
{
    let mut out: Vec<Vec<char>> = Vec::new();
    for i in 0..tools.len()
        invariant
            views(out@) == nested_tool_lines(tools@, i as nat, stage@),
    {
        let line = chars_of(format_tool_line(&tools[i], stage).as_str());
        if line.len() > 0 {
            let mut l: Vec<char> = Vec::new();
            push_str(&mut l, "  ");
            push_seq(&mut l, &line);
            let ghost before = out@;
            out.push(l);
            proof {
                assert(views(out@) =~= views(before).push(l@));
            }
        }
    }
    out
}

/// The line of one step.
fn step_line_exec(step: &PlanStepState, i: usize) -> (r: Vec<char>)
    requires
        i < usize::MAX,
    ensures
        r@ == step_line(*step, i as nat),
{
    let mut l: Vec<char> = Vec::new();
    match &step.status {
        StepStatus::Done => push_str(&mut l, "✅"),
        StepStatus::Running => push_str(&mut l, "▶️"),
        StepStatus::Failed(_) => push_str(&mut l, "❌"),
        StepStatus::Pending => push_str(&mut l, "⬜"),
    }
    push_str(&mut l, " 第");
    push_decimal(&mut l, (i + 1) as u128);
    push_str(&mut l, "步：");
    push_str(&mut l, step.task.as_str());
    let ghost before = l@;
    match &step.status {
        StepStatus::Failed(reason) => {
            push_str(&mut l, ": ");
            let rv = chars_of(reason.as_str());
            let k = if rv.len() < 40 {
                rv.len()
            } else {
                40
            };
            push_seq(&mut l, &slice_of(&rv, 0, k));
            proof {
                assert(rv@.subrange(0, k as int) =~= reason@.take(k as int));
            }
        },
        _ => {},
    }
    proof {
        assert(l@ =~= step_line(*step, i as nat));
    }
    l
}

/// Render plan-mode progress: the steps, tool calls nested under the
/// running step.
pub fn render_plan_progress(goal: Option<&str>, steps: &Vec<PlanStepState>, p: &ProgressView, thinking_stage: &str) -> (r:
    String)
    ensures
        r@ == join_lines(
            plan_lines(
                match goal {
                    Some(g) => Some(g@),
                    None => None,
                },
                steps@,
                *p,
                thinking_stage@,
            ),
        ),
{
    let mut lines: Vec<Vec<char>> = Vec::new();
    let mut head: Vec<char> = Vec::new();
    push_str(&mut head, "📋 ");
    match goal {
        Some(g) => push_str(&mut head, g),
        None => push_str(&mut head, "Plan"),
    }
    push_str(&mut head, "（");
    push_decimal(&mut head, steps.len() as u128);
    push_str(&mut head, "步）");
    lines.push(head);
    lines.push(Vec::new());
    let ghost start = views(lines@);
    let nested = nested_lines(&p.tools, thinking_stage);
    for i in 0..steps.len()
        invariant
            views(nested@) == nested_tool_lines(p.tools@, p.tools@.len(), thinking_stage@),
            views(lines@) == start + step_lines(steps@, i as nat, p.tools@, thinking_stage@),
    {
        let step = &steps[i];
        let ghost before = views(lines@);
        lines.push(step_line_exec(step, i));
        let running = match step.status {
            StepStatus::Running => true,
            _ => false,
        };
        if running && p.tools.len() > 0 {
            for k in 0..nested.len()
                invariant
                    views(lines@) == before.push(step_line(*step, i as nat)) + views(nested@).take(k as int),
            {
                let ghost b2 = views(lines@);
                let copy = slice_of(&nested[k], 0, nested[k].len());
                lines.push(copy);
                proof {
                    assert(views(lines@) =~= b2.push(copy@));
                    assert(copy@ =~= views(nested@)[k as int]);
                    assert(views(nested@).take(k + 1) =~= views(nested@).take(k as int).push(views(nested@)[k as int]));
                }
            }
            proof {
                assert(views(nested@).take(nested@.len() as int) =~= views(nested@));
            }
        }
        proof {
            let tail: Seq<Seq<char>> = if step.status is Running && p.tools@.len() > 0 {
                nested_tool_lines(p.tools@, p.tools@.len(), thinking_stage@)
            } else {
                seq![]
            };
            assert(views(lines@) =~= before + seq![step_line(*step, i as nat)] + tail);
            assert(step_lines(steps@, (i + 1) as nat, p.tools@, thinking_stage@) =~= step_lines(
                steps@,
                i as nat,
                p.tools@,
                thinking_stage@,
            ) + seq![step_line(*step, i as nat)] + tail);
        }
    }
    let ghost mid = views(lines@);
    let mut bg = background_lines(&p.background_tasks);
    let ghost bgv = views(bg@);
    lines.append(&mut bg);
    lines.push(Vec::new());
    let mut footer: Vec<char> = Vec::new();
    push_str(&mut footer, "✳ ");
    push_footer(&mut footer, p.turn_elapsed_ms, &p.usage);
    lines.push(footer);
    proof {
        assert(views(lines@) =~= mid + bgv + seq![seq![], "✳ "@ + footer_text(p.turn_elapsed_ms, p.usage)]);
        assert(views(lines@) =~= plan_lines(
            match goal {
                Some(g) => Some(g@),
                None => None,
            },
            steps@,
            *p,
            thinking_stage@,
        ));
    }
    string_of(&join_lines_exec(&lines))
}

// ---------------------------------------------------------------------------
// Execution trace
// ---------------------------------------------------------------------------

/// One tool call of a finished turn.
pub struct ToolTraceEntry {
    pub name: String,
    pub duration_ms: Option<u64>,
    pub success: bool,
    pub summary: String,
    pub error: Option<String>,
}

/// The execution trace of a finished turn.
pub struct ExecutionTrace {
    pub duration_secs: u64,
    pub usage: TokenUsage,
    pub turn_rationale: Option<String>,
    pub thinking_preview: String,
    pub plan_steps: Vec<String>,
    pub tools: Vec<ToolTraceEntry>,
    pub iterations: u64,
    pub model: String,
    pub rara_message_id: String,
}

/// The compact one-line summary of a finished turn, e.g.
/// `✅ 45.0s · ↑12.5k ↓1.2k · thought 9s`.
pub open spec fn compact_summary(t: ExecutionTrace) -> Seq<char> {
    "✅ "@ + compact_duration(t.duration_secs as nat * 1000) + (if t.usage.input_tokens > 0
        || t.usage.output_tokens > 0 {
        " · ↑"@ + t.usage.input_label@ + " ↓"@ + t.usage.output_label@
    } else {
        seq![]
    }) + if t.usage.thinking_ms / 1000 > 0 {
        " · thought "@ + decimal((t.usage.thinking_ms / 1000) as nat) + "s"@
    } else {
        seq![]
    }
}

/// Render the compact summary of a finished turn.
pub fn render_compact_summary(t: &ExecutionTrace) -> (r: String)
    ensures
        r@ == compact_summary(*t),
{
    let mut out: Vec<char> = Vec::new();
    push_str(&mut out, "✅ ");
    push_str(&mut out, format_duration_compact(t.duration_secs as u128 * 1000).as_str());
    let ghost a = out@;
    if t.usage.input_tokens > 0 || t.usage.output_tokens > 0 {
        push_str(&mut out, " · ↑");
        push_str(&mut out, t.usage.input_label.as_str());
        push_str(&mut out, " ↓");
        push_str(&mut out, t.usage.output_label.as_str());
    }
    let ghost b = out@;
    let secs = t.usage.thinking_ms / 1000;
    if secs > 0 {
        push_str(&mut out, " · thought ");
        push_decimal(&mut out, secs as u128);
        push_str(&mut out, "s");
    }
    proof {
        let tokens: Seq<char> = if t.usage.input_tokens > 0 || t.usage.output_tokens > 0 {
            " · ↑"@ + t.usage.input_label@ + " ↓"@ + t.usage.output_label@
        } else {
            seq![]
        };
        assert(b =~= a + tokens);
        assert(out@ =~= compact_summary(*t));
    }
    string_of(&out)
}

/// The error line of a failed tool in the trace detail.
pub open spec fn trace_error_part(e: ToolTraceEntry) -> Seq<char> {
    match e.error {
        Some(er) => "\n    ⚠ "@ + escape_html(er@),
        None => seq![],
    }
}

/// The rationale section of the trace detail.
pub open spec fn rationale_part(t: ExecutionTrace) -> Seq<char> {
    match t.turn_rationale {
        Some(r) => "\n💭 <b>Rationale</b>\n<blockquote>"@ + escape_html(r@) + "</blockquote>\n"@,
        None => seq![],
    }
}

/// The start of a tool line of the trace detail: connector (`└` for the
/// last tool), name and duration.
pub open spec fn trace_tool_head(e: ToolTraceEntry, last: bool) -> Seq<char> {
    "  "@ + (if last {
        "└"@
    } else {
        "├"@
    }) + " "@ + escape_html(e.name@) + match e.duration_ms {
        Some(ms) => " ("@ + compact_duration(ms as nat) + ")"@,
        None => seq![],
    }
}

/// The rest of a tool line of the trace detail: outcome mark, summary and
/// error.
pub open spec fn trace_tool_tail(e: ToolTraceEntry) -> Seq<char> {
    " "@ + (if e.success {
        "✓"@
    } else {
        "✗"@
    }) + (if e.summary@.len() == 0 {
        seq![]
    } else {
        " — "@ + escape_html(e.summary@)
    }) + trace_error_part(e) + "\n"@
}

/// One tool line of the trace detail.
pub open spec fn trace_tool_line(e: ToolTraceEntry, last: bool) -> Seq<char> {
    trace_tool_head(e, last) + trace_tool_tail(e)
}

/// The lines of the first `n` tools of the trace detail.
pub open spec fn trace_tool_lines(tools: Seq<ToolTraceEntry>, n: nat) -> Seq<char>
    decreases n,
{
    if n == 0 {
        seq![]
    } else {
        trace_tool_lines(tools, (n - 1) as nat) + trace_tool_line(tools[n - 1], n == tools.len())
    }
}

/// The plan lines of the trace detail.
pub open spec fn trace_plan_lines(steps: Seq<String>, n: nat) -> Seq<char>
    decreases n,
{
    if n == 0 {
        seq![]
    } else {
        trace_plan_lines(steps, (n - 1) as nat) + "  "@ + escape_html(steps[n - 1]@) + "\n"@
    }
}

/// The sections of the trace detail: rationale, thinking, plan, tools.
pub open spec fn trace_sections(t: ExecutionTrace) -> Seq<char> {
    rationale_part(t) + thinking_part(t) + plan_part(t) + tools_part(t)
}

/// The full trace detail before the length cap.
pub open spec fn trace_detail_full(t: ExecutionTrace) -> Seq<char> {
    compact_summary(t) + "\n─────\n"@ + trace_sections(t) + "\n📊 <b>Usage</b>\n  "@ + decimal(
        t.iterations as nat,
    ) + " iterations · ↑"@ + t.usage.input_label@ + " ↓"@ + t.usage.output_label@ + " tokens"@ + (
    if t.model@.len() > 0 {
        " · "@ + escape_html(t.model@)
    } else {
        seq![]
    }) + "\n\n🆔 <b>Message ID</b>\n  <code>"@ + escape_html(t.rara_message_id@) + "</code>"@
}

/// The trace detail, cut after the characters that start within the first
/// 3990 bytes and marked when longer than 4000 bytes.
pub open spec fn trace_detail(t: ExecutionTrace) -> Seq<char> {
    let full = trace_detail_full(t);
    if utf8_len(full) > 4000 {
        full.take(starts_within(full, 0, 0, 3990)) + "\n…(truncated)"@
    } else {
        full
    }
}

/// Append the start of a tool line of the trace detail.
fn push_trace_tool_head(out: &mut Vec<char>, e: &ToolTraceEntry, last: bool)
    ensures
        final(out)@ == old(out)@ + trace_tool_head(*e, last),
{
    let ghost start = out@;
    push_str(out, "  ");
    if last {
        push_str(out, "└");
    } else {
        push_str(out, "├");
    }
    push_str(out, " ");
    push_escaped_str(out, e.name.as_str());
    push_duration_parens(out, e.duration_ms);
    proof {
        assert(out@ =~= start + trace_tool_head(*e, last));
    }
}

/// Append the rest of a tool line of the trace detail.
fn push_trace_tool_tail(out: &mut Vec<char>, e: &ToolTraceEntry)
    ensures
        final(out)@ == old(out)@ + trace_tool_tail(*e),
{
    let ghost start = out@;
    push_str(out, " ");
    if e.success {
        push_str(out, "✓");
    } else {
        push_str(out, "✗");
    }
    let ghost c = out@;
    if chars_of(e.summary.as_str()).len() > 0 {
        push_str(out, " — ");
        push_escaped_str(out, e.summary.as_str());
    }
    let ghost d = out@;
    match &e.error {
        Some(er) => {
            push_str(out, "\n    ⚠ ");
            push_escaped_str(out, er.as_str());
        },
        None => {},
    }
    let ghost f = out@;
    push_str(out, "\n");
    proof {
        let summary: Seq<char> = if e.summary@.len() == 0 {
            seq![]
        } else {
            " — "@ + escape_html(e.summary@)
        };
        assert(d =~= c + summary);
        assert(f =~= d + trace_error_part(*e));
        assert(out@ =~= start + trace_tool_tail(*e));
    }
}

/// Append one tool line of the trace detail.
fn push_trace_tool_line(out: &mut Vec<char>, e: &ToolTraceEntry, last: bool)
    ensures
        final(out)@ == old(out)@ + trace_tool_line(*e, last),
{
    push_trace_tool_head(out, e, last);
    push_trace_tool_tail(out, e);
}

/// Append ` (duration)` when there is a duration.
fn push_duration_parens(out: &mut Vec<char>, duration_ms: Option<u64>)
    ensures
        final(out)@ == old(out)@ + match duration_ms {
            Some(ms) => " ("@ + compact_duration(ms as nat) + ")"@,
            None => seq![],
        },
{
    let ghost start = out@;
    match duration_ms {
        Some(ms) => {
            push_str(out, " (");
            push_str(out, format_duration_compact(ms as u128).as_str());
            push_str(out, ")");
            proof {
                assert(out@ =~= start + " ("@ + compact_duration(ms as nat) + ")"@);
            }
        },
        None => {
            proof {
                assert(out@ =~= start);
            }
        },
    }
}

/// The thinking section of the trace detail.
pub open spec fn thinking_part(t: ExecutionTrace) -> Seq<char> {
    if t.thinking_preview@.len() > 0 {
        "\n🧠 <b>Thinking</b> ("@ + decimal((t.usage.thinking_ms / 1000) as nat) + "s)\n<blockquote>"@
            + escape_html(t.thinking_preview@) + "</blockquote>\n"@
    } else {
        seq![]
    }
}

/// The plan section of the trace detail.
pub open spec fn plan_part(t: ExecutionTrace) -> Seq<char> {
    if t.plan_steps@.len() > 0 {
        "\n📋 <b>Plan</b>\n"@ + trace_plan_lines(t.plan_steps@, t.plan_steps@.len())
    } else {
        seq![]
    }
}

/// The tools section of the trace detail.
pub open spec fn tools_part(t: ExecutionTrace) -> Seq<char> {
    if t.tools@.len() > 0 {
        "\n🔧 <b>Tools</b>\n"@ + trace_tool_lines(t.tools@, t.tools@.len())
    } else {
        seq![]
    }
}

/// Append the rationale and thinking sections.
fn push_rationale_thinking(out: &mut Vec<char>, t: &ExecutionTrace)
    ensures
        final(out)@ == old(out)@ + rationale_part(*t) + thinking_part(*t),
{
    let ghost start = out@;
    match &t.turn_rationale {
        Some(r) => {
            push_str(out, "\n💭 <b>Rationale</b>\n<blockquote>");
            push_escaped_str(out, r.as_str());
            push_str(out, "</blockquote>\n");
        },
        None => {},
    }
    let ghost a = out@;
    if chars_of(t.thinking_preview.as_str()).len() > 0 {
        push_str(out, "\n🧠 <b>Thinking</b> (");
        push_decimal(out, (t.usage.thinking_ms / 1000) as u128);
        push_str(out, "s)\n<blockquote>");
        push_escaped_str(out, t.thinking_preview.as_str());
        push_str(out, "</blockquote>\n");
    }
    proof {
        assert(a =~= start + rationale_part(*t));
        assert(out@ =~= a + thinking_part(*t));
    }
}

/// Append the plan and tools sections.
fn push_plan_tools(out: &mut Vec<char>, t: &ExecutionTrace)
    ensures
        final(out)@ == old(out)@ + plan_part(*t) + tools_part(*t),
{
    let ghost start = out@;
    if t.plan_steps.len() > 0 {
        push_str(out, "\n📋 <b>Plan</b>\n");
        let ghost h = out@;
        for i in 0..t.plan_steps.len()
            invariant
                out@ == h + trace_plan_lines(t.plan_steps@, i as nat),
        {
            push_str(out, "  ");
            push_escaped_str(out, t.plan_steps[i].as_str());
            push_str(out, "\n");
            proof {
                assert(out@ =~= h + trace_plan_lines(t.plan_steps@, (i + 1) as nat));
            }
        }
    }
    let ghost c = out@;
    let n = t.tools.len();
    if n > 0 {
        push_str(out, "\n🔧 <b>Tools</b>\n");
        let ghost h = out@;
        for i in 0..n
            invariant
                n == t.tools@.len(),
                out@ == h + trace_tool_lines(t.tools@, i as nat),
        {
            push_trace_tool_line(out, &t.tools[i], i == n - 1);
        }
    }
    proof {
        assert(c =~= start + plan_part(*t));
        assert(out@ =~= c + tools_part(*t));
    }
}

/// Append the sections of the trace detail.
fn push_trace_sections(out: &mut Vec<char>, t: &ExecutionTrace)
    ensures
        final(out)@ == old(out)@ + trace_sections(*t),
{
    let ghost start = out@;
    push_rationale_thinking(out, t);
    push_plan_tools(out, t);
    proof {
        assert(out@ =~= start + trace_sections(*t));
    }
}

/// Render the full trace detail of a finished turn, capped below
/// Telegram's message limit.
pub fn render_trace_detail(t: &ExecutionTrace) -> (r: String)
    ensures
        r@ == trace_detail(*t),
{
    let mut text: Vec<char> = chars_of(render_compact_summary(t).as_str());
    push_str(&mut text, "\n─────\n");
    push_trace_sections(&mut text, t);
    push_str(&mut text, "\n📊 <b>Usage</b>\n  ");
    push_decimal(&mut text, t.iterations as u128);
    push_str(&mut text, " iterations · ↑");
    push_str(&mut text, t.usage.input_label.as_str());
    push_str(&mut text, " ↓");
    push_str(&mut text, t.usage.output_label.as_str());
    push_str(&mut text, " tokens");
    let ghost before_model = text@;
    if chars_of(t.model.as_str()).len() > 0 {
        push_str(&mut text, " · ");
        push_escaped_str(&mut text, t.model.as_str());
    }
    let ghost after_model = text@;
    push_str(&mut text, "\n\n🆔 <b>Message ID</b>\n  <code>");
    push_escaped_str(&mut text, t.rara_message_id.as_str());
    push_str(&mut text, "</code>");
    proof {
        let model: Seq<char> = if t.model@.len() > 0 {
            " · "@ + escape_html(t.model@)
        } else {
            seq![]
        };
        assert(after_model =~= before_model + model);
        assert(text@ =~= trace_detail_full(*t));
    }
    if utf8_len_exec(&text) > 4000 {
        let end = starts_within_exec(&text, 3990);
        let mut cut = slice_of(&text, 0, end);
        push_str(&mut cut, "\n…(truncated)");
        proof {
            assert(cut@ =~= text@.take(end as int) + "\n…(truncated)"@);
        }
        return string_of(&cut);
    }
    string_of(&text)
}

// ---------------------------------------------------------------------------
// Cascade trace
// ---------------------------------------------------------------------------

/// Kind of a cascade entry.
#[derive(Debug, Clone, Copy, PartialEq, Eq, Structural)]
pub enum CascadeEntryKind {
    UserInput,
    Thought,
    Action,
    Observation,
}

/// One entry of a cascade tick.
pub struct CascadeEntry {
    pub kind: CascadeEntryKind,
    pub id: String,
    pub content: String,
}

/// One tick of a cascade.
pub struct CascadeTick {
    pub index: u64,
    pub entries: Vec<CascadeEntry>,
}

/// Counts of a cascade.
pub struct CascadeSummary {
    pub tick_count: u64,
    pub tool_call_count: u64,
    pub total_entries: u64,
}

/// A cascade trace: the ticks of a turn with their entries.
pub struct CascadeTrace {
    pub summary: CascadeSummary,
    pub ticks: Vec<CascadeTick>,
}

/// Byte budget of a cascade message.
pub const CASCADE_MAX_BYTES: usize = 4000;

/// Emoji and label of an entry kind.
pub open spec fn entry_badge(k: CascadeEntryKind) -> (Seq<char>, Seq<char>) {
    match k {
        CascadeEntryKind::UserInput => ("💬"@, "User Input"@),
        CascadeEntryKind::Thought => ("🧠"@, "Thought"@),
        CascadeEntryKind::Action => ("⚡"@, "Action"@),
        CascadeEntryKind::Observation => ("👁"@, "Observation"@),
    }
}

/// An entry's content: cut after the characters that start within its
/// first 300 bytes (with `…`) when longer, `(empty)` when empty.
pub open spec fn entry_content(c: Seq<char>) -> Seq<char> {
    if utf8_len(c) > 300 {
        c.take(starts_within(c, 0, 0, 300)) + "…"@
    } else if c.len() == 0 {
        "(empty)"@
    } else {
        c
    }
}

/// The block of one entry.
pub open spec fn entry_block(e: CascadeEntry) -> Seq<char> {
    "  "@ + entry_badge(e.kind).0 + " <b>"@ + entry_badge(e.kind).1 + "</b> · <code>"@ + escape_html(e.id@)
        + "</code>\n<blockquote>"@ + escape_html(entry_content(e.content@)) + "</blockquote>\n"@
}

/// The header of a tick.
pub open spec fn tick_header(t: CascadeTick) -> Seq<char> {
    "\n▶ <b>TICK "@ + decimal(t.index as nat + 1) + "</b>\n"@
}

/// The text after the entries of tick `ti` from entry `ei` on, then the
/// later ticks, are added to `text` while they fit the budget; whether
/// something was left out.
pub open spec fn cascade_entries(ticks: Seq<CascadeTick>, ti: int, ei: int, text: Seq<char>) -> (
    Seq<char>,
    bool,
)
    decreases ticks.len() - ti, ticks[ti].entries@.len() - ei, 0int,
{
    if ti < 0 || ti >= ticks.len() || ei < 0 {
        (text, false)
    } else if ei >= ticks[ti].entries@.len() {
        cascade_ticks(ticks, ti + 1, text)
    } else {
        let next = text + entry_block(ticks[ti].entries@[ei]);
        if utf8_len(next) > CASCADE_MAX_BYTES {
            (text, true)
        } else {
            cascade_entries(ticks, ti, ei + 1, next)
        }
    }
}

/// The text after the ticks from `ti` on are added to `text` while they
/// fit the budget; whether something was left out.
pub open spec fn cascade_ticks(ticks: Seq<CascadeTick>, ti: int, text: Seq<char>) -> (Seq<char>, bool)
    decreases ticks.len() - ti, ticks[ti].entries@.len() + 1, 1int,
{
    if ti < 0 || ti >= ticks.len() {
        (text, false)
    } else {
        let next = text + tick_header(ticks[ti]);
        if utf8_len(next) > CASCADE_MAX_BYTES {
            (text, true)
        } else {
            cascade_entries(ticks, ti, 0, next)
        }
    }
}

/// The cascade message: the header with the counts, then ticks and their
/// entries as long as they fit 4000 bytes (a block that would not fit is
/// left out with everything after it), and a marker when something was
/// left out.
pub open spec fn cascade_html(c: CascadeTrace) -> Seq<char> {
    let head = "🔍 <b>Cascade Trace</b>\n<i>"@ + decimal(c.summary.tick_count as nat) + " ticks · "@ + decimal(
        c.summary.tool_call_count as nat,
    ) + " tool calls · "@ + decimal(c.summary.total_entries as nat) + " entries</i>\n"@;
    let (text, cut) = cascade_ticks(c.ticks@, 0, head);
    if cut {
        text + "\n…(truncated)"@
    } else {
        text
    }
}


fn entry_badge_exec(k: CascadeEntryKind) -> (r: (&'static str, &'static str))
    ensures
        r.0@ == entry_badge(k).0,
        r.1@ == entry_badge(k).1,
{
    match k {
        CascadeEntryKind::UserInput => ("💬", "User Input"),
        CascadeEntryKind::Thought => ("🧠", "Thought"),
        CascadeEntryKind::Action => ("⚡", "Action"),
        CascadeEntryKind::Observation => ("👁", "Observation"),
    }
}

fn entry_block_exec(e: &CascadeEntry) -> (r: Vec<char>)
    ensures
        r@ == entry_block(*e),
{
    let (emoji, label) = entry_badge_exec(e.kind);
    let c = chars_of(e.content.as_str());
    let content: Vec<char> = if utf8_len_exec(&c) > 300 {
        let end = starts_within_exec(&c, 300);
        let mut cut = slice_of(&c, 0, end);
        push_str(&mut cut, "…");
        cut
    } else if c.len() == 0 {
        chars_of("(empty)")
    } else {
        c
    };
    proof {
        assert(content@ =~= entry_content(e.content@));
    }
    let mut out: Vec<char> = Vec::new();
    push_str(&mut out, "  ");
    push_str(&mut out, emoji);
    push_str(&mut out, " <b>");
    push_str(&mut out, label);
    push_str(&mut out, "</b> · <code>");
    push_escaped_str(&mut out, e.id.as_str());
    push_str(&mut out, "</code>\n<blockquote>");
    push_escaped_html(&mut out, &content);
    push_str(&mut out, "</blockquote>\n");
    proof {
        assert(out@ =~= entry_block(*e));
    }
    out
}

fn tick_header_exec(t: &CascadeTick) -> (r: Vec<char>)
    ensures
        r@ == tick_header(*t),
{
    let mut out: Vec<char> = Vec::new();
    push_str(&mut out, "\n▶ <b>TICK ");
    push_decimal(&mut out, t.index as u128 + 1);
    push_str(&mut out, "</b>\n");
    proof {
        assert(out@ =~= tick_header(*t));
    }
    out
}

/// Render a cascade trace as Telegram HTML: a header with the counts, then
/// each tick and its entries while they fit 4000 bytes. A block that would
/// not fit is left out with everything after it, so no tag is cut in two.
pub fn render_cascade_html(c: &CascadeTrace) -> (r: String)
    ensures
        r@ == cascade_html(*c),
{
    let mut text: Vec<char> = Vec::new();
    push_str(&mut text, "🔍 <b>Cascade Trace</b>\n<i>");
    push_decimal(&mut text, c.summary.tick_count as u128);
    push_str(&mut text, " ticks · ");
    push_decimal(&mut text, c.summary.tool_call_count as u128);
    push_str(&mut text, " tool calls · ");
    push_decimal(&mut text, c.summary.total_entries as u128);
    push_str(&mut text, " entries</i>\n");
    let ghost goal = cascade_ticks(c.ticks@, 0, text@);
    let mut len: u128 = utf8_len_exec(&text);
    let mut done = false;
    let n = c.ticks.len();
    let mut ti: usize = 0;
    while ti < n && !done
        invariant
            n == c.ticks@.len(),
            ti <= n,
            len == utf8_len(text@),
            len <= 4 * text@.len(),
            !done ==> cascade_ticks(c.ticks@, ti as int, text@) == goal,
            done ==> goal == (text@, true),
        decreases n - ti, (if done { 0int } else { 1int }),
    {
        let tick = &c.ticks[ti];
        let h = tick_header_exec(tick);
        let hl = utf8_len_exec(&h);
        let text_chars = text.len();
        let h_chars = h.len();
        proof {
            assert(len + hl <= 4 * text_chars + 4 * h_chars);
            lemma_utf8_len_append(text@, h@);
        }
        if len + hl > 4000 {
            done = true;
        } else {
            push_seq(&mut text, &h);
            len = len + hl;
            let m = tick.entries.len();
            let mut ei: usize = 0;
            while ei < m && !done
                invariant
                    n == c.ticks@.len(),
                    ti < n,
                    m == c.ticks@[ti as int].entries@.len(),
                    *tick == c.ticks@[ti as int],
                    ei <= m,
                    len == utf8_len(text@),
                    len <= 4 * text@.len(),
                    !done ==> cascade_entries(c.ticks@, ti as int, ei as int, text@) == goal,
                    done ==> goal == (text@, true),
                decreases m - ei, (if done { 0int } else { 1int }),
            {
                let b = entry_block_exec(&tick.entries[ei]);
                let bl = utf8_len_exec(&b);
                let text_chars = text.len();
                let b_chars = b.len();
                proof {
                    assert(len + bl <= 4 * text_chars + 4 * b_chars);
                    lemma_utf8_len_append(text@, b@);
                }
                if len + bl > 4000 {
                    done = true;
                } else {
                    push_seq(&mut text, &b);
                    len = len + bl;
                    ei = ei + 1;
                }
            }
            if !done {
                proof {
                    assert(cascade_entries(c.ticks@, ti as int, m as int, text@)
                        == cascade_ticks(c.ticks@, ti as int + 1, text@));
                }
                ti = ti + 1;
            }
        }
    }
    proof {
        if !done {
            assert(cascade_ticks(c.ticks@, n as int, text@) == (text@, false));
        }
    }
    if done {
        push_str(&mut text, "\n…(truncated)");
    }
    proof {
        assert(text@ =~= cascade_html(*c));
    }
    string_of(&text)
}

} // verus!






