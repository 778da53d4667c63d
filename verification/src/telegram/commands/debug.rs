//! `/debug <message_id>`: what the tape recorded for one message.
//!
//! The stream time and token counts are shown with one decimal (`1.5s`,
//! `15.2k`), a floating-point rendering the caller does; the tape entries
//! are summarized by the caller too.

use vstd::prelude::*;

use super::CommandReply;
use crate::text::{
    chars_of, decimal, escape_html, push_decimal, push_escaped_html, push_escaped_str, push_str,
    slice_of, string_of, trim, trim_exec,
};

verus! {

/// A tool call in the debug view.
pub struct DebugTool {
    pub name: String,
    pub duration_ms: Option<u64>,
    pub success: bool,
    pub error: Option<String>,
}

/// One entry of the timeline: its time and kind as shown, and its detail.
pub struct TimelineItem {
    pub timestamp: String,
    pub kind: String,
    pub detail: String,
}

/// What the tape holds for one message.
pub struct DebugSummary {
    pub message_id: String,
    pub entry_count: u64,
    pub model: Option<String>,
    pub iterations: u64,
    /// The stream time in seconds with one decimal, when there was one.
    pub stream_secs: Option<String>,
    pub input_tokens: u64,
    pub output_tokens: u64,
    /// The token counts rendered (`15.2k`).
    pub input_label: String,
    pub output_label: String,
    pub tools: Vec<DebugTool>,
    pub tool_failures: u64,
    pub timeline: Vec<TimelineItem>,
}

/// The reply to `/debug` without an id.
pub const DEBUG_USAGE: &'static str =
    "Usage: /debug <message_id>\n\nThe message ID is shown at the bottom of each response trace (🆔 Message ID).";

/// The message id `/debug` asks for, when the arguments hold more than
/// white space.
pub fn requested_message_id(args: &str) -> (r: Option<String>)
    ensures
        match r {
            Some(m) => m@ == trim(args@) && m@.len() > 0,
            None => trim(args@).len() == 0,
        },
{
    let t = trim_exec(&chars_of(args));
    if t.len() == 0 {
        None
    } else {
        Some(string_of(&t))
    }
}

/// The first `n` characters of `s`, or all of it.
pub open spec fn first_chars(s: Seq<char>, n: nat) -> Seq<char> {
    if s.len() <= n {
        s
    } else {
        s.take(n as int)
    }
}

/// The line of a tool call, and its error line when it failed with one.
pub open spec fn tool_block(t: DebugTool) -> Seq<char> {
    "  "@ + (if t.success {
        "✓"@
    } else {
        "✗"@
    }) + " <code>"@ + escape_html(t.name@) + "</code> ("@ + match t.duration_ms {
        Some(ms) => decimal(ms as nat) + "ms"@,
        None => "—"@,
    } + ")\n"@ + match t.error {
        Some(e) => "    ⚠️ "@ + escape_html(first_chars(e@, 150)) + "\n"@,
        None => seq![],
    }
}

/// The lines of the first `n` tool calls.
pub open spec fn tool_blocks(tools: Seq<DebugTool>, n: nat) -> Seq<char>
    decreases n,
{
    if n == 0 || n > tools.len() {
        seq![]
    } else {
        tool_blocks(tools, (n - 1) as nat) + tool_block(tools[n - 1])
    }
}

/// The line of a timeline item.
pub open spec fn timeline_line(t: TimelineItem) -> Seq<char> {
    "<code>"@ + t.timestamp@ + "</code> ["@ + t.kind@ + "] "@ + escape_html(t.detail@) + "\n"@
}

/// The lines of the first `n` timeline items.
pub open spec fn timeline_lines(items: Seq<TimelineItem>, n: nat) -> Seq<char>
    decreases n,
{
    if n == 0 || n > items.len() {
        seq![]
    } else {
        timeline_lines(items, (n - 1) as nat) + timeline_line(items[n - 1])
    }
}

/// The summary section: the entry count, then the model, iterations,
/// stream time, tokens and tool calls when there are any.
pub open spec fn summary_section(s: DebugSummary) -> Seq<char> {
    summary_head(s) + summary_tail(s)
}

/// The entry count, model and iterations lines.
pub open spec fn summary_head(s: DebugSummary) -> Seq<char> {
    "<b>📊 Summary</b>\n• Entries: "@ + decimal(s.entry_count as nat) + "\n"@ + (match s.model {
        Some(m) => "• Model: <code>"@ + escape_html(m@) + "</code>\n"@,
        None => seq![],
    }) + if s.iterations > 0 {
        "• Iterations: "@ + decimal(s.iterations as nat) + "\n"@
    } else {
        seq![]
    }
}

/// The stream time, tokens and tool calls lines.
pub open spec fn summary_tail(s: DebugSummary) -> Seq<char> {
    stream_part(s) + tokens_part(s) + tools_count_part(s)
}

/// The stream time line, when there was one.
pub open spec fn stream_part(s: DebugSummary) -> Seq<char> {
    match s.stream_secs {
        Some(t) => "• Stream: "@ + t@ + "s\n"@,
        None => seq![],
    }
}

/// The tokens line, when any token was counted.
pub open spec fn tokens_part(s: DebugSummary) -> Seq<char> {
    if s.input_tokens > 0 || s.output_tokens > 0 {
        "• Tokens: ↑"@ + s.input_label@ + " ↓"@ + s.output_label@ + "\n"@
    } else {
        seq![]
    }
}

/// The tool calls line, when there were any.
pub open spec fn tools_count_part(s: DebugSummary) -> Seq<char> {
    if s.tools@.len() > 0 {
        "• Tool calls: "@ + decimal(s.tools@.len()) + " ("@ + decimal(s.tool_failures as nat)
            + " failed)\n"@
    } else {
        seq![]
    }
}

/// The debug view of a message: its id, then (when the tape has entries
/// for it) the summary, the tool calls and the timeline.
pub open spec fn debug_html(s: DebugSummary) -> Seq<char> {
    let head = "<b>🔍 Debug: <code>"@ + escape_html(s.message_id@) + "</code></b>\n\n"@;
    if s.entry_count == 0 {
        head
            + "<i>No tape entries found for this message ID. It may have expired or never existed.</i>"@
    } else {
        head + summary_section(s) + (if s.tools@.len() > 0 {
            "\n<b>🔧 Tools</b>\n"@ + tool_blocks(s.tools@, s.tools@.len())
        } else {
            seq![]
        }) + "\n<b>📝 Timeline</b>\n"@ + timeline_lines(s.timeline@, s.timeline@.len())
    }
}

fn push_tool_block(out: &mut Vec<char>, t: &DebugTool)
    ensures
        final(out)@ == old(out)@ + tool_block(*t),
{
    let ghost start = out@;
    push_str(out, "  ");
    if t.success {
        push_str(out, "✓");
    } else {
        push_str(out, "✗");
    }
    push_str(out, " <code>");
    push_escaped_str(out, t.name.as_str());
    push_str(out, "</code> (");
    match t.duration_ms {
        Some(ms) => {
            push_decimal(out, ms as u128);
            push_str(out, "ms");
        },
        None => push_str(out, "—"),
    }
    push_str(out, ")\n");
    let ghost mid = out@;
    match &t.error {
        Some(e) => {
            let c = chars_of(e.as_str());
            let n = if c.len() <= 150 {
                c.len()
            } else {
                150
            };
            let p = slice_of(&c, 0, n);
            proof {
                assert(p@ =~= first_chars(e@, 150));
            }
            push_str(out, "    ⚠️ ");
            push_escaped_html(out, &p);
            push_str(out, "\n");
        },
        None => {},
    }
    proof {
        let err: Seq<char> = match &t.error {
            Some(e) => "    ⚠️ "@ + escape_html(first_chars(e@, 150)) + "\n"@,
            None => seq![],
        };
        assert(out@ =~= mid + err);
        assert(out@ =~= start + tool_block(*t));
    }
}

fn push_summary_head(out: &mut Vec<char>, s: &DebugSummary)
    ensures
        final(out)@ == old(out)@ + summary_head(*s),
{
    let ghost start = out@;
    push_str(out, "<b>📊 Summary</b>\n• Entries: ");
    push_decimal(out, s.entry_count as u128);
    push_str(out, "\n");
    let ghost a = out@;
    match &s.model {
        Some(m) => {
            push_str(out, "• Model: <code>");
            push_escaped_str(out, m.as_str());
            push_str(out, "</code>\n");
        },
        None => {},
    }
    let ghost b = out@;
    if s.iterations > 0 {
        push_str(out, "• Iterations: ");
        push_decimal(out, s.iterations as u128);
        push_str(out, "\n");
    }
    proof {
        let model: Seq<char> = match &s.model {
            Some(m) => "• Model: <code>"@ + escape_html(m@) + "</code>\n"@,
            None => seq![],
        };
        assert(b =~= a + model);
        assert(out@ =~= start + summary_head(*s));
    }
}

fn push_stream_part(out: &mut Vec<char>, s: &DebugSummary)
    ensures
        final(out)@ == old(out)@ + stream_part(*s),
{
    match &s.stream_secs {
        Some(t) => {
            push_str(out, "• Stream: ");
            push_str(out, t.as_str());
            push_str(out, "s\n");
        },
        None => {},
    }
}

fn push_tokens_part(out: &mut Vec<char>, s: &DebugSummary)
    ensures
        final(out)@ == old(out)@ + tokens_part(*s),
{
    if s.input_tokens > 0 || s.output_tokens > 0 {
        push_str(out, "• Tokens: ↑");
        push_str(out, s.input_label.as_str());
        push_str(out, " ↓");
        push_str(out, s.output_label.as_str());
        push_str(out, "\n");
    }
}

fn push_tools_count_part(out: &mut Vec<char>, s: &DebugSummary)
    ensures
        final(out)@ == old(out)@ + tools_count_part(*s),
{
    if s.tools.len() > 0 {
        push_str(out, "• Tool calls: ");
        push_decimal(out, s.tools.len() as u128);
        push_str(out, " (");
        push_decimal(out, s.tool_failures as u128);
        push_str(out, " failed)\n");
    }
}

/// Render the debug view of a message.
#[verifier::rlimit(40)]
pub fn render_debug_html(s: &DebugSummary) -> (r: String)
    ensures
        r@ == debug_html(*s),
{
    let mut out: Vec<char> = Vec::new();
    push_str(&mut out, "<b>🔍 Debug: <code>");
    push_escaped_str(&mut out, s.message_id.as_str());
    push_str(&mut out, "</code></b>\n\n");
    if s.entry_count == 0 {
        push_str(
            &mut out,
            "<i>No tape entries found for this message ID. It may have expired or never existed.</i>",
        );
        return string_of(&out);
    }
    let ghost head = out@;
    push_summary_head(&mut out, s);
    push_stream_part(&mut out, s);
    push_tokens_part(&mut out, s);
    push_tools_count_part(&mut out, s);
    let ghost a = out@;
    proof {
        assert(a =~= head + summary_section(*s));
    }
    if s.tools.len() > 0 {
        push_str(&mut out, "\n<b>🔧 Tools</b>\n");
        let ghost t0 = out@;
        for i in 0..s.tools.len()
            invariant
                out@ == t0 + tool_blocks(s.tools@, i as nat),
        {
            push_tool_block(&mut out, &s.tools[i]);
            proof {
                assert(out@ =~= t0 + tool_blocks(s.tools@, (i + 1) as nat));
            }
        }
    }
    let ghost b = out@;
    push_str(&mut out, "\n<b>📝 Timeline</b>\n");
    let ghost t1 = out@;
    for i in 0..s.timeline.len()
        invariant
            out@ == t1 + timeline_lines(s.timeline@, i as nat),
    {
        let item = &s.timeline[i];
        push_str(&mut out, "<code>");
        push_str(&mut out, item.timestamp.as_str());
        push_str(&mut out, "</code> [");
        push_str(&mut out, item.kind.as_str());
        push_str(&mut out, "] ");
        push_escaped_str(&mut out, item.detail.as_str());
        push_str(&mut out, "\n");
        proof {
            assert(out@ =~= t1 + timeline_lines(s.timeline@, (i + 1) as nat));
        }
    }
    proof {
        let tools: Seq<char> = if s.tools@.len() > 0 {
            "\n<b>🔧 Tools</b>\n"@ + tool_blocks(s.tools@, s.tools@.len())
        } else {
            seq![]
        };
        assert(b =~= a + tools);
        assert(out@ =~= b + "\n<b>📝 Timeline</b>\n"@ + timeline_lines(s.timeline@, s.timeline@.len()));
        assert(out@ =~= head + summary_section(*s) + tools + "\n<b>📝 Timeline</b>\n"@ + timeline_lines(
            s.timeline@,
            s.timeline@.len(),
        ));
    }
    string_of(&out)
}

/// The reply to `/debug <id>`.
pub fn debug_reply(s: &DebugSummary) -> (r: CommandReply)
    ensures
        r matches CommandReply::Html(t) && t@ == debug_html(*s),
{
    CommandReply::Html(render_debug_html(s))
}

} // verus!
