//! `/status`: the session, its runtime metrics and scheduled jobs, and
//! kernel-wide statistics; and the `status_jobs:` callback that lists all
//! scheduled jobs.

use vstd::prelude::*;

use super::client::SessionDetail;
use super::session::{detail_title, format_timestamp, session_title, short_timestamp, timestamp_sliceable};
use super::{callback_button, keyboard_view, row_view, ButtonView, CallbackReply, CommandReply, InlineButton};
use crate::text::{
    chars_of, cut_at_bytes, cut_at_bytes_exec, decimal, escape_html, first_line, first_line_exec,
    push_decimal, push_escaped_html, push_escaped_str, push_seq, push_str, slice_of, string_of,
    truncate_bytes, truncate_bytes_exec, utf8_len,
};

verus! {

/// Scheduled jobs listed inline in `/status`.
pub const INLINE_JOB_LIMIT: usize = 5;

/// The first line of `s`, cut to `max` bytes with `...` appended when it is
/// longer.
pub open spec fn truncated_msg(s: Seq<char>, max: int) -> Seq<char> {
    let line = first_line(s);
    if utf8_len(line) <= max {
        line
    } else {
        truncate_bytes(line, max) + "..."@
    }
}

/// Truncate a string to its first line and at most `max` bytes.
pub fn truncate_msg(s: &str, max: usize) -> (r: String)
    ensures
        r@ == truncated_msg(s@, max as int),
{
    let v = chars_of(s);
    let line = first_line_exec(&v);
    if crate::text::fits_in_bytes(&line, 0, max) {
        proof {
            assert(line@.subrange(0, line@.len() as int) =~= line@);
        }
        return string_of(&line);
    }
    proof {
        assert(line@.subrange(0, line@.len() as int) =~= line@);
    }
    let mut out = truncate_bytes_exec(&line, max);
    push_str(&mut out, "...");
    string_of(&out)
}

/// An uptime in whole minutes: `Xh Ym` from an hour on, else `Ym`.
pub open spec fn uptime_text(ms: u64) -> Seq<char> {
    let minutes = ms / 60_000;
    if minutes / 60 > 0 {
        decimal((minutes / 60) as nat) + "h "@ + decimal((minutes % 60) as nat) + "m"@
    } else {
        decimal((minutes % 60) as nat) + "m"@
    }
}

/// Format a millisecond uptime as `Xh Ym` or `Ym`.
pub fn format_uptime(ms: u64) -> (r: String)
    ensures
        r@ == uptime_text(ms),
{
    let minutes = ms / 60_000;
    let hours = minutes / 60;
    let mut out: Vec<char> = Vec::new();
    if hours > 0 {
        push_decimal(&mut out, hours as u128);
        push_str(&mut out, "h ");
    }
    push_decimal(&mut out, (minutes % 60) as u128);
    push_str(&mut out, "m");
    string_of(&out)
}

/// A scheduled job as the status lists it: its message, its schedule
/// summary and its next run time (ISO-8601).
pub struct JobLine {
    pub message: String,
    pub schedule: String,
    pub next_at: String,
}

/// One job line: message (first line, 40 bytes), schedule, next run.
pub open spec fn job_line(j: JobLine) -> Seq<char> {
    "  "@ + escape_html(truncated_msg(j.message@, 40)) + " | "@ + escape_html(j.schedule@) + " | "@
        + short_timestamp(j.next_at@) + "\n"@
}

/// The lines of the first `n` jobs.
pub open spec fn job_lines(jobs: Seq<JobLine>, n: nat) -> Seq<char>
    decreases n,
{
    if n == 0 {
        seq![]
    } else {
        job_lines(jobs, (n - 1) as nat) + job_line(jobs[n - 1])
    }
}

/// Whether the next-run times of the jobs can be shortened.
pub open spec fn jobs_sliceable(jobs: Seq<JobLine>) -> bool {
    forall|i: int| 0 <= i < jobs.len() ==> timestamp_sliceable(#[trigger] jobs[i].next_at@)
}

/// Append the lines of the first `n` jobs.
fn push_job_lines(out: &mut Vec<char>, jobs: &Vec<JobLine>, n: usize)
    requires
        n <= jobs@.len(),
        jobs_sliceable(jobs@),
    ensures
        final(out)@ == old(out)@ + job_lines(jobs@, n as nat),
{
    let ghost start = out@;
    for i in 0..n
        invariant
            n <= jobs@.len(),
            jobs_sliceable(jobs@),
            out@ == start + job_lines(jobs@, i as nat),
    {
        let j = &jobs[i];
        assert(timestamp_sliceable(jobs@[i as int].next_at@));
        let ghost before = out@;
        push_str(out, "  ");
        push_escaped_str(out, truncate_msg(j.message.as_str(), 40).as_str());
        push_str(out, " | ");
        push_escaped_str(out, j.schedule.as_str());
        push_str(out, " | ");
        push_str(out, format_timestamp(j.next_at.as_str()).as_str());
        push_str(out, "\n");
        proof {
            assert(out@ =~= before + job_line(jobs@[i as int]));
        }
    }
}

/// Runtime metrics of the session's process.
pub struct RuntimeStats {
    pub state: String,
    pub llm_calls: u64,
    pub tool_calls: u64,
    pub tokens_consumed: u64,
    pub children: u64,
}

/// Kernel-wide statistics.
pub struct SystemStats {
    pub active_sessions: u64,
    pub uptime_ms: u64,
    pub total_tokens_consumed: u64,
}

/// Whether a session's details can be shown: a key of at least 8 bytes
/// whose first 8 end on a character boundary, and a readable creation time.
pub open spec fn status_detail_ok(d: SessionDetail) -> bool {
    cut_at_bytes(d.key@, 0, 0, 8) is Some && timestamp_sliceable(d.created_at@)
}

/// The first 8 bytes of a key.
pub open spec fn key8(key: Seq<char>) -> Seq<char> {
    match cut_at_bytes(key, 0, 0, 8) {
        Some(k) => key.take(k),
        None => key,
    }
}

/// The model line of the session section.
pub open spec fn status_model_line(d: SessionDetail) -> Seq<char> {
    match d.model {
        Some(m) => "Model: "@ + escape_html(m@) + "\n"@,
        None => seq![],
    }
}

/// The session section of `/status`.
pub open spec fn session_section(lookup: Result<SessionDetail, String>) -> Seq<char> {
    match lookup {
        Ok(d) => "<b>Session</b>\nTitle: "@ + escape_html(detail_title(d)) + "\nKey: <code>"@
            + escape_html(key8(d.key@)) + "</code>\n"@ + status_model_line(d) + "Created: "@ + short_timestamp(d.created_at@) + "\n"@,
        Err(e) => "<b>Session</b>\nFailed to load session details: "@ + e@ + "\n"@,
    }
}

/// The runtime section of `/status`, when the kernel knows the session.
pub open spec fn runtime_section(stats: Option<RuntimeStats>) -> Seq<char> {
    match stats {
        Some(s) => "\n<b>Runtime</b>\nState: "@ + s.state@ + "\nLLM calls: "@ + decimal(
            s.llm_calls as nat,
        ) + "\nTool calls: "@ + decimal(s.tool_calls as nat) + "\nTokens: "@ + decimal(
            s.tokens_consumed as nat,
        ) + "\nChildren: "@ + decimal(s.children as nat) + "\n"@,
        None => seq![],
    }
}

/// The scheduled-jobs section of `/status`: none, or the count and the
/// first five jobs.
pub open spec fn jobs_section(jobs: Seq<JobLine>) -> Seq<char> {
    if jobs.len() == 0 {
        "\n<b>Scheduled jobs</b>: none\n"@
    } else {
        "\n<b>Scheduled jobs</b> ("@ + decimal(jobs.len()) + ")\n"@ + job_lines(
            jobs,
            if jobs.len() < 5 { jobs.len() } else { 5 },
        )
    }
}

/// The system section of `/status`.
pub open spec fn system_section(sys: SystemStats) -> Seq<char> {
    "\n<b>System</b>\nActive sessions: "@ + decimal(sys.active_sessions as nat) + "\nUptime: "@
        + uptime_text(sys.uptime_ms) + "\nTotal tokens: "@ + decimal(sys.total_tokens_consumed as nat)
        + "\n"@
}

/// The whole `/status` report. `jobs` is `None` when the session key is not
/// one the kernel can look up; then neither runtime nor jobs are shown.
pub open spec fn status_text(
    lookup: Result<SessionDetail, String>,
    runtime: Option<RuntimeStats>,
    jobs: Option<Seq<JobLine>>,
    sys: SystemStats,
) -> Seq<char> {
    session_section(lookup) + match jobs {
        Some(js) => runtime_section(runtime) + jobs_section(js),
        None => seq![],
    } + system_section(sys)
}

/// Append the session section.
fn push_session_section(out: &mut Vec<char>, lookup: &Result<SessionDetail, String>)
    requires
        *lookup matches Ok(d) ==> status_detail_ok(d),
    ensures
        final(out)@ == old(out)@ + session_section(*lookup),
{
    let ghost start = out@;
    match lookup {
        Ok(d) => {
            let title = session_title(d);
            let key = chars_of(d.key.as_str());
            let k = cut_at_bytes_exec(&key, 0, 8);
            let short = match k {
                Some(k) => {
                    proof {
                        super::session::lemma_cut_at_bytes(key@, 0, 0, 8);
                    }
                    let s = slice_of(&key, 0, k);
                    proof {
                        assert(s@ =~= key@.take(k as int));
                    }
                    s
                },
                None => key,
            };
            push_str(out, "<b>Session</b>\nTitle: ");
            push_escaped_str(out, title.as_str());
            push_str(out, "\nKey: <code>");
            push_escaped_html(out, &short);
            push_str(out, "</code>\n");
            let ghost mid = out@;
            match &d.model {
                Some(m) => {
                    push_str(out, "Model: ");
                    push_escaped_str(out, m.as_str());
                    push_str(out, "\n");
                },
                None => {},
            }
            let ghost after_model = out@;
            push_str(out, "Created: ");
            push_str(out, format_timestamp(d.created_at.as_str()).as_str());
            push_str(out, "\n");
            proof {
                assert(after_model =~= mid + status_model_line(*d));
                assert(out@ =~= start + session_section(*lookup));
            }
        },
        Err(e) => {
            push_str(out, "<b>Session</b>\nFailed to load session details: ");
            push_str(out, e.as_str());
            push_str(out, "\n");
            proof {
                assert(out@ =~= start + session_section(*lookup));
            }
        },
    }
}

/// Append the runtime section.
fn push_runtime_section(out: &mut Vec<char>, runtime: &Option<RuntimeStats>)
    ensures
        final(out)@ == old(out)@ + runtime_section(*runtime),
{
    let ghost start = out@;
    match runtime {
        Some(s) => {
            push_str(out, "\n<b>Runtime</b>\nState: ");
            push_str(out, s.state.as_str());
            push_str(out, "\nLLM calls: ");
            push_decimal(out, s.llm_calls as u128);
            push_str(out, "\nTool calls: ");
            push_decimal(out, s.tool_calls as u128);
            push_str(out, "\nTokens: ");
            push_decimal(out, s.tokens_consumed as u128);
            push_str(out, "\nChildren: ");
            push_decimal(out, s.children as u128);
            push_str(out, "\n");
            proof {
                assert(out@ =~= start + runtime_section(*runtime));
            }
        },
        None => {
            proof {
                assert(out@ =~= start + runtime_section(*runtime));
            }
        },
    }
}

/// Append the scheduled-jobs section.
fn push_jobs_section(out: &mut Vec<char>, js: &Vec<JobLine>)
    requires
        jobs_sliceable(js@),
    ensures
        final(out)@ == old(out)@ + jobs_section(js@),
{
    let ghost start = out@;
    if js.len() == 0 {
        push_str(out, "\n<b>Scheduled jobs</b>: none\n");
    } else {
        push_str(out, "\n<b>Scheduled jobs</b> (");
        push_decimal(out, js.len() as u128);
        push_str(out, ")\n");
        let shown = if js.len() < INLINE_JOB_LIMIT {
            js.len()
        } else {
            INLINE_JOB_LIMIT
        };
        push_job_lines(out, js, shown);
    }
    proof {
        assert(out@ =~= start + jobs_section(js@));
    }
}

/// Append the system section.
fn push_system_section(out: &mut Vec<char>, sys: &SystemStats)
    ensures
        final(out)@ == old(out)@ + system_section(*sys),
{
    let ghost start = out@;
    push_str(out, "\n<b>System</b>\nActive sessions: ");
    push_decimal(out, sys.active_sessions as u128);
    push_str(out, "\nUptime: ");
    push_str(out, format_uptime(sys.uptime_ms).as_str());
    push_str(out, "\nTotal tokens: ");
    push_decimal(out, sys.total_tokens_consumed as u128);
    push_str(out, "\n");
    proof {
        assert(out@ =~= start + system_section(*sys));
    }
}

/// The optional view of the job list.
pub open spec fn jobs_view(jobs: Option<Vec<JobLine>>) -> Option<Seq<JobLine>> {
    match jobs {
        Some(js) => Some(js@),
        None => None,
    }
}

/// The `/status` report.
fn status_text_exec(
    lookup: &Result<SessionDetail, String>,
    runtime: &Option<RuntimeStats>,
    jobs: &Option<Vec<JobLine>>,
    sys: &SystemStats,
) -> (r: Vec<char>)
    requires
        *lookup matches Ok(d) ==> status_detail_ok(d),
        *jobs matches Some(js) ==> jobs_sliceable(js@),
    ensures
        r@ == status_text(*lookup, *runtime, jobs_view(*jobs), *sys),
{
    let mut out: Vec<char> = Vec::new();
    push_session_section(&mut out, lookup);
    let ghost s1 = out@;
    match jobs {
        Some(js) => {
            push_runtime_section(&mut out, runtime);
            push_jobs_section(&mut out, js);
        },
        None => {},
    }
    let ghost s3 = out@;
    push_system_section(&mut out, sys);
    proof {
        let mid: Seq<char> = match jobs_view(*jobs) {
            Some(js) => runtime_section(*runtime) + jobs_section(js),
            None => seq![],
        };
        assert(s3 =~= s1 + mid);
        assert(out@ =~= status_text(*lookup, *runtime, jobs_view(*jobs), *sys));
    }
    out
}

/// The `/status` reply: the report, with an "All jobs" button when more
/// jobs exist than are listed inline.
pub fn status_reply(
    session_key: &str,
    lookup: &Result<SessionDetail, String>,
    runtime: &Option<RuntimeStats>,
    jobs: &Option<Vec<JobLine>>,
    sys: &SystemStats,
) -> (r: CommandReply)
    requires
        *lookup matches Ok(d) ==> status_detail_ok(d),
        *jobs matches Some(js) ==> jobs_sliceable(js@),
    ensures
        ({
            let text = status_text(*lookup, *runtime, jobs_view(*jobs), *sys);
            if *jobs matches Some(js) && js@.len() > 5 {
                r matches CommandReply::HtmlWithKeyboard { html, keyboard } && html@ == text
                    && keyboard_view(keyboard@) == seq![
                    seq![("All jobs"@, Some("status_jobs:"@ + session_key@), None::<Seq<char>>)],
                ]
            } else {
                r matches CommandReply::Html(html) && html@ == text
            }
        }),
{
    let out = status_text_exec(lookup, runtime, jobs, sys);
    let more = match jobs {
        Some(js) => js.len() > INLINE_JOB_LIMIT,
        None => false,
    };
    let html = string_of(&out);
    if more {
        let mut data: Vec<char> = Vec::new();
        push_str(&mut data, "status_jobs:");
        push_str(&mut data, session_key);
        let mut row: Vec<InlineButton> = Vec::new();
        row.push(callback_button("All jobs".to_string(), string_of(&data)));
        let mut keyboard: Vec<Vec<InlineButton>> = Vec::new();
        keyboard.push(row);
        proof {
            assert(row_view(row) =~= seq![
                ("All jobs"@, Some("status_jobs:"@ + session_key@), None::<Seq<char>>),
            ]);
            assert(keyboard_view(keyboard@) =~= seq![
                seq![("All jobs"@, Some("status_jobs:"@ + session_key@), None::<Seq<char>>)],
            ]);
        }
        CommandReply::HtmlWithKeyboard { html, keyboard }
    } else {
        CommandReply::Html(html)
    }
}

/// The reply to `status_jobs:{session_key}`: `jobs` is `None` when the key
/// is not a session key the kernel accepts.
pub fn all_jobs_reply(jobs: &Option<Vec<JobLine>>) -> (r: CallbackReply)
    requires
        *jobs matches Some(js) ==> jobs_sliceable(js@),
    ensures
        match *jobs {
            None => r matches CallbackReply::SendMessage { text } && text@ == "Invalid session key."@,
            Some(js) => if js@.len() == 0 {
                r matches CallbackReply::SendMessage { text } && text@ == "No scheduled jobs."@
            } else {
                r matches CallbackReply::SendMessage { text } && text@ == "<b>All scheduled jobs</b> ("@
                    + decimal(js@.len()) + ")\n"@ + job_lines(js@, js@.len())
            },
        },
{
    match jobs {
        None => CallbackReply::SendMessage { text: "Invalid session key.".to_string() },
        Some(js) => {
            if js.len() == 0 {
                return CallbackReply::SendMessage { text: "No scheduled jobs.".to_string() };
            }
            let mut out: Vec<char> = Vec::new();
            push_str(&mut out, "<b>All scheduled jobs</b> (");
            push_decimal(&mut out, js.len() as u128);
            push_str(&mut out, ")\n");
            push_job_lines(&mut out, js, js.len());
            CallbackReply::SendMessage { text: string_of(&out) }
        },
    }
}

} // verus!
