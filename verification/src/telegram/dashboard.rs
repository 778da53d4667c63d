//! Inline-message dashboard: a tab-based status view (background tasks,
//! sessions) inside one Telegram message, navigated with an inline
//! keyboard.

use vstd::prelude::*;

use super::commands::{callback_button, keyboard_view, row_view, ButtonView, InlineButton};
use crate::text::{
    chars_of, cut_at_bytes, cut_at_bytes_exec, decimal, escape_html, push_decimal,
    push_escaped_str, push_seq, push_signed, push_str, rfind_in, rfind_in_exec, signed_decimal,
    slice_of, string_of, utf8_len,
};

verus! {

// ---------------------------------------------------------------------------
// Tabs
// ---------------------------------------------------------------------------

/// Dashboard tab.
#[derive(Debug, Clone, Copy, PartialEq, Eq, Structural)]
pub enum DashTab {
    Tasks,
    Sessions,
}

/// The tab a callback-data segment names: `sess` is the sessions tab,
/// anything else the tasks tab.
pub open spec fn tab_named(s: Seq<char>) -> DashTab {
    if s == "sess"@ {
        DashTab::Sessions
    } else {
        DashTab::Tasks
    }
}

/// The short key of a tab in callback data.
pub open spec fn tab_key(t: DashTab) -> Seq<char> {
    match t {
        DashTab::Tasks => "tasks"@,
        DashTab::Sessions => "sess"@,
    }
}

impl DashTab {
    /// Parse from the callback data segment (`tasks` / `sess`).
    pub fn from_str_prefix(s: &str) -> (r: Self)
        ensures
            r == tab_named(s@),
    {
        if crate::text::str_eq(s, "sess") {
            DashTab::Sessions
        } else {
            DashTab::Tasks
        }
    }

    /// Short string used in callback data.
    pub fn callback_key(self) -> (r: &'static str)
        ensures
            r@ == tab_key(self),
    {
        match self {
            DashTab::Tasks => "tasks",
            DashTab::Sessions => "sess",
        }
    }
}

/// Reading back the key of a tab gives the tab.
pub proof fn law_tab_key_roundtrip(t: DashTab)
    ensures
        tab_named(tab_key(t)) == t,
{
    reveal_strlit("tasks");
    reveal_strlit("sess");
    if t == DashTab::Tasks {
        assert("tasks"@ != "sess"@) by {
            assert("tasks"@.len() != "sess"@.len());
        }
    }
}

// ---------------------------------------------------------------------------
// Sessions
// ---------------------------------------------------------------------------

/// Process state of a session.
#[derive(Debug, Clone, Copy, PartialEq, Eq, Structural)]
pub enum SessionState {
    Active,
    Ready,
    Suspended,
    Paused,
}

/// Runtime statistics of a session process.
pub struct SessionStats {
    pub session_key: u128,
    pub parent_id: Option<u128>,
    pub state: SessionState,
    pub manifest_name: String,
    pub uptime_ms: u64,
    pub tool_calls: u64,
    pub tokens_consumed: u64,
}

/// Whether a session belongs to the chat whose session is `root`: the root
/// itself or one of its children.
pub open spec fn in_scope(s: SessionStats, root: u128) -> bool {
    s.session_key == root || s.parent_id == Some(root)
}

/// Indices of the sessions of `all` that belong to `root`'s chat, in order.
pub open spec fn scoped_indices(all: Seq<SessionStats>, root: u128, n: nat) -> Seq<int>
    decreases n,
{
    if n == 0 {
        seq![]
    } else if in_scope(all[n - 1], root) {
        scoped_indices(all, root, (n - 1) as nat).push(n - 1)
    } else {
        scoped_indices(all, root, (n - 1) as nat)
    }
}

/// The sessions that belong to the chat whose session is `root` (it and its
/// children), as indices into `all_sessions`, in order.
pub fn scoped_sessions(all_sessions: &Vec<SessionStats>, root: u128) -> (r: Vec<usize>)
    ensures
        r@.map_values(|i: usize| i as int) == scoped_indices(all_sessions@, root, all_sessions@.len()),
{
    let mut out: Vec<usize> = Vec::new();
    for i in 0..all_sessions.len()
        invariant
            out@.map_values(|k: usize| k as int) == scoped_indices(all_sessions@, root, i as nat),
    {
        let s = &all_sessions[i];
        let keep = s.session_key == root || match s.parent_id {
            Some(p) => p == root,
            None => false,
        };
        if keep {
            let ghost before = out@;
            out.push(i);
            proof {
                assert(out@.map_values(|k: usize| k as int) =~= before.map_values(|k: usize| k as int).push(
                    i as int,
                ));
            }
        }
    }
    out
}

/// A scoped session is in scope.
pub proof fn law_scoped_sessions_in_scope(all: Seq<SessionStats>, root: u128, n: nat)
    requires
        n <= all.len(),
    ensures
        forall|j: int|
            0 <= j < scoped_indices(all, root, n).len() ==> 0 <= #[trigger] scoped_indices(all, root, n)[j]
                < n && in_scope(all[scoped_indices(all, root, n)[j]], root),
    decreases n,
{
    if n > 0 {
        law_scoped_sessions_in_scope(all, root, (n - 1) as nat);
        let prev = scoped_indices(all, root, (n - 1) as nat);
        let cur = scoped_indices(all, root, n);
        assert forall|j: int| 0 <= j < cur.len() implies 0 <= #[trigger] cur[j] < n && in_scope(
            all[cur[j]],
            root,
        ) by {
            if j < prev.len() {
                assert(cur[j] == prev[j]);
            }
        }
    }
}

// ---------------------------------------------------------------------------
// Helpers
// ---------------------------------------------------------------------------

/// An uptime: `Xh Ym` from an hour on, `Xm Ys` from a minute on, else
/// `Xs`.
pub open spec fn uptime_label(ms: u64) -> Seq<char> {
    let total = ms / 1000;
    let hours = total / 3600;
    let minutes = (total % 3600) / 60;
    let seconds = total % 60;
    if hours > 0 {
        decimal(hours as nat) + "h "@ + decimal(minutes as nat) + "m"@
    } else if minutes > 0 {
        decimal(minutes as nat) + "m "@ + decimal(seconds as nat) + "s"@
    } else {
        decimal(seconds as nat) + "s"@
    }
}

/// Format a millisecond uptime.
pub fn format_uptime(ms: u64) -> (r: String)
    ensures
        r@ == uptime_label(ms),
{
    let total = ms / 1000;
    let hours = total / 3600;
    let minutes = (total % 3600) / 60;
    let seconds = total % 60;
    let mut out: Vec<char> = Vec::new();
    if hours > 0 {
        push_decimal(&mut out, hours as u128);
        push_str(&mut out, "h ");
        push_decimal(&mut out, minutes as u128);
        push_str(&mut out, "m");
    } else if minutes > 0 {
        push_decimal(&mut out, minutes as u128);
        push_str(&mut out, "m ");
        push_decimal(&mut out, seconds as u128);
        push_str(&mut out, "s");
    } else {
        push_decimal(&mut out, seconds as u128);
        push_str(&mut out, "s");
    }
    string_of(&out)
}

/// Escape HTML entities for Telegram HTML parse mode.
pub fn html_escape(s: &str) -> (r: String)
    ensures
        r@ == escape_html(s@),
{
    crate::text::html_escape(s)
}

/// Whether byte `max_len` of a text longer than that falls on a character
/// boundary (so that the text can be cut there).
pub open spec fn cuttable(s: Seq<char>, max_len: int) -> bool {
    utf8_len(s) > max_len ==> cut_at_bytes(s, 0, 0, max_len) is Some
}

/// A text cut to `max_len` bytes: unchanged when it fits, else cut after
/// the last line that ends within the budget (or at the budget when no
/// line does) and marked as truncated.
pub open spec fn html_truncated(s: Seq<char>, max_len: int) -> Seq<char> {
    if utf8_len(s) <= max_len {
        s
    } else {
        match cut_at_bytes(s, 0, 0, max_len) {
            Some(k) => (match rfind_in(s, '\n', 0, k) {
                Some(j) => s.take(j),
                None => s.take(k),
            }) + "\n<i>… truncated</i>"@,
            None => s,
        }
    }
}

/// Truncate an HTML text at a safe boundary: the last newline within
/// `max_len` bytes, else the budget itself; a marker follows the cut.
pub fn truncate_html_safe(s: &mut String, max_len: usize)
    requires
        cuttable(old(s)@, max_len as int),
    ensures
        final(s)@ == html_truncated(old(s)@, max_len as int),
{
    let v = chars_of(s.as_str());
    if crate::text::fits_in_bytes(&v, 0, max_len) {
        proof {
            assert(v@.subrange(0, v@.len() as int) =~= v@);
        }
        return;
    }
    proof {
        assert(v@.subrange(0, v@.len() as int) =~= v@);
    }
    let k = match cut_at_bytes_exec(&v, 0, max_len) {
        Some(k) => k,
        None => return,
    };
    proof {
        super::commands::session::lemma_cut_at_bytes(v@, 0, 0, max_len as int);
    }
    let end = match rfind_in_exec(&v, '\n', 0, k) {
        Some(j) => j,
        None => k,
    };
    let mut out = slice_of(&v, 0, end);
    push_str(&mut out, "\n<i>… truncated</i>");
    proof {
        assert(out@ =~= v@.take(end as int) + "\n<i>… truncated</i>"@);
    }
    *s = string_of(&out);
}

// ---------------------------------------------------------------------------
// Tasks tab
// ---------------------------------------------------------------------------

/// A background task: a child session.
pub open spec fn is_child(s: SessionStats) -> bool {
    s.parent_id is Some
}

/// A running background task.
pub open spec fn is_running(s: SessionStats) -> bool {
    s.parent_id is Some && (s.state == SessionState::Active || s.state == SessionState::Ready)
}

/// A finished background task.
pub open spec fn is_done(s: SessionStats) -> bool {
    s.parent_id is Some && (s.state == SessionState::Suspended || s.state == SessionState::Paused)
}

/// The elements of `ss[..n]` that satisfy `p`, in order.
pub open spec fn select(ss: Seq<SessionStats>, p: spec_fn(SessionStats) -> bool, n: nat) -> Seq<
    SessionStats,
>
    decreases n,
{
    if n == 0 {
        seq![]
    } else if p(ss[n - 1]) {
        select(ss, p, (n - 1) as nat).push(ss[n - 1])
    } else {
        select(ss, p, (n - 1) as nat)
    }
}

/// One task line: finished tasks with their uptime, running ones with
/// uptime and tool calls.
pub open spec fn task_line(s: SessionStats, finished: bool) -> Seq<char> {
    if finished {
        "✔ "@ + escape_html(s.manifest_name@) + " — "@ + uptime_label(s.uptime_ms) + "\n"@
    } else {
        "⏳ 🤖 "@ + escape_html(s.manifest_name@) + "\n   "@ + uptime_label(s.uptime_ms) + " · "@
            + decimal(s.tool_calls as nat) + " tools\n"@
    }
}

/// The task lines of a list of sessions.
pub open spec fn task_lines(ss: Seq<SessionStats>, finished: bool) -> Seq<char>
    decreases ss.len(),
{
    if ss.len() == 0 {
        seq![]
    } else {
        task_lines(ss.drop_last(), finished) + task_line(ss.last(), finished)
    }
}

/// The tasks tab: running background tasks, then the ten most recent
/// finished ones and a count of the rest.
pub open spec fn tasks_tab(ss: Seq<SessionStats>) -> Seq<char> {
    let n = ss.len();
    let running = select(ss, |s: SessionStats| is_running(s), n);
    let done = select(ss, |s: SessionStats| is_done(s), n);
    "📊 <b>rara · Tasks</b>\n───────────────\n"@ + if select(ss, |s: SessionStats| is_child(s), n).len()
        == 0 {
        "\nNo background tasks.\n"@
    } else {
        (if running.len() > 0 {
            "\n🔄 <b>Running ("@ + decimal(running.len()) + ")</b>\n"@ + task_lines(running, false)
        } else {
            seq![]
        }) + (if done.len() > 0 {
            "\n✅ <b>Done ("@ + decimal(done.len()) + ")</b>\n"@ + task_lines(
                done.reverse().take(if done.len() < 10 { done.len() as int } else { 10 }),
                true,
            ) + if done.len() > 10 {
                "  <i>… and "@ + decimal((done.len() - 10) as nat) + " more</i>\n"@
            } else {
                seq![]
            }
        } else {
            seq![]
        })
    }
}

/// Append one task line.
fn push_task_line(out: &mut Vec<char>, s: &SessionStats, finished: bool)
    ensures
        final(out)@ == old(out)@ + task_line(*s, finished),
{
    let ghost start = out@;
    let uptime = format_uptime(s.uptime_ms);
    if finished {
        push_str(out, "✔ ");
        push_escaped_str(out, s.manifest_name.as_str());
        push_str(out, " — ");
        push_str(out, uptime.as_str());
        push_str(out, "\n");
    } else {
        push_str(out, "⏳ 🤖 ");
        push_escaped_str(out, s.manifest_name.as_str());
        push_str(out, "\n   ");
        push_str(out, uptime.as_str());
        push_str(out, " · ");
        push_decimal(out, s.tool_calls as u128);
        push_str(out, " tools\n");
    }
    proof {
        assert(out@ =~= start + task_line(*s, finished));
    }
}

/// Lines of the running background tasks, and how many there are.
fn running_lines(ss: &Vec<SessionStats>) -> (r: (Vec<char>, usize))
    ensures
        r.0@ == task_lines(select(ss@, |s: SessionStats| is_running(s), ss@.len()), false),
        r.1 == select(ss@, |s: SessionStats| is_running(s), ss@.len()).len(),
{
    let mut out: Vec<char> = Vec::new();
    let mut count: usize = 0;
    for i in 0..ss.len()
        invariant
            out@ == task_lines(select(ss@, |s: SessionStats| is_running(s), i as nat), false),
            count == select(ss@, |s: SessionStats| is_running(s), i as nat).len(),
            count <= i,
    {
        let s = &ss[i];
        let running = match s.parent_id {
            Some(_) => match s.state {
                SessionState::Active => true,
                SessionState::Ready => true,
                _ => false,
            },
            None => false,
        };
        if running {
            push_task_line(&mut out, s, false);
            count = count + 1;
            proof {
                let prev = select(ss@, |s: SessionStats| is_running(s), i as nat);
                assert(prev.push(ss@[i as int]).drop_last() =~= prev);
            }
        }
    }
    (out, count)
}

/// Indices of the finished background tasks, in order.
fn done_indices(ss: &Vec<SessionStats>) -> (r: Vec<usize>)
    ensures
        r@.len() == select(ss@, |s: SessionStats| is_done(s), ss@.len()).len(),
        forall|k: int|
            0 <= k < r@.len() ==> #[trigger] r@[k] < ss@.len() && ss@[r@[k] as int] == select(
                ss@,
                |s: SessionStats| is_done(s),
                ss@.len(),
            )[k],
{
    let mut idx: Vec<usize> = Vec::new();
    for i in 0..ss.len()
        invariant
            idx@.len() == select(ss@, |s: SessionStats| is_done(s), i as nat).len(),
            forall|k: int|
                0 <= k < idx@.len() ==> #[trigger] idx@[k] < i && ss@[idx@[k] as int] == select(
                    ss@,
                    |s: SessionStats| is_done(s),
                    i as nat,
                )[k],
    {
        let s = &ss[i];
        let done = match s.parent_id {
            Some(_) => match s.state {
                SessionState::Suspended => true,
                SessionState::Paused => true,
                _ => false,
            },
            None => false,
        };
        if done {
            idx.push(i);
        }
    }
    idx
}

/// Whether any session is a background task.
fn has_children(ss: &Vec<SessionStats>) -> (r: bool)
    ensures
        r == (select(ss@, |s: SessionStats| is_child(s), ss@.len()).len() > 0),
{
    let mut found = false;
    for i in 0..ss.len()
        invariant
            found == (select(ss@, |s: SessionStats| is_child(s), i as nat).len() > 0),
    {
        if ss[i].parent_id.is_some() {
            found = true;
        }
    }
    found
}

/// The done part of the tasks tab.
pub open spec fn done_part(done: Seq<SessionStats>) -> Seq<char> {
    if done.len() > 0 {
        "\n✅ <b>Done ("@ + decimal(done.len()) + ")</b>\n"@ + task_lines(
            done.reverse().take(if done.len() < 10 { done.len() as int } else { 10 }),
            true,
        ) + if done.len() > 10 {
            "  <i>… and "@ + decimal((done.len() - 10) as nat) + " more</i>\n"@
        } else {
            seq![]
        }
    } else {
        seq![]
    }
}

/// Append the done part of the tasks tab.
fn push_done_part(out: &mut Vec<char>, ss: &Vec<SessionStats>)
    ensures
        final(out)@ == old(out)@ + done_part(select(ss@, |s: SessionStats| is_done(s), ss@.len())),
{
    let ghost start = out@;
    let ghost done = select(ss@, |s: SessionStats| is_done(s), ss@.len());
    let idx = done_indices(ss);
    let n = idx.len();
    if n == 0 {
        proof {
            assert(out@ =~= start + done_part(done));
        }
        return;
    }
    push_str(out, "\n✅ <b>Done (");
    push_decimal(out, n as u128);
    push_str(out, ")</b>\n");
    let ghost head = out@;
    let shown = if n < 10 {
        n
    } else {
        10
    };
    for j in 0..shown
        invariant
            shown <= n,
            n == idx@.len(),
            n == done.len(),
            done == select(ss@, |s: SessionStats| is_done(s), ss@.len()),
            forall|k: int|
                0 <= k < idx@.len() ==> #[trigger] idx@[k] < ss@.len() && ss@[idx@[k] as int] == done[k],
            out@ == head + task_lines(done.reverse().take(j as int), true),
    {
        assert(idx@[(n - 1 - j) as int] < ss@.len());
        let k = idx[n - 1 - j];
        push_task_line(out, &ss[k], true);
        proof {
            assert(ss@[k as int] == done.reverse()[j as int]);
            assert(done.reverse().take(j + 1).drop_last() =~= done.reverse().take(j as int));
        }
    }
    let ghost lines_end = out@;
    if n > 10 {
        push_str(out, "  <i>… and ");
        push_decimal(out, (n - 10) as u128);
        push_str(out, " more</i>\n");
    }
    proof {
        assert(out@ =~= start + done_part(done));
    }
}

/// Render the tasks tab.
fn render_tasks_tab(ss: &Vec<SessionStats>) -> (r: Vec<char>)
    ensures
        r@ == tasks_tab(ss@),
{
    let mut out: Vec<char> = Vec::new();
    push_str(&mut out, "📊 <b>rara · Tasks</b>\n───────────────\n");
    if !has_children(ss) {
        push_str(&mut out, "\nNo background tasks.\n");
        proof {
            assert(out@ =~= tasks_tab(ss@));
        }
        return out;
    }
    let ghost head = out@;
    let (lines, count) = running_lines(ss);
    if count > 0 {
        push_str(&mut out, "\n🔄 <b>Running (");
        push_decimal(&mut out, count as u128);
        push_str(&mut out, ")</b>\n");
        push_seq(&mut out, &lines);
    }
    let ghost mid = out@;
    push_done_part(&mut out, ss);
    proof {
        let running = select(ss@, |s: SessionStats| is_running(s), ss@.len());
        let rpart: Seq<char> = if running.len() > 0 {
            "\n🔄 <b>Running ("@ + decimal(running.len()) + ")</b>\n"@ + task_lines(running, false)
        } else {
            seq![]
        };
        assert(mid =~= head + rpart);
        assert(out@ =~= tasks_tab(ss@));
    }
    out
}

// ---------------------------------------------------------------------------
// Sessions tab
// ---------------------------------------------------------------------------

/// Icon and label of a session state.
pub open spec fn state_badge(st: SessionState) -> (Seq<char>, Seq<char>) {
    match st {
        SessionState::Active => ("▶"@, "Running"@),
        SessionState::Ready => ("▶"@, "Idle"@),
        SessionState::Suspended => ("⏸️"@, "Suspended"@),
        SessionState::Paused => ("⏸️"@, "Paused"@),
    }
}

/// The two lines of a session. `tokens` is half the tokens it consumed,
/// already formatted (the dashboard shows the rough in/out split).
pub open spec fn session_line(s: SessionStats, tokens: Seq<char>) -> Seq<char> {
    state_badge(s.state).0 + " <b>"@ + escape_html(s.manifest_name@) + "</b>"@ + (if s.parent_id is Some {
        " (child)"@
    } else {
        seq![]
    }) + " — "@ + state_badge(s.state).1 + " · "@ + uptime_label(s.uptime_ms) + "\n  ↑"@ + tokens
        + " ↓"@ + tokens + " · "@ + decimal(s.tool_calls as nat) + " tools\n"@
}

/// The lines of the first `n` sessions.
pub open spec fn session_lines(ss: Seq<SessionStats>, tokens: Seq<Seq<char>>, n: nat) -> Seq<char>
    decreases n,
{
    if n == 0 {
        seq![]
    } else {
        session_lines(ss, tokens, (n - 1) as nat) + session_line(ss[n - 1], tokens[n - 1])
    }
}

/// The sessions tab.
pub open spec fn sessions_tab(ss: Seq<SessionStats>, tokens: Seq<Seq<char>>) -> Seq<char> {
    "📊 <b>rara · Sessions</b>\n───────────────\n"@ + if ss.len() == 0 {
        "\nNo active sessions.\n"@
    } else {
        "\n"@ + session_lines(ss, tokens, ss.len())
    }
}

/// Append the lines of one session.
fn push_session_line(out: &mut Vec<char>, s: &SessionStats, tokens: &String)
    ensures
        final(out)@ == old(out)@ + session_line(*s, tokens@),
{
    let ghost start = out@;
    let (icon, label) = match s.state {
        SessionState::Active => ("▶", "Running"),
        SessionState::Ready => ("▶", "Idle"),
        SessionState::Suspended => ("⏸️", "Suspended"),
        SessionState::Paused => ("⏸️", "Paused"),
    };
    push_str(out, icon);
    push_str(out, " <b>");
    push_escaped_str(out, s.manifest_name.as_str());
    push_str(out, "</b>");
    let ghost before_hint = out@;
    if s.parent_id.is_some() {
        push_str(out, " (child)");
    }
    let ghost after_hint = out@;
    push_str(out, " — ");
    push_str(out, label);
    push_str(out, " · ");
    push_str(out, format_uptime(s.uptime_ms).as_str());
    push_str(out, "\n  ↑");
    push_str(out, tokens.as_str());
    push_str(out, " ↓");
    push_str(out, tokens.as_str());
    push_str(out, " · ");
    push_decimal(out, s.tool_calls as u128);
    push_str(out, " tools\n");
    proof {
        let hint: Seq<char> = if s.parent_id is Some {
            " (child)"@
        } else {
            seq![]
        };
        assert(after_hint =~= before_hint + hint);
        assert(icon@ == state_badge(s.state).0 && label@ == state_badge(s.state).1);
        assert(out@ =~= start + session_line(*s, tokens@));
    }
}

/// Render the sessions tab.
fn render_sessions_tab(ss: &Vec<SessionStats>, tokens: &Vec<String>) -> (r: Vec<char>)
    requires
        tokens@.len() == ss@.len(),
    ensures
        r@ == sessions_tab(ss@, tokens@.map_values(|t: String| t@)),
{
    let ghost tv = tokens@.map_values(|t: String| t@);
    let mut out: Vec<char> = Vec::new();
    push_str(&mut out, "📊 <b>rara · Sessions</b>\n───────────────\n");
    if ss.len() == 0 {
        push_str(&mut out, "\nNo active sessions.\n");
        proof {
            assert(out@ =~= sessions_tab(ss@, tv));
        }
        return out;
    }
    push_str(&mut out, "\n");
    let ghost head = out@;
    for i in 0..ss.len()
        invariant
            tokens@.len() == ss@.len(),
            tv == tokens@.map_values(|t: String| t@),
            out@ == head + session_lines(ss@, tv, i as nat),
    {
        push_session_line(&mut out, &ss[i], &tokens[i]);
    }
    proof {
        assert(out@ =~= sessions_tab(ss@, tv));
    }
    out
}

// ---------------------------------------------------------------------------
// Dashboard
// ---------------------------------------------------------------------------

/// The body of a tab before truncation.
pub open spec fn dashboard_body(tab: DashTab, ss: Seq<SessionStats>, tokens: Seq<Seq<char>>) -> Seq<
    char,
> {
    match tab {
        DashTab::Tasks => tasks_tab(ss),
        DashTab::Sessions => sessions_tab(ss, tokens),
    }
}

/// Render the dashboard message (HTML) for a tab, cut to 4000 bytes.
/// `sessions` are the chat's sessions (see [`scoped_sessions`]) and
/// `tokens[i]` half the tokens `sessions[i]` consumed, formatted.
pub fn render_dashboard(tab: DashTab, sessions: &Vec<SessionStats>, tokens: &Vec<String>) -> (r:
    String)
    requires
        tokens@.len() == sessions@.len(),
        cuttable(dashboard_body(tab, sessions@, tokens@.map_values(|t: String| t@)), 4000),
    ensures
        r@ == html_truncated(dashboard_body(tab, sessions@, tokens@.map_values(|t: String| t@)), 4000),
{
    let body = match tab {
        DashTab::Tasks => render_tasks_tab(sessions),
        DashTab::Sessions => render_sessions_tab(sessions, tokens),
    };
    let mut out = string_of(&body);
    truncate_html_safe(&mut out, 4000);
    out
}

/// The data of a dashboard callback: `prefix`, chat id, message id and the
/// trace id (`-` when none), separated by `:`.
pub open spec fn dash_data(prefix: Seq<char>, chat_id: i64, msg_id: i32, tid: Seq<char>) -> Seq<char> {
    prefix + signed_decimal(chat_id as int) + ":"@ + signed_decimal(msg_id as int) + ":"@ + tid
}

/// The dashboard keyboard: the two tabs (the active one marked) and a
/// refresh button; with a trace id, a second row returns to the trace.
pub open spec fn dashboard_rows(active: DashTab, chat_id: i64, msg_id: i32, trace_id: Option<Seq<char>>) -> Seq<
    Seq<ButtonView>,
> {
    let tid = match trace_id {
        Some(t) => t,
        None => "-"@,
    };
    let first = seq![
        (
            if active == DashTab::Tasks {
                "📋 Tasks ·"@
            } else {
                "📋 Tasks"@
            },
            Some(dash_data("dash:tasks:"@, chat_id, msg_id, tid)),
            None::<Seq<char>>,
        ),
        (
            if active == DashTab::Sessions {
                "🖥 Sessions ·"@
            } else {
                "🖥 Sessions"@
            },
            Some(dash_data("dash:sess:"@, chat_id, msg_id, tid)),
            None::<Seq<char>>,
        ),
        ("🔄"@, Some(dash_data("dash:"@ + tab_key(active) + ":"@, chat_id, msg_id, tid)), None::<Seq<char>>),
    ];
    match trace_id {
        Some(t) => seq![
            first,
            seq![("← Back"@, Some(dash_data("trace:hide:"@, chat_id, msg_id, t)), None::<Seq<char>>)],
        ],
        None => seq![first],
    }
}

/// Callback data of a dashboard button.
fn dash_data_exec(prefix: &Vec<char>, chat_id: i64, msg_id: i32, tid: &str) -> (r: String)
    ensures
        r@ == dash_data(prefix@, chat_id, msg_id, tid@),
{
    let mut out: Vec<char> = Vec::new();
    push_seq(&mut out, prefix);
    push_signed(&mut out, chat_id);
    push_str(&mut out, ":");
    push_signed(&mut out, msg_id as i64);
    push_str(&mut out, ":");
    push_str(&mut out, tid);
    string_of(&out)
}

/// Build the inline keyboard of the dashboard.
pub fn dashboard_keyboard(active_tab: DashTab, chat_id: i64, msg_id: i32, trace_id: Option<&str>) -> (r:
    Vec<Vec<InlineButton>>)
    ensures
        keyboard_view(r@) == dashboard_rows(
            active_tab,
            chat_id,
            msg_id,
            match trace_id {
                Some(t) => Some(t@),
                None => None,
            },
        ),
{
    let tasks_label = if active_tab == DashTab::Tasks {
        "📋 Tasks ·"
    } else {
        "📋 Tasks"
    };
    let sess_label = if active_tab == DashTab::Sessions {
        "🖥 Sessions ·"
    } else {
        "🖥 Sessions"
    };
    let tid = match trace_id {
        Some(t) => t,
        None => "-",
    };
    let mut refresh: Vec<char> = Vec::new();
    push_str(&mut refresh, "dash:");
    push_str(&mut refresh, active_tab.callback_key());
    push_str(&mut refresh, ":");
    let mut first: Vec<InlineButton> = Vec::new();
    first.push(callback_button(tasks_label.to_string(), dash_data_exec(&chars_of("dash:tasks:"), chat_id, msg_id, tid)));
    first.push(callback_button(sess_label.to_string(), dash_data_exec(&chars_of("dash:sess:"), chat_id, msg_id, tid)));
    first.push(callback_button("🔄".to_string(), dash_data_exec(&refresh, chat_id, msg_id, tid)));
    let mut rows: Vec<Vec<InlineButton>> = Vec::new();
    proof {
        let expected = dashboard_rows(
            active_tab,
            chat_id,
            msg_id,
            match trace_id {
                Some(t) => Some(t@),
                None => None,
            },
        );
        assert(row_view(first) =~= expected[0]);
    }
    rows.push(first);
    match trace_id {
        Some(t) => {
            let mut second: Vec<InlineButton> = Vec::new();
            second.push(callback_button("← Back".to_string(), dash_data_exec(&chars_of("trace:hide:"), chat_id, msg_id, t)));
            proof {
                assert(row_view(second) =~= seq![
                    ("← Back"@, Some(dash_data("trace:hide:"@, chat_id, msg_id, t@)), None::<Seq<char>>),
                ]);
            }
            rows.push(second);
        },
        None => {},
    }
    proof {
        assert(keyboard_view(rows@) =~= dashboard_rows(
            active_tab,
            chat_id,
            msg_id,
            match trace_id {
                Some(t) => Some(t@),
                None => None,
            },
        ));
    }
    rows
}

} // verus!


