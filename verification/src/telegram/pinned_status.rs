//! Pinned session summary card for Telegram chats.
//!
//! The card is an HTML overview pinned to the top of the chat. Its first
//! line (shown in Telegram's pin preview) carries the agent state, the model
//! and a context gauge; the body lists project, thinking time, tool calls,
//! background tasks and changed files. Event callbacks only mark the card
//! dirty; a flush is needed when it is dirty and its rendering differs from
//! the last one flushed.
//!
//! The context gauge is rendered from floating-point token counts, which
//! this crate does not handle: callers render it from
//! [`PinnedSessionCard::context_usage`] and pass the text in.

use vstd::prelude::*;

use crate::text::{
    chars_of, contains, contains_exec, decimal, decimal_exec, escape_html, join_lines,
    join_lines_exec, push_escaped_html, push_seq, push_str, slice_of, str_eq, str_to_lowercase,
    string_of, views, lemma_decimal_digits, digits_value,
};

verus! {

// ---------------------------------------------------------------------------
// Model metadata
// ---------------------------------------------------------------------------

/// Context window of well-known models, by substring of the lowercased
/// model name; the fallback when the kernel supplied no window.
pub open spec fn fallback_window(model: Seq<char>) -> Option<u32> {
    let m = str_to_lowercase(model);
    if contains(m, "opus"@) || contains(m, "sonnet"@) || contains(m, "haiku"@) {
        Some(200_000)
    } else if contains(m, "o3"@) || contains(m, "o4-mini"@) {
        Some(200_000)
    } else if contains(m, "gpt-4o"@) {
        Some(128_000)
    } else if contains(m, "gemini-2"@) || contains(m, "gemini-1.5"@) {
        Some(1_000_000)
    } else if contains(m, "deepseek"@) {
        Some(128_000)
    } else {
        None
    }
}

/// Best-effort context window lookup when the kernel supplied none.
pub fn fallback_context_window(model: &str) -> (r: Option<u32>)
    ensures
        r == fallback_window(model@),
{
    let lower = crate::text::to_lowercase(model);
    let m = chars_of(lower.as_str());
    if contains_exec(&m, &chars_of("opus")) || contains_exec(&m, &chars_of("sonnet"))
        || contains_exec(&m, &chars_of("haiku")) {
        Some(200_000)
    } else if contains_exec(&m, &chars_of("o3")) || contains_exec(&m, &chars_of("o4-mini")) {
        Some(200_000)
    } else if contains_exec(&m, &chars_of("gpt-4o")) {
        Some(128_000)
    } else if contains_exec(&m, &chars_of("gemini-2")) || contains_exec(
        &m,
        &chars_of("gemini-1.5"),
    ) {
        Some(1_000_000)
    } else if contains_exec(&m, &chars_of("deepseek")) {
        Some(128_000)
    } else {
        None
    }
}

/// Context window size (in tokens) of a known model, for the context gauge
/// of the reply keyboard.
pub fn context_window_for_model(model: &str) -> (r: Option<u32>)
    ensures
        r == fallback_window(model@),
{
    fallback_context_window(model)
}

/// Index of the `k`-th `/` counted from the end of `p[..hi]`.
pub open spec fn slash_from_end(p: Seq<char>, hi: int, k: nat) -> Option<int>
    decreases hi,
{
    if hi <= 0 || k == 0 {
        None
    } else if p[hi - 1] == '/' {
        if k == 1 {
            Some(hi - 1)
        } else {
            slash_from_end(p, hi - 1, (k - 1) as nat)
        }
    } else {
        slash_from_end(p, hi - 1, k)
    }
}

/// A path shortened to its last three segments.
pub open spec fn short_path_of(p: Seq<char>) -> Seq<char> {
    match slash_from_end(p, p.len() as int, 3) {
        Some(i) => p.skip(i + 1),
        None => p,
    }
}

/// Shorten an absolute path to at most its last three segments.
pub fn short_path(path: &str) -> (r: String)
    ensures
        r@ == short_path_of(path@),
{
    let p = chars_of(path);
    let r = short_path_chars(&p);
    string_of(&r)
}

/// [`short_path`] on a character buffer.
fn short_path_chars(p: &Vec<char>) -> (r: Vec<char>)
    ensures
        r@ == short_path_of(p@),
{
    let mut count: u64 = 0;
    let mut h = p.len();
    while h > 0
        invariant
            h <= p@.len(),
            count < 3,
            slash_from_end(p@, p@.len() as int, 3) == slash_from_end(p@, h as int, (3 - count) as nat),
        decreases h,
    {
        if p[h - 1] == '/' {
            count = count + 1;
            if count == 3 {
                let r = slice_of(p, h, p.len());
                proof {
                    assert(r@ =~= p@.skip(h as int));
                }
                return r;
            }
        }
        h = h - 1;
    }
    slice_of(p, 0, p.len())
}

// ---------------------------------------------------------------------------
// The card
// ---------------------------------------------------------------------------

/// Agent execution state shown in the card header.
#[derive(Debug, Clone, Copy, PartialEq, Eq, Structural)]
pub enum CardState {
    Running,
    Idle,
}

/// A background sub-agent tracked in the card.
pub struct BackgroundTaskEntry {
    pub task_id: String,
    pub agent_name: String,
    pub finished: bool,
}

/// A file modified during the session, with its diff stats.
pub struct FileChange {
    pub path: String,
    pub additions: u64,
    pub deletions: u64,
}

/// Pinned session summary card.
pub struct PinnedSessionCard {
    /// Telegram chat id this card belongs to.
    pub chat_id: i64,
    /// Message id of the pinned message, `None` until first sent.
    pub message_id: Option<i32>,
    /// Session identifier used to detect session switches.
    pub session_id: String,
    session_title: String,
    model: String,
    context_window_tokens: Option<u32>,
    state: CardState,
    input_tokens: u32,
    output_tokens: u32,
    thinking_ms: u64,
    tool_calls: u32,
    background_tasks: Vec<BackgroundTaskEntry>,
    changed_files: Vec<FileChange>,
    project_name: String,
    project_branch: String,
    dirty: bool,
    last_rendered: String,
}

/// The abstract state of a card.
pub struct CardView {
    pub chat_id: i64,
    pub message_id: Option<i32>,
    pub session_id: Seq<char>,
    pub session_title: Seq<char>,
    pub model: Seq<char>,
    pub context_window: Option<u32>,
    pub state: CardState,
    pub input_tokens: u32,
    pub output_tokens: u32,
    pub thinking_ms: u64,
    pub tool_calls: u32,
    /// `(task id, agent name, finished)` in start order.
    pub background: Seq<(Seq<char>, Seq<char>, bool)>,
    /// `(path, additions, deletions)` in order of first change.
    pub files: Seq<(Seq<char>, u64, u64)>,
    pub project_name: Seq<char>,
    pub project_branch: Seq<char>,
    pub dirty: bool,
    pub last_rendered: Seq<char>,
}

/// View of a background task entry.
pub open spec fn task_view(t: BackgroundTaskEntry) -> (Seq<char>, Seq<char>, bool) {
    (t.task_id@, t.agent_name@, t.finished)
}

/// View of a file change.
pub open spec fn file_view(f: FileChange) -> (Seq<char>, u64, u64) {
    (f.path@, f.additions, f.deletions)
}

impl View for PinnedSessionCard {
    type V = CardView;

    closed spec fn view(&self) -> CardView {
        CardView {
            chat_id: self.chat_id,
            message_id: self.message_id,
            session_id: self.session_id@,
            session_title: self.session_title@,
            model: self.model@,
            context_window: self.context_window_tokens,
            state: self.state,
            input_tokens: self.input_tokens,
            output_tokens: self.output_tokens,
            thinking_ms: self.thinking_ms,
            tool_calls: self.tool_calls,
            background: self.background_tasks@.map_values(|t: BackgroundTaskEntry| task_view(t)),
            files: self.changed_files@.map_values(|f: FileChange| file_view(f)),
            project_name: self.project_name@,
            project_branch: self.project_branch@,
            dirty: self.dirty,
            last_rendered: self.last_rendered@,
        }
    }
}

/// No path is tracked twice.
pub open spec fn distinct_paths(files: Seq<(Seq<char>, u64, u64)>) -> bool {
    forall|i: int, j: int| 0 <= i < j < files.len() ==> files[i].0 != files[j].0
}

/// The card's invariant: changed files are tracked once per path.
pub open spec fn card_wf(v: CardView) -> bool {
    distinct_paths(v.files)
}

// ---------------------------------------------------------------------------
// Rendering specification
// ---------------------------------------------------------------------------

/// Status emoji of the agent state.
pub open spec fn status_emoji(s: CardState) -> Seq<char> {
    match s {
        CardState::Running => "🟢"@,
        CardState::Idle => "⚪"@,
    }
}

/// Header lines: model and gauge plus the session title, or only the title
/// before the model is known.
pub open spec fn head_lines(v: CardView, gauge: Seq<char>) -> Seq<Seq<char>> {
    if v.model.len() == 0 {
        seq![status_emoji(v.state) + " <b>"@ + escape_html(v.session_title) + "</b>"@]
    } else {
        seq![
            status_emoji(v.state) + " <code>"@ + escape_html(v.model) + "</code>"@ + gauge,
            "<i>"@ + escape_html(v.session_title) + "</i>"@,
        ]
    }
}

/// The project line, when a project is known.
pub open spec fn project_lines(v: CardView) -> Seq<Seq<char>> {
    if v.project_name.len() == 0 {
        seq![]
    } else if v.project_branch.len() == 0 {
        seq!["Project: "@ + escape_html(v.project_name)]
    } else {
        seq!["Project: "@ + escape_html(v.project_name) + ": "@ + escape_html(v.project_branch)]
    }
}

/// The thinking-time line, when at least a second was spent thinking.
pub open spec fn thinking_lines(v: CardView) -> Seq<Seq<char>> {
    if v.thinking_ms / 1000 > 0 {
        seq!["Thinking: "@ + decimal((v.thinking_ms / 1000) as nat) + "s"@]
    } else {
        seq![]
    }
}

/// The tool-call count line, when any tool was called.
pub open spec fn tool_lines(v: CardView) -> Seq<Seq<char>> {
    if v.tool_calls > 0 {
        seq!["🔧 "@ + decimal(v.tool_calls as nat) + " tool calls"@]
    } else {
        seq![]
    }
}

/// Agent names of the background tasks that have not finished.
pub open spec fn active_agents(bg: Seq<(Seq<char>, Seq<char>, bool)>) -> Seq<Seq<char>>
    decreases bg.len(),
{
    if bg.len() == 0 {
        seq![]
    } else if bg.last().2 {
        active_agents(bg.drop_last())
    } else {
        active_agents(bg.drop_last()).push(bg.last().1)
    }
}

/// Background section: a blank line, a heading, one line per active task.
pub open spec fn background_lines(v: CardView) -> Seq<Seq<char>> {
    let active = active_agents(v.background);
    if active.len() == 0 {
        seq![]
    } else {
        seq![seq![], "🔄 <b>Background ("@ + decimal(active.len()) + ")</b>"@] + active.map_values(
            |n: Seq<char>| "⏳ "@ + escape_html(n),
        )
    }
}

/// The diff stats of a file, e.g. ` (+3 -1)`; empty when both are zero.
pub open spec fn diff_suffix(additions: u64, deletions: u64) -> Seq<char> {
    if additions > 0 && deletions > 0 {
        " (+"@ + decimal(additions as nat) + " -"@ + decimal(deletions as nat) + ")"@
    } else if additions > 0 {
        " (+"@ + decimal(additions as nat) + ")"@
    } else if deletions > 0 {
        " (-"@ + decimal(deletions as nat) + ")"@
    } else {
        seq![]
    }
}

/// One changed-file line.
pub open spec fn file_line(f: (Seq<char>, u64, u64)) -> Seq<char> {
    "  "@ + escape_html(short_path_of(f.0)) + diff_suffix(f.1, f.2)
}

/// Files section: a blank line, a heading, the first ten files and a count
/// of the rest.
pub open spec fn file_lines(v: CardView) -> Seq<Seq<char>> {
    let total = v.files.len();
    if total == 0 {
        seq![]
    } else {
        let shown = if total <= 10 {
            v.files
        } else {
            v.files.take(10)
        };
        seq![seq![], "📁 <b>Files ("@ + decimal(total) + ")</b>"@] + shown.map_values(
            |f: (Seq<char>, u64, u64)| file_line(f),
        ) + if total > 10 {
            seq!["  … and "@ + decimal((total - 10) as nat) + " more"@]
        } else {
            seq![]
        }
    }
}

/// The card's HTML, given the rendered context gauge of its first line.
pub open spec fn card_html(v: CardView, gauge: Seq<char>) -> Seq<char> {
    join_lines(
        head_lines(v, gauge) + project_lines(v) + thinking_lines(v) + tool_lines(v)
            + background_lines(v) + file_lines(v),
    )
}


// ---------------------------------------------------------------------------
// Event specification
// ---------------------------------------------------------------------------

/// Index of the first tracked file with `path`, scanning from `i`.
pub open spec fn path_index_from(files: Seq<(Seq<char>, u64, u64)>, path: Seq<char>, i: int) -> Option<
    int,
>
    decreases files.len() - i,
{
    if i < 0 || i >= files.len() {
        None
    } else if files[i].0 == path {
        Some(i)
    } else {
        path_index_from(files, path, i + 1)
    }
}

/// Files after a change of `path` by `+additions -deletions`: the counts
/// accumulate on an already tracked path, else the path is appended.
pub open spec fn files_after_change(
    files: Seq<(Seq<char>, u64, u64)>,
    path: Seq<char>,
    additions: u64,
    deletions: u64,
) -> Seq<(Seq<char>, u64, u64)> {
    match path_index_from(files, path, 0) {
        Some(i) => files.update(
            i,
            (path, (files[i].1 + additions) as u64, (files[i].2 + deletions) as u64),
        ),
        None => files.push((path, additions, deletions)),
    }
}

/// Index of the first background task with `task_id`, scanning from `i`.
pub open spec fn task_index_from(bg: Seq<(Seq<char>, Seq<char>, bool)>, task_id: Seq<char>, i: int) -> Option<
    int,
>
    decreases bg.len() - i,
{
    if i < 0 || i >= bg.len() {
        None
    } else if bg[i].0 == task_id {
        Some(i)
    } else {
        task_index_from(bg, task_id, i + 1)
    }
}

/// The card after it was flushed with the given gauge.
pub open spec fn flushed(v: CardView, gauge: Seq<char>) -> CardView {
    CardView { last_rendered: card_html(v, gauge), dirty: false, ..v }
}

/// Whether a flush is due: the card is dirty and renders differently from
/// the last flush.
pub open spec fn flush_due(v: CardView, gauge: Seq<char>) -> bool {
    v.dirty && card_html(v, gauge) != v.last_rendered
}

// ---------------------------------------------------------------------------
// Laws
// ---------------------------------------------------------------------------

/// No sign character among the digits of a number.
proof fn lemma_decimal_unsigned(n: nat)
    ensures
        !decimal(n).contains('+'),
        !decimal(n).contains('-'),
        decimal(n).len() >= 1,
        digits_value(decimal(n)) == n,
{
    lemma_decimal_digits(n);
    let ds = decimal(n);
    assert forall|k: int| 0 <= k < ds.len() implies ds[k] != '+' && ds[k] != '-' by {
        assert('0' <= ds[k] <= '9');
    }
}

/// How a changed file's line counts read: additions as `+N`, deletions as
/// `-N`, both in one pair of brackets with additions first, nothing when
/// neither. A `+` appears exactly when there are additions and a `-`
/// exactly when there are deletions, each followed by its own count.
pub proof fn law_diff_suffix_signs(additions: u64, deletions: u64)
    ensures
        diff_suffix(additions, deletions).contains('+') <==> additions > 0,
        diff_suffix(additions, deletions).contains('-') <==> deletions > 0,
        additions == 0 && deletions == 0 ==> diff_suffix(additions, deletions) == Seq::<char>::empty(),
        additions > 0 && deletions == 0 ==> diff_suffix(additions, deletions) == " (+"@ + decimal(
            additions as nat,
        ) + ")"@,
        additions == 0 && deletions > 0 ==> diff_suffix(additions, deletions) == " (-"@ + decimal(
            deletions as nat,
        ) + ")"@,
        additions > 0 && deletions > 0 ==> diff_suffix(additions, deletions) == " (+"@ + decimal(
            additions as nat,
        ) + " -"@ + decimal(deletions as nat) + ")"@,
{
    reveal_strlit(" (+");
    reveal_strlit(" (-");
    reveal_strlit(" -");
    reveal_strlit(")");
    lemma_decimal_unsigned(additions as nat);
    lemma_decimal_unsigned(deletions as nat);
    let r = diff_suffix(additions, deletions);
    let a = decimal(additions as nat);
    let d = decimal(deletions as nat);
    if additions > 0 && deletions > 0 {
        assert(r[2] == '+');
        assert(r[(3 + a.len() + 1) as int] == '-');
    } else if additions > 0 {
        assert(r[2] == '+');
        assert forall|k: int| 0 <= k < r.len() implies r[k] != '-' by {
            if 3 <= k < 3 + a.len() {
                assert(r[k] == a[k - 3]);
            }
        }
    } else if deletions > 0 {
        assert(r[2] == '-');
        assert forall|k: int| 0 <= k < r.len() implies r[k] != '+' by {
            if 3 <= k < 3 + d.len() {
                assert(r[k] == d[k - 3]);
            }
        }
    }
}

/// The card after [`PinnedSessionCard::needs_flush`] with `gauge`: a dirty
/// card that renders as last flushed is marked clean; otherwise unchanged.
pub open spec fn after_flush_check(v: CardView, gauge: Seq<char>) -> CardView {
    if v.dirty && !flush_due(v, gauge) {
        CardView { dirty: false, ..v }
    } else {
        v
    }
}

/// Whether the card's dirty flag is faithful for `gauge`: a clean card
/// renders exactly as it was last flushed.
pub open spec fn flush_tracks(v: CardView, gauge: Seq<char>) -> bool {
    !v.dirty ==> card_html(v, gauge) == v.last_rendered
}

/// Whatever sequence of calls has run since the last flush, with the same
/// gauge, `needs_flush` answers exactly whether the card now renders
/// differently from that flush (`""` before the first one). The dirty flag
/// is faithful for a new card and after every changing call (both set it),
/// after `mark_flushed`, and after `needs_flush`; calls that change nothing
/// leave the card as it was. Where it is faithful, a flush is due exactly
/// when the rendering differs.
pub proof fn law_needs_flush_tracks_rendering(v: CardView, gauge: Seq<char>)
    ensures
        flush_tracks(CardView { dirty: true, ..v }, gauge),
        flush_tracks(flushed(v, gauge), gauge),
        flush_tracks(v, gauge) ==> flush_tracks(after_flush_check(v, gauge), gauge),
        flush_tracks(v, gauge) ==> (flush_due(v, gauge) <==> card_html(v, gauge) != v.last_rendered),
{
    let f = flushed(v, gauge);
    assert(card_html(f, gauge) == card_html(v, gauge)) by {
        assert(head_lines(f, gauge) == head_lines(v, gauge));
        assert(project_lines(f) == project_lines(v));
        assert(thinking_lines(f) == thinking_lines(v));
        assert(tool_lines(f) == tool_lines(v));
        assert(background_lines(f) == background_lines(v));
        assert(file_lines(f) == file_lines(v));
    }
    let c = CardView { dirty: false, ..v };
    assert(card_html(c, gauge) == card_html(v, gauge)) by {
        assert(head_lines(c, gauge) == head_lines(v, gauge));
        assert(project_lines(c) == project_lines(v));
        assert(thinking_lines(c) == thinking_lines(v));
        assert(tool_lines(c) == tool_lines(v));
        assert(background_lines(c) == background_lines(v));
        assert(file_lines(c) == file_lines(v));
    }
}

/// Marking a flushed card dirty without changing what it shows (the
/// gauge included) makes no flush due: only a change of the rendering
/// reaches the Telegram API.
pub proof fn law_unchanged_card_needs_no_flush(v: CardView, gauge: Seq<char>)
    ensures
        !flush_due(CardView { dirty: true, ..flushed(v, gauge) }, gauge),
{
    let w = CardView { dirty: true, ..flushed(v, gauge) };
    assert(card_html(w, gauge) == card_html(v, gauge)) by {
        assert(head_lines(w, gauge) == head_lines(v, gauge));
        assert(project_lines(w) == project_lines(v));
        assert(thinking_lines(w) == thinking_lines(v));
        assert(tool_lines(w) == tool_lines(v));
        assert(background_lines(w) == background_lines(v));
        assert(file_lines(w) == file_lines(v));
    }
}

/// Right after a flush no flush is due: repeated renders of an unchanged
/// card never reach the Telegram API.
pub proof fn law_no_flush_due_after_flush(v: CardView, gauge: Seq<char>)
    ensures
        !flush_due(flushed(v, gauge), gauge),
{
    assert(card_html(flushed(v, gauge), gauge) == card_html(v, gauge)) by {
        assert(head_lines(flushed(v, gauge), gauge) == head_lines(v, gauge));
        assert(project_lines(flushed(v, gauge)) == project_lines(v));
        assert(thinking_lines(flushed(v, gauge)) == thinking_lines(v));
        assert(tool_lines(flushed(v, gauge)) == tool_lines(v));
        assert(background_lines(flushed(v, gauge)) == background_lines(v));
        assert(file_lines(flushed(v, gauge)) == file_lines(v));
    }
}

/// Recording a change keeps every path tracked once, and the changed path
/// is tracked afterwards with the accumulated counts.
pub proof fn law_file_changes_accumulate(
    files: Seq<(Seq<char>, u64, u64)>,
    path: Seq<char>,
    additions: u64,
    deletions: u64,
)
    requires
        distinct_paths(files),
        path_index_from(files, path, 0) matches Some(i) ==> files[i].1 + additions <= u64::MAX
            && files[i].2 + deletions <= u64::MAX,
    ensures
        distinct_paths(files_after_change(files, path, additions, deletions)),
        path_index_from(files_after_change(files, path, additions, deletions), path, 0) matches Some(
            j,
        ) && files_after_change(files, path, additions, deletions)[j] == match path_index_from(
            files,
            path,
            0,
        ) {
            Some(i) => (path, (files[i].1 + additions) as u64, (files[i].2 + deletions) as u64),
            None => (path, additions, deletions),
        },
{
    lemma_path_index(files, path, 0);
    let after = files_after_change(files, path, additions, deletions);
    match path_index_from(files, path, 0) {
        Some(i) => {
            lemma_path_index(after, path, 0);
            assert(after[i].0 == path);
            if path_index_from(after, path, 0) != Some(i) {
                let k = path_index_from(after, path, 0);
                assert(k is Some ==> k->0 <= i);
                assert(k is Some);
                assert(after[k->0] == files[k->0]);
            }
        },
        None => {
            lemma_path_index(after, path, 0);
            assert(after[files.len() as int].0 == path);
            assert forall|a: int, b: int| 0 <= a < b < after.len() implies after[a].0 != after[b].0 by {
                if b == files.len() {
                    assert(files[a].0 != path);
                }
            }
            let k = path_index_from(after, path, 0);
            assert(k is Some);
            if k->0 < files.len() {
                assert(files[k->0].0 == path);
            }
        },
    }
}

/// [`path_index_from`] finds the first matching index at or after `i`.
pub proof fn lemma_path_index(files: Seq<(Seq<char>, u64, u64)>, path: Seq<char>, i: int)
    requires
        0 <= i,
    ensures
        path_index_from(files, path, i) matches Some(k) ==> i <= k < files.len() && files[k].0
            == path && forall|j: int| i <= j < k ==> files[j].0 != path,
        path_index_from(files, path, i) is None ==> forall|j: int|
            i <= j < files.len() ==> files[j].0 != path,
    decreases files.len() - i,
{
    if i < files.len() && files[i].0 != path {
        lemma_path_index(files, path, i + 1);
    }
}


// ---------------------------------------------------------------------------
// Implementation
// ---------------------------------------------------------------------------

/// One line made of a literal prefix, the escape of `text` and a literal
/// suffix.
fn escaped_line(prefix: &str, text: &Vec<char>, suffix: &str) -> (r: Vec<char>)
    ensures
        r@ == prefix@ + escape_html(text@) + suffix@,
{
    let mut out: Vec<char> = Vec::new();
    push_str(&mut out, prefix);
    push_escaped_html(&mut out, text);
    push_str(&mut out, suffix);
    out
}

/// One line made of a literal prefix, a decimal number and a literal suffix.
fn number_line(prefix: &str, n: u128, suffix: &str) -> (r: Vec<char>)
    ensures
        r@ == prefix@ + decimal(n as nat) + suffix@,
{
    let mut out: Vec<char> = Vec::new();
    push_str(&mut out, prefix);
    push_seq(&mut out, &decimal_exec(n));
    push_str(&mut out, suffix);
    out
}

/// Append the lines of `more` to `lines`.
fn append_lines(lines: &mut Vec<Vec<char>>, more: Vec<Vec<char>>)
    ensures
        views(final(lines)@) == views(old(lines)@) + views(more@),
{
    let mut more = more;
    let ghost m = more@;
    lines.append(&mut more);
    proof {
        assert(views(lines@) =~= views(old(lines)@) + views(m));
    }
}

impl PinnedSessionCard {
    /// Create a card for a session; `session_title` is its human-readable
    /// label.
    pub fn new(chat_id: i64, session_id: String, session_title: String) -> (r: Self)
        ensures
            r@ == (CardView {
                chat_id,
                message_id: None,
                session_id: session_id@,
                session_title: session_title@,
                model: seq![],
                context_window: None,
                state: CardState::Running,
                input_tokens: 0,
                output_tokens: 0,
                thinking_ms: 0,
                tool_calls: 0,
                background: seq![],
                files: seq![],
                project_name: seq![],
                project_branch: seq![],
                dirty: true,
                last_rendered: seq![],
            }),
            card_wf(r@),
    {
        let r = PinnedSessionCard {
            chat_id,
            message_id: None,
            session_id,
            session_title,
            model: String::new(),
            context_window_tokens: None,
            state: CardState::Running,
            input_tokens: 0,
            output_tokens: 0,
            thinking_ms: 0,
            tool_calls: 0,
            background_tasks: Vec::new(),
            changed_files: Vec::new(),
            project_name: String::new(),
            project_branch: String::new(),
            dirty: true,
            last_rendered: String::new(),
        };
        proof {
            assert(r@.background =~= Seq::<(Seq<char>, Seq<char>, bool)>::empty());
            assert(r@.files =~= Seq::<(Seq<char>, u64, u64)>::empty());
        }
        r
    }

    /// Tokens used and context window for the gauge of the first line: the
    /// kernel-supplied window, else the model-name fallback.
    pub fn context_usage(&self) -> (r: (u32, Option<u32>))
        ensures
            r == (self@.input_tokens, match self@.context_window {
                Some(w) => Some(w),
                None => fallback_window(self@.model),
            }),
    {
        let window = match self.context_window_tokens {
            Some(w) => Some(w),
            None => fallback_context_window(self.model.as_str()),
        };
        (self.input_tokens, window)
    }

    /// Render the card as HTML; `gauge` is the rendered context gauge that
    /// follows the model name on the first line.
    pub fn render(&self, gauge: &str) -> (r: String)
        ensures
            r@ == card_html(self@, gauge@),
    {
        let lines = self.render_lines(gauge);
        let out = join_lines_exec(&lines);
        string_of(&out)
    }

    /// The lines of the card.
    fn render_lines(&self, gauge: &str) -> (r: Vec<Vec<char>>)
        ensures
            views(r@) == head_lines(self@, gauge@) + project_lines(self@) + thinking_lines(self@)
                + tool_lines(self@) + background_lines(self@) + file_lines(self@),
    {
        let mut lines: Vec<Vec<char>> = Vec::new();
        append_lines(&mut lines, self.head(gauge));
        append_lines(&mut lines, self.project());
        append_lines(&mut lines, self.thinking());
        append_lines(&mut lines, self.tools());
        append_lines(&mut lines, self.background());
        append_lines(&mut lines, self.files());
        proof {
            assert(views(Seq::<Vec<char>>::empty()) =~= Seq::<Seq<char>>::empty());
        }
        lines
    }

    /// Header lines.
    fn head(&self, gauge: &str) -> (r: Vec<Vec<char>>)
        ensures
            views(r@) == head_lines(self@, gauge@),
    {
        let emoji = match self.state {
            CardState::Running => "🟢",
            CardState::Idle => "⚪",
        };
        let title = chars_of(self.session_title.as_str());
        let model = chars_of(self.model.as_str());
        let mut lines: Vec<Vec<char>> = Vec::new();
        proof {
            assert(emoji@ == status_emoji(self@.state));
        }
        if model.len() == 0 {
            let mut l: Vec<char> = chars_of(emoji);
            push_seq(&mut l, &escaped_line(" <b>", &title, "</b>"));
            proof {
                assert(l@ =~= status_emoji(self@.state) + " <b>"@ + escape_html(self@.session_title)
                    + "</b>"@);
            }
            lines.push(l);
            proof {
                assert(views(lines@) =~= head_lines(self@, gauge@));
            }
        } else {
            let mut l: Vec<char> = chars_of(emoji);
            push_seq(&mut l, &escaped_line(" <code>", &model, "</code>"));
            push_str(&mut l, gauge);
            proof {
                assert(l@ =~= status_emoji(self@.state) + " <code>"@ + escape_html(self@.model)
                    + "</code>"@ + gauge@);
            }
            lines.push(l);
            lines.push(escaped_line("<i>", &title, "</i>"));
            proof {
                assert(views(lines@) =~= head_lines(self@, gauge@));
            }
        }
        lines
    }

    /// Project line.
    fn project(&self) -> (r: Vec<Vec<char>>)
        ensures
            views(r@) == project_lines(self@),
    {
        let name = chars_of(self.project_name.as_str());
        let branch = chars_of(self.project_branch.as_str());
        let mut lines: Vec<Vec<char>> = Vec::new();
        proof {
            reveal_strlit("");
        }
        if name.len() > 0 {
            let mut l = escaped_line("Project: ", &name, "");
            proof {
                assert(l@ =~= "Project: "@ + escape_html(self@.project_name));
            }
            if branch.len() > 0 {
                push_seq(&mut l, &escaped_line(": ", &branch, ""));
                proof {
                    assert(l@ =~= "Project: "@ + escape_html(self@.project_name) + ": "@
                        + escape_html(self@.project_branch));
                }
            }
            lines.push(l);
        }
        proof {
            assert(views(lines@) =~= project_lines(self@));
        }
        lines
    }

    /// Thinking-time line.
    fn thinking(&self) -> (r: Vec<Vec<char>>)
        ensures
            views(r@) == thinking_lines(self@),
    {
        let mut lines: Vec<Vec<char>> = Vec::new();
        let secs = self.thinking_ms / 1000;
        if secs > 0 {
            lines.push(number_line("Thinking: ", secs as u128, "s"));
        }
        proof {
            assert(views(lines@) =~= thinking_lines(self@));
        }
        lines
    }

    /// Tool-call count line.
    fn tools(&self) -> (r: Vec<Vec<char>>)
        ensures
            views(r@) == tool_lines(self@),
    {
        let mut lines: Vec<Vec<char>> = Vec::new();
        if self.tool_calls > 0 {
            lines.push(number_line("🔧 ", self.tool_calls as u128, " tool calls"));
        }
        proof {
            assert(views(lines@) =~= tool_lines(self@));
        }
        lines
    }

    /// Background-task section.
    fn background(&self) -> (r: Vec<Vec<char>>)
        ensures
            views(r@) == background_lines(self@),
    {
        let n = self.background_tasks.len();
        let mut active: Vec<Vec<char>> = Vec::new();
        let ghost bg = self@.background;
        for k in 0..n
            invariant
                n == self.background_tasks@.len(),
                bg == self@.background,
                views(active@) == active_agents(bg.take(k as int)).map_values(
                    |a: Seq<char>| "⏳ "@ + escape_html(a),
                ),
                active@.len() == active_agents(bg.take(k as int)).len(),
        {
            let t = &self.background_tasks[k];
            proof {
                assert(bg.take(k + 1).drop_last() =~= bg.take(k as int));
                assert(bg.take(k + 1).last() == task_view(*t));
            }
            if !t.finished {
                let name = chars_of(t.agent_name.as_str());
                let line = escaped_line("⏳ ", &name, "");
                proof {
                    reveal_strlit("");
                    assert(line@ =~= "⏳ "@ + escape_html(name@));
                }
                let ghost before = active@;
                active.push(line);
                proof {
                    let prev = active_agents(bg.take(k as int));
                    assert(active_agents(bg.take(k + 1)) == prev.push(name@));
                    assert(views(active@) =~= views(before).push(line@));
                    assert(prev.push(name@).map_values(|a: Seq<char>| "⏳ "@ + escape_html(a))
                        =~= prev.map_values(|a: Seq<char>| "⏳ "@ + escape_html(a)).push(
                        "⏳ "@ + escape_html(name@),
                    ));
                }
            } else {
                proof {
                    assert(active_agents(bg.take(k + 1)) == active_agents(bg.take(k as int)));
                }
            }
        }
        proof {
            assert(bg.take(n as int) =~= bg);
        }
        let mut lines: Vec<Vec<char>> = Vec::new();
        if active.len() > 0 {
            lines.push(Vec::new());
            lines.push(number_line("🔄 <b>Background (", active.len() as u128, ")</b>"));
            proof {
                assert(views(lines@) =~= seq![
                    seq![],
                    "🔄 <b>Background ("@ + decimal(active_agents(bg).len()) + ")</b>"@,
                ]);
            }
            append_lines(&mut lines, active);
        }
        proof {
            assert(views(lines@) =~= background_lines(self@));
        }
        lines
    }

    /// Changed-files section.
    fn files(&self) -> (r: Vec<Vec<char>>)
        ensures
            views(r@) == file_lines(self@),
    {
        let total = self.changed_files.len();
        let mut lines: Vec<Vec<char>> = Vec::new();
        if total == 0 {
            proof {
                assert(views(lines@) =~= file_lines(self@));
            }
            return lines;
        }
        lines.push(Vec::new());
        lines.push(number_line("📁 <b>Files (", total as u128, ")</b>"));
        proof {
            assert(views(lines@) =~= seq![seq![], "📁 <b>Files ("@ + decimal(total as nat) + ")</b>"@]);
        }
        let shown = if total <= 10 {
            total
        } else {
            10
        };
        let ghost files = self@.files;
        let mut body: Vec<Vec<char>> = Vec::new();
        for k in 0..shown
            invariant
                shown <= total,
                total == self.changed_files@.len(),
                files == self@.files,
                views(body@) == files.take(k as int).map_values(
                    |f: (Seq<char>, u64, u64)| file_line(f),
                ),
        {
            let f = &self.changed_files[k];
            let path = chars_of(f.path.as_str());
            let sp = short_path_chars(&path);
            let mut l = escaped_line("  ", &sp, "");
            push_seq(&mut l, &diff_suffix_exec(f.additions, f.deletions));
            proof {
                reveal_strlit("");
                assert(files[k as int] == file_view(*f));
                assert(l@ =~= file_line(files[k as int]));
            }
            let ghost before = body@;
            body.push(l);
            proof {
                assert(views(body@) =~= views(before).push(l@));
                assert(files.take(k + 1) =~= files.take(k as int).push(files[k as int]));
                assert(files.take(k + 1).map_values(|f: (Seq<char>, u64, u64)| file_line(f))
                    =~= files.take(k as int).map_values(|f: (Seq<char>, u64, u64)| file_line(f)).push(
                    file_line(files[k as int]),
                ));
            }
        }
        proof {
            if total <= 10 {
                assert(files.take(shown as int) =~= files);
            }
        }
        append_lines(&mut lines, body);
        if total > 10 {
            let ghost before = lines@;
            let more = number_line("  … and ", (total - 10) as u128, " more");
            lines.push(more);
            proof {
                assert(views(lines@) =~= views(before).push(more@));
                assert(views(lines@) =~= file_lines(self@));
            }
        } else {
            proof {
                assert(views(lines@) =~= file_lines(self@));
            }
        }
        lines
    }

    /// The context window recorded from the kernel, if any.
    pub fn context_window_tokens(&self) -> (r: Option<u32>)
        ensures
            r == self@.context_window,
    {
        self.context_window_tokens
    }

    /// The changed files, in order of first change.
    pub fn changed_files(&self) -> (r: &Vec<FileChange>)
        ensures
            r@.map_values(|f: FileChange| file_view(f)) == self@.files,
    {
        &self.changed_files
    }

    /// Whether the card has changes not yet flushed.
    pub fn is_dirty(&self) -> (r: bool)
        ensures
            r == self@.dirty,
    {
        self.dirty
    }

    /// Mark the card dirty, forcing the next [`Self::needs_flush`] to compare
    /// renderings.
    pub fn mark_dirty(&mut self)
        ensures
            final(self)@ == (CardView { dirty: true, ..old(self)@ }),
    {
        self.dirty = true;
    }

    /// Set the project name and git branch shown on the card.
    pub fn set_project_info(&mut self, name: String, branch: String)
        ensures
            final(self)@ == (CardView {
                project_name: name@,
                project_branch: branch@,
                dirty: true,
                ..old(self)@
            }),
    {
        self.project_name = name;
        self.project_branch = branch;
        self.dirty = true;
    }

    /// Cumulative usage counters were updated.
    pub fn on_usage_update(&mut self, input_tokens: u32, output_tokens: u32, thinking_ms: u64)
        ensures
            final(self)@ == (CardView {
                input_tokens,
                output_tokens,
                thinking_ms,
                dirty: true,
                ..old(self)@
            }),
    {
        self.input_tokens = input_tokens;
        self.output_tokens = output_tokens;
        self.thinking_ms = thinking_ms;
        self.dirty = true;
    }

    /// A tool call began.
    pub fn on_tool_start(&mut self)
        requires
            old(self)@.tool_calls < u32::MAX,
        ensures
            final(self)@ == (CardView {
                tool_calls: (old(self)@.tool_calls + 1) as u32,
                dirty: true,
                ..old(self)@
            }),
    {
        self.tool_calls = self.tool_calls + 1;
        self.dirty = true;
    }

    /// A tool call finished.
    pub fn on_tool_end(&mut self)
        ensures
            final(self)@ == (CardView { dirty: true, ..old(self)@ }),
    {
        self.dirty = true;
    }

    /// Turn metrics arrived: record the model and, when given, the
    /// authoritative context window (a missing window keeps the known one).
    pub fn on_turn_metrics(&mut self, model: String, context_window_tokens: Option<u32>)
        ensures
            final(self)@ == (CardView {
                model: model@,
                context_window: if context_window_tokens is Some {
                    context_window_tokens
                } else {
                    old(self)@.context_window
                },
                dirty: true,
                ..old(self)@
            }),
    {
        self.set_model_and_window(model, context_window_tokens);
    }

    /// A turn started: record the model and, when given, the context window,
    /// so the card is never empty during a turn.
    pub fn on_turn_started(&mut self, model: String, context_window_tokens: Option<u32>)
        ensures
            final(self)@ == (CardView {
                model: model@,
                context_window: if context_window_tokens is Some {
                    context_window_tokens
                } else {
                    old(self)@.context_window
                },
                dirty: true,
                ..old(self)@
            }),
    {
        self.set_model_and_window(model, context_window_tokens);
    }

    /// Update the model and, when given, the context window.
    fn set_model_and_window(&mut self, model: String, context_window_tokens: Option<u32>)
        ensures
            final(self)@ == (CardView {
                model: model@,
                context_window: if context_window_tokens is Some {
                    context_window_tokens
                } else {
                    old(self)@.context_window
                },
                dirty: true,
                ..old(self)@
            }),
    {
        self.model = model;
        if context_window_tokens.is_some() {
            self.context_window_tokens = context_window_tokens;
        }
        self.dirty = true;
    }

    /// Record a file mutation with its diff stats; a path already tracked
    /// accumulates the counts.
    pub fn on_file_changed(&mut self, path: String, additions: u64, deletions: u64)
        requires
            card_wf(old(self)@),
            path_index_from(old(self)@.files, path@, 0) matches Some(i) ==> old(self)@.files[i].1
                + additions <= u64::MAX && old(self)@.files[i].2 + deletions <= u64::MAX,
        ensures
            final(self)@ == (CardView {
                files: files_after_change(old(self)@.files, path@, additions, deletions),
                dirty: true,
                ..old(self)@
            }),
            card_wf(final(self)@),
    {
        proof {
            law_file_changes_accumulate(old(self)@.files, path@, additions, deletions);
        }
        let n = self.changed_files.len();
        let p = chars_of(path.as_str());
        let ghost files = self@.files;
        let mut i: usize = 0;
        while i < n
            invariant
                n == self.changed_files@.len(),
                files == self.changed_files@.map_values(|f: FileChange| file_view(f)),
                p@ == path@,
                i <= n,
                self@ == old(self)@,
                files == old(self)@.files,
                distinct_paths(files_after_change(files, path@, additions, deletions)),
                path_index_from(files, path@, 0) == path_index_from(files, path@, i as int),
                path_index_from(files, path@, 0) matches Some(j) ==> files[j].1 + additions
                    <= u64::MAX && files[j].2 + deletions <= u64::MAX,
            decreases n - i,
        {
            let fp = chars_of(self.changed_files[i].path.as_str());
            if crate::text::seq_eq(&fp, &p) {
                assert(files[i as int].0 == path@);
                assert(path_index_from(files, path@, i as int) == Some(i as int));
                let old_entry = &self.changed_files[i];
                let entry = FileChange {
                    path,
                    additions: old_entry.additions + additions,
                    deletions: old_entry.deletions + deletions,
                };
                self.changed_files.set(i, entry);
                self.dirty = true;
                proof {
                    assert(self@.files =~= files_after_change(files, path@, additions, deletions));
                }
                return ;
            }
            i = i + 1;
        }
        self.changed_files.push(FileChange { path, additions, deletions });
        self.dirty = true;
        proof {
            assert(self@.files =~= files_after_change(files, path@, additions, deletions));
        }
    }

    /// A background sub-agent was spawned.
    pub fn on_background_task_started(&mut self, task_id: String, agent_name: String)
        ensures
            final(self)@ == (CardView {
                background: old(self)@.background.push((task_id@, agent_name@, false)),
                dirty: true,
                ..old(self)@
            }),
    {
        self.background_tasks.push(BackgroundTaskEntry { task_id, agent_name, finished: false });
        self.dirty = true;
        proof {
            assert(self@.background =~= old(self)@.background.push((task_id@, agent_name@, false)));
        }
    }

    /// A background sub-agent finished: the first task with that id is
    /// marked finished; an unknown id changes nothing.
    pub fn on_background_task_done(&mut self, task_id: &str)
        ensures
            final(self)@ == match task_index_from(old(self)@.background, task_id@, 0) {
                Some(i) => CardView {
                    background: old(self)@.background.update(
                        i,
                        (old(self)@.background[i].0, old(self)@.background[i].1, true),
                    ),
                    dirty: true,
                    ..old(self)@
                },
                None => old(self)@,
            },
    {
        let n = self.background_tasks.len();
        let id = chars_of(task_id);
        let ghost bg = self@.background;
        let mut i: usize = 0;
        while i < n
            invariant
                n == self.background_tasks@.len(),
                bg == self.background_tasks@.map_values(|t: BackgroundTaskEntry| task_view(t)),
                id@ == task_id@,
                i <= n,
                self@ == old(self)@,
                bg == old(self)@.background,
                task_index_from(bg, task_id@, 0) == task_index_from(bg, task_id@, i as int),
            decreases n - i,
        {
            let tid = chars_of(self.background_tasks[i].task_id.as_str());
            if crate::text::seq_eq(&tid, &id) {
                assert(task_index_from(bg, task_id@, i as int) == Some(i as int));
                let t = &self.background_tasks[i];
                let entry = BackgroundTaskEntry {
                    task_id: t.task_id.clone(),
                    agent_name: t.agent_name.clone(),
                    finished: true,
                };
                self.background_tasks.set(i, entry);
                self.dirty = true;
                proof {
                    assert(self@.background =~= bg.update(
                        i as int,
                        (bg[i as int].0, bg[i as int].1, true),
                    ));
                }
                return ;
            }
            i = i + 1;
        }
    }

    /// The stream closed: the agent is idle.
    pub fn on_stream_close(&mut self)
        ensures
            final(self)@ == (CardView { state: CardState::Idle, dirty: true, ..old(self)@ }),
    {
        self.state = CardState::Idle;
        self.dirty = true;
    }

    /// Whether the card has pending changes worth flushing: it is dirty and
    /// its rendering differs from the last flush. A dirty card that renders
    /// as before is marked clean instead.
    pub fn needs_flush(&mut self, gauge: &str) -> (r: bool)
        ensures
            r == flush_due(old(self)@, gauge@),
            final(self)@ == after_flush_check(old(self)@, gauge@),
    {
        if !self.dirty {
            return false;
        }
        let current = self.render(gauge);
        if str_eq(current.as_str(), self.last_rendered.as_str()) {
            self.dirty = false;
            return false;
        }
        true
    }

    /// Record the flushed HTML and clear the dirty flag.
    pub fn mark_flushed(&mut self, gauge: &str)
        ensures
            final(self)@ == flushed(old(self)@, gauge@),
    {
        self.last_rendered = self.render(gauge);
        self.dirty = false;
    }
}

/// Diff stats suffix of a changed file.
fn diff_suffix_exec(additions: u64, deletions: u64) -> (r: Vec<char>)
    ensures
        r@ == diff_suffix(additions, deletions),
{
    let mut out: Vec<char> = Vec::new();
    if additions > 0 && deletions > 0 {
        push_seq(&mut out, &number_line(" (+", additions as u128, ""));
        push_seq(&mut out, &number_line(" -", deletions as u128, ")"));
    } else if additions > 0 {
        push_seq(&mut out, &number_line(" (+", additions as u128, ")"));
    } else if deletions > 0 {
        push_seq(&mut out, &number_line(" (-", deletions as u128, ")"));
    }
    proof {
        reveal_strlit("");
        assert(out@ =~= diff_suffix(additions, deletions));
    }
    out
}

} // verus!
