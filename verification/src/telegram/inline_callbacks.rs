//! The inline-keyboard callbacks the adapter answers itself: guard
//! approvals, answers to a question the agent asked, the tool-call limit
//! prompt, and the trace, cascade and dashboard toggles under a finished
//! turn. Each callback's data is parsed and checked here; the caller
//! fetches what the decision needs, performs the Bot API calls and reports
//! back the outcome to phrase.

use vstd::prelude::*;

use super::commands::{button_view, callback_button, row_view, ButtonView, InlineButton};
use super::dashboard::{tab_named, DashTab};
use super::progress_message::summary_callback;
use crate::text::{
    chars_of, decimal, escape_html, find_char, find_char_exec, parse_in_range, parse_int_exec,
    parse_unsigned, push_decimal, push_escaped_str, push_str, slice_of, splitn, splitn_exec,
    starts_with, starts_with_exec, str_eq, string_of, strs_view, lemma_splitn_len, char_free,
    lemma_parse_signed_decimal, lemma_signed_decimal_free, lemma_splitn_cons, signed_decimal,
};

verus! {

// ---------------------------------------------------------------------------
// Shared pieces
// ---------------------------------------------------------------------------

/// The UUID `uuid::Uuid::parse_str` reads from `s` (simple, hyphenated,
/// braced or URN form), as its 128-bit big-endian value; `None` when the
/// crate rejects the text.
pub uninterp spec fn uuid_value(s: Seq<char>) -> Option<u128>;

/// `uuid::Uuid::parse_str`, read back with `Uuid::as_u128`. The contract
/// names the result and claims nothing else of the crate's parser.
#[verifier::external_body]
fn parse_uuid(s: &str) -> (r: Option<u128>)
    ensures
        r == uuid_value(s@),
{
    uuid::Uuid::parse_str(s).ok().map(|u| u.as_u128())
}

/// Whether `id` may act: an empty allow-list admits everyone.
pub open spec fn admitted(allowed: Seq<i64>, id: i64) -> bool {
    allowed.len() == 0 || allowed.contains(id)
}

fn is_admitted(allowed: &Vec<i64>, id: i64) -> (r: bool)
    ensures
        r == admitted(allowed@, id),
{
    if allowed.len() == 0 {
        return true;
    }
    for i in 0..allowed.len()
        invariant
            forall|k: int| 0 <= k < i ==> allowed@[k] != id,
    {
        if allowed[i] == id {
            proof {
                assert(allowed@.contains(id));
            }
            return true;
        }
    }
    false
}

/// A user's decision on a prompt with two buttons.
#[derive(Debug, Clone, Copy, PartialEq, Eq, Structural)]
pub enum Decision {
    /// Approve, or continue.
    Yes,
    /// Deny, or stop.
    No,
}

// ---------------------------------------------------------------------------
// Guard approvals: `guard:approve:{uuid}` / `guard:deny:{uuid}`
// ---------------------------------------------------------------------------

/// A guard-approval callback, parsed.
#[derive(Debug, Clone, Copy, PartialEq, Eq, Structural)]
pub enum GuardCallback {
    /// The user is not on the allow-list.
    Unauthorized,
    /// Not three `:`-separated parts.
    Malformed,
    /// The request id is no UUID.
    InvalidId,
    /// Neither `approve` nor `deny`.
    UnknownAction,
    /// Resolve the request with the decision.
    Decide { request_id: u128, decision: Decision },
}

/// What a guard callback asks for.
pub open spec fn guard_callback(data: Seq<char>, from_id: i64, allowed: Seq<i64>) -> GuardCallback {
    let p = splitn(data, 3, ':');
    if !admitted(allowed, from_id) {
        GuardCallback::Unauthorized
    } else if p.len() != 3 {
        GuardCallback::Malformed
    } else {
        match uuid_value(p[2]) {
            None => GuardCallback::InvalidId,
            Some(id) => if p[1] == "approve"@ {
                GuardCallback::Decide { request_id: id, decision: Decision::Yes }
            } else if p[1] == "deny"@ {
                GuardCallback::Decide { request_id: id, decision: Decision::No }
            } else {
                GuardCallback::UnknownAction
            },
        }
    }
}

/// Parse a guard-approval callback pressed by user `from_id`: the user is
/// checked first, then the data's shape, the request id and the action.
pub fn parse_guard_callback(data: &str, from_id: i64, allowed_user_ids: &Vec<i64>) -> (r: GuardCallback)
    ensures
        r == guard_callback(data@, from_id, allowed_user_ids@),
{
    if !is_admitted(allowed_user_ids, from_id) {
        return GuardCallback::Unauthorized;
    }
    let parts = splitn_exec(data, 3, ':');
    proof {
        assert(strs_view(parts@).len() == parts@.len());
    }
    if parts.len() != 3 {
        return GuardCallback::Malformed;
    }
    proof {
        assert(strs_view(parts@)[1] == parts@[1]@);
        assert(strs_view(parts@)[2] == parts@[2]@);
    }
    match parse_uuid(parts[2].as_str()) {
        None => GuardCallback::InvalidId,
        Some(id) => {
            if str_eq(parts[1].as_str(), "approve") {
                GuardCallback::Decide { request_id: id, decision: Decision::Yes }
            } else if str_eq(parts[1].as_str(), "deny") {
                GuardCallback::Decide { request_id: id, decision: Decision::No }
            } else {
                GuardCallback::UnknownAction
            }
        },
    }
}

/// How resolving a guard request went.
pub enum GuardResolution {
    /// The decision was recorded.
    Resolved,
    /// The request had expired.
    Expired,
    /// The request was no longer pending.
    NotFound,
    /// Another failure, with its message.
    Failed(String),
}

/// The toast that answers a guard decision.
pub open spec fn guard_answer(d: Decision) -> Seq<char> {
    match d {
        Decision::Yes => "✅ Approved"@,
        Decision::No => "❌ Denied"@,
    }
}

/// The one-line guard message after the decision.
pub open spec fn guard_compact(d: Decision, res: GuardResolution, decided_by: Seq<char>) -> Seq<char> {
    match res {
        GuardResolution::Resolved => match d {
            Decision::Yes => "🛡 <b>Guard</b> ✅ by @"@ + decided_by,
            Decision::No => "🛡 <b>Guard</b> ❌ by @"@ + decided_by,
        },
        GuardResolution::Expired => "🛡 <b>Guard</b> ⏰ timed out"@,
        GuardResolution::NotFound => "🛡 <b>Guard</b> ⏰ already resolved"@,
        GuardResolution::Failed(e) => "🛡 <b>Guard</b> ⚠️ "@ + escape_html(e@),
    }
}

/// The toast that answers a guard decision.
pub fn guard_answer_text(decision: Decision) -> (r: &'static str)
    ensures
        r@ == guard_answer(decision),
{
    match decision {
        Decision::Yes => "✅ Approved",
        Decision::No => "❌ Denied",
    }
}

/// The one-line message the guard prompt collapses into once decided.
pub fn guard_compact_text(decision: Decision, resolution: &GuardResolution, decided_by: &str) -> (r: String)
    ensures
        r@ == guard_compact(decision, *resolution, decided_by@),
{
    let mut out: Vec<char> = Vec::new();
    match resolution {
        GuardResolution::Resolved => {
            match decision {
                Decision::Yes => push_str(&mut out, "🛡 <b>Guard</b> ✅ by @"),
                Decision::No => push_str(&mut out, "🛡 <b>Guard</b> ❌ by @"),
            }
            push_str(&mut out, decided_by);
        },
        GuardResolution::Expired => push_str(&mut out, "🛡 <b>Guard</b> ⏰ timed out"),
        GuardResolution::NotFound => push_str(&mut out, "🛡 <b>Guard</b> ⏰ already resolved"),
        GuardResolution::Failed(e) => {
            push_str(&mut out, "🛡 <b>Guard</b> ⚠️ ");
            push_escaped_str(&mut out, e.as_str());
        },
    }
    proof {
        assert(out@ =~= guard_compact(decision, *resolution, decided_by@));
    }
    string_of(&out)
}

// ---------------------------------------------------------------------------
// Answers to a question the agent asked: `au:{uuid}:{index}`
// ---------------------------------------------------------------------------

/// An answer callback, parsed.
#[derive(Debug, Clone, Copy, PartialEq, Eq, Structural)]
pub enum AskUserCallback {
    /// The data does not start with `au:`.
    NotOurs,
    /// No `:` after the question id.
    Malformed,
    /// The question id is no UUID.
    InvalidQuestionId,
    /// The option index is no number.
    InvalidIndex,
    /// The user picked option `index` of question `question_id`.
    Answer { question_id: u128, index: usize },
}

/// What an answer callback carries.
pub open spec fn ask_user_callback(data: Seq<char>) -> AskUserCallback {
    if !starts_with(data, "au:"@) {
        AskUserCallback::NotOurs
    } else {
        let rest = data.skip(3);
        match find_char(rest, ':') {
            None => AskUserCallback::Malformed,
            Some(k) => match uuid_value(rest.take(k)) {
                None => AskUserCallback::InvalidQuestionId,
                Some(q) => match parse_unsigned(rest.skip(k + 1), usize::MAX as int) {
                    None => AskUserCallback::InvalidIndex,
                    Some(i) => AskUserCallback::Answer { question_id: q, index: i as usize },
                },
            },
        }
    }
}

/// Parse an answer callback.
pub fn parse_ask_user_callback(data: &str) -> (r: AskUserCallback)
    ensures
        r == ask_user_callback(data@),
{
    let v = chars_of(data);
    let n = v.len();
    proof {
        reveal_strlit("au:");
    }
    if !starts_with_exec(&v, &chars_of("au:")) {
        return AskUserCallback::NotOurs;
    }
    let rest = slice_of(&v, 3, n);
    proof {
        assert(rest@ =~= data@.skip(3));
    }
    match find_char_exec(&rest, ':', 0) {
        None => AskUserCallback::Malformed,
        Some(k) => {
            let q = slice_of(&rest, 0, k);
            let idx = slice_of(&rest, k + 1, rest.len());
            proof {
                assert(q@ =~= rest@.take(k as int));
                assert(idx@ =~= rest@.skip(k + 1));
            }
            match parse_uuid(string_of(&q).as_str()) {
                None => AskUserCallback::InvalidQuestionId,
                Some(qid) => {
                    if idx.len() > 0 && idx[0] == '-' {
                        return AskUserCallback::InvalidIndex;
                    }
                    match parse_int_exec(&idx, 0, usize::MAX as i128) {
                        None => AskUserCallback::InvalidIndex,
                        Some(i) => AskUserCallback::Answer { question_id: qid, index: i as usize },
                    }
                },
            }
        },
    }
}

/// A question that waits for an answer.
pub struct PendingQuestion {
    /// The user who was asked, when known; only they may answer.
    pub expected_user_id: Option<String>,
    /// The options offered as buttons.
    pub options: Option<Vec<String>>,
    pub question_text: String,
}

/// The check of an answer against the pending question.
pub enum AnswerCheck {
    /// No such question is pending.
    NotPending,
    /// Someone else than the asked user pressed the button.
    NotAsker,
    /// The question was recorded without options.
    NoOptions,
    /// The index names no option (the question stays pending).
    OutOfRange,
    /// The chosen option.
    Answer(String),
}

/// Check an answer to option `index` pressed by user `caller_id`.
pub fn check_answer(pending: Option<&PendingQuestion>, caller_id: &str, index: usize) -> (r: AnswerCheck)
    ensures
        match pending {
            None => r is NotPending,
            Some(q) => match q.expected_user_id {
                Some(u) if u@ != caller_id@ => r is NotAsker,
                _ => match q.options {
                    None => r is NoOptions,
                    Some(opts) => if index < opts@.len() {
                        r matches AnswerCheck::Answer(a) && a@ == opts@[index as int]@
                    } else {
                        r is OutOfRange
                    },
                },
            },
        },
{
    match pending {
        None => AnswerCheck::NotPending,
        Some(q) => {
            match &q.expected_user_id {
                Some(u) => {
                    if !str_eq(u.as_str(), caller_id) {
                        return AnswerCheck::NotAsker;
                    }
                },
                None => {},
            }
            match &q.options {
                None => AnswerCheck::NoOptions,
                Some(opts) => {
                    if index < opts.len() {
                        AnswerCheck::Answer(opts[index].clone())
                    } else {
                        AnswerCheck::OutOfRange
                    }
                },
            }
        },
    }
}

/// The prompt after it was answered: the question struck through and the
/// chosen option.
pub open spec fn answered(question: Seq<char>, answer: Seq<char>) -> Seq<char> {
    "<b>✅ Answered</b>\n\n<s>"@ + escape_html(question) + "</s>\n\n<i>→ "@ + escape_html(answer)
        + "</i>"@
}

/// The prompt after it was answered.
pub fn answered_text(question: &str, answer: &str) -> (r: String)
    ensures
        r@ == answered(question@, answer@),
{
    let mut out: Vec<char> = Vec::new();
    push_str(&mut out, "<b>✅ Answered</b>\n\n<s>");
    push_escaped_str(&mut out, question);
    push_str(&mut out, "</s>\n\n<i>→ ");
    push_escaped_str(&mut out, answer);
    push_str(&mut out, "</i>");
    proof {
        assert(out@ =~= answered(question@, answer@));
    }
    string_of(&out)
}

// ---------------------------------------------------------------------------
// Tool-call limit: `limit:{continue|stop}:{session_key}:{limit_id}`
// ---------------------------------------------------------------------------

/// A tool-call limit callback, parsed.
pub enum LimitCallback {
    /// The chat is not on the allow-list.
    Unauthorized,
    /// Not four `:`-separated parts.
    Malformed,
    /// The limit id is no number.
    InvalidLimitId,
    /// Neither `continue` nor `stop`.
    UnknownAction,
    /// Resolve the limit of the session with the decision.
    Decide { session_key: String, limit_id: u64, decision: Decision },
}

/// A parsed tool-call limit callback in the specification.
pub enum LimitCallbackV {
    Unauthorized,
    Malformed,
    InvalidLimitId,
    UnknownAction,
    Decide(Seq<char>, u64, Decision),
}

/// The view of a parsed limit callback.
pub open spec fn limit_v(c: LimitCallback) -> LimitCallbackV {
    match c {
        LimitCallback::Unauthorized => LimitCallbackV::Unauthorized,
        LimitCallback::Malformed => LimitCallbackV::Malformed,
        LimitCallback::InvalidLimitId => LimitCallbackV::InvalidLimitId,
        LimitCallback::UnknownAction => LimitCallbackV::UnknownAction,
        LimitCallback::Decide { session_key, limit_id, decision } => LimitCallbackV::Decide(
            session_key@,
            limit_id,
            decision,
        ),
    }
}

/// What a tool-call limit callback from chat `chat_id` asks for.
pub open spec fn limit_callback(data: Seq<char>, chat_id: i64, allowed: Seq<i64>) -> LimitCallbackV {
    let p = splitn(data, 4, ':');
    if !admitted(allowed, chat_id) {
        LimitCallbackV::Unauthorized
    } else if p.len() != 4 {
        LimitCallbackV::Malformed
    } else {
        match parse_unsigned(p[3], u64::MAX as int) {
            None => LimitCallbackV::InvalidLimitId,
            Some(id) => if p[1] == "continue"@ {
                LimitCallbackV::Decide(p[2], id as u64, Decision::Yes)
            } else if p[1] == "stop"@ {
                LimitCallbackV::Decide(p[2], id as u64, Decision::No)
            } else {
                LimitCallbackV::UnknownAction
            },
        }
    }
}

/// Parse a tool-call limit callback pressed in chat `chat_id`: the chat is
/// checked first, then the shape, the limit id and the action. (The
/// session key is handed on for the caller to validate.)
pub fn parse_limit_callback(data: &str, chat_id: i64, allowed_chat_ids: &Vec<i64>) -> (r: LimitCallback)
    ensures
        limit_v(r) == limit_callback(data@, chat_id, allowed_chat_ids@),
{
    if !is_admitted(allowed_chat_ids, chat_id) {
        return LimitCallback::Unauthorized;
    }
    let parts = splitn_exec(data, 4, ':');
    proof {
        assert(strs_view(parts@).len() == parts@.len());
    }
    if parts.len() != 4 {
        return LimitCallback::Malformed;
    }
    proof {
        assert(strs_view(parts@)[1] == parts@[1]@);
        assert(strs_view(parts@)[2] == parts@[2]@);
        assert(strs_view(parts@)[3] == parts@[3]@);
    }
    match crate::text::parse_u64_exec(parts[3].as_str()) {
        None => LimitCallback::InvalidLimitId,
        Some(id) => {
            if str_eq(parts[1].as_str(), "continue") {
                LimitCallback::Decide { session_key: parts[2].clone(), limit_id: id, decision: Decision::Yes }
            } else if str_eq(parts[1].as_str(), "stop") {
                LimitCallback::Decide { session_key: parts[2].clone(), limit_id: id, decision: Decision::No }
            } else {
                LimitCallback::UnknownAction
            }
        },
    }
}

/// The toast that answers a limit decision.
pub open spec fn limit_answer(d: Decision) -> Seq<char> {
    match d {
        Decision::Yes => "▶️ Continuing"@,
        Decision::No => "⏹ Stopped"@,
    }
}

/// The prompt after the decision: its text, then the outcome.
pub open spec fn limit_decided(original: Seq<char>, d: Decision, resolved: bool, decided_by: Seq<char>) -> Seq<char> {
    escape_html(original) + "\n\n"@ + if resolved {
        match d {
            Decision::Yes => "▶️ <b>Continued</b> by @"@ + decided_by,
            Decision::No => "⏹ <b>Stopped</b> by @"@ + decided_by,
        }
    } else {
        "⚠️ Decision expired (agent already finished or timed out)"@
    }
}

/// The toast that answers a limit decision.
pub fn limit_answer_text(decision: Decision) -> (r: &'static str)
    ensures
        r@ == limit_answer(decision),
{
    match decision {
        Decision::Yes => "▶️ Continuing",
        Decision::No => "⏹ Stopped",
    }
}

/// The limit prompt after the decision; `resolved` says whether the agent
/// was still waiting for it.
pub fn limit_decided_text(original_text: &str, decision: Decision, resolved: bool, decided_by: &str) -> (r:
    String)
    ensures
        r@ == limit_decided(original_text@, decision, resolved, decided_by@),
{
    let mut out: Vec<char> = Vec::new();
    push_escaped_str(&mut out, original_text);
    push_str(&mut out, "\n\n");
    if resolved {
        match decision {
            Decision::Yes => push_str(&mut out, "▶️ <b>Continued</b> by @"),
            Decision::No => push_str(&mut out, "⏹ <b>Stopped</b> by @"),
        }
        push_str(&mut out, decided_by);
    } else {
        push_str(&mut out, "⚠️ Decision expired (agent already finished or timed out)");
    }
    proof {
        assert(out@ =~= limit_decided(original_text@, decision, resolved, decided_by@));
    }
    string_of(&out)
}

// ---------------------------------------------------------------------------
// Trace, cascade and dashboard toggles: `{kind}:{action}:{chat}:{msg}:{trace}`
// ---------------------------------------------------------------------------

/// The parts of a toggle callback under a finished turn's summary.
pub struct ToggleTarget {
    pub action: String,
    /// The chat id as written in the data.
    pub chat: String,
    /// The message id as written in the data.
    pub message: String,
    pub trace_id: String,
}

/// The view of a toggle target: action, chat, message and trace id.
pub open spec fn target_v(t: ToggleTarget) -> (Seq<char>, Seq<char>, Seq<char>, Seq<char>) {
    (t.action@, t.chat@, t.message@, t.trace_id@)
}

/// Parse a toggle callback: five `:`-separated parts, the last holding
/// the rest; `None` for another shape (such as the older four-part data).
pub fn parse_toggle(data: &str) -> (r: Option<ToggleTarget>)
    ensures
        r is Some <==> splitn(data@, 5, ':').len() == 5,
        r matches Some(t) ==> target_v(t) == (
            splitn(data@, 5, ':')[1],
            splitn(data@, 5, ':')[2],
            splitn(data@, 5, ':')[3],
            splitn(data@, 5, ':')[4],
        ),
{
    let parts = splitn_exec(data, 5, ':');
    proof {
        assert(strs_view(parts@).len() == parts@.len());
    }
    if parts.len() != 5 {
        return None;
    }
    proof {
        assert(strs_view(parts@)[1] == parts@[1]@);
        assert(strs_view(parts@)[2] == parts@[2]@);
        assert(strs_view(parts@)[3] == parts@[3]@);
        assert(strs_view(parts@)[4] == parts@[4]@);
    }
    Some(
        ToggleTarget {
            action: parts[1].clone(),
            chat: parts[2].clone(),
            message: parts[3].clone(),
            trace_id: parts[4].clone(),
        },
    )
}

/// The chat and message ids of a toggle target, when both are numbers of
/// their types.
pub fn target_ids(t: &ToggleTarget) -> (r: Option<(i64, i32)>)
    ensures
        r matches Some((c, m)) ==> parse_in_range(t.chat@, i64::MIN as int, i64::MAX as int) == Some(
            c as int,
        ) && parse_in_range(t.message@, i32::MIN as int, i32::MAX as int) == Some(m as int),
        r is None ==> parse_in_range(t.chat@, i64::MIN as int, i64::MAX as int) is None || parse_in_range(
            t.message@,
            i32::MIN as int,
            i32::MAX as int,
        ) is None,
{
    let c = parse_int_exec(&chars_of(t.chat.as_str()), i64::MIN as i128, i64::MAX as i128);
    let m = parse_int_exec(&chars_of(t.message.as_str()), i32::MIN as i128, i32::MAX as i128);
    match (c, m) {
        (Some(c), Some(m)) => Some((c as i64, m as i32)),
        _ => None,
    }
}

/// The callback data `kind:action:chat:msg:trace` built back from a target.
pub open spec fn toggle_data(kind: Seq<char>, action: Seq<char>, t: ToggleTarget) -> Seq<char> {
    kind + ":"@ + action + ":"@ + t.chat@ + ":"@ + t.message@ + ":"@ + t.trace_id@
}

fn toggle_data_exec(kind: &str, action: &str, t: &ToggleTarget) -> (r: String)
    ensures
        r@ == toggle_data(kind@, action@, *t),
{
    let mut out: Vec<char> = Vec::new();
    push_str(&mut out, kind);
    push_str(&mut out, ":");
    push_str(&mut out, action);
    push_str(&mut out, ":");
    push_str(&mut out, t.chat.as_str());
    push_str(&mut out, ":");
    push_str(&mut out, t.message.as_str());
    push_str(&mut out, ":");
    push_str(&mut out, t.trace_id.as_str());
    proof {
        assert(out@ =~= toggle_data(kind@, action@, *t));
    }
    string_of(&out)
}

/// The toast for trace data in the older four-part form.
pub const TRACE_EXPIRED: &'static str = "Trace expired after update, please trigger a new one";

/// What a trace toggle shows: the full trace for `show` (with a collapse
/// button), the compact summary for anything else (with a details
/// button); the cascade button stays.
pub open spec fn trace_toggle(t: ToggleTarget) -> (bool, Seq<ButtonView>) {
    let show = t.action@ == "show"@;
    (
        show,
        seq![
            if show {
                ("📊 收起"@, Some(toggle_data("trace"@, "hide"@, t)), None)
            } else {
                ("📊 详情"@, Some(toggle_data("trace"@, "show"@, t)), None)
            },
            ("🔍 Cascade"@, Some(toggle_data("cas"@, "show"@, t)), None),
        ],
    )
}

/// The trace toggle: whether to show the full trace, and the keyboard.
pub fn trace_toggle_keyboard(t: &ToggleTarget) -> (r: (bool, Vec<InlineButton>))
    ensures
        r.0 == trace_toggle(*t).0,
        row_view(r.1) == trace_toggle(*t).1,
{
    let show = str_eq(t.action.as_str(), "show");
    let mut row: Vec<InlineButton> = Vec::new();
    if show {
        row.push(callback_button("📊 收起".to_string(), toggle_data_exec("trace", "hide", t)));
    } else {
        row.push(callback_button("📊 详情".to_string(), toggle_data_exec("trace", "show", t)));
    }
    row.push(callback_button("🔍 Cascade".to_string(), toggle_data_exec("cas", "show", t)));
    proof {
        assert(row_view(row) =~= trace_toggle(*t).1);
    }
    (show, row)
}

/// What a cascade callback asks for.
#[derive(Debug, Clone, Copy, PartialEq, Eq, Structural)]
pub enum CascadeAction {
    /// Back to the compact summary.
    Hide,
    /// Show the cascade of the turn.
    Show,
    /// An unknown action.
    Unknown,
}

/// The action a cascade callback names.
pub open spec fn cascade_action(t: ToggleTarget) -> CascadeAction {
    if t.action@ == "hide"@ {
        CascadeAction::Hide
    } else if t.action@ == "show"@ {
        CascadeAction::Show
    } else {
        CascadeAction::Unknown
    }
}

/// The action a cascade callback names.
pub fn cascade_action_of(t: &ToggleTarget) -> (r: CascadeAction)
    ensures
        r == cascade_action(*t),
{
    if str_eq(t.action.as_str(), "hide") {
        CascadeAction::Hide
    } else if str_eq(t.action.as_str(), "show") {
        CascadeAction::Show
    } else {
        CascadeAction::Unknown
    }
}

/// The keyboard under the compact summary restored by a cascade `hide`.
pub open spec fn cascade_hidden_buttons(t: ToggleTarget) -> Seq<ButtonView> {
    seq![
        ("📊 详情"@, Some(toggle_data("trace"@, "show"@, t)), None),
        ("🔍 Cascade"@, Some(toggle_data("cas"@, "show"@, t)), None),
    ]
}

/// The keyboard under a shown cascade: one button that hides it.
pub open spec fn cascade_shown_buttons(t: ToggleTarget) -> Seq<ButtonView> {
    seq![("🔍 收起"@, Some(toggle_data("cas"@, "hide"@, t)), None)]
}

/// The keyboard under the compact summary restored by a cascade `hide`.
pub fn cascade_hidden_keyboard(t: &ToggleTarget) -> (r: Vec<InlineButton>)
    ensures
        row_view(r) == cascade_hidden_buttons(*t),
{
    let mut row: Vec<InlineButton> = Vec::new();
    row.push(callback_button("📊 详情".to_string(), toggle_data_exec("trace", "show", t)));
    row.push(callback_button("🔍 Cascade".to_string(), toggle_data_exec("cas", "show", t)));
    proof {
        assert(row_view(row) =~= cascade_hidden_buttons(*t));
    }
    row
}

/// The keyboard under a shown cascade.
pub fn cascade_shown_keyboard(t: &ToggleTarget) -> (r: Vec<InlineButton>)
    ensures
        row_view(r) == cascade_shown_buttons(*t),
{
    let mut row: Vec<InlineButton> = Vec::new();
    row.push(callback_button("🔍 收起".to_string(), toggle_data_exec("cas", "hide", t)));
    proof {
        assert(row_view(row) =~= cascade_shown_buttons(*t));
    }
    row
}

/// The plain text shown when the cascade's HTML was refused.
pub open spec fn cascade_fallback(html_bytes: u64, tick_count: u64, total_entries: u64) -> Seq<char> {
    "⚠️ Cascade rendering failed (HTML too complex, "@ + decimal(html_bytes as nat) + " bytes).
Ticks: "@
        + decimal(tick_count as nat) + ", entries: "@ + decimal(total_entries as nat)
}

/// The plain text shown when the cascade's HTML was refused.
pub fn cascade_fallback_text(html_bytes: u64, tick_count: u64, total_entries: u64) -> (r: String)
    ensures
        r@ == cascade_fallback(html_bytes, tick_count, total_entries),
{
    let mut out: Vec<char> = Vec::new();
    push_str(&mut out, "⚠️ Cascade rendering failed (HTML too complex, ");
    push_decimal(&mut out, html_bytes as u128);
    push_str(&mut out, " bytes).\nTicks: ");
    push_decimal(&mut out, tick_count as u128);
    push_str(&mut out, ", entries: ");
    push_decimal(&mut out, total_entries as u128);
    proof {
        assert(out@ =~= cascade_fallback(html_bytes, tick_count, total_entries));
    }
    string_of(&out)
}

/// A dashboard callback: the tab, where the dashboard message is, and the
/// trace of the turn it belongs to (absent, or `-`, for none).
pub struct DashboardCallback {
    pub tab: DashTab,
    pub chat_id: i64,
    pub message_id: i32,
    pub trace_id: Option<String>,
}

/// Parse a dashboard callback `dash:{tab}:{chat}:{msg}[:{trace}]`: `None`
/// for fewer than four parts or ids that are no numbers of their types.
pub fn parse_dashboard_callback(data: &str) -> (r: Option<DashboardCallback>)
    ensures
        ({
            let p = splitn(data@, 5, ':');
            let c = if p.len() >= 4 {
                parse_in_range(p[2], i64::MIN as int, i64::MAX as int)
            } else {
                None
            };
            let m = if p.len() >= 4 {
                parse_in_range(p[3], i32::MIN as int, i32::MAX as int)
            } else {
                None
            };
            &&& r is Some <==> (p.len() >= 4 && c is Some && m is Some)
            &&& r matches Some(d) ==> {
                &&& d.tab == tab_named(p[1])
                &&& c == Some(d.chat_id as int)
                &&& m == Some(d.message_id as int)
                &&& match d.trace_id {
                    Some(t) => p.len() == 5 && p[4] != "-"@ && t@ == p[4],
                    None => p.len() < 5 || p[4] == "-"@,
                }
            }
        }),
{
    let parts = splitn_exec(data, 5, ':');
    proof {
        assert(strs_view(parts@).len() == parts@.len());
        lemma_splitn_len(data@, ':', 5, 0, 0);
    }
    if parts.len() < 4 {
        return None;
    }
    proof {
        assert(strs_view(parts@)[1] == parts@[1]@);
        assert(strs_view(parts@)[2] == parts@[2]@);
        assert(strs_view(parts@)[3] == parts@[3]@);
    }
    let tab = DashTab::from_str_prefix(parts[1].as_str());
    let c = parse_int_exec(&chars_of(parts[2].as_str()), i64::MIN as i128, i64::MAX as i128);
    let m = parse_int_exec(&chars_of(parts[3].as_str()), i32::MIN as i128, i32::MAX as i128);
    let (chat_id, message_id) = match (c, m) {
        (Some(c), Some(m)) => (c as i64, m as i32),
        _ => {
            return None;
        },
    };
    let trace_id = if parts.len() == 5 {
        proof {
            assert(strs_view(parts@)[4] == parts@[4]@);
        }
        if str_eq(parts[4].as_str(), "-") {
            None
        } else {
            Some(parts[4].clone())
        }
    } else {
        None
    };
    Some(DashboardCallback { tab, chat_id, message_id, trace_id })
}

/// The data `kind:action:chat:msg:trace` of the buttons under a finished
/// turn's summary parses back to the same kind, action, message and trace,
/// whatever the trace id holds.
pub proof fn law_toggle_data_parses_back(
    kind: Seq<char>,
    action: Seq<char>,
    chat_id: i64,
    message_id: i32,
    trace_id: Seq<char>,
)
    requires
        char_free(kind, ':'),
        char_free(action, ':'),
    ensures
        splitn(
            kind + ":"@ + action + ":"@ + signed_decimal(chat_id as int) + ":"@ + signed_decimal(
                message_id as int,
            ) + ":"@ + trace_id,
            5,
            ':',
        ) == seq![
            kind,
            action,
            signed_decimal(chat_id as int),
            signed_decimal(message_id as int),
            trace_id,
        ],
        parse_in_range(signed_decimal(chat_id as int), i64::MIN as int, i64::MAX as int) == Some(
            chat_id as int,
        ),
        parse_in_range(signed_decimal(message_id as int), i32::MIN as int, i32::MAX as int) == Some(
            message_id as int,
        ),
{
    reveal_strlit(":");
    let c = signed_decimal(chat_id as int);
    let m = signed_decimal(message_id as int);
    lemma_signed_decimal_free(chat_id as int, ':');
    lemma_signed_decimal_free(message_id as int, ':');
    lemma_parse_signed_decimal(chat_id as int);
    lemma_parse_signed_decimal(message_id as int);
    let r3 = m + seq![':'] + trace_id;
    let r2 = c + seq![':'] + r3;
    let r1 = action + seq![':'] + r2;
    let data = kind + ":"@ + action + ":"@ + c + ":"@ + m + ":"@ + trace_id;
    assert(data =~= kind + seq![':'] + r1);
    lemma_splitn_cons(kind, r1, ':', 5);
    lemma_splitn_cons(action, r2, ':', 4);
    lemma_splitn_cons(c, r3, ':', 3);
    lemma_splitn_cons(m, trace_id, ':', 2);
    assert(trace_id.subrange(0, trace_id.len() as int) =~= trace_id);
    assert(splitn(trace_id, 1, ':') =~= seq![trace_id]);
    assert(splitn(data, 5, ':') =~= seq![kind, action, c, m, trace_id]);
}

/// The buttons under a finished turn's summary carry such data: details,
/// cascade and dashboard toggles for the same message and trace.
pub proof fn law_summary_buttons_are_toggles(chat_id: i64, message_id: i32, trace_id: Seq<char>)
    ensures
        summary_callback("trace:show"@, chat_id, message_id, trace_id) == toggle_parts(
            "trace"@,
            "show"@,
            chat_id,
            message_id,
            trace_id,
        ),
        summary_callback("cas:show"@, chat_id, message_id, trace_id) == toggle_parts(
            "cas"@,
            "show"@,
            chat_id,
            message_id,
            trace_id,
        ),
        summary_callback("dash:tasks"@, chat_id, message_id, trace_id) == toggle_parts(
            "dash"@,
            "tasks"@,
            chat_id,
            message_id,
            trace_id,
        ),
{
    reveal_strlit(":");
    reveal_strlit("trace:show");
    reveal_strlit("trace");
    reveal_strlit("show");
    reveal_strlit("cas:show");
    reveal_strlit("cas");
    reveal_strlit("dash:tasks");
    reveal_strlit("dash");
    reveal_strlit("tasks");
    assert(summary_callback("trace:show"@, chat_id, message_id, trace_id) =~= toggle_parts(
        "trace"@,
        "show"@,
        chat_id,
        message_id,
        trace_id,
    ));
    assert(summary_callback("cas:show"@, chat_id, message_id, trace_id) =~= toggle_parts(
        "cas"@,
        "show"@,
        chat_id,
        message_id,
        trace_id,
    ));
    assert(summary_callback("dash:tasks"@, chat_id, message_id, trace_id) =~= toggle_parts(
        "dash"@,
        "tasks"@,
        chat_id,
        message_id,
        trace_id,
    ));
}

/// The data `kind:action:chat:msg:trace`.
pub open spec fn toggle_parts(kind: Seq<char>, action: Seq<char>, chat_id: i64, message_id: i32, trace_id: Seq<char>) -> Seq<char> {
    kind + ":"@ + action + ":"@ + signed_decimal(chat_id as int) + ":"@ + signed_decimal(message_id as int) + ":"@
        + trace_id
}

} // verus!
