//! The prompts the agent raises in Telegram: a guard approval for a
//! blocked tool call, and a question for the user. Where each goes, what
//! it says, and the buttons that answer it.

use vstd::prelude::*;

use super::commands::{button_view, callback_button, keyboard_view, row_view, ButtonView, InlineButton};
use crate::text::{
    chars_of, decimal, escape_html, opt_view, parse_in_range, parse_int_exec, push_decimal,
    push_escaped_str, push_seq, push_str, string_of,
};
use crate::tool_display::{display_info, summary_line, tool_display_info, truncate_summary, ToolArgs};

verus! {

// ---------------------------------------------------------------------------
// Shared pieces
// ---------------------------------------------------------------------------

/// The lower-case hexadecimal digit of `n < 16`.
pub open spec fn hex_digit(n: int) -> char {
    if n < 10 {
        (48 + n) as char
    } else {
        (87 + n) as char
    }
}

/// Hexadecimal digit `k` (0 to 31, most significant first) of a 128-bit
/// value.
pub open spec fn uuid_nibble(id: u128, k: int) -> int {
    (id as int / vstd::arithmetic::power::pow(16, (31 - k) as nat)) % 16
}

/// The text of a UUID as `uuid::Uuid` displays it: its 32 hexadecimal
/// digits, big-endian and lower-case, in groups of 8, 4, 4, 4 and 12
/// joined by `-`.
pub open spec fn uuid_text(id: u128) -> Seq<char> {
    Seq::new(
        36,
        |j: int|
            if j == 8 || j == 13 || j == 18 || j == 23 {
                '-'
            } else {
                hex_digit(
                    uuid_nibble(
                        id,
                        j - (if j > 8 {
                            1int
                        } else {
                            0
                        }) - (if j > 13 {
                            1int
                        } else {
                            0
                        }) - (if j > 18 {
                            1int
                        } else {
                            0
                        }) - (if j > 23 {
                            1int
                        } else {
                            0
                        }),
                    ),
                )
            },
    )
}

/// `uuid::Uuid::from_u128(id).to_string()` (the hyphenated form, from the
/// big-endian bytes of `id`), as [`uuid_text`] states it.
#[verifier::external_body]
pub(crate) fn format_uuid(id: u128) -> (r: String)
    ensures
        r@ == uuid_text(id),
{
    uuid::Uuid::from_u128(id).to_string()
}

/// Risk level of a blocked tool call.
#[derive(Debug, Clone, Copy, PartialEq, Eq, Structural)]
pub enum RiskLevel {
    Low,
    Medium,
    High,
    Critical,
}

/// The name of a risk level as the guard prompt shows it.
pub open spec fn risk_name(r: RiskLevel) -> Seq<char> {
    match r {
        RiskLevel::Low => "Low"@,
        RiskLevel::Medium => "Medium"@,
        RiskLevel::High => "High"@,
        RiskLevel::Critical => "Critical"@,
    }
}

/// The name of a risk level as the guard prompt shows it.
pub fn risk_label(r: RiskLevel) -> (s: &'static str)
    ensures
        s@ == risk_name(r),
{
    match r {
        RiskLevel::Low => "Low",
        RiskLevel::Medium => "Medium",
        RiskLevel::High => "High",
        RiskLevel::Critical => "Critical",
    }
}

/// Two decimal digits.
pub open spec fn two_digits(n: nat) -> Seq<char> {
    if n < 10 {
        "0"@ + decimal(n)
    } else {
        decimal(n)
    }
}

/// The UTC time of day of an instant given in seconds since the epoch, as
/// `HH:MM:SS`.
pub open spec fn clock_time(secs: int) -> Seq<char> {
    let d = secs % 86400;
    two_digits((d / 3600) as nat) + ":"@ + two_digits(((d % 3600) / 60) as nat) + ":"@ + two_digits(
        (d % 60) as nat,
    )
}

fn push_two_digits(out: &mut Vec<char>, n: u64)
    requires
        n < 100,
    ensures
        final(out)@ == old(out)@ + two_digits(n as nat),
{
    if n < 10 {
        push_str(out, "0");
    }
    push_decimal(out, n as u128);
}

/// The UTC time of day of an instant, as `HH:MM:SS`.
pub fn clock_time_text(secs: i64) -> (r: String)
    ensures
        r@ == clock_time(secs as int),
{
    let m = secs % 86400;
    let d: u64 = if m < 0 {
        (m + 86400) as u64
    } else {
        m as u64
    };
    proof {
        assert(d == (secs as int) % 86400);
    }
    let mut out: Vec<char> = Vec::new();
    push_two_digits(&mut out, d / 3600);
    push_str(&mut out, ":");
    push_two_digits(&mut out, (d % 3600) / 60);
    push_str(&mut out, ":");
    push_two_digits(&mut out, d % 60);
    proof {
        assert(out@ =~= clock_time(secs as int));
    }
    string_of(&out)
}

// ---------------------------------------------------------------------------
// Guard approvals
// ---------------------------------------------------------------------------

/// The chat a guard prompt goes to: the chat the session is bound to (its
/// id as stored, when it is a number), else the primary chat.
pub open spec fn approval_chat(binding: Option<Seq<char>>, primary: Option<i64>) -> Option<int> {
    match binding {
        Some(b) if parse_in_range(b, i64::MIN as int, i64::MAX as int) is Some => parse_in_range(
            b,
            i64::MIN as int,
            i64::MAX as int,
        ),
        _ => match primary {
            Some(p) => Some(p as int),
            None => None,
        },
    }
}

/// The chat a guard prompt goes to; `None` when the session has no chat
/// and no primary chat is configured (the prompt is dropped).
pub fn approval_chat_id(binding_chat_id: Option<&str>, primary_chat_id: Option<i64>) -> (r: Option<i64>)
    ensures
        match r {
            Some(c) => approval_chat(
                match binding_chat_id {
                    Some(b) => Some(b@),
                    None => None,
                },
                primary_chat_id,
            ) == Some(c as int),
            None => approval_chat(
                match binding_chat_id {
                    Some(b) => Some(b@),
                    None => None,
                },
                primary_chat_id,
            ) is None,
        },
{
    match binding_chat_id {
        Some(b) => {
            match parse_int_exec(&chars_of(b), i64::MIN as i128, i64::MAX as i128) {
                Some(v) => {
                    return Some(v as i64);
                },
                None => {},
            }
        },
        None => {},
    }
    primary_chat_id
}

/// What a blocked tool call's prompt says, before the line that asks for a
/// decision: the tool, what it does (its argument summary, cut to 80
/// characters), the context when there is one, the reason, the risk, and
/// when the request was made and expires.
pub open spec fn approval_info(
    tool_name: Seq<char>,
    args: Seq<(Seq<char>, Option<Seq<char>>)>,
    context: Option<Seq<char>>,
    summary: Seq<char>,
    risk: RiskLevel,
    timeout_secs: u64,
    requested_at: i64,
    expires_at: i64,
) -> Seq<char> {
    let action = summary_line(display_info(tool_name, args).1, 80);
    "<b>🛡 Guard Blocked Tool Call</b>\n\n<b>Tool:</b> <code>"@ + escape_html(tool_name) + "</code>\n"@
        + (if action.len() > 0 {
        "<b>Action:</b> <code>"@ + escape_html(action) + "</code>\n"@
    } else {
        seq![]
    }) + (match context {
        Some(c) => "<b>Context:</b> "@ + escape_html(c) + "\n"@,
        None => seq![],
    }) + "<b>Reason:</b> "@ + escape_html(summary) + "\n<b>Risk:</b> "@ + risk_name(risk)
        + "\n\n⏱ <b>Requested:</b> "@ + clock_time(requested_at as int) + "\n⏳ <b>Expires:</b> "@
        + decimal(timeout_secs as nat) + "s (at "@ + clock_time(expires_at as int) + ")"@
}

/// The line under the prompt that asks for a decision.
pub const APPROVAL_QUESTION: &'static str = "\n\nApprove or deny this action:";

/// The prompt of a blocked tool call (see [`approval_info`]) and, ending
/// it, the line that asks for a decision. `requested_at` and `expires_at`
/// are seconds since the epoch.
pub fn approval_prompt_text(
    tool_name: &str,
    args: &ToolArgs,
    context: Option<&str>,
    summary: &str,
    risk: RiskLevel,
    timeout_secs: u64,
    requested_at: i64,
    expires_at: i64,
) -> (r: (String, String))
    ensures
        r.0@ == approval_info(
            tool_name@,
            args@,
            match context {
                Some(c) => Some(c@),
                None => None,
            },
            summary@,
            risk,
            timeout_secs,
            requested_at,
            expires_at,
        ),
        r.1@ == r.0@ + APPROVAL_QUESTION@,
{
    let (_display, raw) = tool_display_info(tool_name, args);
    let action = truncate_summary(raw.as_str(), 80);
    let mut out: Vec<char> = Vec::new();
    push_str(&mut out, "<b>🛡 Guard Blocked Tool Call</b>\n\n<b>Tool:</b> <code>");
    push_escaped_str(&mut out, tool_name);
    push_str(&mut out, "</code>\n");
    let ghost a = out@;
    if chars_of(action.as_str()).len() > 0 {
        push_str(&mut out, "<b>Action:</b> <code>");
        push_escaped_str(&mut out, action.as_str());
        push_str(&mut out, "</code>\n");
    }
    let ghost b = out@;
    match context {
        Some(c) => {
            push_str(&mut out, "<b>Context:</b> ");
            push_escaped_str(&mut out, c);
            push_str(&mut out, "\n");
        },
        None => {},
    }
    let ghost c = out@;
    push_str(&mut out, "<b>Reason:</b> ");
    push_escaped_str(&mut out, summary);
    push_str(&mut out, "\n<b>Risk:</b> ");
    push_str(&mut out, risk_label(risk));
    push_str(&mut out, "\n\n⏱ <b>Requested:</b> ");
    push_str(&mut out, clock_time_text(requested_at).as_str());
    push_str(&mut out, "\n⏳ <b>Expires:</b> ");
    push_decimal(&mut out, timeout_secs as u128);
    push_str(&mut out, "s (at ");
    push_str(&mut out, clock_time_text(expires_at).as_str());
    push_str(&mut out, ")");
    proof {
        let act = summary_line(display_info(tool_name@, args@).1, 80);
        let act_part: Seq<char> = if act.len() > 0 {
            "<b>Action:</b> <code>"@ + escape_html(act) + "</code>\n"@
        } else {
            seq![]
        };
        let ctx_part: Seq<char> = match context {
            Some(x) => "<b>Context:</b> "@ + escape_html(x@) + "\n"@,
            None => seq![],
        };
        assert(b =~= a + act_part);
        assert(c =~= b + ctx_part);
        assert(out@ =~= approval_info(
            tool_name@,
            args@,
            match context {
                Some(x) => Some(x@),
                None => None,
            },
            summary@,
            risk,
            timeout_secs,
            requested_at,
            expires_at,
        ));
    }
    let info = string_of(&out);
    push_str(&mut out, APPROVAL_QUESTION);
    (info, string_of(&out))
}

/// The approve and deny buttons of request `id`.
pub open spec fn approval_buttons(id: u128) -> Seq<ButtonView> {
    seq![
        ("✅ Approve"@, Some("guard:approve:"@ + uuid_text(id)), None),
        ("❌ Deny"@, Some("guard:deny:"@ + uuid_text(id)), None),
    ]
}

/// The approve and deny buttons of request `id`.
pub fn approval_keyboard(id: u128) -> (r: Vec<InlineButton>)
    ensures
        row_view(r) == approval_buttons(id),
{
    let idt = format_uuid(id);
    let mut a: Vec<char> = Vec::new();
    push_str(&mut a, "guard:approve:");
    push_str(&mut a, idt.as_str());
    let mut d: Vec<char> = Vec::new();
    push_str(&mut d, "guard:deny:");
    push_str(&mut d, idt.as_str());
    let mut row: Vec<InlineButton> = Vec::new();
    row.push(callback_button("✅ Approve".to_string(), string_of(&a)));
    row.push(callback_button("❌ Deny".to_string(), string_of(&d)));
    proof {
        assert(row_view(row) =~= approval_buttons(id));
    }
    row
}

// ---------------------------------------------------------------------------
// Questions for the user
// ---------------------------------------------------------------------------

/// Where a question goes.
#[derive(Debug, Clone, Copy, PartialEq, Eq)]
pub enum QuestionRoute {
    /// A private question with no primary chat to send it to.
    DroppedSensitive,
    /// A question from outside Telegram with no primary chat.
    DroppedNoChat,
    /// Send it to the chat (and topic); `breadcrumb` is where to say that a
    /// private question went to the primary chat.
    Send { chat_id: i64, thread_id: Option<i64>, breadcrumb: Option<(i64, Option<i64>)> },
}

/// Where a question goes. A private question always goes to the primary
/// chat (taken to be the user's direct chat), with a note left in the chat
/// it came from when that is another one; any other question goes back to
/// the Telegram chat and topic it came from, else to the primary chat.
pub open spec fn question_route(sensitive: bool, origin: Option<(i64, Option<i64>)>, primary: Option<i64>) -> QuestionRoute {
    if sensitive {
        match primary {
            None => QuestionRoute::DroppedSensitive,
            Some(pm) => QuestionRoute::Send {
                chat_id: pm,
                thread_id: None,
                breadcrumb: match origin {
                    Some((c, t)) if c != pm => Some((c, t)),
                    _ => None,
                },
            },
        }
    } else {
        match origin {
            Some((c, t)) => QuestionRoute::Send { chat_id: c, thread_id: t, breadcrumb: None },
            None => match primary {
                None => QuestionRoute::DroppedNoChat,
                Some(pm) => QuestionRoute::Send { chat_id: pm, thread_id: None, breadcrumb: None },
            },
        }
    }
}

/// A private question never goes to a shared chat or topic: it is sent to
/// the primary chat, outside any topic, or not at all; and the note about
/// it goes only to another chat than the primary one.
pub proof fn law_private_questions_stay_private(origin: Option<(i64, Option<i64>)>, primary: Option<i64>)
    ensures
        match question_route(true, origin, primary) {
            QuestionRoute::Send { chat_id, thread_id, breadcrumb } => {
                &&& primary == Some(chat_id)
                &&& thread_id is None
                &&& breadcrumb matches Some((c, _)) ==> c != chat_id
            },
            QuestionRoute::DroppedSensitive => primary is None,
            QuestionRoute::DroppedNoChat => false,
        },
{
}

/// Where a question goes. `origin` is the Telegram chat and topic the
/// question was raised from, if it was.
pub fn route_question(sensitive: bool, origin: Option<(i64, Option<i64>)>, primary_chat_id: Option<i64>) -> (r:
    QuestionRoute)
    ensures
        r == question_route(sensitive, origin, primary_chat_id),
{
    if sensitive {
        match primary_chat_id {
            None => QuestionRoute::DroppedSensitive,
            Some(pm) => {
                let breadcrumb = match origin {
                    Some((c, t)) => {
                        if c != pm {
                            Some((c, t))
                        } else {
                            None
                        }
                    },
                    None => None,
                };
                QuestionRoute::Send { chat_id: pm, thread_id: None, breadcrumb }
            },
        }
    } else {
        match origin {
            Some((c, t)) => QuestionRoute::Send { chat_id: c, thread_id: t, breadcrumb: None },
            None => match primary_chat_id {
                None => QuestionRoute::DroppedNoChat,
                Some(pm) => QuestionRoute::Send { chat_id: pm, thread_id: None, breadcrumb: None },
            },
        }
    }
}

/// The note left where a private question came from.
pub const PRIVATE_QUESTION_NOTE: &'static str =
    "🔒 I sent a private question to your DM. Please check there to answer.";

/// The prompt of a question: with options it is answered by the buttons,
/// else by replying to it.
pub open spec fn question_prompt(question: Seq<char>, has_options: bool) -> Seq<char> {
    "<b>❓ Agent Question</b>\n\n"@ + escape_html(question) + if has_options {
        seq![]
    } else {
        "\n\n<i>Reply to this message to answer.</i>"@
    }
}

/// The prompt of a question.
pub fn question_prompt_text(question: &str, has_options: bool) -> (r: String)
    ensures
        r@ == question_prompt(question@, has_options),
{
    let mut out: Vec<char> = Vec::new();
    push_str(&mut out, "<b>❓ Agent Question</b>\n\n");
    push_escaped_str(&mut out, question);
    if !has_options {
        push_str(&mut out, "\n\n<i>Reply to this message to answer.</i>");
    }
    proof {
        assert(out@ =~= question_prompt(question@, has_options));
    }
    string_of(&out)
}

/// The buttons of a question: one row per option, carrying the question's
/// id and the option's index.
pub open spec fn question_buttons(id: u128, options: Seq<Seq<char>>) -> Seq<Seq<ButtonView>> {
    Seq::new(
        options.len(),
        |i: int| seq![(options[i], Some("au:"@ + uuid_text(id) + ":"@ + decimal(i as nat)), None)],
    )
}

/// The buttons of a question.
pub fn question_keyboard(id: u128, options: &Vec<String>) -> (r: Vec<Vec<InlineButton>>)
    ensures
        keyboard_view(r@) == question_buttons(id, options@.map_values(|o: String| o@)),
{
    let idt = format_uuid(id);
    let ghost ov = options@.map_values(|o: String| o@);
    let mut rows: Vec<Vec<InlineButton>> = Vec::new();
    for i in 0..options.len()
        invariant
            idt@ == uuid_text(id),
            ov == options@.map_values(|o: String| o@),
            keyboard_view(rows@) == question_buttons(id, ov).take(i as int),
    {
        let mut data: Vec<char> = Vec::new();
        push_str(&mut data, "au:");
        push_str(&mut data, idt.as_str());
        push_str(&mut data, ":");
        push_decimal(&mut data, i as u128);
        let mut row: Vec<InlineButton> = Vec::new();
        row.push(callback_button(options[i].clone(), string_of(&data)));
        let ghost before = rows@;
        rows.push(row);
        proof {
            assert(ov[i as int] == options@[i as int]@);
            assert(row_view(row) =~= question_buttons(id, ov)[i as int]);
            assert(keyboard_view(rows@) =~= keyboard_view(before).push(row_view(row)));
            assert(keyboard_view(rows@) =~= question_buttons(id, ov).take(i as int + 1));
        }
    }
    proof {
        assert(question_buttons(id, ov).take(options@.len() as int) =~= question_buttons(id, ov));
    }
    rows
}

} // verus!
