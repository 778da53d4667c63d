//! The replies of the session commands (`/new`, `/clear`, `/sessions`,
//! `/usage`, `/model`) for each outcome of the backend calls they make.
//!
//! A handler asks the backend in turn (the chat's session, then the
//! session's data) and stops at the first failure; each function here
//! takes the outcome of one such step as a `Result` whose error is the
//! backend's message.

use vstd::prelude::*;

use super::client::{ChatModelItem, SessionDetail, SessionListItem};
use super::session::{
    current_model_text, detail_sliceable, model_updated_text, models_keyboard, models_header_text,
    session_ages, session_row, sessions_keyboard, sessions_header_text, timestamp_sliceable,
    usage_text, model_row,
};
use super::{keyboard_view, CommandReply};
use crate::text::{opt_view, chars_of, cut_at_bytes, cut_at_bytes_exec, push_str, string_of, trim, trim_exec, utf8_len, utf8_len_exec};

verus! {

/// The text of a plain-text reply.
pub open spec fn text_reply(r: CommandReply, t: Seq<char>) -> bool {
    r matches CommandReply::Text(s) && s@ == t
}

/// The text of an HTML reply.
pub open spec fn html_reply(r: CommandReply, t: Seq<char>) -> bool {
    r matches CommandReply::Html(s) && s@ == t
}

fn text_with(prefix: &str, err: &str) -> (r: CommandReply)
    ensures
        text_reply(r, prefix@ + err@),
{
    let mut out = chars_of(prefix);
    push_str(&mut out, err);
    CommandReply::Text(string_of(&out))
}

/// The reply when the chat's session could not be looked up.
pub fn resolve_failed_reply(err: &str) -> (r: CommandReply)
    ensures
        text_reply(r, "Failed to resolve session: "@ + err@),
{
    text_with("Failed to resolve session: ", err)
}

/// The reply when the chat has no session yet.
pub fn no_session_reply() -> (r: CommandReply)
    ensures
        text_reply(r, "No active session. Send a message to create one."@),
{
    CommandReply::Text("No active session. Send a message to create one.".to_string())
}

/// `/new`: the reply once the backend created a session (and the chat was
/// bound to it), or failed to.
pub fn new_session_reply(created: &Result<String, String>) -> (r: CommandReply)
    ensures
        match created {
            Ok(_) => text_reply(r, "New chat session started."@),
            Err(e) => text_reply(r, "Failed to create session: "@ + e@),
        },
{
    match created {
        Ok(_) => CommandReply::Text("New chat session started.".to_string()),
        Err(e) => text_with("Failed to create session: ", e.as_str()),
    }
}

/// `/clear`: the reply for the chat's session lookup and, when there is a
/// session, the outcome of clearing it. Inside a forum topic a cleared
/// session is deleted with its topic, and there is nothing to reply.
pub fn clear_reply(
    binding: &Result<Option<String>, String>,
    cleared: &Result<(), String>,
    in_topic: bool,
) -> (r: CommandReply)
    ensures
        match binding {
            Err(e) => text_reply(r, "Error: "@ + e@),
            Ok(None) => text_reply(r, "No active session. Send a message to start one."@),
            Ok(Some(_)) => match cleared {
                Err(e) => text_reply(r, "Failed to clear: "@ + e@),
                Ok(()) => if in_topic {
                    r is Nothing
                } else {
                    text_reply(r, "Session history cleared."@)
                },
            },
        },
{
    match binding {
        Err(e) => text_with("Error: ", e.as_str()),
        Ok(None) => CommandReply::Text("No active session. Send a message to start one.".to_string()),
        Ok(Some(_)) => match cleared {
            Err(e) => text_with("Failed to clear: ", e.as_str()),
            Ok(()) => {
                if in_topic {
                    CommandReply::Nothing
                } else {
                    CommandReply::Text("Session history cleared.".to_string())
                }
            },
        },
    }
}

/// `/sessions`: the reply for the listed sessions, given the key of the
/// chat's session (if any) and the instant `now` that ages are taken at.
pub fn sessions_reply(
    active_key: &Option<String>,
    listed: &Result<Vec<SessionListItem>, String>,
    now_secs: i64,
    now_nanos: u32,
) -> (r: CommandReply)
    ensures
        match listed {
            Err(e) => text_reply(r, "Failed to list sessions: "@ + e@),
            Ok(v) => if v@.len() == 0 {
                text_reply(r, "No sessions found. Send a message to create one."@)
            } else {
                r matches CommandReply::HtmlWithKeyboard { html, keyboard } && html@ == super::session::sessions_header(
                    v@.len(),
                ) && keyboard_view(keyboard@) == Seq::new(
                    v@.len(),
                    |i: int|
                        session_row(
                            v@[i],
                            opt_view(*active_key),
                            super::session::relative_time(
                                super::session::age_of(v@[i].updated_at@, now_secs, now_nanos),
                            ),
                        ),
                )
            },
        },
{
    match listed {
        Err(e) => text_with("Failed to list sessions: ", e.as_str()),
        Ok(v) => {
            if v.len() == 0 {
                return CommandReply::Text("No sessions found. Send a message to create one.".to_string());
            }
            let ages = session_ages(v, now_secs, now_nanos);
            let keyboard = sessions_keyboard(v, active_key, &ages);
            proof {
                assert(Seq::new(v@.len(), |i: int| session_row(v@[i], opt_view(*active_key), ages@[i]@))
                    =~= Seq::new(
                    v@.len(),
                    |i: int|
                        session_row(
                            v@[i],
                            opt_view(*active_key),
                            super::session::relative_time(
                                super::session::age_of(v@[i].updated_at@, now_secs, now_nanos),
                            ),
                        ),
                ));
            }
            CommandReply::HtmlWithKeyboard { html: sessions_header_text(v.len()), keyboard }
        },
    }
}

/// Whether the timestamps of a session can be shortened (see
/// [`detail_sliceable`]).
pub fn detail_timestamps_ok(d: &SessionDetail) -> (r: bool)
    ensures
        r == detail_sliceable(*d),
{
    stamp_ok(d.created_at.as_str()) && stamp_ok(d.updated_at.as_str())
}

fn stamp_ok(raw: &str) -> (r: bool)
    ensures
        r == timestamp_sliceable(raw@),
{
    let v = chars_of(raw);
    if utf8_len_exec(&v) < 16 {
        return true;
    }
    cut_at_bytes_exec(&v, 0, 10).is_some() && cut_at_bytes_exec(&v, 0, 11).is_some() && cut_at_bytes_exec(
        &v,
        0,
        16,
    ).is_some()
}

/// `/usage`: the reply for the looked-up session. The session's
/// timestamps must be ones the report can shorten (see
/// [`detail_timestamps_ok`]).
pub fn usage_reply(lookup: &Result<SessionDetail, String>) -> (r: CommandReply)
    requires
        lookup matches Ok(d) ==> detail_sliceable(*d),
    ensures
        match lookup {
            Err(e) => text_reply(r, "Failed to get session details: "@ + e@),
            Ok(d) => html_reply(r, super::session::usage_report(*d)),
        },
{
    match lookup {
        Err(e) => text_with("Failed to get session details: ", e.as_str()),
        Ok(d) => CommandReply::Html(usage_text(d)),
    }
}

/// `/model <name>`: the model asked for, when the arguments hold more
/// than white space.
pub fn requested_model(args: &str) -> (r: Option<String>)
    ensures
        match r {
            Some(m) => m@ == trim(args@) && m@.len() > 0,
            None => trim(args@).len() == 0,
        },
{
    let t = trim_exec(&chars_of(args));
    if t.len() == 0 {
        None
    } else {
        Some(string_of(&t))
    }
}

/// `/model` without a name: the model list as a keyboard, the current
/// model marked; when the list is empty or could not be fetched, the
/// current model and how to switch.
pub fn model_list_reply(models: &Result<Vec<ChatModelItem>, String>, current: &Option<String>) -> (r:
    CommandReply)
    ensures
        match models {
            Ok(v) if v@.len() > 0 => r matches CommandReply::HtmlWithKeyboard { html, keyboard }
                && html@ == "🤖 Models ("@ + crate::text::decimal(v@.len()) + " total)"@
                && keyboard_view(keyboard@) == Seq::new(
                v@.len(),
                |i: int| model_row(v@[i], opt_view(*current)),
            ),
            _ => r matches CommandReply::Html(s) && s@ == "Model: <b>"@ + crate::text::escape_html(
                match *current {
                    Some(m) => m@,
                    None => "(default)"@,
                },
            ) + "</b>\n\nSwitch: <code>/model model-name</code>"@,
        },
{
    match models {
        Ok(v) => {
            if v.len() > 0 {
                let keyboard = models_keyboard(v, current);
                return CommandReply::HtmlWithKeyboard { html: models_header_text(v.len()), keyboard };
            }
        },
        Err(_) => {},
    }
    CommandReply::Html(current_model_text(current))
}

/// `/model` without a name when the session's data could not be read.
pub fn model_lookup_failed_reply(err: &str) -> (r: CommandReply)
    ensures
        text_reply(r, "Failed to get session details: "@ + err@),
{
    text_with("Failed to get session details: ", err)
}

/// `/model <name>`: the reply once the backend updated the session's
/// model, or failed to.
pub fn model_update_reply(updated: &Result<SessionDetail, String>) -> (r: CommandReply)
    ensures
        match updated {
            Err(e) => text_reply(r, "Failed to update model: "@ + e@),
            Ok(d) => r matches CommandReply::Html(s) && s@ == "Model updated.\nSession <code>"@
                + crate::text::escape_html(d.key@) + "</code>\nModel: <b>"@ + crate::text::escape_html(
                match d.model {
                    Some(m) => m@,
                    None => "(default)"@,
                },
            ) + "</b>"@,
        },
{
    match updated {
        Err(e) => text_with("Failed to update model: ", e.as_str()),
        Ok(d) => CommandReply::Html(model_updated_text(d)),
    }
}

/// `/stop`: the reply for the chat's session lookup (a failed lookup
/// counts as no session) and, when there is a session, whether its key
/// named a session the interrupt could go to.
pub fn stop_reply(binding: &Result<Option<String>, String>, key_valid: bool) -> (r: CommandReply)
    ensures
        match binding {
            Ok(Some(_)) if key_valid => text_reply(r, "已中断当前操作。"@),
            _ => text_reply(r, "当前没有活跃的会话。"@),
        },
{
    match binding {
        Ok(Some(_)) => {
            if key_valid {
                CommandReply::Text("已中断当前操作。".to_string())
            } else {
                CommandReply::Text("当前没有活跃的会话。".to_string())
            }
        },
        _ => CommandReply::Text("当前没有活跃的会话。".to_string()),
    }
}

/// Longest session title `/rename` sets (Telegram's cap on topic names).
pub const RENAME_TITLE_MAX_CHARS: usize = 128;

/// `/rename <name>`: the title asked for, trimmed and cut to 128
/// characters; `None` when the arguments hold only white space.
pub fn rename_title(args: &str) -> (r: Option<String>)
    ensures
        match r {
            Some(t) => trim(args@).len() > 0 && t@ == trim(args@).take(
                if trim(args@).len() < RENAME_TITLE_MAX_CHARS {
                    trim(args@).len() as int
                } else {
                    RENAME_TITLE_MAX_CHARS as int
                },
            ),
            None => trim(args@).len() == 0,
        },
{
    let t = trim_exec(&chars_of(args));
    if t.len() == 0 {
        return None;
    }
    let n = if t.len() < RENAME_TITLE_MAX_CHARS {
        t.len()
    } else {
        RENAME_TITLE_MAX_CHARS
    };
    let cut = crate::text::slice_of(&t, 0, n);
    proof {
        assert(cut@ =~= t@.take(n as int));
    }
    Some(string_of(&cut))
}

/// The reply to `/rename` without a name.
pub const RENAME_USAGE: &'static str = "Usage: /rename <name>\nExample: /rename Project planning";

/// `/rename`: the reply once the backend renamed the session, or failed to.
pub fn rename_reply(title: &str, renamed: &Result<(), String>) -> (r: CommandReply)
    ensures
        match renamed {
            Ok(()) => html_reply(r, "✅ Session renamed to \""@ + crate::text::escape_html(title@) + "\""@),
            Err(e) => text_reply(r, "Failed to rename: "@ + e@),
        },
{
    match renamed {
        Ok(()) => {
            let mut out: Vec<char> = Vec::new();
            push_str(&mut out, "✅ Session renamed to \"");
            crate::text::push_escaped_str(&mut out, title);
            push_str(&mut out, "\"");
            CommandReply::Html(string_of(&out))
        },
        Err(e) => text_with("Failed to rename: ", e.as_str()),
    }
}

} // verus!
