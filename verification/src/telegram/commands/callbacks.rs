//! Replies to the inline keyboard callbacks of the session list:
//! `switch:`, `model:`, `detail:`, `delete:`, `confirm_del:` and
//! `cancel_del:`.
//!
//! Each handler fetches from the backend and then answers; the functions
//! here take what the backend returned (its errors as their messages) and
//! decide the answer.

use vstd::prelude::*;

use super::client::SessionDetail;
use super::session::{detail_sliceable, detail_title, format_timestamp, session_title, short_timestamp};
use super::{button_view, callback_button, keyboard_view, row_view, CallbackReply, InlineButton};
use crate::text::{
    chars_of, cut_at_bytes, cut_at_bytes_exec, escape_html, push_escaped_str, push_str, slice_of,
    starts_with, string_of, utf8_len,
};

verus! {

/// The payload of callback data after its handler's prefix.
pub fn callback_payload(data: &str, prefix: &str) -> (r: String)
    requires
        starts_with(data@, prefix@),
    ensures
        r@ == data@.skip(prefix@.len() as int),
{
    let d = chars_of(data);
    let p = chars_of(prefix);
    let r = slice_of(&d, p.len(), d.len());
    proof {
        assert(r@ =~= data@.skip(prefix@.len() as int));
    }
    string_of(&r)
}

/// Whether a reply is a new message with exactly the text `t`.
pub open spec fn sends(r: CallbackReply, t: Seq<char>) -> bool {
    r matches CallbackReply::SendMessage { text } && text@ == t
}

/// Whether a reply edits the keyboard's message to exactly the text `t`.
pub open spec fn edits(r: CallbackReply, t: Seq<char>) -> bool {
    r matches CallbackReply::EditMessage { text } && text@ == t
}

fn send(t: Vec<char>) -> (r: CallbackReply)
    ensures
        sends(r, t@),
{
    CallbackReply::SendMessage { text: string_of(&t) }
}

/// `prefix` followed by `e`.
fn prefixed(prefix: &str, e: &str) -> (r: Vec<char>)
    ensures
        r@ == prefix@ + e@,
{
    let mut out: Vec<char> = Vec::new();
    push_str(&mut out, prefix);
    push_str(&mut out, e);
    out
}

// ---------------------------------------------------------------------------
// switch:{session_key}
// ---------------------------------------------------------------------------

/// The confirmation after switching to a session.
pub open spec fn switched_text(key: Seq<char>, d: SessionDetail) -> Seq<char> {
    "Switched to session: <b>"@ + escape_html(detail_title(d)) + "</b>\n<code>"@ + escape_html(key)
        + "</code>"@
}

/// Reply to `switch:{session_key}`: `lookup` is the backend's answer for the
/// session, `bind` the outcome of binding the channel to it (attempted only
/// when the lookup succeeded).
pub fn switch_reply(
    session_key: &str,
    lookup: &Result<SessionDetail, String>,
    bind: &Result<(), String>,
) -> (r: CallbackReply)
    ensures
        match *lookup {
            Err(_) => sends(r, "Session no longer exists."@),
            Ok(d) => match *bind {
                Ok(_) => sends(r, switched_text(session_key@, d)),
                Err(e) => sends(r, "Failed to switch session: "@ + e@),
            },
        },
{
    match lookup {
        Err(_) => send(chars_of("Session no longer exists.")),
        Ok(d) => match bind {
            Ok(_) => {
                let title = session_title(d);
                let mut out: Vec<char> = Vec::new();
                push_str(&mut out, "Switched to session: <b>");
                push_escaped_str(&mut out, title.as_str());
                push_str(&mut out, "</b>\n<code>");
                push_escaped_str(&mut out, session_key);
                push_str(&mut out, "</code>");
                send(out)
            },
            Err(e) => send(prefixed("Failed to switch session: ", e.as_str())),
        },
    }
}

// ---------------------------------------------------------------------------
// model:{model_id}
// ---------------------------------------------------------------------------

/// Reply to `model:{model_id}`: `binding` is the session bound to the chat
/// (`Ok(None)` when there is none), `update` the outcome of switching its
/// model (attempted only when a session is bound).
pub fn model_switch_reply(
    model_id: &str,
    binding: &Result<Option<String>, String>,
    update: &Result<SessionDetail, String>,
) -> (r: CallbackReply)
    ensures
        match *binding {
            Ok(None) => sends(r, "No active session. Send a message to create one."@),
            Err(e) => sends(r, "Failed to resolve session: "@ + e@),
            Ok(Some(_)) => match *update {
                Ok(d) => edits(
                    r,
                    "✅ Model switched to <b>"@ + escape_html(
                        match d.model {
                            Some(m) => m@,
                            None => model_id@,
                        },
                    ) + "</b>"@,
                ),
                Err(e) => sends(r, "Failed to switch model: "@ + e@),
            },
        },
{
    match binding {
        Ok(None) => send(chars_of("No active session. Send a message to create one.")),
        Err(e) => send(prefixed("Failed to resolve session: ", e.as_str())),
        Ok(Some(_)) => match update {
            Ok(d) => {
                let mut out: Vec<char> = Vec::new();
                push_str(&mut out, "✅ Model switched to <b>");
                match &d.model {
                    Some(m) => push_escaped_str(&mut out, m.as_str()),
                    None => push_escaped_str(&mut out, model_id),
                }
                push_str(&mut out, "</b>");
                CallbackReply::EditMessage { text: string_of(&out) }
            },
            Err(e) => send(prefixed("Failed to switch model: ", e.as_str())),
        },
    }
}

// ---------------------------------------------------------------------------
// detail:{session_key}
// ---------------------------------------------------------------------------

/// The details of a session.
pub open spec fn detail_text(d: SessionDetail) -> Seq<char> {
    "<b>"@ + escape_html(detail_title(d)) + "</b>\nKey: <code>"@ + escape_html(d.key@)
        + "</code>\nModel: "@ + escape_html(
        match d.model {
            Some(m) => m@,
            None => "(default)"@,
        },
    ) + "\nCreated: "@ + short_timestamp(d.created_at@) + "\nLast active: "@ + short_timestamp(
        d.updated_at@,
    )
}

/// Reply to `detail:{session_key}` given the backend's answer.
pub fn detail_reply(lookup: &Result<SessionDetail, String>) -> (r: CallbackReply)
    requires
        *lookup matches Ok(d) ==> detail_sliceable(d),
    ensures
        match *lookup {
            Ok(d) => sends(r, detail_text(d)),
            Err(e) => sends(r, "Failed to get session details: "@ + e@),
        },
{
    match lookup {
        Ok(d) => {
            let title = session_title(d);
            let mut out: Vec<char> = Vec::new();
            push_str(&mut out, "<b>");
            push_escaped_str(&mut out, title.as_str());
            push_str(&mut out, "</b>\nKey: <code>");
            push_escaped_str(&mut out, d.key.as_str());
            push_str(&mut out, "</code>\nModel: ");
            match &d.model {
                Some(m) => push_escaped_str(&mut out, m.as_str()),
                None => push_escaped_str(&mut out, "(default)"),
            }
            push_str(&mut out, "\nCreated: ");
            push_str(&mut out, format_timestamp(d.created_at.as_str()).as_str());
            push_str(&mut out, "\nLast active: ");
            push_str(&mut out, format_timestamp(d.updated_at.as_str()).as_str());
            send(out)
        },
        Err(e) => send(prefixed("Failed to get session details: ", e.as_str())),
    }
}

// ---------------------------------------------------------------------------
// delete:{session_key}
// ---------------------------------------------------------------------------

/// Whether the first `min(8, len)` bytes of a session key end on a
/// character boundary (always so for the ASCII keys the backend issues).
pub open spec fn key_prefix_sliceable(key: Seq<char>) -> bool {
    cut_at_bytes(key, 0, 0, if utf8_len(key) < 8 { utf8_len(key) as int } else { 8 }) is Some
}

/// The first `min(8, len)` bytes of a session key.
pub open spec fn key_prefix(key: Seq<char>) -> Seq<char> {
    match cut_at_bytes(key, 0, 0, if utf8_len(key) < 8 { utf8_len(key) as int } else { 8 }) {
        Some(k) => key.take(k),
        None => key,
    }
}

/// The name a delete prompt shows: the session's title, else the start of
/// its key.
pub open spec fn delete_name(key: Seq<char>, lookup: Result<SessionDetail, String>) -> Seq<char> {
    match lookup {
        Ok(d) => match d.title {
            Some(t) => t@,
            None => key_prefix(key),
        },
        Err(_) => key_prefix(key),
    }
}

/// The keyboard of a delete prompt: confirm or cancel.
pub open spec fn delete_keyboard(key: Seq<char>) -> Seq<Seq<super::ButtonView>> {
    seq![
        seq![
            ("Yes, delete"@, Some("confirm_del:"@ + key), None::<Seq<char>>),
            ("Cancel"@, Some("cancel_del:"@ + key), None::<Seq<char>>),
        ],
    ]
}

/// Reply to `delete:{session_key}`: a confirmation prompt naming the
/// session, with confirm and cancel buttons.
pub fn delete_prompt_reply(session_key: &str, lookup: &Result<SessionDetail, String>) -> (r:
    CallbackReply)
    requires
        key_prefix_sliceable(session_key@),
    ensures
        r matches CallbackReply::SendMessageWithKeyboard { text, keyboard } && text@ == "Delete session <b>"@
            + escape_html(delete_name(session_key@, *lookup)) + "</b>?\nThis cannot be undone."@
            && keyboard_view(keyboard@) == delete_keyboard(session_key@),
{
    let key = chars_of(session_key);
    let ghost k8: int = if utf8_len(key@) < 8 {
        utf8_len(key@) as int
    } else {
        8
    };
    let short: Vec<char> = if crate::text::fits_in_bytes(&key, 0, 8) {
        proof {
            assert(key@.subrange(0, key@.len() as int) =~= key@);
            assert(k8 == utf8_len(key@));
            super::session::lemma_cut_at_bytes(key@, 0, 0, k8);
            let c = cut_at_bytes(key@, 0, 0, k8)->0;
            if c < key@.len() {
                crate::text::lemma_utf8_len_append(key@.take(c), key@.skip(c));
                assert(key@.take(c) + key@.skip(c) =~= key@);
                assert(key@.subrange(0, c) =~= key@.take(c));
                assert(utf8_len(key@.skip(c)) > 0) by {
                    assert(key@.skip(c).len() > 0);
                    assert(key@.skip(c).drop_last() + seq![key@.skip(c).last()] =~= key@.skip(c));
                }
            }
            assert(key@.take(key@.len() as int) =~= key@);
        }
        slice_of(&key, 0, key.len())
    } else {
        proof {
            assert(key@.subrange(0, key@.len() as int) =~= key@);
        }
        match cut_at_bytes_exec(&key, 0, 8) {
            Some(c) => {
                proof {
                    super::session::lemma_cut_at_bytes(key@, 0, 0, 8);
                }
                let s = slice_of(&key, 0, c);
                proof {
                    assert(s@ =~= key@.take(c as int));
                }
                s
            },
            None => slice_of(&key, 0, key.len()),
        }
    };
    let name: Vec<char> = match lookup {
        Ok(d) => match &d.title {
            Some(t) => chars_of(t.as_str()),
            None => short,
        },
        Err(_) => short,
    };
    let mut text: Vec<char> = Vec::new();
    push_str(&mut text, "Delete session <b>");
    crate::text::push_escaped_html(&mut text, &name);
    push_str(&mut text, "</b>?\nThis cannot be undone.");
    let mut confirm: Vec<char> = Vec::new();
    push_str(&mut confirm, "confirm_del:");
    push_str(&mut confirm, session_key);
    let mut cancel: Vec<char> = Vec::new();
    push_str(&mut cancel, "cancel_del:");
    push_str(&mut cancel, session_key);
    let mut row: Vec<InlineButton> = Vec::new();
    row.push(callback_button("Yes, delete".to_string(), string_of(&confirm)));
    row.push(callback_button("Cancel".to_string(), string_of(&cancel)));
    let mut keyboard: Vec<Vec<InlineButton>> = Vec::new();
    keyboard.push(row);
    proof {
        assert(row_view(row) =~= delete_keyboard(session_key@)[0]);
        assert(keyboard_view(keyboard@) =~= delete_keyboard(session_key@));
    }
    CallbackReply::SendMessageWithKeyboard { text: string_of(&text), keyboard }
}

// ---------------------------------------------------------------------------
// confirm_del:{session_key} and cancel_del:{session_key}
// ---------------------------------------------------------------------------

/// Reply to `confirm_del:{session_key}` given the outcome of the deletion.
pub fn delete_confirm_reply(session_key: &str, outcome: &Result<(), String>) -> (r: CallbackReply)
    ensures
        match *outcome {
            Ok(_) => sends(r, "Session <code>"@ + escape_html(session_key@) + "</code> deleted."@),
            Err(e) => sends(r, "Failed to delete session: "@ + e@),
        },
{
    match outcome {
        Ok(_) => {
            let mut out: Vec<char> = Vec::new();
            push_str(&mut out, "Session <code>");
            push_escaped_str(&mut out, session_key);
            push_str(&mut out, "</code> deleted.");
            send(out)
        },
        Err(e) => send(prefixed("Failed to delete session: ", e.as_str())),
    }
}

/// Handles `cancel_del:{session_key}` callback queries: cancels deletion.
pub struct SessionDeleteCancelHandler;

impl SessionDeleteCancelHandler {
    /// Create a new handler.
    pub fn new() -> (r: Self) {
        SessionDeleteCancelHandler
    }

    /// The callback-data prefix this handler answers.
    pub fn prefix(&self) -> (r: &'static str)
        ensures
            r@ == "cancel_del:"@,
    {
        "cancel_del:"
    }

    /// The answer: the deletion is cancelled.
    pub fn handle(&self) -> (r: CallbackReply)
        ensures
            sends(r, "Cancelled."@),
    {
        send(chars_of("Cancelled."))
    }
}

} // verus!
