//! The privileged `/restart` and `/update` commands: only the configured
//! owner chat may use them, and their replies.

use vstd::prelude::*;

use crate::telegram::incoming::{id_text, MetaValue};
use crate::text::{chars_of, push_str, signed_decimal_exec, string_of};

verus! {

/// The reply when no owner chat is configured.
pub const ADMIN_UNAVAILABLE_REPLY: &'static str = "Admin commands are unavailable: no owner Telegram chat is configured.";

/// The reply in any chat but the owner's.
pub const ADMIN_UNAUTHORIZED_REPLY: &'static str = "Unauthorized: this command is restricted to the configured owner chat.";

/// The reply once a restart was requested.
pub const RESTART_REQUESTED_REPLY: &'static str = "Restart requested. The supervised instance should come back shortly.";

/// The chat a command came from, as the owner check compares it: the
/// `telegram_chat_id` entry (an integer or a string), `0` without one.
pub open spec fn admin_chat_of(chat: Option<MetaValue>) -> Seq<char> {
    match id_text(chat) {
        Some(c) => c,
        None => "0"@,
    }
}

/// Whether an admin command may run in this chat: `Ok` in the owner chat,
/// else the reply that refuses it.
pub fn owner_check(chat: &Option<MetaValue>, owner_chat_id: Option<&str>) -> (r: Result<(), &'static str>)
    ensures
        match owner_chat_id {
            None => r == Err::<(), &'static str>(ADMIN_UNAVAILABLE_REPLY),
            Some(o) => if admin_chat_of(*chat) == o@ {
                r is Ok
            } else {
                r == Err::<(), &'static str>(ADMIN_UNAUTHORIZED_REPLY)
            },
        },
{
    let current: Vec<char> = match chat {
        Some(MetaValue::Int(n)) => signed_decimal_exec(*n),
        Some(MetaValue::Text(s)) => chars_of(s.as_str()),
        _ => {
            proof {
                reveal_strlit("0");
            }
            chars_of("0")
        },
    };
    let expected = match owner_chat_id {
        Some(o) => o,
        None => return Err(ADMIN_UNAVAILABLE_REPLY),
    };
    if crate::text::seq_eq(&current, &chars_of(expected)) {
        Ok(())
    } else {
        Err(ADMIN_UNAUTHORIZED_REPLY)
    }
}

/// The reply to `/restart` in the owner chat, given the outcome of the
/// restart request.
pub fn restart_reply(outcome: &Result<(), String>) -> (r: String)
    ensures
        r@ == match outcome {
            Ok(_) => RESTART_REQUESTED_REPLY@,
            Err(e) => "Failed to request restart: "@ + e@,
        },
{
    match outcome {
        Ok(_) => RESTART_REQUESTED_REPLY.to_string(),
        Err(e) => {
            let mut t: Vec<char> = Vec::new();
            push_str(&mut t, "Failed to request restart: ");
            push_str(&mut t, e.as_str());
            string_of(&t)
        },
    }
}

/// The reply to `/update` in the owner chat: the service's own message, or
/// the failure.
pub fn update_reply(outcome: &Result<String, String>) -> (r: String)
    ensures
        r@ == match outcome {
            Ok(m) => m@,
            Err(e) => "Failed to run update: "@ + e@,
        },
{
    match outcome {
        Ok(m) => m.clone(),
        Err(e) => {
            let mut t: Vec<char> = Vec::new();
            push_str(&mut t, "Failed to run update: ");
            push_str(&mut t, e.as_str());
            string_of(&t)
        },
    }
}

} // verus!
