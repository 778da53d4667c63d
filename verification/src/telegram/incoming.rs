//! What an incoming Telegram message becomes for the agent: its text (the
//! caption of a photo or voice note, the bot's mention stripped in groups),
//! whether it is a command, and the sender's names; and the chat a command
//! came from.

use vstd::prelude::*;

use super::adapter::{strip_group_mention, strip_mention};
use super::routing::{before_at, strip_slashes};
use crate::text::{
    chars_of, decimal, find_char_exec, first_word, first_word_exec, is_ws, opt_view, push_seq,
    push_str, signed_decimal, signed_decimal_exec, slice_of, starts_with, starts_with_exec,
    str_to_lowercase, string_of, to_lowercase, trim, trim_exec, trim_start,
};

verus! {

/// The sender of a message.
pub struct MessageAuthor {
    pub id: u64,
    pub username: Option<String>,
    pub first_name: String,
    pub last_name: Option<String>,
}

/// What the adapter reads of a Telegram message.
pub struct IncomingMessage {
    pub message_id: i32,
    pub chat_id: i64,
    /// The chat is a group or supergroup.
    pub is_group: bool,
    pub from: Option<MessageAuthor>,
    pub text: Option<String>,
    pub caption: Option<String>,
    pub has_photo: bool,
    pub has_voice: bool,
    pub has_audio: bool,
    pub thread_id: Option<i32>,
    pub reply_to_message_id: Option<i32>,
}

/// Whether a message is a plain message or a command (with its name).
pub enum Interaction {
    Message,
    Command(String),
}

/// The message as the agent receives it.
pub struct RawMessage {
    pub platform_message_id: String,
    /// The sender's id, `unknown` without a sender.
    pub platform_user_id: String,
    pub platform_chat_id: String,
    pub text: String,
    pub thread_id: Option<String>,
    pub reply_to_platform_msg_id: Option<String>,
    pub interaction: Interaction,
    pub username: Option<String>,
    /// First and last name.
    pub display_name: Option<String>,
    pub bot_username: Option<String>,
}

/// Whether a message has an attachment that carries content on its own.
pub open spec fn has_media(m: IncomingMessage) -> bool {
    m.has_photo || m.has_voice || m.has_audio
}

/// The text of a message: its text, else its caption; in a group, with the
/// bot's mention stripped (no bot name: nothing to strip).
pub open spec fn message_text(m: IncomingMessage, bot_username: Seq<char>) -> Seq<char> {
    let raw = match m.text {
        Some(t) => t@,
        None => match m.caption {
            Some(c) => c@,
            None => seq![],
        },
    };
    if m.is_group {
        strip_mention(raw, if bot_username.len() == 0 { None } else { Some(bot_username) })
    } else {
        raw
    }
}

/// The command a text names: for a text starting with `/`, its first word
/// without the slashes and an `@bot` suffix, lower-cased; none when that is
/// empty.
pub open spec fn command_name(text: Seq<char>) -> Option<Seq<char>> {
    if !starts_with(text, "/"@) {
        None
    } else {
        let word = match first_word(text) {
            Some(w) => w,
            None => text,
        };
        let name = str_to_lowercase(before_at(strip_slashes(word)));
        if name.len() == 0 {
            None
        } else {
            Some(name)
        }
    }
}

/// Whether a message is taken in: it has text or media, and after the
/// mention is stripped, text with more than white space or media.
pub open spec fn accepted(m: IncomingMessage, bot_username: Seq<char>) -> bool {
    &&& (m.text is Some || m.caption is Some || has_media(m))
    &&& (trim(message_text(m, bot_username)).len() > 0 || has_media(m))
}

/// The display name of a sender: first name, and last name when there is
/// one.
pub open spec fn display_name_of(s: MessageAuthor) -> Seq<char> {
    match s.last_name {
        Some(l) => s.first_name@ + " "@ + l@,
        None => s.first_name@,
    }
}

fn command_name_exec(text: &Vec<char>) -> (r: Option<String>)
    ensures
        match r {
            Some(n) => command_name(text@) == Some(n@),
            None => command_name(text@) is None,
        },
{
    proof {
        reveal_strlit("/");
    }
    if !starts_with_exec(text, &chars_of("/")) {
        return None;
    }
    let word = match first_word_exec(text) {
        Some(w) => w,
        None => slice_of(text, 0, text.len()),
    };
    proof {
        assert(text@.subrange(0, text@.len() as int) =~= text@);
    }
    let stripped = strip_slashes_chars(&word);
    let head = match find_char_exec(&stripped, '@', 0) {
        Some(k) => slice_of(&stripped, 0, k),
        None => stripped,
    };
    proof {
        assert(head@ =~= before_at(strip_slashes(word@)));
    }
    let name = to_lowercase(string_of(&head).as_str());
    if chars_of(name.as_str()).len() == 0 {
        None
    } else {
        Some(name)
    }
}

fn strip_slashes_chars(s: &Vec<char>) -> (r: Vec<char>)
    ensures
        r@ == strip_slashes(s@),
{
    let n = s.len();
    let mut i: usize = 0;
    proof {
        assert(s@.skip(0) =~= s@);
    }
    while i < n && s[i] == '/'
        invariant
            n == s@.len(),
            i <= n,
            strip_slashes(s@) == strip_slashes(s@.skip(i as int)),
        decreases n - i,
    {
        proof {
            assert(s@.skip(i as int).skip(1) =~= s@.skip(i as int + 1));
        }
        i = i + 1;
    }
    let r = slice_of(s, i, n);
    proof {
        assert(r@ =~= s@.skip(i as int));
    }
    r
}

fn i32_text(n: i32) -> (r: String)
    ensures
        r@ == signed_decimal(n as int),
{
    string_of(&signed_decimal_exec(n as i64))
}

/// What a message becomes for the agent, `None` when it carries nothing
/// to act on. `bot_username` is empty when the bot's name is not known.
pub fn to_raw_message(m: &IncomingMessage, bot_username: &str) -> (r: Option<RawMessage>)
    ensures
        r is Some <==> accepted(*m, bot_username@),
        r matches Some(raw) ==> {
            &&& raw.text@ == message_text(*m, bot_username@)
            &&& raw.platform_message_id@ == signed_decimal(m.message_id as int)
            &&& raw.platform_chat_id@ == signed_decimal(m.chat_id as int)
            &&& raw.platform_user_id@ == match m.from {
                Some(s) => decimal(s.id as nat),
                None => "unknown"@,
            }
            &&& opt_view(raw.thread_id) == match m.thread_id {
                Some(t) => Some(signed_decimal(t as int)),
                None => None,
            }
            &&& opt_view(raw.reply_to_platform_msg_id) == match m.reply_to_message_id {
                Some(t) => Some(signed_decimal(t as int)),
                None => None,
            }
            &&& match raw.interaction {
                Interaction::Message => command_name(raw.text@) is None,
                Interaction::Command(c) => command_name(raw.text@) == Some(c@),
            }
            &&& opt_view(raw.username) == match m.from {
                Some(s) => opt_view(s.username),
                None => None,
            }
            &&& opt_view(raw.display_name) == match m.from {
                Some(s) => Some(display_name_of(s)),
                None => None,
            }
            &&& opt_view(raw.bot_username) == if bot_username@.len() == 0 {
                None
            } else {
                Some(bot_username@)
            }
        },
{
    let media = m.has_photo || m.has_voice || m.has_audio;
    let raw: &str = match &m.text {
        Some(t) => t.as_str(),
        None => match &m.caption {
            Some(c) => c.as_str(),
            None => {
                if !media {
                    return None;
                }
                ""
            },
        },
    };
    proof {
        reveal_strlit("");
    }
    let bot_len = chars_of(bot_username).len();
    let text = if m.is_group {
        if bot_len == 0 {
            strip_group_mention(raw, None)
        } else {
            strip_group_mention(raw, Some(bot_username))
        }
    } else {
        raw.to_string()
    };
    let tv = chars_of(text.as_str());
    if trim_exec(&tv).len() == 0 && !media {
        return None;
    }
    let interaction = match command_name_exec(&tv) {
        Some(c) => Interaction::Command(c),
        None => Interaction::Message,
    };
    let (user_id, username, display_name) = match &m.from {
        Some(s) => {
            let mut d = chars_of(s.first_name.as_str());
            match &s.last_name {
                Some(l) => {
                    push_str(&mut d, " ");
                    push_str(&mut d, l.as_str());
                },
                None => {},
            }
            let uname = match &s.username {
                Some(u) => Some(u.clone()),
                None => None,
            };
            (string_of(&crate::text::decimal_exec(s.id as u128)), uname, Some(string_of(&d)))
        },
        None => ("unknown".to_string(), None, None),
    };
    let thread_id = match m.thread_id {
        Some(t) => Some(i32_text(t)),
        None => None,
    };
    let reply_to = match m.reply_to_message_id {
        Some(t) => Some(i32_text(t)),
        None => None,
    };
    let bot = if bot_len == 0 {
        None
    } else {
        Some(bot_username.to_string())
    };
    Some(
        RawMessage {
            platform_message_id: i32_text(m.message_id),
            platform_user_id: user_id,
            platform_chat_id: string_of(&signed_decimal_exec(m.chat_id)),
            text,
            thread_id,
            reply_to_platform_msg_id: reply_to,
            interaction,
            username,
            display_name,
            bot_username: bot,
        },
    )
}

// ---------------------------------------------------------------------------
// The chat of a command
// ---------------------------------------------------------------------------

/// The channel a command came through.
#[derive(Debug, Clone, Copy, PartialEq, Eq, Structural)]
pub enum ChannelKind {
    Cli,
    Telegram,
    Other,
}

/// A metadata value of a command: an integer, a string or something else.
pub enum MetaValue {
    Int(i64),
    Text(String),
    Other,
}

/// The text of a metadata value that may be an integer or a string.
pub open spec fn id_text(v: Option<MetaValue>) -> Option<Seq<char>> {
    match v {
        Some(MetaValue::Int(n)) => Some(signed_decimal(n as int)),
        Some(MetaValue::Text(s)) => Some(s@),
        _ => None,
    }
}

/// The text of a metadata value that must be a string.
pub open spec fn str_text(v: Option<MetaValue>) -> Option<Seq<char>> {
    match v {
        Some(MetaValue::Text(s)) => Some(s@),
        _ => None,
    }
}

fn id_text_exec(v: &Option<MetaValue>) -> (r: Option<String>)
    ensures
        opt_view(r) == id_text(*v),
{
    match v {
        Some(MetaValue::Int(n)) => Some(string_of(&signed_decimal_exec(*n))),
        Some(MetaValue::Text(s)) => Some(s.clone()),
        _ => None,
    }
}

fn str_text_exec(v: &Option<MetaValue>) -> (r: Option<String>)
    ensures
        opt_view(r) == str_text(*v),
{
    match v {
        Some(MetaValue::Text(s)) => Some(s.clone()),
        _ => None,
    }
}

/// The channel name, chat id (`0` when missing) and topic of a command:
/// from `cli_chat_id` for the CLI, from `telegram_chat_id` and
/// `telegram_thread_id` for Telegram, from `chat_id` otherwise. The caller
/// looks up the metadata entries for the channel.
pub fn channel_info(kind: ChannelKind, chat: &Option<MetaValue>, thread: &Option<MetaValue>) -> (r: (
    &'static str,
    String,
    Option<String>,
))
    ensures
        r.0@ == match kind {
            ChannelKind::Cli => "cli"@,
            ChannelKind::Telegram => "telegram"@,
            ChannelKind::Other => "unknown"@,
        },
        r.1@ == match (if kind == ChannelKind::Telegram {
            id_text(*chat)
        } else {
            str_text(*chat)
        }) {
            Some(c) => c,
            None => "0"@,
        },
        opt_view(r.2) == if kind == ChannelKind::Telegram {
            id_text(*thread)
        } else {
            None
        },
{
    match kind {
        ChannelKind::Cli => {
            let c = match str_text_exec(chat) {
                Some(c) => c,
                None => "0".to_string(),
            };
            ("cli", c, None)
        },
        ChannelKind::Telegram => {
            let c = match id_text_exec(chat) {
                Some(c) => c,
                None => "0".to_string(),
            };
            ("telegram", c, id_text_exec(thread))
        },
        ChannelKind::Other => {
            let c = match str_text_exec(chat) {
                Some(c) => c,
                None => "0".to_string(),
            };
            ("unknown", c, None)
        },
    }
}

/// The error when a command's metadata names no Telegram chat.
pub const MISSING_CHAT_ID: &'static str = "missing telegram_chat_id in command context";

/// The Telegram chat id of a command, from its `telegram_chat_id` entry (an
/// integer or a string). Without one the command fails: a wrong chat would
/// bind the wrong channel.
pub fn extract_chat_id(chat: &Option<MetaValue>) -> (r: Result<String, &'static str>)
    ensures
        match id_text(*chat) {
            Some(c) => r matches Ok(s) && s@ == c,
            None => r == Err::<String, &'static str>(MISSING_CHAT_ID),
        },
{
    match id_text_exec(chat) {
        Some(c) => Ok(c),
        None => Err(MISSING_CHAT_ID),
    }
}

/// The forum topic of a command, from its `telegram_thread_id` entry;
/// none in an ordinary chat.
pub fn extract_thread_id(thread: &Option<MetaValue>) -> (r: Option<String>)
    ensures
        opt_view(r) == id_text(*thread),
{
    id_text_exec(thread)
}

} // verus!
