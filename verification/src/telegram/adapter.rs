//! Pure helpers of the Telegram adapter: session keys and ids, forum-topic
//! naming and links, group-mention handling, tool-call XML stripping and
//! the text slicing used when a streamed reply is finalised.

use vstd::prelude::*;

use crate::text::{
    find_ws, find_ws_from, chars_of, contains, contains_exec, decimal, decimal_exec, digit_exec, eq_lit, is_ws,
    is_ws_exec, lemma_parse_signed_decimal, parse_in_range, parse_int_exec, push_seq, push_str, remove_all, remove_all_exec,
    signed_decimal, signed_decimal_exec, slice_of, starts_with, starts_with_exec, str_to_lowercase,
    string_of, trim, trim_exec, trim_start, trim_start_exec,
};

verus! {

/// Error of a failed id parse, with the message the adapter reports.
#[derive(Debug, PartialEq, Eq)]
pub struct InvalidId {
    pub message: String,
}

// ---------------------------------------------------------------------------
// Specification
// ---------------------------------------------------------------------------

/// The session key of a Telegram chat: `tg:{chat_id}`.
pub open spec fn session_key_of(chat_id: int) -> Seq<char> {
    "tg:"@ + signed_decimal(chat_id)
}

/// `s` without a leading `tg:`.
pub open spec fn strip_tg(s: Seq<char>) -> Seq<char> {
    if starts_with(s, "tg:"@) {
        s.skip(3)
    } else {
        s
    }
}

/// The chat id of a session key (`tg:{id}` or a bare number).
pub open spec fn chat_id_of(key: Seq<char>) -> Option<int> {
    parse_in_range(strip_tg(key), i64::MIN as int, i64::MAX as int)
}

/// The session key of a chat leads back to the chat.
pub proof fn law_session_key_roundtrip(chat_id: i64)
    ensures
        chat_id_of(session_key_of(chat_id as int)) == Some(chat_id as int),
{
    reveal_strlit("tg:");
    lemma_parse_signed_decimal(chat_id as int);
    let k = session_key_of(chat_id as int);
    assert(starts_with(k, "tg:"@)) by {
        assert(k.take(3) =~= "tg:"@);
    }
    assert(k.skip(3) =~= signed_decimal(chat_id as int));
}

/// The `t.me/c/…` deep link of a forum topic in a private supergroup.
pub open spec fn topic_link(chat_id: int, thread_id: int) -> Seq<char> {
    "https://t.me/c/"@ + signed_decimal(-chat_id - 1_000_000_000_000) + "/"@ + signed_decimal(
        thread_id,
    )
}

/// `text` with the bot `@mention` removed, trimmed.
pub open spec fn strip_mention(text: Seq<char>, bot: Option<Seq<char>>) -> Seq<char> {
    match bot {
        Some(u) => trim(remove_all(text, seq!['@'] + u)),
        None => trim(text),
    }
}

/// `s` without a leading `/command` token.
pub open spec fn strip_command(s: Seq<char>) -> Seq<char> {
    match find_ws_from(s, 0) {
        Some(w) => if starts_with(s.take(w), seq!['/']) {
            trim_start(s.skip(w + 1))
        } else if starts_with(s, seq!['/']) {
            seq![]
        } else {
            s
        },
        None => if starts_with(s, seq!['/']) {
            seq![]
        } else {
            s
        },
    }
}

/// The forum topic name derived from a first message.
pub open spec fn topic_name(text: Option<Seq<char>>, bot: Option<Seq<char>>) -> Seq<char> {
    match text {
        None => "New chat"@,
        Some(t) => if trim(t).len() == 0 {
            "New chat"@
        } else {
            let name = trim(strip_command(strip_mention(trim(t), bot)));
            if name.len() == 0 {
                "New chat"@
            } else if name.len() <= 30 {
                name
            } else {
                name.take(30)
            }
        },
    }
}

/// Whether `text` mentions rara: `rara` in any case, or `らら`, `ララ`,
/// `拉拉`.
pub open spec fn mentions_rara(text: Seq<char>) -> bool {
    let lower = str_to_lowercase(text);
    contains(lower, "rara"@) || contains(lower, "らら"@) || contains(lower, "ララ"@) || contains(
        lower,
        "拉拉"@,
    )
}

/// File name used for an image of the given MIME type.
pub open spec fn photo_file_name(mime: Seq<char>) -> Seq<char> {
    if mime == "image/jpeg"@ || mime == "image/jpg"@ {
        "photo.jpg"@
    } else if mime == "image/png"@ {
        "photo.png"@
    } else if mime == "image/gif"@ {
        "photo.gif"@
    } else if mime == "image/webp"@ {
        "photo.webp"@
    } else {
        "photo.bin"@
    }
}

/// Compact rendering of a duration given in whole milliseconds.
pub open spec fn compact_duration(millis: nat) -> Seq<char> {
    let secs = millis / 1000;
    if secs < 1 {
        decimal(millis) + "ms"@
    } else if secs < 60 {
        decimal(secs) + "."@ + decimal((millis % 1000) / 100) + "s"@
    } else {
        decimal(secs / 60) + "m"@ + decimal(secs % 60) + "s"@
    }
}

/// Whether `regex::Regex::new` accepts `pattern`.
pub uninterp spec fn regex_compiles(pattern: Seq<char>) -> bool;

/// What `Regex::replace_all(text, "")` leaves of `text` for the regex built
/// from `pattern`: every leftmost-first, non-overlapping match removed.
pub uninterp spec fn regex_erase(pattern: Seq<char>, text: Seq<char>) -> Seq<char>;

/// Complete tool-call XML blocks (open and close tag, possibly with
/// mismatched names) and self-closing tool-call tags.
pub const TOOL_CALL_BLOCK_PATTERN: &'static str = "(?si)<(?:toolcall|tool_call|tool_use|function=[^>]*)(?:\\s[^>]*)?>.*?</(?:toolcall|tool_call|tool_use|function)>|<(?:toolcall|tool_call|tool_use|function=[^>]*)(?:\\s[^>]*)?/>";

/// Orphaned opening or closing tool-call tags (left behind when a stream
/// flush split a block, or when the model emitted malformed XML).
pub const TOOL_CALL_TAG_PATTERN: &'static str = "(?i)</?(?:toolcall|tool_call|tool_use|function=[^>]*)(?:\\s[^>]*)?>";

// ---------------------------------------------------------------------------
// Implementation
// ---------------------------------------------------------------------------

/// The session key of a Telegram chat.
pub fn format_session_key(chat_id: i64) -> (r: String)
    ensures
        r@ == session_key_of(chat_id as int),
{
    let mut out: Vec<char> = Vec::new();
    push_str(&mut out, "tg:");
    let d = signed_decimal_exec(chat_id);
    push_seq(&mut out, &d);
    string_of(&out)
}

/// Parse a chat id from a session key: the canonical `tg:{chat_id}` or a
/// plain number.
pub fn parse_chat_id(session_key: &str) -> (r: Result<i64, InvalidId>)
    ensures
        match r {
            Ok(id) => chat_id_of(session_key@) == Some(id as int),
            Err(e) => chat_id_of(session_key@) is None && e.message@
                == "invalid telegram session key: "@ + session_key@,
        },
{
    let key = chars_of(session_key);
    let prefix = chars_of("tg:");
    proof {
        reveal_strlit("tg:");
    }
    let body = if starts_with_exec(&key, &prefix) {
        let b = slice_of(&key, 3, key.len());
        proof {
            assert(b@ =~= key@.skip(3));
        }
        b
    } else {
        key
    };
    match parse_int_exec(&body, i64::MIN as i128, i64::MAX as i128) {
        Some(v) => Ok(v as i64),
        None => {
            let mut msg: Vec<char> = Vec::new();
            push_str(&mut msg, "invalid telegram session key: ");
            push_str(&mut msg, session_key);
            Err(InvalidId { message: string_of(&msg) })
        },
    }
}

/// Parse a Telegram message id.
pub fn parse_message_id(id: &str) -> (r: Result<i32, InvalidId>)
    ensures
        match r {
            Ok(v) => parse_in_range(id@, i32::MIN as int, i32::MAX as int) == Some(v as int),
            Err(e) => parse_in_range(id@, i32::MIN as int, i32::MAX as int) is None && e.message@
                == "invalid telegram message id: "@ + id@,
        },
{
    let v = chars_of(id);
    match parse_int_exec(&v, i32::MIN as i128, i32::MAX as i128) {
        Some(x) => Ok(x as i32),
        None => {
            let mut msg: Vec<char> = Vec::new();
            push_str(&mut msg, "invalid telegram message id: ");
            push_str(&mut msg, id);
            Err(InvalidId { message: string_of(&msg) })
        },
    }
}

/// Build the public `t.me/c/…` deep link of a forum topic: private
/// supergroup ids are `-100…`; the link uses the id without that prefix.
pub fn forum_topic_link(chat_id: i64, thread_id: i64) -> (r: String)
    requires
        chat_id > i64::MIN,
        -chat_id - 1_000_000_000_000 >= i64::MIN,
    ensures
        r@ == topic_link(chat_id as int, thread_id as int),
{
    let short: i64 = (-chat_id) - 1_000_000_000_000;
    let mut out: Vec<char> = Vec::new();
    push_str(&mut out, "https://t.me/c/");
    push_seq(&mut out, &signed_decimal_exec(short));
    push_str(&mut out, "/");
    push_seq(&mut out, &signed_decimal_exec(thread_id));
    string_of(&out)
}

/// Strip the bot `@mention` from message text and trim it.
pub fn strip_group_mention(text: &str, bot_username: Option<&str>) -> (r: String)
    ensures
        r@ == strip_mention(text@, match bot_username {
            Some(u) => Some(u@),
            None => None,
        }),
{
    let t = chars_of(text);
    let r = strip_mention_chars(&t, bot_username);
    string_of(&r)
}

/// [`strip_group_mention`] on a character buffer.
fn strip_mention_chars(t: &Vec<char>, bot_username: Option<&str>) -> (r: Vec<char>)
    ensures
        r@ == strip_mention(t@, match bot_username {
            Some(u) => Some(u@),
            None => None,
        }),
{
    match bot_username {
        Some(u) => {
            let mut mention: Vec<char> = Vec::new();
            mention.push('@');
            push_str(&mut mention, u);
            proof {
                assert(mention@ =~= seq!['@'] + u@);
            }
            let removed = remove_all_exec(t, &mention);
            trim_exec(&removed)
        },
        None => trim_exec(t),
    }
}


/// Derive a forum topic name from the user's first message: the bot
/// mention and a leading `/command` token are stripped, the result is cut
/// to 30 characters, and `New chat` stands in when nothing usable is left.
pub fn derive_initial_topic_name(text: Option<&str>, bot_username: Option<&str>) -> (r: String)
    ensures
        r@ == topic_name(
            match text {
                Some(t) => Some(t@),
                None => None,
            },
            match bot_username {
                Some(u) => Some(u@),
                None => None,
            },
        ),
{
    let raw = match text {
        Some(t) => trim_exec(&chars_of(t)),
        None => {
            return "New chat".to_string();
        },
    };
    if raw.len() == 0 {
        return "New chat".to_string();
    }
    let without = strip_mention_chars(&raw, bot_username);
    let slash = chars_of("/");
    proof {
        reveal_strlit("/");
        assert(slash@ =~= seq!['/']);
    }
    let stripped = match find_ws(&without) {
        Some(w) => {
            let head = slice_of(&without, 0, w);
            proof {
                assert(head@ =~= without@.take(w as int));
            }
            if starts_with_exec(&head, &slash) {
                assert(w < without.len());
                let rest = slice_of(&without, w + 1, without.len());
                proof {
                    assert(rest@ =~= without@.skip(w + 1));
                }
                trim_start_exec(&rest)
            } else if starts_with_exec(&without, &slash) {
                Vec::new()
            } else {
                without
            }
        },
        None => {
            if starts_with_exec(&without, &slash) {
                Vec::new()
            } else {
                without
            }
        },
    };
    assert(stripped@ == strip_command(without@));
    let name = trim_exec(&stripped);
    if name.len() == 0 {
        return "New chat".to_string();
    }
    if name.len() <= 30 {
        string_of(&name)
    } else {
        let cut = slice_of(&name, 0, 30);
        proof {
            assert(cut@ =~= name@.take(30));
        }
        string_of(&cut)
    }
}

/// Whether the text contains a "rara" keyword variant: `rara` in any case,
/// Japanese `らら` / `ララ`, or Chinese `拉拉`.
pub fn contains_rara_keyword(text: &str) -> (r: bool)
    ensures
        r == mentions_rara(text@),
{
    let lower_s = crate::text::to_lowercase(text);
    let lower = chars_of(lower_s.as_str());
    contains_exec(&lower, &chars_of("rara")) || contains_exec(&lower, &chars_of("らら"))
        || contains_exec(&lower, &chars_of("ララ")) || contains_exec(&lower, &chars_of("拉拉"))
}

/// The suffix of `content` after its first `prefix_chars` characters; the
/// whole content when it is shorter than that (a final reply that diverged
/// from the streamed text is never truncated by accident).
pub fn slice_after_char_prefix(content: &str, prefix_chars: usize) -> (r: String)
    ensures
        r@ == if prefix_chars == 0 || prefix_chars > content@.len() {
            content@
        } else {
            content@.skip(prefix_chars as int)
        },
{
    let c = chars_of(content);
    if prefix_chars == 0 || prefix_chars > c.len() {
        return string_of(&c);
    }
    let rest = slice_of(&c, prefix_chars, c.len());
    proof {
        assert(rest@ =~= content@.skip(prefix_chars as int));
    }
    string_of(&rest)
}

/// The suffix of `content` after `prefix`, only when `content` starts with
/// it; otherwise `content` unchanged.
pub fn slice_after_prefix_if_matches(content: &str, prefix: &str) -> (r: String)
    ensures
        r@ == if starts_with(content@, prefix@) {
            content@.skip(prefix@.len() as int)
        } else {
            content@
        },
{
    let c = chars_of(content);
    let p = chars_of(prefix);
    if p.len() == 0 {
        proof {
            assert(content@.skip(0) =~= content@);
            assert(content@.take(0) =~= prefix@);
        }
        return string_of(&c);
    }
    if starts_with_exec(&c, &p) {
        let rest = slice_of(&c, p.len(), c.len());
        proof {
            assert(rest@ =~= content@.skip(prefix@.len() as int));
        }
        string_of(&rest)
    } else {
        string_of(&c)
    }
}

/// File name for a photo of the given MIME type.
pub fn mime_to_filename(mime: &str) -> (r: String)
    ensures
        r@ == photo_file_name(mime@),
{
    let m = chars_of(mime);
    if eq_lit(&m, "image/jpeg") || eq_lit(&m, "image/jpg") {
        "photo.jpg".to_string()
    } else if eq_lit(&m, "image/png") {
        "photo.png".to_string()
    } else if eq_lit(&m, "image/gif") {
        "photo.gif".to_string()
    } else if eq_lit(&m, "image/webp") {
        "photo.webp".to_string()
    } else {
        "photo.bin".to_string()
    }
}

/// Format a duration, given in whole milliseconds, compactly: `850ms`,
/// `12.3s`, `2m5s`.
pub fn format_duration_compact(millis: u128) -> (r: String)
    ensures
        r@ == compact_duration(millis as nat),
{
    let secs = millis / 1000;
    let mut out: Vec<char> = Vec::new();
    if secs < 1 {
        push_seq(&mut out, &decimal_exec(millis));
        push_str(&mut out, "ms");
    } else if secs < 60 {
        push_seq(&mut out, &decimal_exec(secs));
        push_str(&mut out, ".");
        push_seq(&mut out, &decimal_exec((millis % 1000) / 100));
        push_str(&mut out, "s");
    } else {
        push_seq(&mut out, &decimal_exec(secs / 60));
        push_str(&mut out, "m");
        push_seq(&mut out, &decimal_exec(secs % 60));
        push_str(&mut out, "s");
    }
    string_of(&out)
}


/// `regex::Regex::new(pattern)` and, when it compiles, `replace_all(text,
/// "")` on it. The contract claims that the result is present exactly when
/// the pattern compiles, and is then the text with the matches erased (a
/// value named, not described: the regex engine's semantics are not
/// restated here).
#[verifier::external_body]
fn regex_erase_all(pattern: &str, text: &str) -> (r: Option<String>)
    ensures
        r is Some == regex_compiles(pattern@),
        r matches Some(s) ==> s@ == regex_erase(pattern@, text@),
{
    regex::Regex::new(pattern).ok().map(|re| re.replace_all(text, "").into_owned())
}

/// One erasing pass: the text with the pattern's matches erased, or the
/// text unchanged when the pattern does not compile.
pub open spec fn erase_pass(pattern: Seq<char>, text: Seq<char>) -> Seq<char> {
    if regex_compiles(pattern) {
        regex_erase(pattern, text)
    } else {
        text
    }
}

/// The text with tool-call blocks erased, then orphaned tool-call tags.
pub open spec fn strip_tool_calls(text: Seq<char>) -> Seq<char> {
    erase_pass(TOOL_CALL_TAG_PATTERN@, erase_pass(TOOL_CALL_BLOCK_PATTERN@, text))
}

/// Strip tool-call XML that a model emitted as plain text: whole blocks
/// first (well-formed or with mismatched tag names), then orphaned opening
/// or closing tags. Both patterns are fixed and compile; should one not,
/// the text passes through that pass unchanged.
pub fn strip_tool_call_xml(text: &str) -> (r: String)
    ensures
        r@ == strip_tool_calls(text@),
        regex_compiles(TOOL_CALL_BLOCK_PATTERN@) && regex_compiles(TOOL_CALL_TAG_PATTERN@) ==> r@
            == regex_erase(TOOL_CALL_TAG_PATTERN@, regex_erase(TOOL_CALL_BLOCK_PATTERN@, text@)),
{
    let pass1 = match regex_erase_all(TOOL_CALL_BLOCK_PATTERN, text) {
        Some(s) => s,
        None => text.to_string(),
    };
    match regex_erase_all(TOOL_CALL_TAG_PATTERN, pass1.as_str()) {
        Some(s) => s,
        None => pass1,
    }
}

// ---------------------------------------------------------------------------
// Forum topics and attachments
// ---------------------------------------------------------------------------

/// The longest forum topic name Telegram takes, in characters.
pub const TOPIC_NAME_MAX_CHARS: usize = 128;

/// The chat and topic ids of a forum topic given as text: both must parse
/// (`i64` and `i32`), else there is no topic to act on.
pub open spec fn topic_ids_of(chat_id: Seq<char>, thread_id: Seq<char>) -> Option<(int, int)> {
    match (
        parse_in_range(chat_id, i64::MIN as int, i64::MAX as int),
        parse_in_range(thread_id, i32::MIN as int, i32::MAX as int),
    ) {
        (Some(c), Some(k)) => Some((c, k)),
        _ => None,
    }
}

/// The forum topic a session's channel binding names, as Telegram ids:
/// the topic that `/clear` deletes.
pub fn forum_topic_ids(chat_id: &str, thread_id: &str) -> (r: Option<(i64, i32)>)
    ensures
        match r {
            Some((c, k)) => topic_ids_of(chat_id@, thread_id@) == Some((c as int, k as int)),
            None => topic_ids_of(chat_id@, thread_id@) is None,
        },
{
    let c = match parse_int_exec(&chars_of(chat_id), i64::MIN as i128, i64::MAX as i128) {
        Some(c) => c as i64,
        None => return None,
    };
    let k = match parse_int_exec(&chars_of(thread_id), i32::MIN as i128, i32::MAX as i128) {
        Some(k) => k as i32,
        None => return None,
    };
    Some((c, k))
}

/// The forum topic to rename for a session bound to `chat_id` and
/// `thread_id`: none without a thread or when either id does not parse;
/// else the chat, the topic and the title cut to the name limit.
pub open spec fn topic_rename_of(chat_id: Seq<char>, thread_id: Option<Seq<char>>, title: Seq<char>) -> Option<
    (int, int, Seq<char>),
> {
    match thread_id {
        None => None,
        Some(t) => match topic_ids_of(chat_id, t) {
            Some((c, k)) => Some(
                (
                    c,
                    k,
                    if title.len() <= TOPIC_NAME_MAX_CHARS {
                        title
                    } else {
                        title.take(TOPIC_NAME_MAX_CHARS as int)
                    },
                ),
            ),
            None => None,
        },
    }
}

/// Where and how to rename the forum topic of a session when its title
/// changes.
pub fn topic_rename(chat_id: &str, thread_id: Option<&str>, title: &str) -> (r: Option<(i64, i32, String)>)
    ensures
        ({
            let t = match thread_id {
                Some(t) => Some(t@),
                None => None,
            };
            match r {
                Some((c, k, name)) => topic_rename_of(chat_id@, t, title@) == Some(
                    (c as int, k as int, name@),
                ),
                None => topic_rename_of(chat_id@, t, title@) is None,
            }
        }),
{
    let t = match thread_id {
        Some(t) => t,
        None => return None,
    };
    let (c, k) = match forum_topic_ids(chat_id, t) {
        Some(ids) => ids,
        None => return None,
    };
    let v = chars_of(title);
    let name = if v.len() <= TOPIC_NAME_MAX_CHARS {
        string_of(&v)
    } else {
        let cut = slice_of(&v, 0, TOPIC_NAME_MAX_CHARS);
        proof {
            assert(cut@ =~= v@.take(TOPIC_NAME_MAX_CHARS as int));
        }
        string_of(&cut)
    };
    Some((c, k, name))
}

/// How an outgoing attachment is sent.
#[derive(Debug, Clone, Copy, PartialEq, Eq, Structural)]
pub enum AttachmentKind {
    /// As a photo: its MIME type starts with `image/`.
    Photo,
    /// As a document: anything else.
    Document,
}

/// How an attachment of this MIME type is sent.
pub fn attachment_kind(mime_type: &str) -> (r: AttachmentKind)
    ensures
        r == (if starts_with(mime_type@, "image/"@) {
            AttachmentKind::Photo
        } else {
            AttachmentKind::Document
        }),
{
    proof {
        reveal_strlit("image/");
    }
    if starts_with_exec(&chars_of(mime_type), &chars_of("image/")) {
        AttachmentKind::Photo
    } else {
        AttachmentKind::Document
    }
}

} // verus!
