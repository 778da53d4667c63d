//! Where an incoming update goes: the routing of inline-keyboard callbacks
//! with their authorization, which group messages are taken in, the slash-command
//! dispatch, and the answers to the agent's questions that arrive as
//! replies. The caller extracts what these need from the Telegram update
//! and performs what they decide.

use vstd::prelude::*;

use super::adapter::{contains_rara_keyword, forum_topic_link, mentions_rara, topic_link};
use super::inline_callbacks::{admitted, PendingQuestion};
use crate::text::{
    chars_of, contains, contains_exec, escape_html, find_ws, find_ws_from, first_word,
    first_word_exec, find_char_exec, is_ws, opt_view, push_escaped_str, push_seq, push_str, signed_decimal,
    slice_of, starts_with, starts_with_exec, str_eq, str_to_lowercase, string_of, to_lowercase,
    trim, trim_exec, trim_start, trim_start_exec,
};

verus! {

// ---------------------------------------------------------------------------
// Configuration
// ---------------------------------------------------------------------------

/// How the bot treats messages in group chats.
#[derive(Debug, Clone, Copy, PartialEq, Eq, Structural)]
pub enum GroupPolicy {
    /// Ignore group messages.
    Ignore,
    /// Answer only when mentioned.
    MentionOnly,
    /// Answer when mentioned or in a small group; else let the agent judge.
    MentionOrSmallGroup,
    /// Answer when mentioned; else let the agent judge.
    ProactiveJudgment,
    /// Answer everything.
    All,
}

/// Runtime settings of the adapter.
#[derive(Debug, Clone, Copy, PartialEq, Eq, Structural)]
pub struct TelegramConfig {
    /// The chat for privileged commands and private prompts.
    pub primary_chat_id: Option<i64>,
    /// The one group the bot may work in.
    pub allowed_group_chat_id: Option<i64>,
    pub group_policy: GroupPolicy,
}

impl Default for TelegramConfig {
    fn default() -> (r: Self)
        ensures
            r.primary_chat_id is None,
            r.allowed_group_chat_id is None,
            r.group_policy == GroupPolicy::MentionOrSmallGroup,
    {
        TelegramConfig {
            primary_chat_id: None,
            allowed_group_chat_id: None,
            group_policy: GroupPolicy::MentionOrSmallGroup,
        }
    }
}

/// A group with at most this many members counts as small.
pub const SMALL_GROUP_THRESHOLD: u32 = 3;

// ---------------------------------------------------------------------------
// Callback routing
// ---------------------------------------------------------------------------

/// Where a callback goes.
#[derive(Debug, Clone, Copy, PartialEq, Eq, Structural)]
pub enum CallbackRoute {
    /// Guard approvals (they check the user themselves).
    Guard,
    /// The tool-call limit prompt (it checks the chat itself).
    Limit,
    /// Answers to a question (they check the asker themselves).
    AskUser,
    /// The chat is not allowed: answer and drop.
    UnauthorizedChat,
    /// The group is not the allowed one: answer and drop.
    UnauthorizedGroup,
    Trace,
    Cascade,
    Dashboard,
    /// The first registered handler whose prefix the data starts with.
    Handler(usize),
    /// Nothing handles it.
    Unhandled,
}

/// The first handler whose prefix `data` starts with, from `i` on.
pub open spec fn first_prefix_from(prefixes: Seq<Seq<char>>, data: Seq<char>, i: int) -> Option<int>
    decreases prefixes.len() - i,
{
    if i < 0 || i >= prefixes.len() {
        None
    } else if starts_with(data, prefixes[i]) {
        Some(i)
    } else {
        first_prefix_from(prefixes, data, i + 1)
    }
}

/// Where a callback with `data` from chat `chat_id` goes: the three kinds
/// that authorize on their own first, then the chat and group checks, then
/// the trace, cascade and dashboard toggles and the registered handlers.
pub open spec fn callback_route(
    data: Seq<char>,
    chat_id: i64,
    is_group: bool,
    allowed_chat_ids: Seq<i64>,
    allowed_group: Option<i64>,
    prefixes: Seq<Seq<char>>,
) -> CallbackRoute {
    if starts_with(data, "guard:"@) {
        CallbackRoute::Guard
    } else if starts_with(data, "limit:"@) {
        CallbackRoute::Limit
    } else if starts_with(data, "au:"@) {
        CallbackRoute::AskUser
    } else if !admitted(allowed_chat_ids, chat_id) {
        CallbackRoute::UnauthorizedChat
    } else if is_group && allowed_group is Some && allowed_group != Some(chat_id) {
        CallbackRoute::UnauthorizedGroup
    } else if starts_with(data, "trace:"@) {
        CallbackRoute::Trace
    } else if starts_with(data, "cas:"@) {
        CallbackRoute::Cascade
    } else if starts_with(data, "dash:"@) {
        CallbackRoute::Dashboard
    } else {
        match first_prefix_from(prefixes, data, 0) {
            Some(i) => CallbackRoute::Handler(i as usize),
            None => CallbackRoute::Unhandled,
        }
    }
}

/// A callback from a chat that is not allowed reaches no toggle and no
/// handler: only the kinds that check their users themselves go through.
pub proof fn law_unauthorized_callbacks_go_nowhere(
    data: Seq<char>,
    chat_id: i64,
    is_group: bool,
    allowed_chat_ids: Seq<i64>,
    allowed_group: Option<i64>,
    prefixes: Seq<Seq<char>>,
)
    requires
        !admitted(allowed_chat_ids, chat_id) || (is_group && allowed_group is Some && allowed_group
            != Some(chat_id)),
    ensures
        match callback_route(data, chat_id, is_group, allowed_chat_ids, allowed_group, prefixes) {
            CallbackRoute::Guard | CallbackRoute::Limit | CallbackRoute::AskUser
            | CallbackRoute::UnauthorizedChat | CallbackRoute::UnauthorizedGroup => true,
            _ => false,
        },
{
}

fn has_prefix(data: &Vec<char>, p: &str) -> (r: bool)
    ensures
        r == starts_with(data@, p@),
{
    starts_with_exec(data, &chars_of(p))
}

/// Route a callback. `chat_id` is the chat of the message that carried the
/// keyboard (0 when unknown), `handler_prefixes` the prefixes of the
/// registered callback handlers, in order.
pub fn route_callback(
    data: &str,
    chat_id: i64,
    is_group: bool,
    allowed_chat_ids: &Vec<i64>,
    allowed_group_chat_id: Option<i64>,
    handler_prefixes: &Vec<String>,
) -> (r: CallbackRoute)
    ensures
        r == callback_route(
            data@,
            chat_id,
            is_group,
            allowed_chat_ids@,
            allowed_group_chat_id,
            handler_prefixes@.map_values(|p: String| p@),
        ),
{
    let d = chars_of(data);
    if has_prefix(&d, "guard:") {
        return CallbackRoute::Guard;
    }
    if has_prefix(&d, "limit:") {
        return CallbackRoute::Limit;
    }
    if has_prefix(&d, "au:") {
        return CallbackRoute::AskUser;
    }
    let mut chat_ok = allowed_chat_ids.len() == 0;
    for i in 0..allowed_chat_ids.len()
        invariant
            chat_ok == (allowed_chat_ids@.len() == 0 || exists|k: int| 0 <= k < i && allowed_chat_ids@[k] == chat_id),
    {
        if allowed_chat_ids[i] == chat_id {
            chat_ok = true;
        }
    }
    proof {
        if chat_ok && allowed_chat_ids@.len() > 0 {
            let k = choose|k: int| 0 <= k < allowed_chat_ids@.len() && allowed_chat_ids@[k] == chat_id;
            assert(allowed_chat_ids@.contains(chat_id));
        }
        if !chat_ok {
            assert(!allowed_chat_ids@.contains(chat_id));
        }
    }
    if !chat_ok {
        return CallbackRoute::UnauthorizedChat;
    }
    if is_group {
        match allowed_group_chat_id {
            Some(g) => {
                if g != chat_id {
                    return CallbackRoute::UnauthorizedGroup;
                }
            },
            None => {},
        }
    }
    if has_prefix(&d, "trace:") {
        return CallbackRoute::Trace;
    }
    if has_prefix(&d, "cas:") {
        return CallbackRoute::Cascade;
    }
    if has_prefix(&d, "dash:") {
        return CallbackRoute::Dashboard;
    }
    let ghost ps = handler_prefixes@.map_values(|p: String| p@);
    let ghost route = callback_route(data@, chat_id, is_group, allowed_chat_ids@, allowed_group_chat_id, ps);
    proof {
        assert(route == match first_prefix_from(ps, data@, 0) {
            Some(k) => CallbackRoute::Handler(k as usize),
            None => CallbackRoute::Unhandled,
        });
    }
    let n = handler_prefixes.len();
    for i in 0..n
        invariant
            route == match first_prefix_from(ps, data@, 0) {
                Some(k) => CallbackRoute::Handler(k as usize),
                None => CallbackRoute::Unhandled,
            },
            route == callback_route(data@, chat_id, is_group, allowed_chat_ids@, allowed_group_chat_id, ps),
            n == handler_prefixes@.len(),
            d@ == data@,
            ps == handler_prefixes@.map_values(|p: String| p@),
            first_prefix_from(ps, data@, 0) == first_prefix_from(ps, data@, i as int),
    {
        proof {
            assert(ps[i as int] == handler_prefixes@[i as int]@);
        }
        if starts_with_exec(&d, &chars_of(handler_prefixes[i].as_str())) {
            return CallbackRoute::Handler(i);
        }
    }
    CallbackRoute::Unhandled
}

// ---------------------------------------------------------------------------
// Group messages
// ---------------------------------------------------------------------------

/// Whether the bot `bot_username` is mentioned: by a mention entity (its
/// text trimmed, without leading `@`, case-insensitively), else by an
/// `@name` anywhere in the text.
pub open spec fn mentioned(mentions: Seq<Seq<char>>, text: Seq<char>, bot_username: Option<Seq<char>>) -> bool {
    match bot_username {
        None => false,
        Some(u) => {
            let expected = str_to_lowercase(u);
            (exists|i: int|
                0 <= i < mentions.len() && str_to_lowercase(strip_ats(trim(#[trigger] mentions[i])))
                    == expected) || contains(str_to_lowercase(text), "@"@ + expected)
        },
    }
}

/// `s` without its leading `@`s (`trim_start_matches('@')`).
pub open spec fn strip_ats(s: Seq<char>) -> Seq<char>
    decreases s.len(),
{
    if s.len() > 0 && s[0] == '@' {
        strip_ats(s.skip(1))
    } else {
        s
    }
}

fn strip_ats_exec(s: &Vec<char>) -> (r: Vec<char>)
    ensures
        r@ == strip_ats(s@),
{
    let n = s.len();
    let mut i: usize = 0;
    proof {
        assert(s@.skip(0) =~= s@);
    }
    while i < n && s[i] == '@'
        invariant
            n == s@.len(),
            i <= n,
            strip_ats(s@) == strip_ats(s@.skip(i as int)),
        decreases n - i,
    {
        proof {
            assert(s@.skip(i as int).skip(1) =~= s@.skip(i as int + 1));
        }
        i = i + 1;
    }
    let r = slice_of(s, i, n);
    proof {
        assert(r@ =~= s@.skip(i as int));
    }
    r
}

/// Whether a group message mentions the bot. `mentions` are the texts of
/// the message's mention entities.
pub fn is_group_mention(mentions: &Vec<String>, text: &str, bot_username: Option<&str>) -> (r: bool)
    ensures
        r == mentioned(
            mentions@.map_values(|m: String| m@),
            text@,
            match bot_username {
                Some(u) => Some(u@),
                None => None,
            },
        ),
{
    let username = match bot_username {
        None => {
            return false;
        },
        Some(u) => u,
    };
    let expected = to_lowercase(username);
    let ghost ms = mentions@.map_values(|m: String| m@);
    let n = mentions.len();
    for i in 0..n
        invariant
            n == mentions@.len(),
            bot_username matches Some(u) && u@ == username@,
            ms == mentions@.map_values(|m: String| m@),
            expected@ == str_to_lowercase(username@),
            forall|k: int|
                0 <= k < i ==> str_to_lowercase(strip_ats(trim(#[trigger] ms[k]))) != expected@,
    {
        proof {
            assert(ms[i as int] == mentions@[i as int]@);
        }
        let m = strip_ats_exec(&trim_exec(&chars_of(mentions[i].as_str())));
        let lower = to_lowercase(string_of(&m).as_str());
        if str_eq(lower.as_str(), expected.as_str()) {
            proof {
                assert(str_to_lowercase(strip_ats(trim(ms[i as int]))) == expected@);
            }
            return true;
        }
    }
    let mut needle: Vec<char> = Vec::new();
    push_str(&mut needle, "@");
    push_str(&mut needle, expected.as_str());
    proof {
        reveal_strlit("@");
        assert(needle@ =~= "@"@ + expected@);
    }
    contains_exec(&chars_of(to_lowercase(text).as_str()), &needle)
}

/// What to do with a group message.
#[derive(Debug, Clone, Copy, PartialEq, Eq, Structural)]
pub enum GroupGate {
    /// Drop it silently.
    Ignore,
    /// The group is not the allowed one: say so and drop it.
    Unauthorized,
    /// Take it in; `proactive` when the bot was not addressed and the agent
    /// decides whether to answer.
    Accept { proactive: bool },
}

/// Whether deciding on a group message needs the group's member count.
pub open spec fn needs_member_count(p: GroupPolicy) -> bool {
    p == GroupPolicy::MentionOrSmallGroup
}

/// What becomes of a group message from chat `chat_id`: the policy decides
/// (the member count, when the policy needs it, is `None` when it could not
/// be read), then the allowed group is checked.
pub open spec fn group_gate(
    policy: GroupPolicy,
    is_mentioned: bool,
    member_count: Option<u32>,
    chat_id: i64,
    allowed_group: Option<i64>,
) -> GroupGate {
    let proactive = match policy {
        GroupPolicy::MentionOrSmallGroup => !(is_mentioned || (member_count matches Some(
            n,
        ) && n <= SMALL_GROUP_THRESHOLD)),
        GroupPolicy::ProactiveJudgment => !is_mentioned,
        _ => false,
    };
    if policy == GroupPolicy::Ignore || (policy == GroupPolicy::MentionOnly && !is_mentioned) {
        GroupGate::Ignore
    } else if allowed_group is Some && allowed_group != Some(chat_id) {
        GroupGate::Unauthorized
    } else {
        GroupGate::Accept { proactive }
    }
}

/// A group message is taken in only from the allowed group (when one is
/// set), never under the `Ignore` policy, and under `MentionOnly` only
/// when the bot was mentioned; a mention always makes it a direct one.
pub proof fn law_group_gate(
    policy: GroupPolicy,
    is_mentioned: bool,
    member_count: Option<u32>,
    chat_id: i64,
    allowed_group: Option<i64>,
)
    ensures
        group_gate(policy, is_mentioned, member_count, chat_id, allowed_group) is Accept ==> {
            &&& (allowed_group is None || allowed_group == Some(chat_id))
            &&& policy != GroupPolicy::Ignore
            &&& (policy == GroupPolicy::MentionOnly ==> is_mentioned)
        },
        is_mentioned && policy != GroupPolicy::Ignore && (allowed_group is None || allowed_group
            == Some(chat_id)) ==> group_gate(policy, is_mentioned, member_count, chat_id, allowed_group)
            == (GroupGate::Accept { proactive: false }),
{
}

/// Whether the policy needs the group's member count.
pub fn policy_needs_member_count(policy: GroupPolicy) -> (r: bool)
    ensures
        r == needs_member_count(policy),
{
    match policy {
        GroupPolicy::MentionOrSmallGroup => true,
        _ => false,
    }
}

/// Decide on a group message. `is_mentioned` is whether the bot was
/// mentioned or named (see [`is_group_mention`] and
/// [`contains_rara_keyword`]).
pub fn decide_group_message(
    policy: GroupPolicy,
    is_mentioned: bool,
    member_count: Option<u32>,
    chat_id: i64,
    allowed_group_chat_id: Option<i64>,
) -> (r: GroupGate)
    ensures
        r == group_gate(policy, is_mentioned, member_count, chat_id, allowed_group_chat_id),
{
    let proactive = match policy {
        GroupPolicy::Ignore => {
            return GroupGate::Ignore;
        },
        GroupPolicy::MentionOnly => {
            if !is_mentioned {
                return GroupGate::Ignore;
            }
            false
        },
        GroupPolicy::MentionOrSmallGroup => {
            let small = match member_count {
                Some(n) => n <= SMALL_GROUP_THRESHOLD,
                None => false,
            };
            !(small || is_mentioned)
        },
        GroupPolicy::ProactiveJudgment => !is_mentioned,
        GroupPolicy::All => false,
    };
    match allowed_group_chat_id {
        Some(g) => {
            if g != chat_id {
                return GroupGate::Unauthorized;
            }
        },
        None => {},
    }
    GroupGate::Accept { proactive }
}

/// The reply in a group that is not the allowed one.
pub const UNAUTHORIZED_GROUP_REPLY: &'static str =
    "This group is not authorized. Please configure the allowed group chat ID in the adapter settings.";

// ---------------------------------------------------------------------------
// Slash commands
// ---------------------------------------------------------------------------

/// A slash command: its name and the text after it.
pub struct CommandInvocation {
    pub name: String,
    pub args: String,
}

/// `s` without its leading `/`s (`trim_start_matches('/')`).
pub open spec fn strip_slashes(s: Seq<char>) -> Seq<char>
    decreases s.len(),
{
    if s.len() > 0 && s[0] == '/' {
        strip_slashes(s.skip(1))
    } else {
        s
    }
}

/// `s` up to its first `@` (`split('@').next()`).
pub open spec fn before_at(s: Seq<char>) -> Seq<char> {
    match crate::text::find_char(s, '@') {
        Some(k) => s.take(k),
        None => s,
    }
}

/// The command a text invokes: for a text starting with `/`, its first
/// word without the slashes and an `@bot` suffix, and the rest of the text
/// after that word without leading white space; `None` when the name is
/// empty.
pub open spec fn command_of(text: Seq<char>) -> Option<(Seq<char>, Seq<char>)> {
    if !starts_with(text, "/"@) {
        None
    } else {
        let word = match first_word(text) {
            Some(w) => w,
            None => seq![],
        };
        let name = before_at(strip_slashes(word));
        if name.len() == 0 {
            None
        } else {
            Some((name, trim_start(text.skip(word.len() as int))))
        }
    }
}

proof fn lemma_find_ws_bound(s: Seq<char>, i: int)
    requires
        0 <= i,
    ensures
        find_ws_from(s, i) matches Some(w) ==> i <= w < s.len(),
    decreases s.len() - i,
{
    if i < s.len() && !is_ws(s[i]) {
        lemma_find_ws_bound(s, i + 1);
    }
}

fn strip_slashes_exec(s: &Vec<char>) -> (r: Vec<char>)
    ensures
        r@ == strip_slashes(s@),
{
    let n = s.len();
    let mut i: usize = 0;
    proof {
        assert(s@.skip(0) =~= s@);
    }
    while i < n && s[i] == '/'
        invariant
            n == s@.len(),
            i <= n,
            strip_slashes(s@) == strip_slashes(s@.skip(i as int)),
        decreases n - i,
    {
        proof {
            assert(s@.skip(i as int).skip(1) =~= s@.skip(i as int + 1));
        }
        i = i + 1;
    }
    let r = slice_of(s, i, n);
    proof {
        assert(r@ =~= s@.skip(i as int));
    }
    r
}

/// Parse a slash command.
pub fn parse_command(text: &str) -> (r: Option<CommandInvocation>)
    ensures
        match r {
            Some(c) => command_of(text@) == Some((c.name@, c.args@)),
            None => command_of(text@) is None,
        },
{
    let t = chars_of(text);
    proof {
        reveal_strlit("/");
    }
    if !starts_with_exec(&t, &chars_of("/")) {
        return None;
    }
    let word = match first_word_exec(&t) {
        Some(w) => w,
        None => Vec::new(),
    };
    let stripped = strip_slashes_exec(&word);
    let name = match find_char_exec(&stripped, '@', 0) {
        Some(k) => slice_of(&stripped, 0, k),
        None => stripped,
    };
    proof {
        assert(name@ =~= before_at(strip_slashes(word@)));
    }
    if name.len() == 0 {
        return None;
    }
    let wl = word.len();
    proof {
        assert(t@.take(1) == "/"@);
        assert(t@[0] == t@.take(1)[0]);
        assert(!is_ws(t@[0]));
        assert(trim_start(t@) == t@);
        lemma_find_ws_bound(t@, 0);
        assert(wl <= t@.len());
    }
    let rest = slice_of(&t, wl, t.len());
    proof {
        assert(rest@ =~= text@.skip(wl as int));
    }
    let args = trim_start_exec(&rest);
    Some(CommandInvocation { name: string_of(&name), args: string_of(&args) })
}

/// The first handler, from `i` on, whose command names hold `name`.
pub open spec fn handler_for(commands: Seq<Seq<Seq<char>>>, name: Seq<char>, i: int) -> Option<int>
    decreases commands.len() - i,
{
    if i < 0 || i >= commands.len() {
        None
    } else if commands[i].contains(name) {
        Some(i)
    } else {
        handler_for(commands, name, i + 1)
    }
}

/// The views of the command names of the handlers.
pub open spec fn commands_v(c: Seq<Vec<String>>) -> Seq<Seq<Seq<char>>> {
    c.map_values(|v: Vec<String>| v@.map_values(|s: String| s@))
}

/// The first handler whose commands include `name`.
pub fn find_command_handler(commands: &Vec<Vec<String>>, name: &str) -> (r: Option<usize>)
    ensures
        match r {
            Some(i) => handler_for(commands_v(commands@), name@, 0) == Some(i as int),
            None => handler_for(commands_v(commands@), name@, 0) is None,
        },
{
    let ghost cv = commands_v(commands@);
    let n = commands.len();
    for i in 0..n
        invariant
            n == commands@.len(),
            cv == commands_v(commands@),
            handler_for(cv, name@, 0) == handler_for(cv, name@, i as int),
    {
        let names = &commands[i];
        let ghost nv = names@.map_values(|s: String| s@);
        proof {
            assert(cv[i as int] == nv);
        }
        let mut found = false;
        for j in 0..names.len()
            invariant
                nv == names@.map_values(|s: String| s@),
                found == exists|k: int| 0 <= k < j && nv[k] == name@,
        {
            proof {
                assert(nv[j as int] == names@[j as int]@);
            }
            if str_eq(names[j].as_str(), name) {
                found = true;
            }
        }
        proof {
            if found {
                let k = choose|k: int| 0 <= k < names@.len() && nv[k] == name@;
                assert(nv.contains(name@));
            } else {
                assert(!nv.contains(name@));
            }
        }
        if found {
            return Some(i);
        }
    }
    None
}

/// The reply when a command handler failed.
pub open spec fn command_failed(err: Seq<char>) -> Seq<char> {
    "Command failed: "@ + err
}

/// The reply when a command handler failed.
pub fn command_failed_text(err: &str) -> (r: String)
    ensures
        r@ == command_failed(err@),
{
    let mut out: Vec<char> = Vec::new();
    push_str(&mut out, "Command failed: ");
    push_str(&mut out, err);
    string_of(&out)
}

// ---------------------------------------------------------------------------
// Answers that arrive as replies
// ---------------------------------------------------------------------------

/// How a reply to a question prompt is taken.
pub enum ReplyAnswer {
    /// The question is no longer pending: the reply is dropped.
    Gone,
    /// Someone else than the asked user replied (the question stays).
    NotAsker,
    /// The reply has no text (the question stays).
    NotText,
    /// The answer.
    Answer(String),
}

/// Check a reply to a question prompt from user `from` with `text`.
pub fn check_reply_answer(pending: Option<&PendingQuestion>, from: Option<&str>, text: Option<&str>) -> (r:
    ReplyAnswer)
    ensures
        match pending {
            None => r is Gone,
            Some(q) => match q.expected_user_id {
                Some(u) if from.is_none() || from.unwrap()@ != u@ => r is NotAsker,
                _ => match text {
                    None => r is NotText,
                    Some(t) => r matches ReplyAnswer::Answer(a) && a@ == t@,
                },
            },
        },
{
    match pending {
        None => ReplyAnswer::Gone,
        Some(q) => {
            match &q.expected_user_id {
                Some(u) => {
                    match from {
                        None => {
                            return ReplyAnswer::NotAsker;
                        },
                        Some(f) => {
                            if !str_eq(f, u.as_str()) {
                                return ReplyAnswer::NotAsker;
                            }
                        },
                    }
                },
                None => {},
            }
            match text {
                None => ReplyAnswer::NotText,
                Some(t) => ReplyAnswer::Answer(t.to_string()),
            }
        },
    }
}

/// The reply when someone else than the asked user answers.
pub const NOT_ASKER_REPLY: &'static str = "⚠️ Only the original asker can answer this question.";

/// The reply when the answer has no text.
pub const NOT_TEXT_REPLY: &'static str = "⚠️ Please reply with a text message.";

/// The prompt after it was answered by a reply: the question struck
/// through.
pub open spec fn answered_by_reply(question: Seq<char>) -> Seq<char> {
    "<b>✅ Answered</b>\n\n<s>"@ + escape_html(question) + "</s>"@
}

/// The prompt after it was answered by a reply.
pub fn answered_by_reply_text(question: &str) -> (r: String)
    ensures
        r@ == answered_by_reply(question@),
{
    let mut out: Vec<char> = Vec::new();
    push_str(&mut out, "<b>✅ Answered</b>\n\n<s>");
    push_escaped_str(&mut out, question);
    push_str(&mut out, "</s>");
    string_of(&out)
}

// ---------------------------------------------------------------------------
// Voice messages and forum topics
// ---------------------------------------------------------------------------

/// The text of a voice message: the caption, a blank line and the
/// transcript when there is a caption with more than white space, else the
/// transcript.
pub open spec fn with_transcript(caption: Option<Seq<char>>, transcript: Seq<char>) -> Seq<char> {
    match caption {
        Some(c) if trim(c).len() > 0 => c + "\n\n"@ + transcript,
        _ => transcript,
    }
}

/// The text of a voice message.
pub fn combine_transcript(caption: Option<&str>, transcript: &str) -> (r: String)
    ensures
        r@ == with_transcript(
            match caption {
                Some(c) => Some(c@),
                None => None,
            },
            transcript@,
        ),
{
    match caption {
        Some(c) => {
            if trim_exec(&chars_of(c)).len() > 0 {
                let mut out = chars_of(c);
                push_str(&mut out, "\n\n");
                push_str(&mut out, transcript);
                return string_of(&out);
            }
            transcript.to_string()
        },
        None => transcript.to_string(),
    }
}

/// The text of a voice message whose transcription failed.
pub const TRANSCRIPTION_FAILED: &'static str = "[voice message — transcription failed]";

/// The notice in the general topic that links a new forum topic.
pub open spec fn new_topic_notice(chat_id: int, thread_id: int, name: Seq<char>) -> Seq<char> {
    "💬 New topic: <a href=\""@ + topic_link(chat_id, thread_id) + "\">"@ + escape_html(name) + "</a>"@
}

/// The notice in the general topic that links a new forum topic.
pub fn new_topic_notice_text(chat_id: i64, thread_id: i64, name: &str) -> (r: String)
    requires
        chat_id > i64::MIN,
        -chat_id - 1_000_000_000_000 >= i64::MIN,
    ensures
        r@ == new_topic_notice(chat_id as int, thread_id as int, name@),
{
    let mut out: Vec<char> = Vec::new();
    push_str(&mut out, "💬 New topic: <a href=\"");
    push_str(&mut out, forum_topic_link(chat_id, thread_id).as_str());
    push_str(&mut out, "\">");
    push_escaped_str(&mut out, name);
    push_str(&mut out, "</a>");
    proof {
        assert(out@ =~= new_topic_notice(chat_id as int, thread_id as int, name@));
    }
    string_of(&out)
}

/// The first message in a new forum topic.
pub fn topic_intro_text(name: &str) -> (r: String)
    ensures
        r@ == "💬 "@ + name@,
{
    let mut out: Vec<char> = Vec::new();
    push_str(&mut out, "💬 ");
    push_str(&mut out, name);
    string_of(&out)
}

/// The reply when the system is too busy to take a message.
pub const BUSY_REPLY: &'static str = "⚠️ System is busy, please try again later.";

/// The reply when the turn could not be queued.
pub const QUEUE_FULL_REPLY: &'static str = "⚠️ 系统繁忙，请稍后再试。";

/// The reply when the user is rate limited.
pub fn rate_limited_text(message: &str) -> (r: String)
    ensures
        r@ == "⚠️ "@ + message@,
{
    let mut out: Vec<char> = Vec::new();
    push_str(&mut out, "⚠️ ");
    push_str(&mut out, message);
    string_of(&out)
}

} // verus!
