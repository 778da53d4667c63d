//! The streamed reply of a turn: text deltas accumulate into the latest
//! Telegram message, which is edited on a throttle and split into a new
//! message once it grows past a threshold; the final reply then replaces or
//! completes what was streamed.
//!
//! The state here is what the forwarder keeps per chat; the forwarder itself
//! (the event loop, the Bot API calls, the timers) stands outside the
//! library and hands each event and each API outcome to these functions.
//! Times are milliseconds on a monotonic clock the caller reads.

use vstd::prelude::*;

use super::adapter::{
    slice_after_char_prefix, slice_after_prefix_if_matches, strip_tool_call_xml, strip_tool_calls,
};
use super::markdown::{markdown_to_telegram_html, telegram_html};
use crate::text::{
    chars_of, contains, contains_exec, push_str, starts_with, string_of, utf8_len, utf8_len_exec,
};

verus! {

/// The placeholder id pushed after a split: the next flush sends a new
/// message in its place.
pub const SENTINEL_MESSAGE_ID: i32 = 0;

/// Raw text size (bytes) past which the current message is finalized and a
/// new one started.
pub const STREAM_SPLIT_THRESHOLD: usize = 3800;

/// Per-chat state of the streamed reply.
pub struct StreamingMessage {
    /// Tag of the turn that owns this state.
    pub epoch: u64,
    /// Ids of the messages sent for this stream; the last may be the
    /// sentinel.
    pub message_ids: Vec<i32>,
    /// Raw text of the current (latest) message.
    pub accumulated: String,
    /// Raw characters already finalized into earlier messages.
    pub streamed_prefix_chars: usize,
    /// When the last edit or send went through.
    pub last_edit_ms: u64,
    /// Text was appended since the last flush.
    pub dirty: bool,
}

/// What a flush sends: the message ids at the time, the HTML, and how many
/// raw characters a split flush finalizes (zero otherwise).
pub struct FlushRequest {
    pub message_ids: Vec<i32>,
    pub text_html: String,
    pub split_chars: usize,
}

/// Where a flush goes.
#[derive(Debug, Clone, Copy, PartialEq, Eq, Structural)]
pub enum FlushTarget {
    /// Send a new message.
    SendNew,
    /// Edit the message with this id.
    Edit(i32),
}

/// Outcome of a flush.
#[derive(Debug, Clone, Copy, PartialEq, Eq, Structural)]
pub enum FlushResult {
    /// A new message was sent with this id.
    Sent(i32),
    /// The edit went through (or there was nothing to change).
    Edited,
    /// The edit failed and is not retried.
    Failed,
    /// Rate limited: the text stays dirty and the next tick retries.
    RateLimited,
    /// Sending a new message failed.
    SendFailed,
}

/// Whether the last id is a real message (not the sentinel).
pub open spec fn last_is_sent(ids: Seq<i32>) -> bool {
    ids.len() > 0 && ids.last() != SENTINEL_MESSAGE_ID
}

/// Where a flush with these message ids goes: a new message when there is
/// none yet or the last is the sentinel, else an edit of the last.
pub open spec fn target_of(ids: Seq<i32>) -> FlushTarget {
    if last_is_sent(ids) {
        FlushTarget::Edit(ids.last())
    } else {
        FlushTarget::SendNew
    }
}

/// How an error text of a failed edit is taken.
pub open spec fn edit_error_result(err: Seq<char>) -> FlushResult {
    if contains(err, "message is not modified"@) {
        FlushResult::Edited
    } else if contains(err, "Too Many Requests"@) || contains(err, "retry after"@) {
        FlushResult::RateLimited
    } else {
        FlushResult::Failed
    }
}

/// The ids that remain real messages (sentinels dropped), in order.
pub open spec fn real_ids(ids: Seq<i32>) -> Seq<i32>
    decreases ids.len(),
{
    if ids.len() == 0 {
        seq![]
    } else if ids.last() != SENTINEL_MESSAGE_ID {
        real_ids(ids.drop_last()).push(ids.last())
    } else {
        real_ids(ids.drop_last())
    }
}

/// The message ids after a flush outcome: a sent message takes the
/// sentinel's place, or is appended.
pub open spec fn ids_after(ids: Seq<i32>, result: FlushResult) -> Seq<i32> {
    match result {
        FlushResult::Sent(id) => if ids.len() > 0 && ids.last() == SENTINEL_MESSAGE_ID {
            ids.update(ids.len() - 1, id)
        } else {
            ids.push(id)
        },
        _ => ids,
    }
}

/// Once a message was sent, the next flush edits it.
pub proof fn law_sent_message_is_edited_next(ids: Seq<i32>, id: i32)
    requires
        id != SENTINEL_MESSAGE_ID,
    ensures
        target_of(ids_after(ids, FlushResult::Sent(id))) == FlushTarget::Edit(id),
{
}

/// After a split went out, the next flush sends a new message.
pub proof fn law_split_starts_new_message(ids: Seq<i32>, result: FlushResult)
    requires
        result is Sent || result is Edited,
    ensures
        target_of(ids_after(ids, result).push(SENTINEL_MESSAGE_ID)) == FlushTarget::SendNew,
{
}

/// The ids handed out when the narration is cleared are real messages, in
/// the order they were sent, and every real message is among them.
pub proof fn law_cleared_ids_are_real(ids: Seq<i32>)
    ensures
        forall|i: int| 0 <= i < real_ids(ids).len() ==> real_ids(ids)[i] != SENTINEL_MESSAGE_ID,
        forall|i: int|
            0 <= i < ids.len() && ids[i] != SENTINEL_MESSAGE_ID ==> real_ids(ids).contains(ids[i]),
    decreases ids.len(),
{
    if ids.len() > 0 {
        law_cleared_ids_are_real(ids.drop_last());
        let p = real_ids(ids.drop_last());
        assert forall|i: int| 0 <= i < ids.len() && ids[i] != SENTINEL_MESSAGE_ID implies real_ids(
            ids,
        ).contains(ids[i]) by {
            if i < ids.len() - 1 {
                assert(ids.drop_last()[i] == ids[i]);
                let k = choose|k: int| 0 <= k < p.len() && p[k] == ids[i];
                if ids.last() != SENTINEL_MESSAGE_ID {
                    assert(real_ids(ids)[k] == ids[i]);
                }
            } else {
                assert(real_ids(ids).last() == ids[i]);
            }
        }
    }
}

/// Where a flush with these ids goes.
pub fn flush_target(message_ids: &Vec<i32>) -> (r: FlushTarget)
    ensures
        r == target_of(message_ids@),
{
    let n = message_ids.len();
    if n > 0 && message_ids[n - 1] != SENTINEL_MESSAGE_ID {
        FlushTarget::Edit(message_ids[n - 1])
    } else {
        FlushTarget::SendNew
    }
}

/// Classify the error text of a failed edit: "message is not modified" is
/// no failure, a rate limit is retried, anything else is a failure.
pub fn classify_edit_error(api_error: &str) -> (r: FlushResult)
    ensures
        r == edit_error_result(api_error@),
{
    let e = chars_of(api_error);
    if contains_exec(&e, &chars_of("message is not modified")) {
        FlushResult::Edited
    } else if contains_exec(&e, &chars_of("Too Many Requests")) || contains_exec(
        &e,
        &chars_of("retry after"),
    ) {
        FlushResult::RateLimited
    } else {
        FlushResult::Failed
    }
}

impl StreamingMessage {
    /// A fresh stream state for the turn tagged `epoch`.
    pub fn new(epoch: u64, now_ms: u64) -> (r: StreamingMessage)
        ensures
            r.epoch == epoch,
            r.message_ids@ == Seq::<i32>::empty(),
            r.accumulated@ == Seq::<char>::empty(),
            r.streamed_prefix_chars == 0,
            r.last_edit_ms == now_ms,
            !r.dirty,
    {
        StreamingMessage {
            epoch,
            message_ids: Vec::new(),
            accumulated: String::new(),
            streamed_prefix_chars: 0,
            last_edit_ms: now_ms,
            dirty: false,
        }
    }

    /// Append a text delta. When the current message's raw text then
    /// exceeds the split threshold, the request that finalizes it: the text
    /// with tool-call XML stripped, as HTML, and its character count.
    pub fn push_text(&mut self, text: &str) -> (r: Option<FlushRequest>)
        ensures
            final(self).accumulated@ == old(self).accumulated@ + text@,
            final(self).dirty,
            final(self).epoch == old(self).epoch,
            final(self).message_ids@ == old(self).message_ids@,
            final(self).streamed_prefix_chars == old(self).streamed_prefix_chars,
            final(self).last_edit_ms == old(self).last_edit_ms,
            r is Some <==> utf8_len(final(self).accumulated@) > STREAM_SPLIT_THRESHOLD,
            r matches Some(req) ==> {
                &&& req.message_ids@ == final(self).message_ids@
                &&& req.text_html@ == telegram_html(strip_tool_calls(final(self).accumulated@))
                &&& req.split_chars == strip_tool_calls(final(self).accumulated@).len()
            },
    {
        let mut acc = chars_of(self.accumulated.as_str());
        push_str(&mut acc, text);
        self.accumulated = string_of(&acc);
        self.dirty = true;
        if utf8_len_exec(&acc) > STREAM_SPLIT_THRESHOLD as u128 {
            let cleaned = strip_tool_call_xml(self.accumulated.as_str());
            let split_chars = chars_of(cleaned.as_str()).len();
            let html = markdown_to_telegram_html(cleaned.as_str());
            Some(FlushRequest { message_ids: self.message_ids.clone(), text_html: html, split_chars })
        } else {
            None
        }
    }

    /// Record the outcome of a flush at `now_ms`: a sent message takes the
    /// sentinel's place (or is appended); a sent, edited or failed flush
    /// clears the dirty flag and stamps the time; a rate-limited one stays
    /// dirty for the next tick; a failed send only clears the flag.
    pub fn apply_flush_result(&mut self, result: FlushResult, now_ms: u64)
        ensures
            final(self).epoch == old(self).epoch,
            final(self).accumulated@ == old(self).accumulated@,
            final(self).streamed_prefix_chars == old(self).streamed_prefix_chars,
            final(self).message_ids@ == ids_after(old(self).message_ids@, result),
            final(self).last_edit_ms == match result {
                FlushResult::Sent(_) | FlushResult::Edited | FlushResult::Failed => now_ms,
                _ => old(self).last_edit_ms,
            },
            final(self).dirty == (result is RateLimited && old(self).dirty),
    {
        match result {
            FlushResult::Sent(id) => {
                let n = self.message_ids.len();
                if n > 0 && self.message_ids[n - 1] == SENTINEL_MESSAGE_ID {
                    self.message_ids.set(n - 1, id);
                } else {
                    self.message_ids.push(id);
                }
                self.last_edit_ms = now_ms;
                self.dirty = false;
            },
            FlushResult::Edited | FlushResult::Failed => {
                self.last_edit_ms = now_ms;
                self.dirty = false;
            },
            FlushResult::RateLimited => {},
            FlushResult::SendFailed => {
                self.dirty = false;
            },
        }
    }

    /// Record the outcome of a split flush: the outcome is applied, and when
    /// the message went out (sent or edited) its characters count as
    /// streamed, the text starts over and a sentinel marks that the next
    /// flush sends a new message.
    pub fn complete_split(&mut self, split_chars: usize, result: FlushResult, now_ms: u64)
        ensures
            final(self).epoch == old(self).epoch,
            result is Sent || result is Edited ==> {
                &&& final(self).streamed_prefix_chars == if old(self).streamed_prefix_chars
                    + split_chars > usize::MAX {
                    usize::MAX as int
                } else {
                    old(self).streamed_prefix_chars + split_chars
                }
                &&& final(self).accumulated@ == Seq::<char>::empty()
                &&& final(self).message_ids@.last() == SENTINEL_MESSAGE_ID
                &&& final(self).message_ids@.drop_last() == ids_after(old(self).message_ids@, result)
                &&& !final(self).dirty
                &&& final(self).last_edit_ms == now_ms
            },
            !(result is Sent || result is Edited) ==> {
                &&& final(self).streamed_prefix_chars == old(self).streamed_prefix_chars
                &&& final(self).accumulated@ == old(self).accumulated@
                &&& final(self).message_ids@ == old(self).message_ids@
                &&& final(self).dirty == (result is RateLimited && old(self).dirty)
                &&& final(self).last_edit_ms == if result is Failed {
                    now_ms
                } else {
                    old(self).last_edit_ms
                }
            },
    {
        self.apply_flush_result(result, now_ms);
        match result {
            FlushResult::Sent(_) | FlushResult::Edited => {
                self.streamed_prefix_chars = self.streamed_prefix_chars.saturating_add(split_chars);
                self.accumulated = String::new();
                self.message_ids.push(SENTINEL_MESSAGE_ID);
                self.dirty = false;
            },
            _ => {},
        }
    }

    /// The model cleared its narration: the state starts over and the ids
    /// of the messages sent so far are handed out for deletion.
    pub fn clear_narration(&mut self) -> (r: Vec<i32>)
        ensures
            r@ == real_ids(old(self).message_ids@),
            final(self).message_ids@ == Seq::<i32>::empty(),
            final(self).accumulated@ == Seq::<char>::empty(),
            final(self).streamed_prefix_chars == 0,
            !final(self).dirty,
            final(self).epoch == old(self).epoch,
            final(self).last_edit_ms == old(self).last_edit_ms,
    {
        let mut ids: Vec<i32> = Vec::new();
        let n = self.message_ids.len();
        for i in 0..n
            invariant
                n == self.message_ids@.len(),
                self.message_ids@ == old(self).message_ids@,
                ids@ == real_ids(self.message_ids@.take(i as int)),
        {
            proof {
                let s = self.message_ids@;
                assert(s.take(i as int + 1).drop_last() =~= s.take(i as int));
            }
            if self.message_ids[i] != SENTINEL_MESSAGE_ID {
                ids.push(self.message_ids[i]);
            }
        }
        proof {
            assert(self.message_ids@.take(n as int) =~= self.message_ids@);
        }
        self.message_ids = Vec::new();
        self.accumulated = String::new();
        self.streamed_prefix_chars = 0;
        self.dirty = false;
        ids
    }

    /// The periodic flush: when there is new, non-empty text, the whole
    /// current text as HTML.
    pub fn tick_request(&self) -> (r: Option<FlushRequest>)
        ensures
            r is Some <==> self.dirty && self.accumulated@.len() > 0,
            r matches Some(req) ==> {
                &&& req.message_ids@ == self.message_ids@
                &&& req.text_html@ == telegram_html(self.accumulated@)
                &&& req.split_chars == 0
            },
    {
        if self.dirty && chars_of(self.accumulated.as_str()).len() > 0 {
            Some(
                FlushRequest {
                    message_ids: self.message_ids.clone(),
                    text_html: markdown_to_telegram_html(self.accumulated.as_str()),
                    split_chars: 0,
                },
            )
        } else {
            None
        }
    }

    /// The flush when the stream closes: when there is new text, the text
    /// with tool-call XML stripped, as HTML.
    pub fn close_request(&self) -> (r: Option<FlushRequest>)
        ensures
            r is Some <==> self.dirty,
            r matches Some(req) ==> {
                &&& req.message_ids@ == self.message_ids@
                &&& req.text_html@ == telegram_html(strip_tool_calls(self.accumulated@))
                &&& req.split_chars == 0
            },
    {
        if self.dirty {
            let cleaned = strip_tool_call_xml(self.accumulated.as_str());
            Some(
                FlushRequest {
                    message_ids: self.message_ids.clone(),
                    text_html: markdown_to_telegram_html(cleaned.as_str()),
                    split_chars: 0,
                },
            )
        } else {
            None
        }
    }
}

/// How the final reply of a turn goes out, given what was streamed.
pub struct FinalReply {
    /// The reply with the characters already finalized into earlier
    /// streamed messages dropped.
    pub content: String,
    /// Nothing to send: no content and no attachments.
    pub skip: bool,
    /// The streamed message to edit with the reply's first chunk.
    pub edit_target: Option<i32>,
    /// What to send as new messages when there is no message to edit or
    /// the edit fails: the reply without the part the user already saw.
    pub fallback: String,
}

/// The reply without the characters finalized into earlier messages.
pub open spec fn after_streamed(content: Seq<char>, prefix_chars: nat) -> Seq<char> {
    if prefix_chars == 0 || prefix_chars > content.len() {
        content
    } else {
        content.skip(prefix_chars as int)
    }
}

/// `content` without `prefix` when it starts with it.
pub open spec fn after_prefix(content: Seq<char>, prefix: Seq<char>) -> Seq<char> {
    if starts_with(content, prefix) {
        content.skip(prefix.len() as int)
    } else {
        content
    }
}

/// Plan the final reply. With no stream state the reply goes out whole.
/// With one, the finalized prefix is dropped; when the current streamed
/// message was actually sent, it is the edit target and the text it shows
/// (tool-call XML stripped) is dropped from the fallback too.
pub fn plan_final_reply(content: &str, stream: Option<&StreamingMessage>, has_attachments: bool) -> (r:
    FinalReply)
    ensures
        r.content@ == match stream {
            Some(st) => after_streamed(content@, st.streamed_prefix_chars as nat),
            None => content@,
        },
        r.skip == (r.content@.len() == 0 && !has_attachments),
        r.edit_target == match stream {
            Some(st) => if last_is_sent(st.message_ids@) {
                Some(st.message_ids@.last())
            } else {
                None
            },
            None => None,
        },
        r.fallback@ == match stream {
            Some(st) => if last_is_sent(st.message_ids@) {
                after_prefix(r.content@, strip_tool_calls(st.accumulated@))
            } else {
                r.content@
            },
            None => r.content@,
        },
{
    let rest = match stream {
        Some(st) => slice_after_char_prefix(content, st.streamed_prefix_chars),
        None => content.to_string(),
    };
    let skip = chars_of(rest.as_str()).len() == 0 && !has_attachments;
    let (edit_target, fallback) = match stream {
        Some(st) => {
            let n = st.message_ids.len();
            if n > 0 && st.message_ids[n - 1] != SENTINEL_MESSAGE_ID {
                let shown = strip_tool_call_xml(st.accumulated.as_str());
                (Some(st.message_ids[n - 1]), slice_after_prefix_if_matches(rest.as_str(), shown.as_str()))
            } else {
                (None, rest.clone())
            }
        },
        None => (None, rest.clone()),
    };
    FinalReply { content: rest, skip, edit_target, fallback }
}

/// Nothing of the final reply is lost or sent twice: what the user
/// already saw, followed by the fallback, is the reply; a reply that does
/// not start with it goes out whole.
pub proof fn law_fallback_completes_reply(content: Seq<char>, shown: Seq<char>)
    ensures
        starts_with(content, shown) ==> shown + after_prefix(content, shown) == content,
        !starts_with(content, shown) ==> after_prefix(content, shown) == content,
{
    if starts_with(content, shown) {
        assert(shown + after_prefix(content, shown) =~= content);
    }
}

/// The reply's characters finalized into earlier messages, followed by
/// what is left to send, are the reply.
pub proof fn law_streamed_prefix_completes_reply(content: Seq<char>, prefix_chars: nat)
    requires
        prefix_chars <= content.len(),
    ensures
        content.take(prefix_chars as int) + after_streamed(content, prefix_chars) == content,
{
    assert(content.take(prefix_chars as int) + after_streamed(content, prefix_chars) =~= content);
}

} // verus!
