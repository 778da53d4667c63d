//! The decisions of the `getUpdates` long-polling loop: where the next poll
//! starts, how long to wait after a failure, and when to stop. The loop that
//! sends the requests, sleeps and hands updates out lives with the caller.

use vstd::prelude::*;

use crate::text::{chars_of, contains, contains_exec};

verus! {

/// Seconds to wait after the first failed poll.
pub const INITIAL_RETRY_DELAY_SECS: u64 = 2;

/// The longest wait between two failed polls, in seconds.
pub const MAX_RETRY_DELAY_SECS: u64 = 60;

/// The text of an API error that means another instance of the bot polls.
pub const CONFLICT_MARKER: &'static str = "terminated by other getUpdates request";

/// Where the loop stands between two polls.
#[derive(Debug, Clone, Copy, PartialEq, Eq, Structural)]
pub struct PollState {
    /// The first update id the next poll asks for; none before the first
    /// update arrived.
    pub offset: Option<i32>,
    /// How long to wait after the next failure.
    pub retry_delay_secs: u64,
}

/// What came back from a poll.
pub enum PollEvent {
    /// Shutdown was requested before or during the poll.
    Shutdown,
    /// The poll succeeded with these update ids, in order.
    Updates(Vec<u32>),
    /// Telegram answered with an API error, rendered as text.
    ApiError(String),
    /// The request failed for another reason (network, decoding).
    RequestFailed,
}

/// What the loop does next.
#[derive(Debug, Clone, Copy, PartialEq, Eq, Structural)]
pub enum PollAction {
    /// Leave the loop.
    Stop,
    /// Hand the updates out, then poll again at once.
    Dispatch,
    /// Wait this many seconds, then poll again.
    RetryAfter(u64),
}

impl PollState {
    /// A state the loop can be in: the delay lies between the first and the
    /// longest wait.
    pub open spec fn wf(self) -> bool {
        INITIAL_RETRY_DELAY_SECS <= self.retry_delay_secs <= MAX_RETRY_DELAY_SECS
    }

    /// The state before the first poll.
    pub fn new() -> (s: Self)
        ensures
            s.wf(),
            s.offset is None,
            s.retry_delay_secs == INITIAL_RETRY_DELAY_SECS,
    {
        PollState { offset: None, retry_delay_secs: INITIAL_RETRY_DELAY_SECS }
    }
}

/// The delay after the one that was just waited: doubled, at most the
/// longest wait.
pub open spec fn doubled_delay(d: int) -> int {
    if 2 * d <= MAX_RETRY_DELAY_SECS {
        2 * d
    } else {
        MAX_RETRY_DELAY_SECS as int
    }
}

/// The offset after a batch of updates: one past the last update, or the
/// old one for an empty batch.
pub open spec fn offset_after(ids: Seq<u32>, old: Option<i32>) -> Option<i32> {
    if ids.len() == 0 {
        old
    } else {
        Some((ids.last() as i32 + 1) as i32)
    }
}

/// Whether an update id fits the offset arithmetic (`id as i32 + 1`).
pub open spec fn id_fits(id: u32) -> bool {
    0 <= (id as i32) < i32::MAX
}

/// One step of the loop: the state after an event and what to do next.
pub fn poll_step(state: PollState, event: &PollEvent) -> (r: (PollState, PollAction))
    requires
        state.wf(),
        event matches PollEvent::Updates(ids) ==> forall|k: int|
            0 <= k < ids.len() ==> id_fits(#[trigger] ids@[k]),
    ensures
        r.0.wf(),
        match event {
            PollEvent::Shutdown => r == (state, PollAction::Stop),
            PollEvent::Updates(ids) => {
                &&& r.1 == PollAction::Dispatch
                &&& r.0.retry_delay_secs == INITIAL_RETRY_DELAY_SECS
                &&& r.0.offset == offset_after(ids@, state.offset)
            },
            PollEvent::ApiError(msg) => if contains(msg@, CONFLICT_MARKER@) {
                r == (state, PollAction::Stop)
            } else {
                &&& r.1 == PollAction::RetryAfter(state.retry_delay_secs)
                &&& r.0.offset == state.offset
                &&& r.0.retry_delay_secs == doubled_delay(state.retry_delay_secs as int)
            },
            PollEvent::RequestFailed => {
                &&& r.1 == PollAction::RetryAfter(state.retry_delay_secs)
                &&& r.0.offset == state.offset
                &&& r.0.retry_delay_secs == doubled_delay(state.retry_delay_secs as int)
            },
        },
{
    let backoff = PollState {
        offset: state.offset,
        retry_delay_secs: if state.retry_delay_secs <= MAX_RETRY_DELAY_SECS / 2 {
            state.retry_delay_secs * 2
        } else {
            MAX_RETRY_DELAY_SECS
        },
    };
    match event {
        PollEvent::Shutdown => (state, PollAction::Stop),
        PollEvent::Updates(ids) => {
            let n = ids.len();
            let offset = if n == 0 {
                state.offset
            } else {
                let last = ids[n - 1];
                assert(id_fits(ids@[n - 1]));
                Some(last as i32 + 1)
            };
            (PollState { offset, retry_delay_secs: INITIAL_RETRY_DELAY_SECS }, PollAction::Dispatch)
        },
        PollEvent::ApiError(msg) => {
            if contains_exec(&chars_of(msg.as_str()), &chars_of(CONFLICT_MARKER)) {
                (state, PollAction::Stop)
            } else {
                (backoff, PollAction::RetryAfter(state.retry_delay_secs))
            }
        },
        PollEvent::RequestFailed => (backoff, PollAction::RetryAfter(state.retry_delay_secs)),
    }
}

/// However many polls fail in a row, the wait never exceeds the longest
/// wait, and it never shrinks until a poll succeeds.
pub proof fn law_backoff_bounded(d: int)
    requires
        INITIAL_RETRY_DELAY_SECS <= d <= MAX_RETRY_DELAY_SECS,
    ensures
        d <= doubled_delay(d) <= MAX_RETRY_DELAY_SECS,
        d < MAX_RETRY_DELAY_SECS ==> d < doubled_delay(d),
{
}

} // verus!
