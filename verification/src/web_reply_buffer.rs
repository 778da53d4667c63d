//! Per-session reply buffer of the Web channel.
//!
//! When a long task completes while the user's tab is closed, the live
//! publish reaches nobody; the buffer keeps the important events of each
//! session for a while so that a reattaching client can replay them in
//! order. Each session has its own bounded ring (event count and bytes,
//! oldest first out), events expire after a time to live, draining hands
//! the events out exactly once, and sessions left empty are swept.
//!
//! Publishing appends to the buffer and then broadcasts on the session's
//! channel; reattaching subscribes to the channel before draining, so an
//! event is either drained or delivered live, never both.
//!
//! Time is passed in as milliseconds of a monotonic clock; which events are
//! worth buffering and how many bytes they take is the caller's decision.

use std::collections::VecDeque;

use vstd::prelude::*;

use crate::web::{kind_of, WebEvent};

verus! {

/// The sending half of a tokio broadcast channel.
#[verifier::external_type_specification]
#[verifier::external_body]
#[verifier::reject_recursive_types(T)]
pub struct ExBroadcastSender<T>(tokio::sync::broadcast::Sender<T>);

/// The receiving half of a tokio broadcast channel.
#[verifier::external_type_specification]
#[verifier::external_body]
#[verifier::reject_recursive_types(T)]
pub struct ExBroadcastReceiver<T>(tokio::sync::broadcast::Receiver<T>);

/// A session's broadcast channel as the reply buffer publishes on it: the
/// sending half, and the log of every value this channel was handed to
/// send (ghost: it exists for the contracts only).
#[verifier::reject_recursive_types(E)]
pub struct EventChannel<E> {
    tx: tokio::sync::broadcast::Sender<E>,
    sent: Ghost<Seq<E>>,
}

impl<E> View for EventChannel<E> {
    type V = Seq<E>;

    /// The values handed to the channel so far, oldest first.
    closed spec fn view(&self) -> Seq<E> {
        self.sent@
    }
}

impl<E> EventChannel<E> {
    /// The channel of a sender, nothing sent yet.
    pub fn new(tx: tokio::sync::broadcast::Sender<E>) -> (r: Self)
        ensures
            r@ == Seq::<E>::empty(),
    {
        EventChannel { tx, sent: Ghost(Seq::empty()) }
    }

    /// A receiver of every value sent on the channel from now on.
    pub fn subscribe(&self) -> (r: tokio::sync::broadcast::Receiver<E>) {
        broadcast_subscribe(&self.tx)
    }
}

/// `broadcast::Sender::send` on the channel's sender: hands `event` to
/// every receiver subscribed at that moment. The contract claims that the
/// value handed over is `event` (the channel's log grows by it) and what
/// tokio's source shows of the result: `Ok(n)` counts the receivers, so `n`
/// is at least one; with none, `event` itself comes back in `Err`. Which
/// receivers get it is left unsaid: they are not arguments of the call.
#[verifier::external_body]
fn channel_send<E>(ch: &mut EventChannel<E>, event: E) -> (r: Result<usize, E>)
    ensures
        final(ch)@ == old(ch)@.push(event),
        r matches Ok(n) ==> n >= 1,
        r matches Err(v) ==> v == event,
{
    ch.tx.send(event).map_err(|e| e.0)
}

/// `broadcast::Sender::subscribe`: a receiver of every value sent on the
/// channel from now on. Nothing is claimed of the receiver: its queue is
/// filled by later sends that do not take it as an argument.
#[verifier::external_body]
fn broadcast_subscribe<E>(tx: &tokio::sync::broadcast::Sender<E>) -> (r: tokio::sync::broadcast::Receiver<E>) {
    tx.subscribe()
}

/// Maximum number of buffered events per session.
pub const CAPACITY_EVENTS: usize = 256;

/// Maximum total bytes buffered per session.
pub const CAPACITY_BYTES: usize = 2097152;

/// How long an event stays buffered, in milliseconds.
pub const TTL_MS: u64 = 300000;

/// The kind of an event of the Web channel.
#[derive(Debug, Clone, Copy, PartialEq, Eq, Structural)]
pub enum WebEventKind {
    Message,
    Typing,
    Phase,
    Error,
    TextDelta,
    ReasoningDelta,
    TextClear,
    ToolCallStart,
    ToolCallEnd,
    TurnRationale,
    Progress,
    TurnMetrics,
    Usage,
    PlanCreated,
    PlanProgress,
    PlanReplan,
    PlanCompleted,
    BackgroundTaskStarted,
    BackgroundTaskDone,
    TraceReady,
    Attachment,
    ApprovalRequested,
    ApprovalResolved,
    Done,
    Hello,
    SubagentSpawned,
    SubagentDone,
    TapeForked,
    UserMessageAppended,
    TapeAppended,
}

/// Whether events of a kind must survive a publish that nobody hears: final
/// replies, errors, finished background tasks and progress stages.
/// Streaming chunks are not worth replaying.
pub open spec fn buffered_kind(k: WebEventKind) -> bool {
    k == WebEventKind::Message || k == WebEventKind::Error || k == WebEventKind::BackgroundTaskDone
        || k == WebEventKind::Progress
}

/// Decide whether an event of kind `k` must be buffered.
pub fn should_buffer(k: WebEventKind) -> (r: bool)
    ensures
        r == buffered_kind(k),
{
    match k {
        WebEventKind::Message => true,
        WebEventKind::Error => true,
        WebEventKind::BackgroundTaskDone => true,
        WebEventKind::Progress => true,
        _ => false,
    }
}

/// One buffered event with the time it was queued and its size.
pub struct Buffered<E> {
    pub event: E,
    pub queued_at: u64,
    pub bytes: usize,
}

/// The view of a buffered event: `(event, queued at, bytes)`.
pub open spec fn entry_view<E>(b: Buffered<E>) -> (E, u64, usize) {
    (b.event, b.queued_at, b.bytes)
}

/// Total bytes of buffered events.
pub open spec fn total_bytes<E>(es: Seq<(E, u64, usize)>) -> nat
    decreases es.len(),
{
    if es.len() == 0 {
        0
    } else {
        total_bytes(es.drop_last()) + es.last().2 as nat
    }
}

/// Whether an event queued at `queued_at` has outlived the time to live at
/// `now` (a clock that went backwards counts as no time elapsed).
pub open spec fn expired(queued_at: u64, now: u64) -> bool {
    now > queued_at && now - queued_at > TTL_MS
}

/// The events left once the expired ones at the front are dropped.
pub open spec fn drop_expired<E>(es: Seq<(E, u64, usize)>, now: u64) -> Seq<(E, u64, usize)>
    decreases es.len(),
{
    if es.len() > 0 && expired(es[0].1, now) {
        drop_expired(es.subrange(1, es.len() as int), now)
    } else {
        es
    }
}

/// The events left once the oldest are dropped until an event of `bytes`
/// bytes fits both caps (or nothing is left to drop).
pub open spec fn make_room<E>(es: Seq<(E, u64, usize)>, bytes: usize) -> Seq<(E, u64, usize)>
    decreases es.len(),
{
    if es.len() > 0 && (es.len() >= CAPACITY_EVENTS || total_bytes(es) + bytes > CAPACITY_BYTES) {
        make_room(es.subrange(1, es.len() as int), bytes)
    } else {
        es
    }
}

/// Per-session bounded ring of buffered events.
pub struct SessionBuffer<E> {
    events: VecDeque<Buffered<E>>,
    bytes: usize,
    last_write: u64,
}

impl<E> View for SessionBuffer<E> {
    type V = Seq<(E, u64, usize)>;

    closed spec fn view(&self) -> Seq<(E, u64, usize)> {
        self.events@.map_values(|b: Buffered<E>| entry_view(b))
    }
}

/// A session's events fit the caps: at most the event cap, and at most the
/// byte cap unless a single event is larger by itself.
pub open spec fn within_caps<E>(es: Seq<(E, u64, usize)>) -> bool {
    &&& es.len() <= CAPACITY_EVENTS
    &&& (total_bytes(es) <= CAPACITY_BYTES || es.len() == 1)
}

/// Bytes of a suffix are at most those of the whole.
proof fn lemma_total_bytes_front<E>(es: Seq<(E, u64, usize)>)
    requires
        es.len() > 0,
    ensures
        total_bytes(es) == es[0].2 + total_bytes(es.subrange(1, es.len() as int)),
    decreases es.len(),
{
    if es.len() > 1 {
        lemma_total_bytes_front(es.drop_last());
        assert(es.drop_last().subrange(1, es.len() - 1) =~= es.subrange(1, es.len() as int).drop_last());
    } else {
        assert(es.subrange(1, es.len() as int) =~= Seq::<(E, u64, usize)>::empty());
        assert(es.drop_last() =~= Seq::<(E, u64, usize)>::empty());
    }
}

impl<E> SessionBuffer<E> {
    /// The buffer's invariant: the byte count is the events' total, and the
    /// events fit the caps.
    pub closed spec fn wf(&self) -> bool {
        &&& self.bytes == total_bytes(self@)
        &&& within_caps(self@)
    }

    /// An empty buffer.
    pub fn new(now: u64) -> (r: Self)
        ensures
            r.wf(),
            r@ == Seq::<(E, u64, usize)>::empty(),
    {
        let r = SessionBuffer { events: VecDeque::new(), bytes: 0, last_write: now };
        proof {
            assert(r@ =~= Seq::<(E, u64, usize)>::empty());
        }
        r
    }

    /// Number of buffered events.
    pub fn len(&self) -> (r: usize)
        ensures
            r == self@.len(),
    {
        self.events.len()
    }

    /// Drop the events that outlived the time to live (the oldest come
    /// first).
    pub fn evict_expired(&mut self, now: u64)
        requires
            old(self).wf(),
        ensures
            final(self).wf(),
            final(self)@ == drop_expired(old(self)@, now),
    {
        loop
            invariant
                self.wf(),
                drop_expired(old(self)@, now) == drop_expired(self@, now),
            ensures
                self.wf(),
                self@ == drop_expired(old(self)@, now),
            decreases self@.len(),
        {
            if self.events.len() == 0 {
                return;
            }
            let front_at = self.events[0].queued_at;
            let is_expired = now > front_at && now - front_at > TTL_MS;
            if !is_expired {
                proof {
                    assert(self@[0].1 == front_at);
                }
                return;
            }
            let ghost before = self@;
            let dropped = self.events.pop_front();
            match dropped {
                Some(d) => {
                    proof {
                        lemma_total_bytes_front(before);
                        assert(self@ =~= before.subrange(1, before.len() as int));
                        assert(d.bytes == before[0].2);
                    }
                    self.bytes = self.bytes - d.bytes;
                },
                None => {},
            }
        }
    }

    /// Append an event of `bytes` bytes queued at `now`, first dropping the
    /// oldest events until both caps leave room for it.
    pub fn push(&mut self, event: E, bytes: usize, now: u64)
        requires
            old(self).wf(),
        ensures
            final(self).wf(),
            final(self)@ == make_room(old(self)@, bytes).push((event, now, bytes)),
    {
        loop
            invariant
                self.wf(),
                make_room(old(self)@, bytes) == make_room(self@, bytes),
            ensures
                self.wf(),
                self@ == make_room(old(self)@, bytes),
                self@.len() < CAPACITY_EVENTS,
                self@.len() == 0 || total_bytes(self@) + bytes <= CAPACITY_BYTES,
            decreases self@.len(),
        {
            let n = self.events.len();
            let over = n >= CAPACITY_EVENTS || (n > 0 && (self.bytes as u128) + (bytes as u128)
                > CAPACITY_BYTES as u128);
            if !over {
                break;
            }
            let ghost before = self@;
            let dropped = self.events.pop_front();
            match dropped {
                Some(d) => {
                    proof {
                        lemma_total_bytes_front(before);
                        assert(self@ =~= before.subrange(1, before.len() as int));
                        assert(d.bytes == before[0].2);
                    }
                    self.bytes = self.bytes - d.bytes;
                },
                None => {},
            }
        }
        let ghost room = self@;
        self.events.push_back(Buffered { event, queued_at: now, bytes });
        proof {
            assert(self@ =~= room.push((event, now, bytes)));
            assert(self@.drop_last() =~= room);
            if room.len() == 0 {
                assert(total_bytes(room) == 0);
            }
        }
        self.bytes = self.bytes + bytes;
        self.last_write = now;
    }

    /// Take all buffered events out, oldest first, leaving the buffer
    /// empty.
    pub fn drain(&mut self) -> (r: Vec<E>)
        requires
            old(self).wf(),
        ensures
            final(self).wf(),
            final(self)@ == Seq::<(E, u64, usize)>::empty(),
            r@ == old(self)@.map_values(|e: (E, u64, usize)| e.0),
    {
        let mut out: Vec<E> = Vec::new();
        let ghost all = self@;
        loop
            invariant
                self.wf(),
                all == old(self)@,
                out@ + self@.map_values(|e: (E, u64, usize)| e.0) == all.map_values(
                    |e: (E, u64, usize)| e.0,
                ),
            ensures
                self.wf(),
                self@ == Seq::<(E, u64, usize)>::empty(),
                out@ == all.map_values(|e: (E, u64, usize)| e.0),
            decreases self@.len(),
        {
            let ghost before = self@;
            match self.events.pop_front() {
                Some(d) => {
                    proof {
                        lemma_total_bytes_front(before);
                        assert(self@ =~= before.subrange(1, before.len() as int));
                        assert(d.bytes == before[0].2);
                        assert(before.map_values(|e: (E, u64, usize)| e.0) =~= seq![d.event]
                            + self@.map_values(|e: (E, u64, usize)| e.0));
                    }
                    self.bytes = self.bytes - d.bytes;
                    out.push(d.event);
                    proof {
                        assert(out@ + self@.map_values(|e: (E, u64, usize)| e.0) =~= all.map_values(
                            |e: (E, u64, usize)| e.0,
                        ));
                    }
                },
                None => {
                    proof {
                        assert(self@.map_values(|e: (E, u64, usize)| e.0) =~= Seq::<E>::empty());
                        assert(out@ =~= out@ + Seq::<E>::empty());
                        assert(self@ =~= Seq::<(E, u64, usize)>::empty());
                    }
                    return out;
                },
            }
        }
    }
}

// ---------------------------------------------------------------------------
// The registry of sessions
// ---------------------------------------------------------------------------

/// A session's buffer, under the session's key.
pub struct Slot<E> {
    pub key: u128,
    pub buffer: SessionBuffer<E>,
}

/// The view of the registry: `(session key, buffered events)` per session,
/// in order of first use.
pub type RegistryView<E> = Seq<(u128, Seq<(E, u64, usize)>)>;

/// Index of the session `key` in `v`, scanning from `i`.
pub open spec fn index_from<E>(v: RegistryView<E>, key: u128, i: int) -> Option<int>
    decreases v.len() - i,
{
    if i < 0 || i >= v.len() {
        None
    } else if v[i].0 == key {
        Some(i)
    } else {
        index_from(v, key, i + 1)
    }
}

/// The events buffered for `key`, if the session is tracked.
pub open spec fn lookup<E>(v: RegistryView<E>, key: u128) -> Option<Seq<(E, u64, usize)>> {
    match index_from(v, key, 0) {
        Some(i) => Some(v[i].1),
        None => None,
    }
}

/// `v` with the events of `key` replaced by `es` (the session is appended
/// when it was not tracked).
pub open spec fn with_session<E>(v: RegistryView<E>, key: u128, es: Seq<(E, u64, usize)>) -> RegistryView<
    E,
> {
    match index_from(v, key, 0) {
        Some(i) => v.update(i, (key, es)),
        None => v.push((key, es)),
    }
}

/// The events of `key` after a publish at `now`: the expired ones dropped,
/// then the event appended when it is to be buffered.
pub open spec fn after_publish<E>(
    v: RegistryView<E>,
    key: u128,
    event: E,
    buffered: bool,
    bytes: usize,
    now: u64,
) -> Seq<(E, u64, usize)> {
    let kept = drop_expired(
        match lookup(v, key) {
            Some(es) => es,
            None => seq![],
        },
        now,
    );
    if buffered {
        make_room(kept, bytes).push((event, now, bytes))
    } else {
        kept
    }
}

/// The events a drain of `key` at `now` hands out, oldest first.
pub open spec fn drained<E>(v: RegistryView<E>, key: u128, now: u64) -> Seq<E> {
    drop_expired(
        match lookup(v, key) {
            Some(es) => es,
            None => seq![],
        },
        now,
    ).map_values(|e: (E, u64, usize)| e.0)
}

/// The sessions left after a sweep at `now`: those with unexpired events,
/// with the expired ones dropped, in order.
pub open spec fn swept<E>(v: RegistryView<E>, now: u64) -> RegistryView<E>
    decreases v.len(),
{
    if v.len() == 0 {
        seq![]
    } else {
        let rest = swept(v.drop_last(), now);
        let es = drop_expired(v.last().1, now);
        if es.len() > 0 {
            rest.push((v.last().0, es))
        } else {
            rest
        }
    }
}

/// Whether no session key occurs twice.
pub open spec fn keys_unique<E>(v: RegistryView<E>) -> bool {
    forall|i: int, j: int| 0 <= i < j < v.len() ==> v[i].0 != v[j].0
}

/// The view of a slot.
pub open spec fn slot_view<E>(s: Slot<E>) -> (u128, Seq<(E, u64, usize)>) {
    (s.key, s.buffer@)
}

/// Per-session reply buffers.
pub struct ReplyBuffer<E> {
    sessions: Vec<Slot<E>>,
}

impl<E> View for ReplyBuffer<E> {
    type V = RegistryView<E>;

    closed spec fn view(&self) -> RegistryView<E> {
        self.sessions@.map_values(|s: Slot<E>| slot_view(s))
    }
}

/// A found index holds the key; none before it does.
proof fn lemma_index_from<E>(v: RegistryView<E>, key: u128, i: int)
    requires
        0 <= i,
    ensures
        index_from(v, key, i) matches Some(k) ==> i <= k < v.len() && v[k].0 == key && forall|j: int|
            i <= j < k ==> v[j].0 != key,
        index_from(v, key, i) is None ==> forall|j: int| i <= j < v.len() ==> v[j].0 != key,
    decreases v.len() - i,
{
    if i < v.len() && v[i].0 != key {
        lemma_index_from(v, key, i + 1);
    }
}

/// Replacing the events of `key` changes no other session.
pub proof fn lemma_with_session_lookup<E>(v: RegistryView<E>, key: u128, es: Seq<(E, u64, usize)>, other: u128)
    ensures
        lookup(with_session(v, key, es), key) == Some(es),
        other != key ==> lookup(with_session(v, key, es), other) == lookup(v, other),
        keys_unique(v) ==> keys_unique(with_session(v, key, es)),
{
    let w = with_session(v, key, es);
    lemma_index_from(v, key, 0);
    lemma_index_from(w, key, 0);
    lemma_index_from(v, other, 0);
    lemma_index_from(w, other, 0);
    match index_from(v, key, 0) {
        Some(i) => {
            assert(w[i].0 == key);
            if index_from(w, key, 0) != Some(i) {
                let k = index_from(w, key, 0)->0;
                assert(w[k] == v[k]);
            }
            if other != key {
                match index_from(v, other, 0) {
                    Some(j) => {
                        assert(w[j] == v[j]);
                        if index_from(w, other, 0) != Some(j) {
                            let k = index_from(w, other, 0)->0;
                            assert(w[k] == v[k] || k == i);
                        }
                    },
                    None => {
                        if index_from(w, other, 0) is Some {
                            let k = index_from(w, other, 0)->0;
                            assert(w[k] == v[k] || k == i);
                        }
                    },
                }
            }
        },
        None => {
            assert(w[v.len() as int].0 == key);
            if index_from(w, key, 0) != Some(v.len() as int) {
                let k = index_from(w, key, 0)->0;
                assert(w[k] == v[k]);
            }
            if other != key {
                match index_from(v, other, 0) {
                    Some(j) => {
                        assert(w[j] == v[j]);
                        if index_from(w, other, 0) != Some(j) {
                            let k = index_from(w, other, 0)->0;
                            assert(k < v.len() ==> w[k] == v[k]);
                        }
                    },
                    None => {
                        if index_from(w, other, 0) is Some {
                            let k = index_from(w, other, 0)->0;
                            assert(k < v.len() ==> w[k] == v[k]);
                        }
                    },
                }
            }
        },
    }
}

impl<E: Clone> SessionBuffer<E> {
    /// Copies of the buffered events, oldest first.
    pub fn events_cloned(&self) -> (r: Vec<E>)
        ensures
            r@.len() == self@.len(),
            forall|i: int| 0 <= i < r@.len() ==> cloned::<E>(self@[i].0, #[trigger] r@[i]),
    {
        let mut out: Vec<E> = Vec::new();
        let n = self.events.len();
        for i in 0..n
            invariant
                n == self@.len(),
                out@.len() == i,
                forall|k: int| 0 <= k < i ==> cloned::<E>(self@[k].0, #[trigger] out@[k]),
        {
            let e = self.events[i].event.clone();
            out.push(e);
        }
        out
    }
}

impl<E> ReplyBuffer<E> {
    /// The registry's invariant: each session once, each buffer well formed.
    pub closed spec fn wf(&self) -> bool {
        &&& keys_unique(self@)
        &&& forall|i: int| 0 <= i < self.sessions@.len() ==> (#[trigger] self.sessions@[i]).buffer.wf()
    }

    /// An empty registry.
    pub fn new() -> (r: Self)
        ensures
            r.wf(),
            r@ == RegistryView::<E>::empty(),
    {
        let r = ReplyBuffer { sessions: Vec::new() };
        proof {
            assert(r@ =~= RegistryView::<E>::empty());
        }
        r
    }

    /// Number of tracked sessions.
    pub fn session_count(&self) -> (r: usize)
        ensures
            r == self@.len(),
    {
        self.sessions.len()
    }

    /// Index of a session's slot.
    fn find(&self, key: u128) -> (r: Option<usize>)
        ensures
            match r {
                Some(i) => index_from(self@, key, 0) == Some(i as int) && i < self@.len(),
                None => index_from(self@, key, 0) is None,
            },
    {
        let n = self.sessions.len();
        let mut i: usize = 0;
        while i < n
            invariant
                i <= n,
                n == self@.len(),
                index_from(self@, key, 0) == index_from(self@, key, i as int),
            decreases n - i,
        {
            if self.sessions[i].key == key {
                return Some(i);
            }
            i = i + 1;
        }
        None
    }

    /// Take a session's buffer out (a fresh one when it is not tracked),
    /// remembering where it was.
    fn take(&mut self, key: u128, now: u64) -> (r: (Option<usize>, SessionBuffer<E>))
        requires
            old(self).wf(),
        ensures
            r.1.wf(),
            r.1@ == match lookup(old(self)@, key) {
                Some(es) => es,
                None => seq![],
            },
            r.0 == match index_from(old(self)@, key, 0) {
                Some(i) => Some(i as usize),
                None => None::<usize>,
            },
            match r.0 {
                Some(i) => i < old(self)@.len() && final(self)@ == old(self)@.remove(i as int)
                    && final(self).sessions@ == old(self).sessions@.remove(i as int),
                None => final(self)@ == old(self)@ && final(self).sessions@ == old(self).sessions@,
            },
    {
        match self.find(key) {
            Some(i) => {
                let ghost before = self.sessions@;
                let slot = self.sessions.remove(i);
                proof {
                    assert(before[i as int].buffer.wf());
                    assert(self@ =~= old(self)@.remove(i as int));
                }
                (Some(i), slot.buffer)
            },
            None => (None, SessionBuffer::new(now)),
        }
    }

    /// Put a session's buffer back where it was (at the end for a new
    /// session).
    fn put_back(&mut self, at: Option<usize>, key: u128, buffer: SessionBuffer<E>)
        requires
            buffer.wf(),
            match at {
                Some(i) => i <= old(self)@.len(),
                None => true,
            },
            forall|i: int|
                0 <= i < old(self).sessions@.len() ==> (#[trigger] old(self).sessions@[i]).buffer.wf(),
        ensures
            final(self)@ == match at {
                Some(i) => old(self)@.insert(i as int, (key, buffer@)),
                None => old(self)@.push((key, buffer@)),
            },
            forall|i: int|
                0 <= i < final(self).sessions@.len() ==> (#[trigger] final(self).sessions@[i]).buffer.wf(),
    {
        let slot = Slot { key, buffer };
        match at {
            Some(i) => {
                self.sessions.insert(i, slot);
                proof {
                    assert(self@ =~= old(self)@.insert(i as int, (key, slot.buffer@)));
                    assert forall|k: int| 0 <= k < self.sessions@.len() implies (
                    #[trigger] self.sessions@[k]).buffer.wf() by {
                        if k < i {
                            assert(self.sessions@[k] == old(self).sessions@[k]);
                        } else if k > i {
                            assert(self.sessions@[k] == old(self).sessions@[k - 1]);
                        }
                    }
                }
            },
            None => {
                self.sessions.push(slot);
                proof {
                    assert(self@ =~= old(self)@.push((key, slot.buffer@)));
                    assert forall|k: int| 0 <= k < self.sessions@.len() implies (
                    #[trigger] self.sessions@[k]).buffer.wf() by {
                        if k < old(self).sessions@.len() {
                            assert(self.sessions@[k] == old(self).sessions@[k]);
                        }
                    }
                }
            },
        }
    }
}

impl<E> ReplyBuffer<E> {
    /// Reinsert a session taken out with [`Self::take`], holding `es` now.
    proof fn lemma_reinsert(v: RegistryView<E>, key: u128, at: Option<usize>, es: Seq<(E, u64, usize)>, w: RegistryView<E>)
        requires
            keys_unique(v),
            v.len() <= usize::MAX,
            at == match index_from(v, key, 0) {
                Some(i) => Some(i as usize),
                None => None::<usize>,
            },
            at matches Some(i) ==> i < v.len() && w == v.remove(i as int).insert(i as int, (key, es)),
            at is None ==> w == v.push((key, es)),
        ensures
            w == with_session(v, key, es),
            keys_unique(w),
    {
        lemma_index_from(v, key, 0);
        match index_from(v, key, 0) {
            Some(j) => {
                assert(0 <= j < v.len());
                assert((j as usize) as int == j);
                assert(w =~= v.update(j, (key, es)));
            },
            None => {},
        }
        lemma_with_session_lookup(v, key, es, key);
    }

    /// Drop the expired events of every session, and the sessions left
    /// without events.
    pub fn sweep(&mut self, now: u64)
        requires
            old(self).wf(),
        ensures
            final(self).wf(),
            final(self)@ == swept(old(self)@, now),
    {
        let mut taken: Vec<Slot<E>> = Vec::new();
        std::mem::swap(&mut taken, &mut self.sessions);
        let ghost v = taken@.map_values(|s: Slot<E>| slot_view(s));
        let ghost all = taken@;
        let mut kept: Vec<Slot<E>> = Vec::new();
        let n = taken.len();
        let mut i: usize = 0;
        while i < n
            invariant
                i <= n,
                n == all.len(),
                taken@ == all.subrange(i as int, n as int),
                v == all.map_values(|s: Slot<E>| slot_view(s)),
                keys_unique(v),
                forall|k: int| 0 <= k < all.len() ==> (#[trigger] all[k]).buffer.wf(),
                kept@.map_values(|s: Slot<E>| slot_view(s)) == swept(v.take(i as int), now),
                forall|k: int| 0 <= k < kept@.len() ==> (#[trigger] kept@[k]).buffer.wf(),
            decreases n - i,
        {
            let mut slot = taken.remove(0);
            proof {
                assert(slot == all[i as int]);
                assert(taken@ =~= all.subrange(i + 1, n as int));
            }
            slot.buffer.evict_expired(now);
            proof {
                assert(v.take(i + 1).drop_last() =~= v.take(i as int));
                assert(v.take(i + 1).last() == slot_view(all[i as int]));
            }
            if slot.buffer.len() > 0 {
                let ghost before = kept@;
                kept.push(slot);
                proof {
                    assert(kept@.map_values(|s: Slot<E>| slot_view(s)) =~= before.map_values(
                        |s: Slot<E>| slot_view(s),
                    ).push(slot_view(slot)));
                    assert forall|k: int| 0 <= k < kept@.len() implies (#[trigger] kept@[k]).buffer.wf() by {
                        if k < before.len() {
                            assert(kept@[k] == before[k]);
                        }
                    }
                }
            }
            i = i + 1;
        }
        proof {
            assert(v.take(n as int) =~= v);
            lemma_swept_unique(v, now);
        }
        self.sessions = kept;
    }
}

impl<J: Clone, T: Clone> ReplyBuffer<WebEvent<J, T>> {
    /// Publish an event of session `key` at `now`: expired events are
    /// dropped; a copy of the event is appended when its kind must survive
    /// a publish nobody hears ([`should_buffer`]), charged `bytes` (the
    /// caller's estimate of its serialised size); then the event itself is
    /// handed to the session's channel, and the result of the send is
    /// returned. A session not yet tracked starts being tracked.
    pub fn publish(
        &mut self,
        key: u128,
        channel: &mut EventChannel<WebEvent<J, T>>,
        event: WebEvent<J, T>,
        bytes: usize,
        now: u64,
    ) -> (r: Result<usize, WebEvent<J, T>>)
        requires
            old(self).wf(),
        ensures
            final(self).wf(),
            exists|copy: WebEvent<J, T>|
                #[trigger] cloned(event, copy) && final(self)@ == with_session(
                    old(self)@,
                    key,
                    after_publish(old(self)@, key, copy, buffered_kind(kind_of(event)), bytes, now),
                ),
            final(channel)@ == old(channel)@.push(event),
            r matches Ok(n) ==> n >= 1,
            r matches Err(v) ==> v == event,
    {
        let buffered = should_buffer(event.kind());
        let _count = self.session_count();
        let ghost v = self@;
        let (at, mut buf) = self.take(key, now);
        buf.evict_expired(now);
        let ghost mut copy_g: WebEvent<J, T> = event;
        if buffered {
            let copy = event.clone();
            proof {
                copy_g = copy;
            }
            buf.push(copy, bytes, now);
        }
        let ghost es = buf@;
        self.put_back(at, key, buf);
        proof {
            Self::lemma_reinsert(v, key, at, es, self@);
            assert(cloned(event, copy_g));
        }
        channel_send(channel, event)
    }
}

impl<E: Clone> ReplyBuffer<E> {
    /// Reattach to session `key`: subscribe to its channel first, then hand out the
    /// unexpired events of the session, oldest first, and empty its buffer
    /// (a session not yet tracked starts being tracked). Every later publish
    /// reaches the receiver live and is no longer among the drained events.
    pub fn subscribe_and_drain(&mut self, key: u128, channel: &EventChannel<E>, now: u64) -> (r: (tokio::sync::broadcast::Receiver<E>, Vec<E>))
        requires
            old(self).wf(),
        ensures
            final(self).wf(),
            r.1@ == drained(old(self)@, key, now),
            final(self)@ == with_session(old(self)@, key, seq![]),
    {
        let rx = channel.subscribe();
        let _count = self.session_count();
        let ghost v = self@;
        let (at, mut buf) = self.take(key, now);
        buf.evict_expired(now);
        let out = buf.drain();
        let ghost es = buf@;
        self.put_back(at, key, buf);
        proof {
            Self::lemma_reinsert(v, key, at, es, self@);
        }
        (rx, out)
    }

    /// Copies of the unexpired events of session `key`, oldest first,
    /// dropping its expired ones; nothing (and no change) for a session not
    /// tracked.
    pub fn snapshot(&mut self, key: u128, now: u64) -> (r: Vec<E>)
        requires
            old(self).wf(),
        ensures
            final(self).wf(),
            match lookup(old(self)@, key) {
                None => r@.len() == 0 && final(self)@ == old(self)@,
                Some(es) => {
                    &&& final(self)@ == with_session(old(self)@, key, drop_expired(es, now))
                    &&& r@.len() == drop_expired(es, now).len()
                    &&& forall|i: int|
                        0 <= i < r@.len() ==> cloned::<E>(drop_expired(es, now)[i].0, #[trigger] r@[i])
                },
            },
    {
        if self.find(key).is_none() {
            return Vec::new();
        }
        let _count = self.session_count();
        let ghost v = self@;
        let (at, mut buf) = self.take(key, now);
        buf.evict_expired(now);
        let out = buf.events_cloned();
        let ghost es = buf@;
        self.put_back(at, key, buf);
        proof {
            Self::lemma_reinsert(v, key, at, es, self@);
        }
        out
    }
}

/// Sweeping keeps each session at most once.
proof fn lemma_swept_unique<E>(v: RegistryView<E>, now: u64)
    requires
        keys_unique(v),
    ensures
        keys_unique(swept(v, now)),
        forall|j: int|
            0 <= j < swept(v, now).len() ==> exists|k: int| 0 <= k < v.len() && v[k].0 == (#[trigger] swept(v, now)[j]).0,
    decreases v.len(),
{
    if v.len() > 0 {
        let rest = swept(v.drop_last(), now);
        assert(keys_unique(v.drop_last()));
        lemma_swept_unique(v.drop_last(), now);
        let es = drop_expired(v.last().1, now);
        if es.len() > 0 {
            let w = rest.push((v.last().0, es));
            assert forall|a: int, b: int| 0 <= a < b < w.len() implies w[a].0 != w[b].0 by {
                if b == rest.len() {
                    let k = choose|k: int| 0 <= k < v.drop_last().len() && v.drop_last()[k].0 == rest[a].0;
                    assert(v[k].0 == rest[a].0);
                    assert(v[v.len() - 1].0 == v.last().0);
                } else {
                    assert(w[a] == rest[a] && w[b] == rest[b]);
                }
            }
            assert forall|j: int| 0 <= j < w.len() implies exists|k: int|
                0 <= k < v.len() && v[k].0 == (#[trigger] w[j]).0 by {
                if j < rest.len() {
                    let k = choose|k: int| 0 <= k < v.drop_last().len() && v.drop_last()[k].0 == rest[j].0;
                    assert(v[k].0 == w[j].0);
                } else {
                    assert(v[v.len() - 1].0 == w[j].0);
                }
            }
        } else {
            assert forall|j: int| 0 <= j < rest.len() implies exists|k: int|
                0 <= k < v.len() && v[k].0 == (#[trigger] rest[j]).0 by {
                let k = choose|k: int| 0 <= k < v.drop_last().len() && v.drop_last()[k].0 == rest[j].0;
                assert(v[k].0 == rest[j].0);
            }
        }
    }
}

// ---------------------------------------------------------------------------
// Laws
// ---------------------------------------------------------------------------

/// Per-session isolation: a publish or a drain on one session leaves every
/// other session's events as they were.
pub proof fn law_sessions_are_isolated<E>(
    v: RegistryView<E>,
    key: u128,
    other: u128,
    event: E,
    buffered: bool,
    bytes: usize,
    now: u64,
)
    requires
        other != key,
    ensures
        lookup(with_session(v, key, after_publish(v, key, event, buffered, bytes, now)), other) == lookup(
            v,
            other,
        ),
        lookup(with_session(v, key, seq![]), other) == lookup(v, other),
{
    lemma_with_session_lookup(v, key, after_publish(v, key, event, buffered, bytes, now), other);
    lemma_with_session_lookup(v, key, seq![], other);
}

/// No double delivery: once drained, a session hands out nothing more until
/// something new is published.
pub proof fn law_drain_hands_out_once<E>(v: RegistryView<E>, key: u128, now: u64, later: u64)
    ensures
        drained(with_session(v, key, seq![]), key, later) == Seq::<E>::empty(),
{
    lemma_with_session_lookup(v, key, seq![], key);
    assert(drained(with_session(v, key, seq![]), key, later) =~= Seq::<E>::empty());
}

/// Dropping expired events from the front never drops an event that is
/// still live at the back.
proof fn lemma_drop_expired_keeps_last<E>(es: Seq<(E, u64, usize)>, x: (E, u64, usize), now: u64)
    requires
        !expired(x.1, now),
    ensures
        drop_expired(es.push(x), now).len() > 0,
        drop_expired(es.push(x), now).last() == x,
    decreases es.len(),
{
    if es.len() > 0 && expired(es[0].1, now) {
        assert(es.push(x).subrange(1, es.len() as int + 1) =~= es.subrange(1, es.len() as int).push(x));
        lemma_drop_expired_keeps_last(es.subrange(1, es.len() as int), x, now);
    } else if es.len() == 0 {
        assert(es.push(x)[0] == x);
    }
}

/// The event just published is the last one a drain at the same time hands
/// out: buffered events come out in publish order, newest last.
pub proof fn law_published_event_drains_last<E>(v: RegistryView<E>, key: u128, event: E, bytes: usize, now: u64)
    ensures
        ({
            let w = with_session(v, key, after_publish(v, key, event, true, bytes, now));
            drained(w, key, now).len() > 0 && drained(w, key, now).last() == event
        }),
{
    let es = after_publish(v, key, event, true, bytes, now);
    lemma_with_session_lookup(v, key, es, key);
    let kept = drop_expired(
        match lookup(v, key) {
            Some(e) => e,
            None => seq![],
        },
        now,
    );
    let room = make_room(kept, bytes);
    assert(es == room.push((event, now, bytes)));
    lemma_drop_expired_keeps_last(room, (event, now, bytes), now);
}

impl<E> ReplyBuffer<E> {
    /// A well-formed registry tracks each session once (so the sweep law
    /// applies to every registry the methods produce).
    pub proof fn law_sessions_tracked_once(&self)
        requires
            self.wf(),
        ensures
            keys_unique(self@),
    {
    }

    /// Hard memory bound: every session holds at most the event cap, and at
    /// most the byte cap unless a single event is larger by itself.
    pub proof fn law_within_caps(&self)
        requires
            self.wf(),
        ensures
            forall|i: int| 0 <= i < self@.len() ==> within_caps(#[trigger] self@[i].1),
    {
        assert forall|i: int| 0 <= i < self@.len() implies within_caps(#[trigger] self@[i].1) by {
            assert(self.sessions@[i].buffer.wf());
        }
    }
}

/// No double delivery: once a reattach has drained a session, an event
/// published afterwards is all that the next drain hands out (none of the
/// drained events come back); the same publish broadcasts it to the
/// receiver the reattach subscribed before draining.
pub proof fn law_no_double_deliver<E>(v: RegistryView<E>, key: u128, event: E, bytes: usize, later: u64)
    ensures
        ({
            let w = with_session(v, key, seq![]);
            let w2 = with_session(w, key, after_publish(w, key, event, true, bytes, later));
            drained(w2, key, later) == seq![event]
        }),
{
    let w = with_session(v, key, seq![]);
    lemma_with_session_lookup(v, key, seq![], key);
    let es = after_publish(w, key, event, true, bytes, later);
    assert(drop_expired(Seq::<(E, u64, usize)>::empty(), later) =~= Seq::<(E, u64, usize)>::empty());
    assert(make_room(Seq::<(E, u64, usize)>::empty(), bytes) =~= Seq::<(E, u64, usize)>::empty());
    assert(es =~= seq![(event, later, bytes)]);
    lemma_with_session_lookup(w, key, es, key);
    assert(!expired(later, later));
    assert(drop_expired(es, later) == es);
    assert(drained(with_session(w, key, es), key, later) =~= seq![event]);
}

/// Looking a key up after appending a session: an earlier entry wins.
proof fn lemma_index_push<E>(v: RegistryView<E>, x: (u128, Seq<(E, u64, usize)>), key: u128, i: int)
    requires
        0 <= i <= v.len(),
    ensures
        index_from(v.push(x), key, i) == match index_from(v, key, i) {
            Some(j) => Some(j),
            None => if x.0 == key {
                Some(v.len() as int)
            } else {
                None
            },
        },
    decreases v.len() - i,
{
    if i < v.len() {
        assert(v.push(x)[i] == v[i]);
        if v[i].0 != key {
            lemma_index_push(v, x, key, i + 1);
        }
    } else {
        assert(v.push(x)[i] == x);
        assert(index_from(v.push(x), key, i + 1) is None);
    }
}

/// A sweep keeps exactly the sessions that still hold an unexpired event,
/// with their expired events dropped; every other session is gone.
pub proof fn law_sweep_keeps_live_sessions<E>(v: RegistryView<E>, now: u64, key: u128)
    requires
        keys_unique(v),
    ensures
        lookup(swept(v, now), key) == match lookup(v, key) {
            Some(es) => if drop_expired(es, now).len() > 0 {
                Some(drop_expired(es, now))
            } else {
                None
            },
            None => None,
        },
    decreases v.len(),
{
    if v.len() > 0 {
        let u = v.drop_last();
        let x = v.last();
        assert(u.push(x) =~= v);
        assert(keys_unique(u));
        law_sweep_keeps_live_sessions(u, now, key);
        lemma_index_push(u, x, key, 0);
        lemma_index_from(u, key, 0);
        let rest = swept(u, now);
        let es = drop_expired(x.1, now);
        assert(lookup(v, key) == lookup(u.push(x), key));
        if let Some(j) = index_from(u, key, 0) {
            assert(u[j].0 == key);
            assert(v[j] == u[j]);
            assert(x.0 != key) by {
                assert(v[v.len() - 1] == x);
                assert(j < v.len() - 1);
            }
            assert(lookup(v, key) == Some(u[j].1));
        } else {
            assert(lookup(u, key) is None);
        }
        if es.len() > 0 {
            assert(swept(v, now) == rest.push((x.0, es)));
            lemma_index_push(rest, (x.0, es), key, 0);
            lemma_index_from(rest, key, 0);
            if let Some(k) = index_from(rest, key, 0) {
                assert(rest.push((x.0, es))[k] == rest[k]);
            } else {
                assert(rest.push((x.0, es))[rest.len() as int] == (x.0, es));
            }
        } else {
            assert(swept(v, now) == rest);
        }
    } else {
        assert(index_from(swept(v, now), key, 0) is None);
        assert(index_from(v, key, 0) is None);
    }
}

} // verus!
