//! Request parameters and authentication of the Web channel.

use std::collections::HashMap;

use vstd::prelude::*;

use crate::telegram::prompts::RiskLevel;
use crate::web_reply_buffer::{buffered_kind, WebEventKind};
use crate::text::{chars_of, slice_of, starts_with, string_of};

verus! {

/// Query parameters of the per-session WebSocket endpoint. Identity is not
/// carried here: it comes from the owner-token authentication.
pub struct SessionQuery {
    pub session_key: String,
    /// Owner token for browser WebSocket upgrades that cannot set an
    /// `Authorization` header; the header is preferred when both are given.
    pub token: Option<String>,
}

/// The token of an `Authorization` header value: what follows `Bearer ` (or
/// `bearer `), when that is not empty.
pub open spec fn bearer_of(value: Seq<char>) -> Option<Seq<char>> {
    if starts_with(value, "Bearer "@) && value.len() > 7 {
        Some(value.skip(7))
    } else if starts_with(value, "bearer "@) && value.len() > 7 {
        Some(value.skip(7))
    } else {
        None
    }
}

/// Extract a Bearer token from the value of an `Authorization` header:
/// only strict `Bearer <token>` (or `bearer <token>`) values with a
/// non-empty token count; `None` when there is no (readable) header.
pub fn bearer_token(authorization: Option<&str>) -> (r: Option<String>)
    ensures
        match authorization {
            None => r is None,
            Some(v) => crate::text::opt_view(r) == bearer_of(v@),
        },
{
    let v = match authorization {
        Some(v) => chars_of(v),
        None => return None,
    };
    proof {
        reveal_strlit("Bearer ");
        reveal_strlit("bearer ");
    }
    let upper = chars_of("Bearer ");
    let lower = chars_of("bearer ");
    if (crate::text::starts_with_exec(&v, &upper) || crate::text::starts_with_exec(&v, &lower)) && v.len() > 7 {
        let t = slice_of(&v, 7, v.len());
        proof {
            assert(t@ =~= v@.skip(7));
        }
        Some(string_of(&t))
    } else {
        None
    }
}

/// How an approval request ended.
#[derive(Debug, Clone, Copy, PartialEq, Eq, Structural)]
pub enum ApprovalDecision {
    Approved,
    Denied,
    TimedOut,
}

/// The name of a risk level in the Web channel's approval frames.
pub fn risk_level_str(level: RiskLevel) -> (s: &'static str)
    ensures
        s@ == match level {
            RiskLevel::Low => "low"@,
            RiskLevel::Medium => "medium"@,
            RiskLevel::High => "high"@,
            RiskLevel::Critical => "critical"@,
        },
{
    match level {
        RiskLevel::Low => "low",
        RiskLevel::Medium => "medium",
        RiskLevel::High => "high",
        RiskLevel::Critical => "critical",
    }
}

/// The name of an approval decision in the Web channel's resolution frames.
pub fn decision_str(decision: ApprovalDecision) -> (s: &'static str)
    ensures
        s@ == match decision {
            ApprovalDecision::Approved => "approved"@,
            ApprovalDecision::Denied => "denied"@,
            ApprovalDecision::TimedOut => "timed_out"@,
        },
{
    match decision {
        ApprovalDecision::Approved => "approved",
        ApprovalDecision::Denied => "denied",
        ApprovalDecision::TimedOut => "timed_out",
    }
}

// ---------------------------------------------------------------------------
// Events for the browser
// ---------------------------------------------------------------------------

/// Status of a plan step.
#[derive(Debug, Clone, Copy, PartialEq, Eq, Structural)]
pub enum PlanStepState {
    Running,
    Done,
    Failed,
    NeedsReplan,
}

/// Final status of a background task.
#[derive(Debug, Clone, Copy, PartialEq, Eq, Structural)]
pub enum TaskOutcome {
    Completed,
    Failed,
    Cancelled,
}

/// An event of an agent's output stream. `J` is the type of JSON values
/// (tool arguments, message content) and `T` that of timestamps; both are
/// carried through untouched. Session keys arrive as their text.
pub enum StreamEvent<J, T> {
    TextDelta { text: String },
    ReasoningDelta { text: String },
    TextClear,
    TurnRationale { text: String },
    ToolCallStart { name: String, id: String, arguments: J },
    ToolCallEnd { id: String, result_preview: String, success: bool, error: Option<String> },
    Progress { stage: String },
    TurnMetrics { duration_ms: u64, iterations: usize, tool_calls: usize, model: String },
    PlanCreated {
        goal: String,
        total_steps: usize,
        compact_summary: String,
        estimated_duration_secs: Option<u32>,
    },
    PlanProgress { current_step: usize, total_steps: usize, step_status: PlanStepState, status_text: String },
    PlanReplan { reason: String },
    PlanCompleted { summary: String },
    UsageUpdate,
    TurnStarted,
    TurnUsage { input_tokens: u32, output_tokens: u32, total_tokens: u32, model: String },
    BackgroundTaskStarted { task_id: String, agent_name: String, description: String },
    BackgroundTaskDone { task_id: String, status: TaskOutcome },
    ToolCallLimit,
    ToolCallLimitResolved,
    LoopBreakerTriggered,
    ToolOutput,
    TraceReady { trace_id: String },
    Attachment { tool_call_id: Option<String>, mime_type: String, filename: Option<String>, data: Vec<u8> },
    StreamClosed,
    SubagentSpawned { parent_session: String, child_session: String, manifest_name: String },
    SubagentDone { parent_session: String, child_session: String, success: bool },
    TapeForked {
        parent_session: String,
        forked_from: String,
        child_tape: String,
        forked_at_anchor: Option<String>,
    },
    UserMessageAppended { parent_session: String, seq: i64, content: J, created_at: T },
}

/// An event sent to the browser over the Web channel. Its usage event
/// carries no cost: the cost is reported as zero and priced by the client.
#[derive(Debug, Clone)]
pub enum WebEvent<J, T> {
    Message { content: String },
    Typing,
    Phase { phase: String },
    Error { message: String, category: Option<String>, upgrade_url: Option<String> },
    TextDelta { text: String },
    ReasoningDelta { text: String },
    TextClear,
    ToolCallStart { name: String, id: String, arguments: J },
    ToolCallEnd { id: String, result_preview: String, success: bool, error: Option<String> },
    TurnRationale { text: String },
    Progress { stage: String },
    TurnMetrics { duration_ms: u64, iterations: usize, tool_calls: usize, model: String },
    Usage { input: u32, output: u32, cache_read: u32, cache_write: u32, total_tokens: u32, model: String },
    PlanCreated {
        goal: String,
        total_steps: usize,
        compact_summary: String,
        estimated_duration_secs: Option<u32>,
    },
    PlanProgress { current_step: usize, total_steps: usize, step_status: PlanStepState, status_text: String },
    PlanReplan { reason: String },
    PlanCompleted { summary: String },
    BackgroundTaskStarted { task_id: String, agent_name: String, description: String },
    BackgroundTaskDone { task_id: String, status: TaskOutcome },
    TraceReady { trace_id: String },
    Attachment {
        tool_call_id: Option<String>,
        mime_type: String,
        filename: Option<String>,
        data_base64: String,
    },
    ApprovalRequested {
        id: String,
        tool_name: String,
        summary: String,
        risk_level: String,
        requested_at: String,
        timeout_secs: u64,
    },
    ApprovalResolved { id: String, decision: String },
    Done,
    Hello,
    SubagentSpawned { parent_session: String, child_session: String, manifest_name: String },
    SubagentDone { parent_session: String, child_session: String, success: bool },
    TapeForked {
        parent_session: String,
        forked_from: String,
        child_tape: String,
        forked_at_anchor: Option<String>,
    },
    UserMessageAppended { parent_session: String, seq: i64, content: J, created_at: T },
    TapeAppended { entry_id: u64, role: Option<String>, timestamp: String },
}

/// The kind of a Web event.
pub open spec fn kind_of<J, T>(e: WebEvent<J, T>) -> WebEventKind {
    match e {
        WebEvent::Message { .. } => WebEventKind::Message,
        WebEvent::Typing => WebEventKind::Typing,
        WebEvent::Phase { .. } => WebEventKind::Phase,
        WebEvent::Error { .. } => WebEventKind::Error,
        WebEvent::TextDelta { .. } => WebEventKind::TextDelta,
        WebEvent::ReasoningDelta { .. } => WebEventKind::ReasoningDelta,
        WebEvent::TextClear => WebEventKind::TextClear,
        WebEvent::ToolCallStart { .. } => WebEventKind::ToolCallStart,
        WebEvent::ToolCallEnd { .. } => WebEventKind::ToolCallEnd,
        WebEvent::TurnRationale { .. } => WebEventKind::TurnRationale,
        WebEvent::Progress { .. } => WebEventKind::Progress,
        WebEvent::TurnMetrics { .. } => WebEventKind::TurnMetrics,
        WebEvent::Usage { .. } => WebEventKind::Usage,
        WebEvent::PlanCreated { .. } => WebEventKind::PlanCreated,
        WebEvent::PlanProgress { .. } => WebEventKind::PlanProgress,
        WebEvent::PlanReplan { .. } => WebEventKind::PlanReplan,
        WebEvent::PlanCompleted { .. } => WebEventKind::PlanCompleted,
        WebEvent::BackgroundTaskStarted { .. } => WebEventKind::BackgroundTaskStarted,
        WebEvent::BackgroundTaskDone { .. } => WebEventKind::BackgroundTaskDone,
        WebEvent::TraceReady { .. } => WebEventKind::TraceReady,
        WebEvent::Attachment { .. } => WebEventKind::Attachment,
        WebEvent::ApprovalRequested { .. } => WebEventKind::ApprovalRequested,
        WebEvent::ApprovalResolved { .. } => WebEventKind::ApprovalResolved,
        WebEvent::Done => WebEventKind::Done,
        WebEvent::Hello => WebEventKind::Hello,
        WebEvent::SubagentSpawned { .. } => WebEventKind::SubagentSpawned,
        WebEvent::SubagentDone { .. } => WebEventKind::SubagentDone,
        WebEvent::TapeForked { .. } => WebEventKind::TapeForked,
        WebEvent::UserMessageAppended { .. } => WebEventKind::UserMessageAppended,
        WebEvent::TapeAppended { .. } => WebEventKind::TapeAppended,
    }
}

impl<J, T> WebEvent<J, T> {
    /// The kind of this event.
    pub fn kind(&self) -> (k: WebEventKind)
        ensures
            k == kind_of(*self),
    {
        match self {
            WebEvent::Message { .. } => WebEventKind::Message,
            WebEvent::Typing => WebEventKind::Typing,
            WebEvent::Phase { .. } => WebEventKind::Phase,
            WebEvent::Error { .. } => WebEventKind::Error,
            WebEvent::TextDelta { .. } => WebEventKind::TextDelta,
            WebEvent::ReasoningDelta { .. } => WebEventKind::ReasoningDelta,
            WebEvent::TextClear => WebEventKind::TextClear,
            WebEvent::ToolCallStart { .. } => WebEventKind::ToolCallStart,
            WebEvent::ToolCallEnd { .. } => WebEventKind::ToolCallEnd,
            WebEvent::TurnRationale { .. } => WebEventKind::TurnRationale,
            WebEvent::Progress { .. } => WebEventKind::Progress,
            WebEvent::TurnMetrics { .. } => WebEventKind::TurnMetrics,
            WebEvent::Usage { .. } => WebEventKind::Usage,
            WebEvent::PlanCreated { .. } => WebEventKind::PlanCreated,
            WebEvent::PlanProgress { .. } => WebEventKind::PlanProgress,
            WebEvent::PlanReplan { .. } => WebEventKind::PlanReplan,
            WebEvent::PlanCompleted { .. } => WebEventKind::PlanCompleted,
            WebEvent::BackgroundTaskStarted { .. } => WebEventKind::BackgroundTaskStarted,
            WebEvent::BackgroundTaskDone { .. } => WebEventKind::BackgroundTaskDone,
            WebEvent::TraceReady { .. } => WebEventKind::TraceReady,
            WebEvent::Attachment { .. } => WebEventKind::Attachment,
            WebEvent::ApprovalRequested { .. } => WebEventKind::ApprovalRequested,
            WebEvent::ApprovalResolved { .. } => WebEventKind::ApprovalResolved,
            WebEvent::Done => WebEventKind::Done,
            WebEvent::Hello => WebEventKind::Hello,
            WebEvent::SubagentSpawned { .. } => WebEventKind::SubagentSpawned,
            WebEvent::SubagentDone { .. } => WebEventKind::SubagentDone,
            WebEvent::TapeForked { .. } => WebEventKind::TapeForked,
            WebEvent::UserMessageAppended { .. } => WebEventKind::UserMessageAppended,
            WebEvent::TapeAppended { .. } => WebEventKind::TapeAppended,
        }
    }
}

/// The character of a base64 digit (standard alphabet).
pub open spec fn b64_char(v: int) -> char {
    if v < 26 {
        (65 + v) as char
    } else if v < 52 {
        (97 + v - 26) as char
    } else if v < 62 {
        (48 + v - 52) as char
    } else if v == 62 {
        '+'
    } else {
        '/'
    }
}

/// Standard base64 with padding: each group of three bytes becomes four
/// digits; a final group of one or two bytes is padded with `=`.
pub open spec fn base64_of(d: Seq<u8>) -> Seq<char>
    decreases d.len(),
{
    if d.len() == 0 {
        seq![]
    } else if d.len() == 1 {
        let a = d[0] as int;
        seq![b64_char(a / 4), b64_char((a % 4) * 16), '=', '=']
    } else if d.len() == 2 {
        let (a, b) = (d[0] as int, d[1] as int);
        seq![b64_char(a / 4), b64_char((a % 4) * 16 + b / 16), b64_char((b % 16) * 4), '=']
    } else {
        let (a, b, c) = (d[0] as int, d[1] as int, d[2] as int);
        seq![
            b64_char(a / 4),
            b64_char((a % 4) * 16 + b / 16),
            b64_char((b % 16) * 4 + c / 64),
            b64_char(c % 64),
        ] + base64_of(d.skip(3))
    }
}

/// `base64::engine::general_purpose::STANDARD.encode`: standard alphabet
/// with padding. The contract claims exactly [`base64_of`]; the crate
/// panics only when the encoded length overflows `usize`, which `requires`
/// excludes.
#[verifier::external_body]
fn encode_base64(data: &Vec<u8>) -> (r: String)
    requires
        data@.len() < usize::MAX / 2,
    ensures
        r@ == base64_of(data@),
{
    base64::Engine::encode(&base64::engine::general_purpose::STANDARD, data)
}

/// `base64::engine::general_purpose::STANDARD.decode`. That engine
/// requires canonical padding and no stray trailing bits, so (per the
/// crate's source) it accepts exactly the texts that are the standard
/// encoding of some bytes, and gives back those bytes: the contract says so
/// in terms of [`base64_of`].
#[verifier::external_body]
fn decode_base64(s: &str) -> (r: Option<Vec<u8>>)
    ensures
        r matches Some(b) ==> base64_of(b@) == s@,
        r is None ==> forall|b: Seq<u8>| #[trigger] base64_of(b) != s@,
{
    base64::Engine::decode(&base64::engine::general_purpose::STANDARD, s).ok()
}

/// What stands for a voice message that could not be transcribed.
pub const VOICE_PLACEHOLDER: &'static str = "[voice message]";

/// What stands for a voice message whose transcription failed.
pub const TRANSCRIPTION_FAILED_TEXT: &'static str = "[voice message — transcription failed]";

/// The audio bytes of a base64 voice clip to hand to speech-to-text: none
/// without a speech-to-text service, or when the text is not standard
/// base64 (the message then reads [`VOICE_PLACEHOLDER`]).
pub fn audio_to_transcribe(data_b64: &str, stt_available: bool) -> (r: Option<Vec<u8>>)
    ensures
        !stt_available ==> r is None,
        stt_available ==> (r matches Some(b) ==> base64_of(b@) == data_b64@),
        stt_available ==> (r is None ==> forall|b: Seq<u8>| #[trigger] base64_of(b) != data_b64@),
{
    if !stt_available {
        return None;
    }
    decode_base64(data_b64)
}

/// The text a voice clip becomes, given what speech-to-text answered:
/// `None` when it was not asked (see [`audio_to_transcribe`]), else its
/// transcript or its failure. An empty transcript also reads
/// [`VOICE_PLACEHOLDER`].
pub fn voice_clip_text(outcome: Option<Result<String, String>>) -> (r: String)
    ensures
        r@ == match outcome {
            None => VOICE_PLACEHOLDER@,
            Some(Err(_)) => TRANSCRIPTION_FAILED_TEXT@,
            Some(Ok(t)) => if t@.len() == 0 {
                VOICE_PLACEHOLDER@
            } else {
                t@
            },
        },
{
    match outcome {
        None => VOICE_PLACEHOLDER.to_string(),
        Some(Err(_)) => TRANSCRIPTION_FAILED_TEXT.to_string(),
        Some(Ok(t)) => {
            if chars_of(t.as_str()).len() == 0 {
                VOICE_PLACEHOLDER.to_string()
            } else {
                t
            }
        },
    }
}

/// A block of a multimodal message; `O` stands for the kinds the Web
/// channel passes through untouched (images and the like).
pub enum ContentBlock<O> {
    Text { text: String },
    AudioBase64 { data: String, media_type: String },
    Other(O),
}

/// The content of an inbound message.
pub enum MessageContent<O> {
    Text(String),
    Multimodal(Vec<ContentBlock<O>>),
}

/// The number of audio blocks.
pub open spec fn audio_count<O>(bs: Seq<ContentBlock<O>>) -> nat
    decreases bs.len(),
{
    if bs.len() == 0 {
        0
    } else if bs.last() is AudioBase64 {
        audio_count(bs.drop_last()) + 1
    } else {
        audio_count(bs.drop_last())
    }
}

/// The audio clips of the blocks, in order: `(base64 data, media type)`.
pub open spec fn audio_clips_of<O>(bs: Seq<ContentBlock<O>>) -> Seq<(Seq<char>, Seq<char>)>
    decreases bs.len(),
{
    if bs.len() == 0 {
        seq![]
    } else {
        match bs.last() {
            ContentBlock::AudioBase64 { data, media_type } => audio_clips_of(bs.drop_last()).push(
                (data@, media_type@),
            ),
            _ => audio_clips_of(bs.drop_last()),
        }
    }
}

/// The blocks with each audio block replaced, in order, by a text block
/// holding the next of `ts`.
pub open spec fn with_texts<O>(bs: Seq<ContentBlock<O>>, ts: Seq<String>) -> Seq<ContentBlock<O>>
    decreases bs.len(),
{
    if bs.len() == 0 {
        seq![]
    } else if bs.last() is AudioBase64 {
        with_texts(bs.drop_last(), ts.drop_last()).push(ContentBlock::Text { text: ts.last() })
    } else {
        with_texts(bs.drop_last(), ts).push(bs.last())
    }
}

/// The audio clips of a multimodal message, in order, for speech-to-text.
pub fn audio_clips<O>(blocks: &Vec<ContentBlock<O>>) -> (r: Vec<(String, String)>)
    ensures
        r@.map_values(|c: (String, String)| (c.0@, c.1@)) == audio_clips_of(blocks@),
{
    let mut out: Vec<(String, String)> = Vec::new();
    let n = blocks.len();
    for i in 0..n
        invariant
            n == blocks@.len(),
            out@.map_values(|c: (String, String)| (c.0@, c.1@)) == audio_clips_of(blocks@.take(i as int)),
    {
        proof {
            assert(blocks@.take(i + 1).drop_last() =~= blocks@.take(i as int));
            assert(blocks@.take(i + 1).last() == blocks@[i as int]);
        }
        match &blocks[i] {
            ContentBlock::AudioBase64 { data, media_type } => {
                let ghost before = out@;
                out.push((data.clone(), media_type.clone()));
                proof {
                    assert(out@.map_values(|c: (String, String)| (c.0@, c.1@)) =~= before.map_values(
                        |c: (String, String)| (c.0@, c.1@),
                    ).push((data@, media_type@)));
                }
            },
            _ => {},
        }
    }
    proof {
        assert(blocks@.take(n as int) =~= blocks@);
    }
    out
}

/// The message a multimodal message becomes once its clips are
/// transcribed (`texts`, one per audio block, in order; see
/// [`voice_clip_text`]): without audio it is unchanged; otherwise each audio
/// block becomes a text block, and a message left with a single text block
/// becomes plain text.
pub fn with_transcripts<O>(blocks: Vec<ContentBlock<O>>, texts: Vec<String>) -> (r: MessageContent<O>)
    requires
        texts@.len() == audio_count(blocks@),
    ensures
        audio_count(blocks@) == 0 ==> (r matches MessageContent::Multimodal(v) && v@ == blocks@),
        audio_count(blocks@) > 0 ==> {
            let out = with_texts(blocks@, texts@);
            if out.len() == 1 && out[0] is Text {
                r == MessageContent::<O>::Text(out[0]->text)
            } else {
                (r matches MessageContent::Multimodal(v) && v@ == out)
            }
        },
{
    let ghost all = blocks@;
    let ghost all_texts = texts@;
    if texts.len() == 0 {
        return MessageContent::Multimodal(blocks);
    }
    let mut bs = blocks;
    let mut ts = texts;
    let mut out: Vec<ContentBlock<O>> = Vec::new();
    while bs.len() > 0
        invariant
            ts@.len() == audio_count(bs@),
            with_texts(bs@, ts@) + out@ == with_texts(all, all_texts),
        decreases bs.len(),
    {
        let ghost b0 = bs@;
        let ghost t0 = ts@;
        let b = bs.pop().unwrap();
        proof {
            assert(bs@ == b0.drop_last());
            assert(b == b0.last());
        }
        match b {
            ContentBlock::AudioBase64 { .. } => {
                let t = ts.pop().unwrap();
                proof {
                    assert(ts@ == t0.drop_last());
                }
                let ghost o = out@;
                out.insert(0, ContentBlock::Text { text: t });
                proof {
                    assert(out@ =~= seq![ContentBlock::<O>::Text { text: t }] + o);
                    assert(with_texts(b0, t0) == with_texts(bs@, ts@).push(ContentBlock::Text { text: t }));
                    assert(with_texts(bs@, ts@) + out@ =~= with_texts(b0, t0) + o);
                }
            },
            other => {
                let ghost o = out@;
                proof {
                    assert(other == b0.last());
                }
                out.insert(0, other);
                proof {
                    assert(out@ =~= seq![b0.last()] + o);
                    assert(with_texts(b0, t0) == with_texts(bs@, ts@).push(b0.last()));
                    assert(with_texts(bs@, ts@) + out@ =~= with_texts(b0, t0) + o);
                }
            },
        }
    }
    proof {
        assert(with_texts(bs@, ts@) =~= Seq::<ContentBlock<O>>::empty());
        assert(out@ =~= with_texts(all, all_texts));
    }
    if out.len() == 1 {
        let only = out.pop().unwrap();
        match only {
            ContentBlock::Text { text } => {
                return MessageContent::Text(text);
            },
            other => {
                out.push(other);
            },
        }
    }
    MessageContent::Multimodal(out)
}

/// The Web event a stream event becomes, fields moved unchanged; none for
/// the events the browser does not see (reasoning, live usage and turn
/// starts, tool-call limits and loop breakers, live tool output). Turn usage
/// becomes `Usage` with zero cache counts; the end of the stream becomes the
/// per-turn `Done`. An attachment (whose bytes are encoded) is stated
/// apart, in [`stream_event_to_web_event`].
pub open spec fn web_event_of<J, T>(e: StreamEvent<J, T>) -> Option<WebEvent<J, T>> {
    match e {
        StreamEvent::TextDelta { text } => Some(WebEvent::TextDelta { text }),
        StreamEvent::ReasoningDelta { .. } => None,
        StreamEvent::TextClear => Some(WebEvent::TextClear),
        StreamEvent::TurnRationale { text } => Some(WebEvent::TurnRationale { text }),
        StreamEvent::ToolCallStart { name, id, arguments } => Some(WebEvent::ToolCallStart { name, id, arguments }),
        StreamEvent::ToolCallEnd { id, result_preview, success, error } => Some(
            WebEvent::ToolCallEnd { id, result_preview, success, error },
        ),
        StreamEvent::Progress { stage } => Some(WebEvent::Progress { stage }),
        StreamEvent::TurnMetrics { duration_ms, iterations, tool_calls, model } => Some(
            WebEvent::TurnMetrics { duration_ms, iterations, tool_calls, model },
        ),
        StreamEvent::PlanCreated { goal, total_steps, compact_summary, estimated_duration_secs } => Some(
            WebEvent::PlanCreated { goal, total_steps, compact_summary, estimated_duration_secs },
        ),
        StreamEvent::PlanProgress { current_step, total_steps, step_status, status_text } => Some(
            WebEvent::PlanProgress { current_step, total_steps, step_status, status_text },
        ),
        StreamEvent::PlanReplan { reason } => Some(WebEvent::PlanReplan { reason }),
        StreamEvent::PlanCompleted { summary } => Some(WebEvent::PlanCompleted { summary }),
        StreamEvent::UsageUpdate => None,
        StreamEvent::TurnStarted => None,
        StreamEvent::TurnUsage { input_tokens, output_tokens, total_tokens, model } => Some(
            WebEvent::Usage {
                input: input_tokens,
                output: output_tokens,
                cache_read: 0,
                cache_write: 0,
                total_tokens,
                model,
            },
        ),
        StreamEvent::BackgroundTaskStarted { task_id, agent_name, description } => Some(
            WebEvent::BackgroundTaskStarted { task_id, agent_name, description },
        ),
        StreamEvent::BackgroundTaskDone { task_id, status } => Some(WebEvent::BackgroundTaskDone { task_id, status }),
        StreamEvent::ToolCallLimit => None,
        StreamEvent::ToolCallLimitResolved => None,
        StreamEvent::LoopBreakerTriggered => None,
        StreamEvent::ToolOutput => None,
        StreamEvent::TraceReady { trace_id } => Some(WebEvent::TraceReady { trace_id }),
        StreamEvent::Attachment { .. } => None,
        StreamEvent::StreamClosed => Some(WebEvent::Done),
        StreamEvent::SubagentSpawned { parent_session, child_session, manifest_name } => Some(
            WebEvent::SubagentSpawned { parent_session, child_session, manifest_name },
        ),
        StreamEvent::SubagentDone { parent_session, child_session, success } => Some(
            WebEvent::SubagentDone { parent_session, child_session, success },
        ),
        StreamEvent::TapeForked { parent_session, forked_from, child_tape, forked_at_anchor } => Some(
            WebEvent::TapeForked { parent_session, forked_from, child_tape, forked_at_anchor },
        ),
        StreamEvent::UserMessageAppended { parent_session, seq, content, created_at } => Some(
            WebEvent::UserMessageAppended { parent_session, seq, content, created_at },
        ),
    }
}

/// Whether a stream event can be mapped: an attachment's encoding must fit
/// in memory.
pub open spec fn mappable<J, T>(e: StreamEvent<J, T>) -> bool {
    e matches StreamEvent::Attachment { data, .. } ==> data@.len() < usize::MAX / 2
}

/// Map a stream event to the Web event the browser sees, if any.
pub fn stream_event_to_web_event<J, T>(event: StreamEvent<J, T>) -> (r: Option<WebEvent<J, T>>)
    requires
        mappable(event),
    ensures
        match event {
            StreamEvent::Attachment { tool_call_id, mime_type, filename, data } => r matches Some(
                WebEvent::Attachment { tool_call_id: t, mime_type: m, filename: f, data_base64: d },
            ) && t == tool_call_id && m == mime_type && f == filename && d@ == base64_of(data@),
            _ => r == web_event_of(event),
        },
{
    match event {
        StreamEvent::TextDelta { text } => Some(WebEvent::TextDelta { text }),
        StreamEvent::ReasoningDelta { .. } => None,
        StreamEvent::TextClear => Some(WebEvent::TextClear),
        StreamEvent::TurnRationale { text } => Some(WebEvent::TurnRationale { text }),
        StreamEvent::ToolCallStart { name, id, arguments } => Some(WebEvent::ToolCallStart { name, id, arguments }),
        StreamEvent::ToolCallEnd { id, result_preview, success, error } => Some(
            WebEvent::ToolCallEnd { id, result_preview, success, error },
        ),
        StreamEvent::Progress { stage } => Some(WebEvent::Progress { stage }),
        StreamEvent::TurnMetrics { duration_ms, iterations, tool_calls, model } => Some(
            WebEvent::TurnMetrics { duration_ms, iterations, tool_calls, model },
        ),
        StreamEvent::PlanCreated { goal, total_steps, compact_summary, estimated_duration_secs } => Some(
            WebEvent::PlanCreated { goal, total_steps, compact_summary, estimated_duration_secs },
        ),
        StreamEvent::PlanProgress { current_step, total_steps, step_status, status_text } => Some(
            WebEvent::PlanProgress { current_step, total_steps, step_status, status_text },
        ),
        StreamEvent::PlanReplan { reason } => Some(WebEvent::PlanReplan { reason }),
        StreamEvent::PlanCompleted { summary } => Some(WebEvent::PlanCompleted { summary }),
        StreamEvent::UsageUpdate => None,
        StreamEvent::TurnStarted => None,
        StreamEvent::TurnUsage { input_tokens, output_tokens, total_tokens, model } => Some(
            WebEvent::Usage {
                input: input_tokens,
                output: output_tokens,
                cache_read: 0,
                cache_write: 0,
                total_tokens,
                model,
            },
        ),
        StreamEvent::BackgroundTaskStarted { task_id, agent_name, description } => Some(
            WebEvent::BackgroundTaskStarted { task_id, agent_name, description },
        ),
        StreamEvent::BackgroundTaskDone { task_id, status } => Some(WebEvent::BackgroundTaskDone { task_id, status }),
        StreamEvent::ToolCallLimit => None,
        StreamEvent::ToolCallLimitResolved => None,
        StreamEvent::LoopBreakerTriggered => None,
        StreamEvent::ToolOutput => None,
        StreamEvent::TraceReady { trace_id } => Some(WebEvent::TraceReady { trace_id }),
        StreamEvent::Attachment { tool_call_id, mime_type, filename, data } => {
            let data_base64 = encode_base64(&data);
            Some(WebEvent::Attachment { tool_call_id, mime_type, filename, data_base64 })
        },
        StreamEvent::StreamClosed => Some(WebEvent::Done),
        StreamEvent::SubagentSpawned { parent_session, child_session, manifest_name } => Some(
            WebEvent::SubagentSpawned { parent_session, child_session, manifest_name },
        ),
        StreamEvent::SubagentDone { parent_session, child_session, success } => Some(
            WebEvent::SubagentDone { parent_session, child_session, success },
        ),
        StreamEvent::TapeForked { parent_session, forked_from, child_tape, forked_at_anchor } => Some(
            WebEvent::TapeForked { parent_session, forked_from, child_tape, forked_at_anchor },
        ),
        StreamEvent::UserMessageAppended { parent_session, seq, content, created_at } => Some(
            WebEvent::UserMessageAppended { parent_session, seq, content, created_at },
        ),
    }
}

/// The browser sees every stream event but seven: reasoning, live usage,
/// turn starts, tool-call limits and their resolution, loop breakers and
/// live tool output. (An attachment is always forwarded, encoded: see
/// [`stream_event_to_web_event`].) The end of the stream is the per-turn
/// `Done`.
pub proof fn law_dropped_stream_events<J, T>(e: StreamEvent<J, T>)
    ensures
        !(e is Attachment) ==> (web_event_of(e) is None <==> (e is ReasoningDelta || e is UsageUpdate
            || e is TurnStarted || e is ToolCallLimit || e is ToolCallLimitResolved
            || e is LoopBreakerTriggered || e is ToolOutput)),
        e is StreamClosed ==> web_event_of(e) == Some(WebEvent::<J, T>::Done),
{
}

/// An outbound platform message, as far as the Web channel reads it.
pub enum PlatformOutbound {
    Reply { content: String },
    StreamChunk { delta: String },
    Progress { text: String },
    Error { message: String, category: Option<String>, upgrade_url: Option<String> },
}

/// The Web event an outbound platform message becomes: a reply is a
/// `Message`, a stream chunk a `TextDelta`, progress a `Progress` stage and
/// an error an `Error` with its category and upgrade link; fields are moved
/// unchanged.
pub open spec fn outbound_event_of<J, T>(msg: PlatformOutbound) -> WebEvent<J, T> {
    match msg {
        PlatformOutbound::Reply { content } => WebEvent::Message { content },
        PlatformOutbound::StreamChunk { delta } => WebEvent::TextDelta { text: delta },
        PlatformOutbound::Progress { text } => WebEvent::Progress { stage: text },
        PlatformOutbound::Error { message, category, upgrade_url } => WebEvent::Error { message, category, upgrade_url },
    }
}

/// Map an outbound platform message to its Web event.
pub fn platform_outbound_to_web_event<J, T>(msg: PlatformOutbound) -> (r: WebEvent<J, T>)
    ensures
        r == outbound_event_of::<J, T>(msg),
{
    match msg {
        PlatformOutbound::Reply { content } => WebEvent::Message { content },
        PlatformOutbound::StreamChunk { delta } => WebEvent::TextDelta { text: delta },
        PlatformOutbound::Progress { text } => WebEvent::Progress { stage: text },
        PlatformOutbound::Error { message, category, upgrade_url } => WebEvent::Error { message, category, upgrade_url },
    }
}

/// Final replies, errors and progress sent to the Web channel, and finished
/// background tasks from the agent's stream, are kept for a client that
/// reattaches; streamed text chunks are not.
pub proof fn law_final_events_are_buffered<J, T>(msg: PlatformOutbound, e: StreamEvent<J, T>)
    ensures
        buffered_kind(kind_of(outbound_event_of::<J, T>(msg))) <==> !(msg is StreamChunk),
        e is BackgroundTaskDone ==> (web_event_of(e) matches Some(w) && buffered_kind(kind_of(w))),
        e is TextDelta ==> (web_event_of(e) matches Some(w) && !buffered_kind(kind_of(w))),
{
}

// ---------------------------------------------------------------------------
// Approval requests and their resolutions
// ---------------------------------------------------------------------------

/// The session of each approval request that awaits its resolution, so a
/// resolution (which names only the request) reaches the session that saw
/// the request. Requests and sessions are UUIDs, as 128-bit values.
pub struct PendingApprovals {
    sessions: HashMap<u128, u128>,
}

impl View for PendingApprovals {
    type V = Map<u128, u128>;

    closed spec fn view(&self) -> Map<u128, u128> {
        self.sessions@
    }
}

impl PendingApprovals {
    /// No request pending.
    pub fn new() -> (r: Self)
        ensures
            r@ == Map::<u128, u128>::empty(),
    {
        PendingApprovals { sessions: HashMap::new() }
    }

    /// A request was raised in `session`: remember where it came from.
    pub fn on_request(&mut self, request_id: u128, session: u128)
        ensures
            final(self)@ == old(self)@.insert(request_id, session),
    {
        broadcast use vstd::std_specs::hash::group_hash_axioms;
        self.sessions.insert(request_id, session);
    }

    /// A request was resolved: the session to tell, and the request is
    /// forgotten; none for a request raised before anyone listened.
    pub fn on_resolution(&mut self, request_id: u128) -> (r: Option<u128>)
        ensures
            r == (if old(self)@.contains_key(request_id) {
                Some(old(self)@[request_id])
            } else {
                None
            }),
            final(self)@ == old(self)@.remove(request_id),
    {
        broadcast use vstd::std_specs::hash::group_hash_axioms;
        self.sessions.remove(&request_id)
    }
}

/// A resolution reaches the session its request was raised in, and only
/// once: after it the request is no longer pending.
pub proof fn law_resolution_reaches_its_session_once(pending: Map<u128, u128>, request_id: u128, session: u128)
    ensures
        pending.insert(request_id, session).contains_key(request_id),
        pending.insert(request_id, session)[request_id] == session,
        !pending.insert(request_id, session).remove(request_id).contains_key(request_id),
{
}

} // verus!
