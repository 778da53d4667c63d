use rara_channels::terminal::{cli_event_for, CliEvent, CliOutbound};
use rara_channels::telegram::prompts::RiskLevel;
use rara_channels::web::{
    bearer_token, decision_str, platform_outbound_to_web_event, risk_level_str,
    stream_event_to_web_event, ApprovalDecision, PendingApprovals, PlatformOutbound, SessionQuery,
    StreamEvent, TaskOutcome, WebEvent, audio_to_transcribe, voice_clip_text, VOICE_PLACEHOLDER,
    TRANSCRIPTION_FAILED_TEXT, audio_clips, with_transcripts, ContentBlock, MessageContent,
};
use serde_json::Value;
use rara_channels::web_reply_buffer::{should_buffer, WebEventKind};

#[test]
fn bearer_tokens() {
    assert_eq!(bearer_token(Some("Bearer abc")).as_deref(), Some("abc"));
    assert_eq!(bearer_token(Some("bearer abc")).as_deref(), Some("abc"));
    assert_eq!(bearer_token(Some("Bearer ")), None);
    assert_eq!(bearer_token(Some("Basic abc")), None);
    assert_eq!(bearer_token(None), None);
}

#[test]
fn session_query_holds_key_and_token() {
    let q = SessionQuery { session_key: "k".into(), token: Some("tok".into()) };
    assert_eq!(q.session_key, "k");
    assert_eq!(q.token.as_deref(), Some("tok"));
}

#[test]
fn outbound_messages_become_cli_events() {
    match cli_event_for(CliOutbound::StreamChunk { delta: "hi".into() }) {
        CliEvent::TextDelta { text } => assert_eq!(text, "hi"),
        other => panic!("unexpected {other:?}"),
    }
    match cli_event_for(CliOutbound::Reply { content: "done".into() }) {
        CliEvent::Reply { content } => assert_eq!(content, "done"),
        other => panic!("unexpected {other:?}"),
    }
}

#[test]
fn approval_frame_names() {
    assert_eq!(risk_level_str(RiskLevel::Low), "low");
    assert_eq!(risk_level_str(RiskLevel::Medium), "medium");
    assert_eq!(risk_level_str(RiskLevel::High), "high");
    assert_eq!(risk_level_str(RiskLevel::Critical), "critical");
    assert_eq!(decision_str(ApprovalDecision::Approved), "approved");
    assert_eq!(decision_str(ApprovalDecision::Denied), "denied");
    assert_eq!(decision_str(ApprovalDecision::TimedOut), "timed_out");
}

type Ev = StreamEvent<Value, String>;

fn map(e: Ev) -> Option<WebEvent<Value, String>> {
    stream_event_to_web_event(e)
}

#[test]
fn reasoning_deltas_are_not_forwarded_to_web_clients() {
    let event = StreamEvent::ReasoningDelta { text: "internal".to_owned() };
    assert!(map(event).is_none());
}

#[test]
fn text_deltas_still_reach_web_clients() {
    let event = StreamEvent::TextDelta { text: "hello".to_owned() };
    assert!(matches!(map(event), Some(WebEvent::TextDelta { text }) if text == "hello"));
}

#[test]
fn turn_rationale_is_forwarded_to_web_clients() {
    let event = StreamEvent::TurnRationale { text: "checking logs".to_owned() };
    assert!(matches!(map(event), Some(WebEvent::TurnRationale { text }) if text == "checking logs"));
}

#[test]
fn turn_usage_is_mapped_to_web_usage_event() {
    let event = StreamEvent::TurnUsage {
        input_tokens: 1_234,
        output_tokens: 56,
        total_tokens: 1_290,
        model: "gpt-5".to_owned(),
    };
    match map(event).expect("usage event") {
        WebEvent::Usage { input, output, cache_read, cache_write, total_tokens, model } => {
            assert_eq!(input, 1_234);
            assert_eq!(output, 56);
            assert_eq!(cache_read, 0);
            assert_eq!(cache_write, 0);
            assert_eq!(total_tokens, 1_290);
            assert_eq!(model, "gpt-5");
        }
        _ => panic!("unexpected event"),
    }
}

#[test]
fn web_event_user_message_appended_round_trip() {
    let event = StreamEvent::UserMessageAppended {
        parent_session: "0198a1b2-0000-7000-8000-000000000001".to_owned(),
        seq: 7,
        content: Value::String("hello world".to_owned()),
        created_at: "2026-01-01T00:00:00Z".to_owned(),
    };
    match map(event) {
        Some(WebEvent::UserMessageAppended { parent_session, seq, content, created_at }) => {
            assert_eq!(parent_session, "0198a1b2-0000-7000-8000-000000000001");
            assert_eq!(seq, 7);
            assert_eq!(content, Value::String("hello world".to_owned()));
            assert_eq!(created_at, "2026-01-01T00:00:00Z");
        }
        _ => panic!("unexpected event"),
    }
}

#[test]
fn platform_error_maps_to_web_error_frame() {
    let event: WebEvent<Value, String> = platform_outbound_to_web_event(PlatformOutbound::Error {
        message: "model rejected reasoning=minimal".to_owned(),
        category: None,
        upgrade_url: None,
    });
    match &event {
        WebEvent::Error { message, .. } => assert_eq!(message, "model rejected reasoning=minimal"),
        _ => panic!("expected WebEvent::Error"),
    }
}

#[test]
fn platform_error_carries_quota_category_and_upgrade_url() {
    let event: WebEvent<Value, String> = platform_outbound_to_web_event(PlatformOutbound::Error {
        message: "Kimi quota exceeded".to_owned(),
        category: Some("quota".to_owned()),
        upgrade_url: Some("https://www.kimi.com/code/console?from=quota-upgrade".to_owned()),
    });
    match event {
        WebEvent::Error { category, upgrade_url, .. } => {
            assert_eq!(category.as_deref(), Some("quota"));
            assert_eq!(upgrade_url.as_deref(), Some("https://www.kimi.com/code/console?from=quota-upgrade"));
        }
        _ => panic!("expected WebEvent::Error"),
    }
}

#[test]
fn other_stream_events_map_field_for_field() {
    assert!(map(StreamEvent::ToolCallLimit).is_none());
    assert!(map(StreamEvent::ToolOutput).is_none());
    assert!(matches!(map(StreamEvent::StreamClosed), Some(WebEvent::Done)));
    match map(StreamEvent::ToolCallStart { name: "bash".into(), id: "c1".into(), arguments: serde_json::from_str::<Value>("{\"cmd\": \"ls\"}").unwrap() }) {
        Some(WebEvent::ToolCallStart { name, id, arguments }) => {
            assert_eq!((name.as_str(), id.as_str()), ("bash", "c1"));
            assert_eq!(arguments, serde_json::from_str::<Value>("{\"cmd\": \"ls\"}").unwrap());
        }
        _ => panic!("unexpected event"),
    }
    match map(StreamEvent::BackgroundTaskDone { task_id: "t".into(), status: TaskOutcome::Failed }) {
        Some(e @ WebEvent::BackgroundTaskDone { .. }) => {
            assert!(should_buffer(e.kind()));
            assert!(matches!(e, WebEvent::BackgroundTaskDone { status: TaskOutcome::Failed, .. }));
        }
        _ => panic!("unexpected event"),
    }
}

#[test]
fn attachments_are_base64_encoded() {
    let cases: [(&[u8], &str); 4] = [(b"", ""), (b"f", "Zg=="), (b"fo", "Zm8="), (b"foobar", "Zm9vYmFy")];
    for (data, want) in cases {
        let e = map(StreamEvent::Attachment {
            tool_call_id: Some("c1".into()),
            mime_type: "image/png".into(),
            filename: None,
            data: data.to_vec(),
        });
        match e {
            Some(WebEvent::Attachment { tool_call_id, mime_type, filename, data_base64 }) => {
                assert_eq!(tool_call_id.as_deref(), Some("c1"));
                assert_eq!(mime_type, "image/png");
                assert_eq!(filename, None);
                assert_eq!(data_base64, want);
            }
            _ => panic!("unexpected event"),
        }
    }
    let bytes = map(StreamEvent::Attachment {
        tool_call_id: None,
        mime_type: "x".into(),
        filename: None,
        data: vec![0xfb, 0xff],
    });
    assert!(matches!(bytes, Some(WebEvent::Attachment { data_base64, .. }) if data_base64 == "+/8="));
}

#[test]
fn outbound_messages_become_web_events() {
    let reply: WebEvent<Value, String> = platform_outbound_to_web_event(PlatformOutbound::Reply { content: "done".into() });
    assert!(matches!(&reply, WebEvent::Message { content } if content == "done"));
    assert!(should_buffer(reply.kind()));
    let chunk: WebEvent<Value, String> = platform_outbound_to_web_event(PlatformOutbound::StreamChunk { delta: "d".into() });
    assert!(matches!(&chunk, WebEvent::TextDelta { text } if text == "d"));
    assert!(!should_buffer(chunk.kind()));
    let progress: WebEvent<Value, String> = platform_outbound_to_web_event(PlatformOutbound::Progress { text: "p".into() });
    assert!(matches!(&progress, WebEvent::Progress { stage } if stage == "p"));
    assert_eq!(progress.kind(), WebEventKind::Progress);
}

#[test]
fn approval_resolutions_reach_the_requesting_session_once() {
    let mut pending = PendingApprovals::new();
    pending.on_request(1, 100);
    pending.on_request(2, 200);
    assert_eq!(pending.on_resolution(2), Some(200));
    assert_eq!(pending.on_resolution(2), None);
    assert_eq!(pending.on_resolution(3), None);
    pending.on_request(1, 101);
    assert_eq!(pending.on_resolution(1), Some(101));
}

#[test]
fn voice_clips_decode_only_standard_base64() {
    assert_eq!(audio_to_transcribe("Zm9vYmFy", true), Some(b"foobar".to_vec()));
    assert_eq!(audio_to_transcribe("Zm9vYmFy", false), None);
    assert_eq!(audio_to_transcribe("Zm9vYmF", true), None);
    assert_eq!(audio_to_transcribe("Zg", true), None);
    assert_eq!(audio_to_transcribe("Zh==", true), None);
    assert_eq!(audio_to_transcribe("", true), Some(vec![]));
}

#[test]
fn voice_clip_texts() {
    assert_eq!(voice_clip_text(None), VOICE_PLACEHOLDER);
    assert_eq!(voice_clip_text(Some(Err("down".into()))), TRANSCRIPTION_FAILED_TEXT);
    assert_eq!(voice_clip_text(Some(Ok(String::new()))), "[voice message]");
    assert_eq!(voice_clip_text(Some(Ok("hello".into()))), "hello");
}

fn text_block(t: &str) -> ContentBlock<u8> {
    ContentBlock::Text { text: t.to_string() }
}

fn audio_block(d: &str) -> ContentBlock<u8> {
    ContentBlock::AudioBase64 { data: d.to_string(), media_type: "audio/ogg".to_string() }
}

#[test]
fn audio_clips_are_listed_in_order() {
    let blocks = vec![audio_block("QQ=="), text_block("a"), ContentBlock::Other(7u8), audio_block("Qg==")];
    assert_eq!(
        audio_clips(&blocks),
        vec![
            ("QQ==".to_string(), "audio/ogg".to_string()),
            ("Qg==".to_string(), "audio/ogg".to_string()),
        ]
    );
    assert!(audio_clips(&vec![text_block("a")]).is_empty());
}

#[test]
fn transcripts_replace_audio_blocks() {
    // Without audio the message is unchanged.
    match with_transcripts(vec![text_block("only")], vec![]) {
        MessageContent::Multimodal(v) => {
            assert_eq!(v.len(), 1);
            assert!(matches!(&v[0], ContentBlock::Text { text } if text == "only"));
        }
        MessageContent::Text(_) => panic!("a message without audio stays multimodal"),
    }
    // A lone voice clip becomes plain text.
    match with_transcripts(vec![audio_block("QQ==")], vec!["hi".to_string()]) {
        MessageContent::Text(t) => assert_eq!(t, "hi"),
        MessageContent::Multimodal(_) => panic!("a single transcript becomes plain text"),
    }
    // Mixed content keeps its order, each clip replaced by its transcript.
    match with_transcripts(
        vec![text_block("a"), audio_block("QQ=="), ContentBlock::Other(3u8), audio_block("Qg==")],
        vec!["one".to_string(), "two".to_string()],
    ) {
        MessageContent::Multimodal(v) => {
            assert_eq!(v.len(), 4);
            assert!(matches!(&v[0], ContentBlock::Text { text } if text == "a"));
            assert!(matches!(&v[1], ContentBlock::Text { text } if text == "one"));
            assert!(matches!(&v[2], ContentBlock::Other(3)));
            assert!(matches!(&v[3], ContentBlock::Text { text } if text == "two"));
        }
        MessageContent::Text(_) => panic!("mixed content stays multimodal"),
    }
}
