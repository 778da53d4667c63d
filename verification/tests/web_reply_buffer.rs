use rara_channels::web::WebEvent;
use rara_channels::web_reply_buffer::{
    should_buffer, EventChannel, ReplyBuffer, SessionBuffer, WebEventKind, CAPACITY_BYTES,
    CAPACITY_EVENTS, TTL_MS,
};
use serde_json::Value;
use tokio::sync::broadcast;

type Ev = WebEvent<Value, String>;

fn msg(s: &str) -> Ev {
    WebEvent::Message { content: s.to_owned() }
}

fn contents(events: Vec<Ev>) -> Vec<String> {
    events
        .into_iter()
        .map(|e| match e {
            WebEvent::Message { content } => content,
            WebEvent::TextDelta { text } => format!("delta:{text}"),
            _ => "other".to_owned(),
        })
        .collect()
}

fn channel() -> (EventChannel<Ev>, broadcast::Receiver<Ev>) {
    let (tx, rx) = broadcast::channel::<Ev>(16);
    (EventChannel::new(tx), rx)
}

fn publish(buf: &mut ReplyBuffer<Ev>, ch: &mut EventChannel<Ev>, key: u128, text: &str, now: u64) {
    let _ = buf.publish(key, ch, msg(text), text.len(), now);
}

#[test]
fn streaming_events_are_not_buffered() {
    assert!(!should_buffer(WebEventKind::TextDelta));
    assert!(!should_buffer(WebEventKind::ReasoningDelta));
    let mut buf: ReplyBuffer<Ev> = ReplyBuffer::new();
    let (mut ch, mut rx) = channel();
    let _ = buf.publish(1, &mut ch, WebEvent::TextDelta { text: "x".to_owned() }, 1, 0);
    assert!(buf.snapshot(1, 0).is_empty());
    // It still goes out live.
    assert_eq!(contents(vec![rx.try_recv().unwrap()]), vec!["delta:x".to_owned()]);
}

#[test]
fn important_events_are_buffered() {
    assert!(should_buffer(WebEventKind::Message));
    assert!(should_buffer(WebEventKind::Error));
    assert!(should_buffer(WebEventKind::BackgroundTaskDone));
    assert!(should_buffer(WebEventKind::Progress));
    let mut buf: ReplyBuffer<Ev> = ReplyBuffer::new();
    let (mut ch, _rx) = channel();
    let _ = buf.publish(1, &mut ch, WebEvent::Progress { stage: "p".to_owned() }, 1, 0);
    assert_eq!(buf.snapshot(1, 0).len(), 1);
}

#[test]
fn append_then_snapshot_returns_events_in_order() {
    let mut buf = ReplyBuffer::new();
    let (mut ch, _rx) = channel();
    publish(&mut buf, &mut ch, 7, "first", 0);
    publish(&mut buf, &mut ch, 7, "second", 1);
    let snap = contents(buf.snapshot(7, 2));
    assert_eq!(snap, vec!["first".to_owned(), "second".to_owned()]);
}

#[test]
fn subscribe_and_drain_clears_buffer() {
    let mut buf = ReplyBuffer::new();
    let (mut ch, _rx) = channel();
    publish(&mut buf, &mut ch, 7, "a", 0);
    publish(&mut buf, &mut ch, 7, "b", 0);
    let drained = buf.subscribe_and_drain(7, &ch, 0).1;
    assert_eq!(drained.len(), 2);
    let drained2 = buf.subscribe_and_drain(7, &ch, 0).1;
    assert!(drained2.is_empty());
}

#[test]
fn per_session_isolation() {
    let mut buf = ReplyBuffer::new();
    let (mut ch1, _rx1) = channel();
    let (mut ch2, _rx2) = channel();
    publish(&mut buf, &mut ch1, 1, "for-1", 0);
    publish(&mut buf, &mut ch2, 2, "for-2", 0);
    let drained_s2 = contents(buf.subscribe_and_drain(2, &ch2, 0).1);
    assert_eq!(drained_s2, vec!["for-2".to_owned()]);
    assert_eq!(buf.snapshot(1, 0).len(), 1);
}

#[test]
fn sweep_drops_empty_sessions() {
    let mut buf = ReplyBuffer::new();
    let (mut ch, _rx) = channel();
    publish(&mut buf, &mut ch, 3, "x", 0);
    let _ = buf.subscribe_and_drain(3, &ch, 0).1;
    assert_eq!(buf.session_count(), 1);
    buf.sweep(0);
    assert_eq!(buf.session_count(), 0);
}

#[test]
fn no_double_deliver_after_drain() {
    // Mid-flight: subscribe_and_drain, then publish. The receiver sees the
    // new event once, live; the drained list never holds it.
    let mut buf = ReplyBuffer::new();
    let (mut ch, _rx) = channel();
    publish(&mut buf, &mut ch, 4, "buffered", 0);

    let (mut rx, drained) = buf.subscribe_and_drain(4, &ch, 0);
    assert_eq!(contents(drained), vec!["buffered".to_owned()]);

    publish(&mut buf, &mut ch, 4, "after-drain", 1);
    let live = rx.try_recv().expect("receive new event");
    match live {
        WebEvent::Message { content } => assert_eq!(content, "after-drain"),
        _ => panic!("unexpected event"),
    }
    // No second copy queued for the same receiver.
    assert!(rx.try_recv().is_err());
    // A later reattach gets only what came after the first drain.
    assert_eq!(contents(buf.subscribe_and_drain(4, &ch, 1).1), vec!["after-drain".to_owned()]);
}

#[test]
fn publish_reports_the_send() {
    let mut buf: ReplyBuffer<Ev> = ReplyBuffer::new();
    let (mut ch, rx) = channel();
    assert_eq!(buf.publish(1, &mut ch, msg("a"), 1, 0).ok(), Some(1));
    drop(rx);
    match buf.publish(1, &mut ch, msg("b"), 1, 0) {
        Err(e) => assert_eq!(contents(vec![e]), vec!["b".to_owned()]),
        Ok(_) => panic!("no receiver is left"),
    }
    assert_eq!(contents(buf.snapshot(1, 0)), vec!["a".to_owned(), "b".to_owned()]);
}

#[test]
fn expired_events_are_dropped() {
    let mut buf = ReplyBuffer::new();
    let (mut ch, _rx) = channel();
    publish(&mut buf, &mut ch, 5, "old", 0);
    publish(&mut buf, &mut ch, 5, "new", TTL_MS);
    assert_eq!(buf.snapshot(5, TTL_MS).len(), 2);
    assert_eq!(contents(buf.snapshot(5, TTL_MS + 1)), vec!["new".to_owned()]);
    buf.sweep(2 * TTL_MS + 1);
    assert_eq!(buf.session_count(), 0);
    assert!(buf.snapshot(5, 0).is_empty());
}

#[test]
fn event_cap_evicts_oldest() {
    let mut buf: SessionBuffer<u32> = SessionBuffer::new(0);
    for i in 0..(CAPACITY_EVENTS as u32 + 3) {
        buf.push(i, 1, 0);
    }
    assert_eq!(buf.len(), CAPACITY_EVENTS);
    let events = buf.drain();
    assert_eq!(events[0], 3);
    assert_eq!(*events.last().unwrap(), CAPACITY_EVENTS as u32 + 2);
    assert_eq!(buf.len(), 0);
}

#[test]
fn byte_cap_evicts_oldest_but_keeps_oversized_event() {
    let mut buf: SessionBuffer<u32> = SessionBuffer::new(0);
    buf.push(1, CAPACITY_BYTES / 2, 0);
    buf.push(2, CAPACITY_BYTES / 2, 0);
    buf.push(3, 1, 0);
    assert_eq!(buf.drain(), vec![2, 3]);
    buf.push(4, CAPACITY_BYTES + 10, 0);
    assert_eq!(buf.len(), 1);
    buf.push(5, 1, 0);
    assert_eq!(buf.drain(), vec![5]);
}
