use rara_channels::telegram::reconcile::{
    reconcile_terminal_state, TerminalOutcome, TurnFailureKind, TurnFailureSummary,
    NEUTRAL_EMPTY_MARKER,
};

fn err_empty(reasoning_len: u64) -> TurnFailureSummary {
    TurnFailureSummary { kind: TurnFailureKind::EmptyContent { reasoning_len } }
}

fn err_protocol(code: &str, message: &str) -> TurnFailureSummary {
    TurnFailureSummary {
        kind: TurnFailureKind::ProtocolError { code: code.to_owned(), message: message.to_owned() },
    }
}

fn err_empty_turn() -> TurnFailureSummary {
    TurnFailureSummary { kind: TurnFailureKind::EmptyTurn }
}

#[test]
fn reconcile_content_without_error_renders_content_no_footer() {
    let outcome = reconcile_terminal_state("hello world", None);
    assert_eq!(
        outcome,
        TerminalOutcome::Content { body: "hello world".to_owned(), error_footer: None }
    );
}

#[test]
fn reconcile_content_with_error_prefers_content_and_adds_footer() {
    let err = err_protocol("2013", "invalid message role: system");
    let outcome = reconcile_terminal_state("partial reply", Some(&err));
    match outcome {
        TerminalOutcome::Content { body, error_footer } => {
            assert_eq!(body, "partial reply");
            let footer = error_footer.expect("footer present");
            assert!(footer.contains("2013"), "footer={footer}");
            assert!(footer.contains("invalid message role"), "footer={footer}");
        }
        other => panic!("expected Content, got {other:?}"),
    }
}

#[test]
fn reconcile_empty_content_with_empty_content_error_renders_error_line() {
    let err = err_empty(1234);
    let outcome = reconcile_terminal_state("", Some(&err));
    match outcome {
        TerminalOutcome::Error { line } => {
            assert!(line.contains("reasoning_len=1234"), "line={line}");
            assert!(line.contains("empty content"), "line={line}");
        }
        other => panic!("expected Error, got {other:?}"),
    }
}

#[test]
fn reconcile_empty_content_with_empty_turn_error_renders_error_line() {
    let err = err_empty_turn();
    let outcome = reconcile_terminal_state("   \n\t  ", Some(&err));
    match outcome {
        TerminalOutcome::Error { line } => {
            assert!(line.contains("no content"), "line={line}");
        }
        other => panic!("expected Error, got {other:?}"),
    }
}

#[test]
fn reconcile_empty_content_without_error_renders_neutral_marker() {
    let outcome = reconcile_terminal_state("", None);
    assert_eq!(outcome, TerminalOutcome::Neutral { line: NEUTRAL_EMPTY_MARKER.to_owned() });
}

#[test]
fn reconcile_whitespace_only_content_treated_as_empty() {
    let outcome = reconcile_terminal_state("\n  \t\n", None);
    assert!(matches!(outcome, TerminalOutcome::Neutral { .. }));
}

#[test]
fn render_line_truncates_long_protocol_messages() {
    let long_msg = "x".repeat(500);
    let err = err_protocol("9999", &long_msg);
    let line = err.render_line();
    assert!(line.contains("\u{2026}"), "expected ellipsis in {line}");
    assert!(line.len() < 300, "line too long: {}", line.len());
}

#[test]
fn render_line_exact_forms() {
    assert_eq!(
        err_empty(7).render_line(),
        "\u{26a0}\u{fe0f} empty content from model (reasoning_len=7)"
    );
    assert_eq!(
        err_protocol("400", "bad").render_line(),
        "\u{26a0}\u{fe0f} protocol error [400]: bad"
    );
    let exactly = "y".repeat(120);
    assert!(!err_protocol("1", &exactly).render_line().contains('\u{2026}'));
}
