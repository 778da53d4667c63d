use rara_channels::voice::{
    annotate_voice, corrected_text, correction_prompt, correction_runs, CorrectionOutcome,
    VOICE_ANNOTATION_PREFIX,
};

#[test]
fn annotation_format() {
    let result = annotate_voice("hello world");
    assert!(result.starts_with(VOICE_ANNOTATION_PREFIX));
    assert!(result.ends_with("hello world"));
    let expected = format!("{VOICE_ANNOTATION_PREFIX}\nhello world");
    assert_eq!(result, expected);
}

#[test]
fn annotation_preserves_multiline() {
    let input = "line one\nline two";
    let result = annotate_voice(input);
    assert_eq!(result, format!("{VOICE_ANNOTATION_PREFIX}\nline one\nline two"));
}

#[test]
fn correction_prompt_wraps_the_transcription() {
    assert_eq!(
        correction_prompt("helo wrld"),
        "Correct any transcription errors in the following voice message. Preserve the original meaning. Only fix obvious mistakes. Output the corrected text only, no explanation.\n\nhelo wrld"
    );
}

#[test]
fn correction_runs_only_when_enabled_with_a_registry() {
    assert!(correction_runs(Some(true), true));
    assert!(!correction_runs(Some(true), false));
    assert!(!correction_runs(Some(false), true));
    assert!(!correction_runs(None, true));
}

#[test]
fn correction_falls_back_to_the_transcription() {
    assert_eq!(corrected_text("raw", CorrectionOutcome::Replied(Some("fixed".to_string()))), "fixed");
    assert_eq!(corrected_text("raw", CorrectionOutcome::Replied(None)), "raw");
    assert_eq!(corrected_text("raw", CorrectionOutcome::Failed), "raw");
    assert_eq!(corrected_text("raw", CorrectionOutcome::Skipped), "raw");
}

/// Runs the correction pass as `maybe_correct` does, where the model (when
/// the pass runs) would answer `reply`.
fn maybe_correct(text: &str, enabled: Option<bool>, has_registry: bool, reply: Option<&str>) -> String {
    let outcome = if correction_runs(enabled, has_registry) {
        CorrectionOutcome::Replied(reply.map(str::to_owned))
    } else {
        CorrectionOutcome::Skipped
    };
    corrected_text(text, outcome)
}

#[test]
fn correction_disabled_returns_original() {
    let text = "some text";
    // No correction config.
    assert_eq!(maybe_correct(text, None, false, Some("other")), text);
    // Config present but disabled.
    assert_eq!(maybe_correct(text, Some(false), false, Some("other")), text);
}

#[test]
fn correction_enabled_no_registry_returns_original() {
    assert_eq!(maybe_correct("raw text", Some(true), false, Some("other")), "raw text");
}
