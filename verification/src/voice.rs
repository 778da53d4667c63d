//! Voice transcription post-processing.
//!
//! Every transcription is annotated with a hint so the downstream model
//! knows the text came from speech recognition and may contain errors. An
//! optional pass asks a fast model to fix obvious recognition mistakes; its
//! failure never blocks the message.

use vstd::prelude::*;

use crate::text::{chars_of, push_str, string_of};

verus! {

/// Prefix prepended to every voice transcription.
pub const VOICE_ANNOTATION_PREFIX: &'static str = "[Voice transcription — may contain errors, interpret by context]";

/// The annotated form of a transcription: the prefix, a newline, the text.
pub open spec fn annotated(text: Seq<char>) -> Seq<char> {
    "[Voice transcription — may contain errors, interpret by context]"@ + seq!['\n'] + text
}

/// Annotate a transcribed text with the voice-transcription hint.
pub fn annotate_voice(text: &str) -> (r: String)
    ensures
        r@ == annotated(text@),
{
    let mut out: Vec<char> = Vec::new();
    push_str(&mut out, "[Voice transcription — may contain errors, interpret by context]");
    out.push('\n');
    push_str(&mut out, text);
    string_of(&out)
}

/// The system prompt of the correction pass.
pub const CORRECTION_SYSTEM_PROMPT: &'static str = "You are a transcription error corrector. Fix obvious speech recognition mistakes. Output only the corrected text.";

/// The reply limit of the correction pass, in tokens.
pub const CORRECTION_MAX_TOKENS: u32 = 4096;

/// The user message of the correction pass: the instruction, a blank line,
/// the transcription.
pub open spec fn correction_message(text: Seq<char>) -> Seq<char> {
    "Correct any transcription errors in the following voice message. Preserve the original meaning. Only fix obvious mistakes. Output the corrected text only, no explanation."@
        + "\n\n"@ + text
}

/// Builds the user message of the correction pass.
pub fn correction_prompt(text: &str) -> (r: String)
    ensures
        r@ == correction_message(text@),
{
    let mut out: Vec<char> = Vec::new();
    push_str(
        &mut out,
        "Correct any transcription errors in the following voice message. Preserve the original meaning. Only fix obvious mistakes. Output the corrected text only, no explanation.",
    );
    push_str(&mut out, "\n\n");
    push_str(&mut out, text);
    string_of(&out)
}

/// Whether the correction pass runs: the configuration is there and
/// enabled, and a model registry is available.
pub fn correction_runs(enabled: Option<bool>, has_registry: bool) -> (r: bool)
    ensures
        r == (enabled == Some(true) && has_registry),
{
    match enabled {
        Some(true) => has_registry,
        _ => false,
    }
}

/// How the correction pass went.
pub enum CorrectionOutcome {
    /// It did not run, or no model could be resolved.
    Skipped,
    /// The model call failed.
    Failed,
    /// The model answered, with or without text.
    Replied(Option<String>),
}

/// The text delivered after the correction pass: the model's text when it
/// gave one, the transcription unchanged otherwise.
pub fn corrected_text(text: &str, outcome: CorrectionOutcome) -> (r: String)
    ensures
        r@ == match outcome {
            CorrectionOutcome::Replied(Some(c)) => c@,
            _ => text@,
        },
{
    match outcome {
        CorrectionOutcome::Replied(Some(c)) => c,
        _ => text.to_string(),
    }
}

} // verus!
