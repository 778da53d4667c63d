//! Reply keyboard for Telegram: persistent buttons below the input field.
//!
//! Row 1 holds a context-usage gauge and the active model name, row 2 a
//! "New Session" quick action. Button presses arrive as ordinary text
//! messages; the `is_*_button` helpers recognise them so the adapter can
//! intercept them before ingesting.

use vstd::prelude::*;

use crate::text::{chars_of, push_seq, push_str, slice_of, starts_with, starts_with_exec, string_of};

verus! {

/// Label of the "New Session" button; detection compares against it exactly.
pub const NEW_SESSION_BUTTON: &'static str = "🆕 New Session";

/// Prefix of the context-usage button label.
pub const CONTEXT_BUTTON_PREFIX: &'static str = "📊 ";

/// Prefix of the model-name button label.
pub const MODEL_BUTTON_PREFIX: &'static str = "🤖 ";

/// Longest model name shown on the model button, in characters.
pub const MODEL_NAME_MAX_CHARS: usize = 25;

/// Label of the model button for `model`.
pub open spec fn model_button(model: Seq<char>) -> Seq<char> {
    let display = if model.len() <= MODEL_NAME_MAX_CHARS {
        model
    } else {
        model.take(MODEL_NAME_MAX_CHARS as int)
    };
    if display.len() == 0 {
        "🤖 (no model)"@
    } else {
        "🤖 "@ + display
    }
}

/// The model button label: the first [`MODEL_NAME_MAX_CHARS`] characters of
/// the model name after the robot prefix, or a placeholder when it is empty.
pub fn format_model_button(model: &str) -> (r: String)
    ensures
        r@ == model_button(model@),
{
    let m = chars_of(model);
    let display = if m.len() <= MODEL_NAME_MAX_CHARS {
        m
    } else {
        let d = slice_of(&m, 0, MODEL_NAME_MAX_CHARS);
        proof {
            assert(d@ =~= model@.take(MODEL_NAME_MAX_CHARS as int));
        }
        d
    };
    if display.len() == 0 {
        "🤖 (no model)".to_string()
    } else {
        let mut out: Vec<char> = Vec::new();
        push_str(&mut out, "🤖 ");
        push_seq(&mut out, &display);
        string_of(&out)
    }
}

/// Whether the message text is a press of the context-usage button.
pub fn is_context_button(text: &str) -> (r: bool)
    ensures
        r == starts_with(text@, "📊 "@),
{
    starts_with_exec(&chars_of(text), &chars_of("📊 "))
}

/// Whether the message text is a press of the model-name button.
pub fn is_model_button(text: &str) -> (r: bool)
    ensures
        r == starts_with(text@, "🤖 "@),
{
    starts_with_exec(&chars_of(text), &chars_of("🤖 "))
}

/// Whether the message text is exactly the "New Session" button label, so
/// free-form text that merely contains the phrase is not swallowed.
pub fn is_new_session_button(text: &str) -> (r: bool)
    ensures
        r == (text@ == "🆕 New Session"@),
{
    crate::text::str_eq(text, "🆕 New Session")
}

} // verus!
