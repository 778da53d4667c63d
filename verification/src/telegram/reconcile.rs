//! What the progress bubble of a turn becomes when the kernel stream
//! closes: the salvaged reply (with an error footer when the turn failed),
//! the failure line alone, or a neutral marker.

use vstd::prelude::*;

use crate::text::{
    chars_of, decimal, push_decimal, push_seq, push_str, slice_of, string_of, trim, trim_exec,
};

verus! {

/// Why a turn failed.
#[derive(Debug, Clone, PartialEq, Eq)]
pub enum TurnFailureKind {
    /// The model returned reasoning but no content.
    EmptyContent { reasoning_len: u64 },
    /// The provider rejected the request.
    ProtocolError { code: String, message: String },
    /// The model ended the turn with neither content nor tool calls.
    EmptyTurn,
}

/// A turn failure that can be shown to the user.
#[derive(Debug, Clone, PartialEq, Eq)]
pub struct TurnFailureSummary {
    pub kind: TurnFailureKind,
}

/// The one-line rendering of a failure; provider messages are cut to 120
/// characters with an ellipsis.
pub open spec fn failure_line(f: TurnFailureSummary) -> Seq<char> {
    match f.kind {
        TurnFailureKind::EmptyContent { reasoning_len } => "⚠️ empty content from model (reasoning_len="@
            + decimal(reasoning_len as nat) + ")"@,
        TurnFailureKind::ProtocolError { code, message } => "⚠️ protocol error ["@ + code@ + "]: "@
            + (if message@.len() > 120 {
            message@.take(120) + "…"@
        } else {
            message@
        }),
        TurnFailureKind::EmptyTurn => "⚠️ model ended turn with no content and no tool calls"@,
    }
}

impl TurnFailureSummary {
    /// One-line user-facing rendering of the failure.
    pub fn render_line(&self) -> (r: String)
        ensures
            r@ == failure_line(*self),
    {
        let mut out: Vec<char> = Vec::new();
        match &self.kind {
            TurnFailureKind::EmptyContent { reasoning_len } => {
                push_str(&mut out, "⚠️ empty content from model (reasoning_len=");
                push_decimal(&mut out, *reasoning_len as u128);
                push_str(&mut out, ")");
            },
            TurnFailureKind::ProtocolError { code, message } => {
                push_str(&mut out, "⚠️ protocol error [");
                push_str(&mut out, code.as_str());
                push_str(&mut out, "]: ");
                let m = chars_of(message.as_str());
                if m.len() > 120 {
                    push_seq(&mut out, &slice_of(&m, 0, 120));
                    push_str(&mut out, "…");
                    proof {
                        assert(m@.subrange(0, 120) =~= m@.take(120));
                    }
                } else {
                    push_seq(&mut out, &m);
                }
            },
            TurnFailureKind::EmptyTurn => {
                push_str(&mut out, "⚠️ model ended turn with no content and no tool calls");
            },
        }
        proof {
            assert(out@ =~= failure_line(*self));
        }
        string_of(&out)
    }
}

/// How the progress bubble is finalised.
#[derive(Debug, Clone, PartialEq, Eq)]
pub enum TerminalOutcome {
    /// Show the salvaged reply, with the failure as a footer when there was
    /// one.
    Content { body: String, error_footer: Option<String> },
    /// No content and a failure: show the failure line.
    Error { line: String },
    /// No content and no failure: show a neutral marker.
    Neutral { line: String },
}

/// Placeholder shown when a turn ends with neither content nor failure.
pub const NEUTRAL_EMPTY_MARKER: &'static str = "(no reply)";

/// The outcome for the accumulated text and the failure of a turn, if any:
/// content that is not only white space always wins, with the failure as
/// its footer; without content the failure line, else the neutral marker.
pub open spec fn terminal_outcome_ok(
    r: TerminalOutcome,
    accumulated: Seq<char>,
    failure: Option<TurnFailureSummary>,
) -> bool {
    if trim(accumulated).len() > 0 {
        r matches TerminalOutcome::Content { body, error_footer } && body@ == accumulated && match failure {
            Some(f) => error_footer matches Some(l) && l@ == failure_line(f),
            None => error_footer is None,
        }
    } else {
        match failure {
            Some(f) => r matches TerminalOutcome::Error { line } && line@ == failure_line(f),
            None => r matches TerminalOutcome::Neutral { line } && line@ == "(no reply)"@,
        }
    }
}

/// Decide how to reconcile the progress bubble at stream close.
pub fn reconcile_terminal_state(accumulated: &str, turn_error: Option<&TurnFailureSummary>) -> (r:
    TerminalOutcome)
    ensures
        terminal_outcome_ok(
            r,
            accumulated@,
            match turn_error {
                Some(f) => Some(*f),
                None => None,
            },
        ),
{
    let has_content = trim_exec(&chars_of(accumulated)).len() > 0;
    if has_content {
        match turn_error {
            None => TerminalOutcome::Content { body: accumulated.to_string(), error_footer: None },
            Some(err) => TerminalOutcome::Content {
                body: accumulated.to_string(),
                error_footer: Some(err.render_line()),
            },
        }
    } else {
        match turn_error {
            Some(err) => TerminalOutcome::Error { line: err.render_line() },
            None => TerminalOutcome::Neutral { line: NEUTRAL_EMPTY_MARKER.to_string() },
        }
    }
}

} // verus!
