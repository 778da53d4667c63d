//! Events the terminal channel hands to the CLI REPL.

use vstd::prelude::*;

verus! {

/// Events emitted by the terminal adapter for the CLI REPL to render.
#[derive(Debug, Clone)]
pub enum CliEvent {
    /// A complete reply from the agent.
    Reply { content: String },
    /// Incremental text output from the model.
    TextDelta { text: String },
    /// Incremental reasoning text.
    ReasoningDelta { text: String },
    /// A tool call has started.
    ToolCallStart { name: String },
    /// A tool call has finished.
    ToolCallEnd,
    /// Progress stage update.
    Progress { text: String },
    /// Error notification.
    Error { message: String },
    /// Stream completed.
    Done,
}

/// An outbound message of the kernel for a CLI endpoint.
pub enum CliOutbound {
    /// A complete reply.
    Reply { content: String },
    /// A chunk of a streamed reply.
    StreamChunk { delta: String },
    /// A progress note.
    Progress { text: String },
}

/// The REPL event an outbound message becomes.
pub fn cli_event_for(msg: CliOutbound) -> (r: CliEvent)
    ensures
        match msg {
            CliOutbound::Reply { content } => r matches CliEvent::Reply { content: c } && c@ == content@,
            CliOutbound::StreamChunk { delta } => r matches CliEvent::TextDelta { text } && text@ == delta@,
            CliOutbound::Progress { text } => r matches CliEvent::Progress { text: t } && t@ == text@,
        },
{
    match msg {
        CliOutbound::Reply { content } => CliEvent::Reply { content },
        CliOutbound::StreamChunk { delta } => CliEvent::TextDelta { text: delta },
        CliOutbound::Progress { text } => CliEvent::Progress { text },
    }
}

} // verus!
