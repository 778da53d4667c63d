//! Telegram bot commands: what each command and inline-keyboard callback
//! answers, given the data the backend returned.
//!
//! The handlers of the bot fetch data from the backend service and hand it
//! to the functions here, which decide the reply.

pub mod admin;
pub mod anchor_dot;
pub mod basic;
pub mod anchor_mode;
pub mod callbacks;
pub mod debug;
pub mod client;
pub mod job;
pub mod mcp;
pub mod ops;
pub mod session;
pub mod session_flow;
pub mod status;
pub mod tape;

use vstd::prelude::*;

verus! {

/// One inline keyboard button: a callback button or a URL button.
pub struct InlineButton {
    pub text: String,
    pub callback_data: Option<String>,
    pub url: Option<String>,
}

/// The view of a button: `(text, callback data, url)`.
pub type ButtonView = (Seq<char>, Option<Seq<char>>, Option<Seq<char>>);

/// The view of a button.
pub open spec fn button_view(b: InlineButton) -> ButtonView {
    (b.text@, crate::text::opt_view(b.callback_data), crate::text::opt_view(b.url))
}

/// The view of a keyboard row.
pub open spec fn row_view(r: Vec<InlineButton>) -> Seq<ButtonView> {
    r@.map_values(|b: InlineButton| button_view(b))
}

/// The view of a keyboard.
pub open spec fn keyboard_view(k: Seq<Vec<InlineButton>>) -> Seq<Seq<ButtonView>> {
    k.map_values(|r: Vec<InlineButton>| row_view(r))
}

/// A callback button.
pub fn callback_button(text: String, data: String) -> (r: InlineButton)
    ensures
        button_view(r) == (text@, Some(data@), None::<Seq<char>>),
{
    InlineButton { text, callback_data: Some(data), url: None }
}

/// The reply of a slash command.
pub enum CommandReply {
    /// Plain text.
    Text(String),
    /// HTML text.
    Html(String),
    /// HTML text with an inline keyboard.
    HtmlWithKeyboard { html: String, keyboard: Vec<Vec<InlineButton>> },
    /// A photo with an optional caption.
    Photo { data: Vec<u8>, caption: Option<String> },
    /// Nothing to send.
    Nothing,
}

/// The reply to an inline keyboard callback.
pub enum CallbackReply {
    /// Send a new message.
    SendMessage { text: String },
    /// Edit the message that carried the keyboard.
    EditMessage { text: String },
    /// Send a new message with an inline keyboard.
    SendMessageWithKeyboard { text: String, keyboard: Vec<Vec<InlineButton>> },
}

} // verus!
