//! The logic of the rara chat channels (Telegram, Web and terminal),
//! verified: Markdown and LaTeX rendering for Telegram, message chunking,
//! tool-call display, the streaming and progress state machines of a turn,
//! callback and command routing, the replies of the bot commands, the
//! per-session reply buffer of the Web channel, and the small parsers and
//! formatters the adapters rely on.

pub mod text;
pub mod tool_display;
pub mod voice;
pub mod telegram;
pub mod terminal;
pub mod web;
pub mod web_reply_buffer;
