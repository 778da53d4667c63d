//! Telegram-specific rendering and parsing.

pub mod adapter;
pub mod latex;
pub mod markdown;
pub mod pinned_status;
pub mod progress;
pub mod reconcile;
pub mod commands;
pub mod dashboard;
pub mod reply_keyboard;
pub mod stream;
pub mod progress_message;
pub mod inline_callbacks;
pub mod link;
pub mod loading_hints;
pub mod rate_limit;
pub mod routing;
pub mod prompts;
pub mod incoming;
pub mod polling;
