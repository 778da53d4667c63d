//! Data returned by the backend service to the command handlers.

use vstd::prelude::*;

verus! {

/// Channel-to-session binding.
#[derive(Debug, Clone)]
pub struct ChannelBinding {
    pub session_key: String,
}

/// Summary of a chat session (used in list views).
#[derive(Debug, Clone)]
pub struct SessionListItem {
    pub key: String,
    pub title: Option<String>,
    pub preview: Option<String>,
    pub message_count: i64,
    pub updated_at: String,
}

/// Detailed information about a single chat session.
#[derive(Debug, Clone)]
pub struct SessionDetail {
    pub key: String,
    pub title: Option<String>,
    pub model: Option<String>,
    pub message_count: i64,
    pub preview: Option<String>,
    pub created_at: String,
    pub updated_at: String,
}

/// A job discovered through the search API.
#[derive(Debug, Clone)]
pub struct DiscoveryJob {
    pub title: String,
    pub company: String,
    pub location: Option<String>,
    pub url: Option<String>,
    pub salary_min: Option<i32>,
    pub salary_max: Option<i32>,
    pub salary_currency: Option<String>,
}

/// Information about a configured MCP server.
#[derive(Debug, Clone)]
pub struct McpServerInfo {
    pub name: String,
    pub status: McpServerStatus,
}

/// Result of the `/checkout` workflow after the backend applied its side
/// effects; the command only maps it to text.
#[derive(Debug, Clone, PartialEq, Eq)]
pub enum CheckoutResult {
    /// The current session has no parent: nothing changed.
    NoParent,
    /// The channel switched to the parent session.
    SwitchedToParent { session_key: String },
    /// A fork was created from the anchor and the channel switched to it.
    ForkedFromAnchor { anchor_name: String, session_key: String },
}

/// Connection status of an MCP server.
#[derive(Debug, Clone, PartialEq, Eq)]
pub enum McpServerStatus {
    Connected,
    Connecting,
    Disconnected,
    Error { message: String },
}

/// A chat model the user can switch to.
#[derive(Debug, Clone)]
pub struct ChatModelItem {
    pub id: String,
    pub name: String,
    pub context_length: Option<u64>,
}

/// Supervisor state of the agent process behind the gateway.
#[derive(Debug, Clone)]
pub struct GatewayAgentStatus {
    pub running: bool,
    pub pid: Option<u32>,
    pub restart_count: u64,
}

/// Update state of the gateway.
#[derive(Debug, Clone)]
pub struct GatewayUpdateStatus {
    pub current_rev: String,
    pub upstream_rev: Option<String>,
    pub update_available: bool,
    pub last_check_time: Option<String>,
}

/// Status of the gateway.
#[derive(Debug, Clone)]
pub struct GatewayStatus {
    pub agent: GatewayAgentStatus,
    pub update: GatewayUpdateStatus,
}

/// Outcome of a gateway restart or update request.
#[derive(Debug, Clone)]
pub struct GatewayCommandOutcome {
    pub action: String,
    pub ok: bool,
    pub status: String,
    pub detail: String,
    pub target_rev: Option<String>,
    pub active_rev: Option<String>,
    pub rolled_back: Option<bool>,
}

} // verus!
