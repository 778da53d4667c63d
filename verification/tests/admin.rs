use rara_channels::telegram::commands::admin::{
    owner_check, restart_reply, update_reply, ADMIN_UNAUTHORIZED_REPLY, ADMIN_UNAVAILABLE_REPLY,
    RESTART_REQUESTED_REPLY,
};
use rara_channels::telegram::incoming::MetaValue;

/// Runs `/restart` as the handler does: the owner check first, then the
/// restart request (here its given outcome), which the flag records.
fn restart(chat_id: i64, owner: Option<&str>, outcome: Result<(), String>, called: &mut bool) -> String {
    match owner_check(&Some(MetaValue::Int(chat_id)), owner) {
        Err(reply) => reply.to_string(),
        Ok(()) => {
            *called = true;
            restart_reply(&outcome)
        }
    }
}

fn update(chat_id: i64, owner: Option<&str>, outcome: Result<String, String>, called: &mut bool) -> String {
    match owner_check(&Some(MetaValue::Int(chat_id)), owner) {
        Err(reply) => reply.to_string(),
        Ok(()) => {
            *called = true;
            update_reply(&outcome)
        }
    }
}

#[test]
fn restart_requires_owner_chat() {
    let mut called = false;
    let text = restart(7, Some("42"), Ok(()), &mut called);
    assert_eq!(text, "Unauthorized: this command is restricted to the configured owner chat.");
    assert!(!called);
}

#[test]
fn update_requires_owner_chat() {
    let mut called = false;
    let text = update(7, Some("42"), Ok("Update completed and restart requested.".to_string()), &mut called);
    assert_eq!(text, "Unauthorized: this command is restricted to the configured owner chat.");
    assert!(!called);
}

#[test]
fn restart_triggers_client_for_owner_chat() {
    let mut called = false;
    let text = restart(42, Some("42"), Ok(()), &mut called);
    assert_eq!(text, "Restart requested. The supervised instance should come back shortly.");
    assert!(called);
}

#[test]
fn restart_surfaces_client_errors() {
    let mut called = false;
    let text = restart(42, Some("42"), Err("gateway unavailable".to_string()), &mut called);
    assert_eq!(text, "Failed to request restart: gateway unavailable");
}

#[test]
fn update_triggers_client_for_owner_chat() {
    let mut called = false;
    let text = update(42, Some("42"), Ok("Updated to abc1234 and restart requested.".to_string()), &mut called);
    assert_eq!(text, "Updated to abc1234 and restart requested.");
    assert!(called);
}

#[test]
fn update_surfaces_client_errors() {
    let mut called = false;
    let text = update(42, Some("42"), Err("build failed".to_string()), &mut called);
    assert_eq!(text, "Failed to run update: build failed");
}

#[test]
fn admin_without_owner_or_chat() {
    assert_eq!(owner_check(&Some(MetaValue::Int(42)), None), Err(ADMIN_UNAVAILABLE_REPLY));
    assert_eq!(owner_check(&None, Some("0")), Ok(()));
    assert_eq!(owner_check(&None, Some("42")), Err(ADMIN_UNAUTHORIZED_REPLY));
    assert_eq!(owner_check(&Some(MetaValue::Text("42".to_string())), Some("42")), Ok(()));
    assert_eq!(restart_reply(&Ok(())), RESTART_REQUESTED_REPLY);
}
