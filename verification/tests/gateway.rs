use rara_channels::telegram::commands::client::{
    GatewayAgentStatus, GatewayCommandOutcome, GatewayStatus, GatewayUpdateStatus,
};
use rara_channels::telegram::commands::ops::{
    gateway_allowed, outcome_reply, parse_gateway_subcommand, status_reply, unauthorized_reply,
    usage_reply, GatewaySubcommand,
};
use rara_channels::telegram::commands::CommandReply;

/// What the fake gateway service was asked.
#[derive(Default)]
struct Calls {
    status: u32,
    restart: u32,
}

fn fake_status() -> GatewayStatus {
    GatewayStatus {
        agent: GatewayAgentStatus { running: true, restart_count: 2, pid: Some(4242) },
        update: GatewayUpdateStatus {
            current_rev: "abcdef1234567890".to_owned(),
            upstream_rev: Some("fedcba0987654321".to_owned()),
            update_available: true,
            last_check_time: Some("2026-03-09T07:55:00+00:00".to_owned()),
        },
    }
}

fn fake_restart() -> GatewayCommandOutcome {
    GatewayCommandOutcome {
        ok: true,
        action: "restart".to_owned(),
        status: "accepted".to_owned(),
        detail: "restart command sent".to_owned(),
        target_rev: None,
        active_rev: None,
        rolled_back: None,
    }
}

/// Runs `/gateway` as the handler does against the fake service.
fn run_gateway(args: &str, user: &str, calls: &mut Calls) -> CommandReply {
    let owners = vec!["owner-1".to_owned()];
    if !gateway_allowed(&owners, user) {
        return unauthorized_reply();
    }
    match parse_gateway_subcommand(args) {
        GatewaySubcommand::Status => {
            calls.status += 1;
            status_reply(&Ok(fake_status()))
        }
        GatewaySubcommand::Restart => {
            calls.restart += 1;
            outcome_reply(false, &Ok(fake_restart()))
        }
        GatewaySubcommand::Update => panic!("the fake service has no update"),
        GatewaySubcommand::Usage => usage_reply(),
    }
}

#[test]
fn rejects_non_owner_user() {
    let mut calls = Calls::default();
    match run_gateway("status", "random-user", &mut calls) {
        CommandReply::Text(text) => assert!(text.contains("restricted")),
        _ => panic!("unexpected result"),
    }
    assert_eq!(calls.status, 0);
}

#[test]
fn status_defaults_when_no_subcommand_is_given() {
    let mut calls = Calls::default();
    let result = run_gateway("", "owner-1", &mut calls);
    assert_eq!(calls.status, 1);
    match result {
        CommandReply::Html(html) => {
            assert!(html.contains("Gateway status"));
            assert!(html.contains("abcdef123456"));
        }
        _ => panic!("unexpected result"),
    }
}

#[test]
fn restart_calls_gateway_client() {
    let mut calls = Calls::default();
    let result = run_gateway("restart", "owner-1", &mut calls);
    assert_eq!(calls.restart, 1);
    match result {
        CommandReply::Html(html) => {
            assert!(html.contains("Gateway restart"));
            assert!(html.contains("accepted"));
        }
        _ => panic!("unexpected result"),
    }
}

#[test]
fn gateway_owner_list_matches_exactly() {
    let owners = vec!["owner-1".to_owned(), "42".to_owned()];
    assert!(gateway_allowed(&owners, "42"));
    assert!(!gateway_allowed(&owners, "owner"));
    assert!(!gateway_allowed(&vec![], "owner-1"));
}
