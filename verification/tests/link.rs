use rara_channels::telegram::link::{
    check_link_code, generate_random_code, link_request_message, StoredLinkCode, LINKED_REPLY,
    LINK_CODE_LEN,
};
use rara_channels::telegram::loading_hints::{hint, random_hint, HINT_COUNT};
use rara_channels::telegram::rate_limit::{chat_period_ms, GLOBAL_PERIOD_MS};

#[test]
fn generate_code_correct_length() {
    let code = generate_random_code(6);
    assert_eq!(code.len(), 6);
    assert!(code.chars().all(|c| c.is_ascii_alphanumeric()));
}

#[test]
fn link_code_checks() {
    let now = (1_000, 500);
    assert_eq!(check_link_code(None, now), Err("Invalid or expired link code.".to_string()));
    let expired = StoredLinkCode { direction: "web_to_tg".into(), expires_at: (1_000, 499) };
    assert_eq!(check_link_code(Some(&expired), now), Err("Link code has expired.".to_string()));
    let wrong = StoredLinkCode { direction: "tg_to_web".into(), expires_at: (2_000, 0) };
    assert_eq!(
        check_link_code(Some(&wrong), now),
        Err("Invalid link code direction.".to_string())
    );
    let ok = StoredLinkCode { direction: "web_to_tg".into(), expires_at: (1_000, 500) };
    assert_eq!(check_link_code(Some(&ok), now), Ok(()));
    assert_eq!(LINKED_REPLY, "Account linked successfully!");
}

#[test]
fn link_request_reply_names_the_url() {
    assert_eq!(LINK_CODE_LEN, 6);
    assert_eq!(
        link_request_message("https://example.com", "AB12cd"),
        "To link your Telegram account, open this URL in your browser (expires in 5 minutes):\n\nhttps://example.com/link?tg_code=AB12cd"
    );
}

#[test]
fn random_hint_is_one_of_the_hints() {
    let all: Vec<&str> = (0..HINT_COUNT).map(hint).collect();
    assert_eq!(all.len(), 8);
    assert_eq!(all[0], "稍候片刻，日出文自明。");
    for _ in 0..20 {
        assert!(all.contains(&random_hint()));
    }
}

#[test]
fn rate_limit_periods() {
    assert_eq!(chat_period_ms(-100123), 3000);
    assert_eq!(chat_period_ms(42), 1000);
    assert_eq!(GLOBAL_PERIOD_MS, 34);
}
