use rara_channels::telegram::commands::client::DiscoveryJob;
use rara_channels::telegram::commands::job::{
    decode_search_params, encode_search_params, format_job_results, is_primary_chat, jd_reply,
    parse_jd_args, parse_search_args, search_reply, SearchRequest, JD_RECEIVED, JD_USAGE,
    NO_JOBS_REPLY, NO_KEYWORDS_REPLY, PRIMARY_ONLY_REPLY, SEARCH_USAGE,
};
use rara_channels::telegram::commands::CommandReply;

#[test]
fn encode_decode_search_params_roundtrip() {
    let kw = vec!["rust".to_owned(), "engineer".to_owned()];
    let encoded = encode_search_params(&kw, Some("beijing"));
    assert_eq!(encoded, "rust+engineer@beijing");
    let (decoded_kw, decoded_loc) = decode_search_params(&encoded);
    assert_eq!(decoded_kw, kw);
    assert_eq!(decoded_loc.as_deref(), Some("beijing"));
}

#[test]
fn encode_decode_without_location() {
    let kw = vec!["rust".to_owned()];
    let encoded = encode_search_params(&kw, None);
    assert_eq!(encoded, "rust");
    let (decoded_kw, decoded_loc) = decode_search_params(&encoded);
    assert_eq!(decoded_kw, kw);
    assert!(decoded_loc.is_none());
}

#[test]
fn decode_splits_at_first_at_sign_only() {
    let (kw, loc) = decode_search_params("a++b@x@y");
    assert_eq!(kw, vec!["a".to_owned(), String::new(), "b".to_owned()]);
    assert_eq!(loc.as_deref(), Some("x@y"));
    let (kw, loc) = decode_search_params("");
    assert_eq!(kw, vec![String::new()]);
    assert!(loc.is_none());
}

#[test]
fn encode_of_decode_gives_data_back() {
    for data in ["a++b@x@y", "", "@", "+", "rust", "x@"] {
        let (kw, loc) = decode_search_params(data);
        assert_eq!(encode_search_params(&kw, loc.as_deref()), data);
    }
}

#[test]
fn job_results_render_all_parts() {
    let jobs = vec![
        DiscoveryJob {
            title: "Rust <Engineer>".into(),
            company: "Acme & Co".into(),
            location: Some("Remote".into()),
            url: Some("https://example.com/1".into()),
            salary_min: Some(100),
            salary_max: Some(-5),
            salary_currency: Some("USD".into()),
        },
        DiscoveryJob {
            title: "Go Developer".into(),
            company: "Beta".into(),
            location: None,
            url: None,
            salary_min: Some(1),
            salary_max: None,
            salary_currency: None,
        },
    ];
    let kw = vec!["rust".to_owned(), "engineer".to_owned()];
    let text = format_job_results(&jobs, &kw, None);
    assert_eq!(
        text,
        "Found <b>2</b> jobs for <i>rust engineer</i> @ <i>any</i>:\n\n\
         <b>1.</b> Rust &lt;Engineer&gt; - Acme &amp; Co\n   Remote | 100--5 USD\n   https://example.com/1\n\n\
         <b>2.</b> Go Developer - Beta\n\n\n"
    );
}

#[test]
fn search_args_split_keywords_and_location() {
    match parse_search_args("  rust   engineer @  beijing ") {
        SearchRequest::Search { keywords, location } => {
            assert_eq!(keywords, vec!["rust".to_string(), "engineer".to_string()]);
            assert_eq!(location.as_deref(), Some("beijing"));
        }
        _ => panic!("expected a search"),
    }
    match parse_search_args("golang\tremote") {
        SearchRequest::Search { keywords, location } => {
            assert_eq!(keywords, vec!["golang".to_string(), "remote".to_string()]);
            assert_eq!(location, None);
        }
        _ => panic!("expected a search"),
    }
    assert_eq!(kind(&parse_search_args("   ")), 'U');
    assert_eq!(kind(&parse_search_args("")), 'U');
}

fn kind(r: &SearchRequest) -> char {
    match r {
        SearchRequest::Usage => 'U',
        SearchRequest::NoKeywords => 'N',
        SearchRequest::Search { .. } => 'S',
    }
}

#[test]
fn search_separator_needs_spaces_on_both_sides() {
    // Trimmed, " @ beijing" has no " @ " left, so both parts are keywords.
    match parse_search_args(" @ beijing") {
        SearchRequest::Search { keywords, location } => {
            assert_eq!(keywords, vec!["@".to_string(), "beijing".to_string()]);
            assert_eq!(location, None);
        }
        _ => panic!("expected a search"),
    }
    match parse_search_args("a  @ x @ y") {
        SearchRequest::Search { keywords, location } => {
            assert_eq!(keywords, vec!["a".to_string()]);
            assert_eq!(location.as_deref(), Some("x @ y"));
        }
        _ => panic!("expected a search"),
    }
}

#[test]
fn search_replies() {
    let kw = vec!["rust".to_string()];
    match search_reply(&Err("timeout".to_string()), &kw, None) {
        CommandReply::Text(t) => assert_eq!(t, "Search failed: timeout"),
        _ => panic!("expected text"),
    }
    match search_reply(&Ok(vec![]), &kw, None) {
        CommandReply::Text(t) => assert_eq!(t, NO_JOBS_REPLY),
        _ => panic!("expected text"),
    }
    let jobs = vec![DiscoveryJob {
        title: "Dev".into(),
        company: "Co".into(),
        location: None,
        url: None,
        salary_min: None,
        salary_max: None,
        salary_currency: None,
    }];
    match search_reply(&Ok(jobs), &kw, Some("sh")) {
        CommandReply::HtmlWithKeyboard { html, keyboard } => {
            assert!(html.starts_with("Found <b>1</b> jobs for <i>rust</i> @ <i>sh</i>:"));
            assert_eq!(keyboard.len(), 1);
            assert_eq!(keyboard[0][0].text, "Load More");
            assert_eq!(keyboard[0][0].callback_data.as_deref(), Some("search_more:1:rust@sh"));
        }
        _ => panic!("expected html with keyboard"),
    }
}

#[test]
fn jd_arguments_and_replies() {
    assert_eq!(parse_jd_args("  Senior Rust engineer  ").as_deref(), Some("Senior Rust engineer"));
    assert_eq!(parse_jd_args("   "), None);
    assert_eq!(jd_reply(&Ok(())), JD_RECEIVED);
    assert_eq!(jd_reply(&Err("busy".to_string())), "JD parse failed: busy");
}

#[test]
fn primary_chat_defaults_to_yes() {
    assert!(is_primary_chat(None));
    assert!(is_primary_chat(Some(true)));
    assert!(!is_primary_chat(Some(false)));
}

fn mock_jobs() -> Vec<DiscoveryJob> {
    vec![
        DiscoveryJob {
            title: "Rust Engineer".to_owned(),
            company: "Acme Corp".to_owned(),
            location: Some("Remote".to_owned()),
            url: Some("https://example.com/job1".to_owned()),
            salary_min: Some(100_000),
            salary_max: Some(150_000),
            salary_currency: Some("USD".to_owned()),
        },
        DiscoveryJob {
            title: "Go Developer".to_owned(),
            company: "Beta Inc".to_owned(),
            location: None,
            url: None,
            salary_min: None,
            salary_max: None,
            salary_currency: None,
        },
    ]
}

/// Runs `/search` as the handler does, with the job service answering
/// `mock_jobs()`.
fn run_search(args: &str, primary: Option<bool>) -> CommandReply {
    if !is_primary_chat(primary) {
        return CommandReply::Text(PRIMARY_ONLY_REPLY.to_owned());
    }
    match parse_search_args(args) {
        SearchRequest::Usage => CommandReply::Text(SEARCH_USAGE.to_owned()),
        SearchRequest::NoKeywords => CommandReply::Text(NO_KEYWORDS_REPLY.to_owned()),
        SearchRequest::Search { keywords, location } => {
            search_reply(&Ok(mock_jobs()), &keywords, location.as_deref())
        }
    }
}

/// Runs `/jd` as the handler does, with the parser accepting the text.
fn run_jd(args: &str, primary: Option<bool>) -> String {
    if !is_primary_chat(primary) {
        return PRIMARY_ONLY_REPLY.to_owned();
    }
    match parse_jd_args(args) {
        None => JD_USAGE.to_owned(),
        Some(_) => jd_reply(&Ok(())),
    }
}

#[test]
fn search_returns_results_with_keyboard() {
    match run_search("rust engineer @ remote", Some(true)) {
        CommandReply::HtmlWithKeyboard { html, keyboard } => {
            assert!(html.contains("Rust Engineer"));
            assert!(html.contains("Acme Corp"));
            assert!(html.contains("Go Developer"));
            assert_eq!(keyboard.len(), 1);
            assert!(keyboard[0][0].callback_data.as_ref().unwrap().starts_with("search_more:"));
        }
        _ => panic!("expected HtmlWithKeyboard"),
    }
}

#[test]
fn search_empty_args_shows_usage() {
    match run_search("", Some(true)) {
        CommandReply::Text(text) => assert!(text.contains("Usage")),
        _ => panic!("expected Text"),
    }
}

#[test]
fn search_blocked_in_non_primary_chat() {
    match run_search("rust", Some(false)) {
        CommandReply::Text(text) => assert!(text.contains("only available in the primary chat")),
        _ => panic!("expected Text"),
    }
}

#[test]
fn jd_submits_text() {
    let text = run_jd("We are looking for a Rust engineer...", Some(true));
    assert!(text.contains("processing"));
}
