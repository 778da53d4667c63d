use rara_channels::telegram::reply_keyboard::{
    format_model_button, is_context_button, is_model_button, is_new_session_button,
    MODEL_NAME_MAX_CHARS, NEW_SESSION_BUTTON,
};

#[test]
fn button_detection() {
    assert!(is_context_button("\u{1f4ca} 0/200.0k (0%)"));
    assert!(is_model_button("\u{1f916} sonnet-4"));
    assert!(is_new_session_button(NEW_SESSION_BUTTON));
    assert!(!is_context_button("hello"));
    assert!(!is_model_button("hello"));
    assert!(!is_new_session_button("hello"));
}

#[test]
fn new_session_button_is_exact_match() {
    assert!(!is_new_session_button("Can we start a New Session about X?"));
    assert!(!is_new_session_button("New Session"));
    assert!(!is_new_session_button("\u{1f195} New Session please"));
    assert!(is_new_session_button(NEW_SESSION_BUTTON));
}

#[test]
fn model_button_formatting() {
    assert_eq!(format_model_button("sonnet-4"), "\u{1f916} sonnet-4");
}

#[test]
fn model_button_truncation() {
    let long_model = "a]".repeat(20);
    assert!(format_model_button(&long_model).chars().count() <= MODEL_NAME_MAX_CHARS + 2);
}

#[test]
fn empty_model_shows_placeholder() {
    assert_eq!(format_model_button(""), "\u{1f916} (no model)");
}
