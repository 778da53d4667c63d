use rara_channels::telegram::incoming::{
    channel_info, extract_chat_id, extract_thread_id, to_raw_message, MISSING_CHAT_ID, ChannelKind, IncomingMessage, Interaction, MetaValue, MessageAuthor,
};

fn message(text: Option<&str>) -> IncomingMessage {
    IncomingMessage {
        message_id: 42,
        chat_id: -1001234,
        is_group: false,
        from: Some(MessageAuthor {
            id: 777,
            username: Some("alice".to_string()),
            first_name: "Alice".to_string(),
            last_name: Some("Liddell".to_string()),
        }),
        text: text.map(|t| t.to_string()),
        caption: None,
        has_photo: false,
        has_voice: false,
        has_audio: false,
        thread_id: None,
        reply_to_message_id: None,
    }
}

#[test]
fn private_text_becomes_a_plain_message() {
    let raw = to_raw_message(&message(Some("hello there")), "rara_bot").unwrap();
    assert_eq!(raw.text, "hello there");
    assert_eq!(raw.platform_message_id, "42");
    assert_eq!(raw.platform_chat_id, "-1001234");
    assert_eq!(raw.platform_user_id, "777");
    assert!(matches!(raw.interaction, Interaction::Message));
    assert_eq!(raw.username.as_deref(), Some("alice"));
    assert_eq!(raw.display_name.as_deref(), Some("Alice Liddell"));
    assert_eq!(raw.bot_username.as_deref(), Some("rara_bot"));
    assert_eq!(raw.thread_id, None);
    assert_eq!(raw.reply_to_platform_msg_id, None);
}

#[test]
fn command_name_is_lowercased_without_bot_suffix() {
    let raw = to_raw_message(&message(Some("/Help@rara_bot now")), "rara_bot").unwrap();
    match raw.interaction {
        Interaction::Command(c) => assert_eq!(c, "help"),
        Interaction::Message => panic!("expected a command"),
    }
}

#[test]
fn bare_slash_is_a_plain_message() {
    let raw = to_raw_message(&message(Some("/")), "").unwrap();
    assert!(matches!(raw.interaction, Interaction::Message));
    assert_eq!(raw.bot_username, None);
}

#[test]
fn group_mention_is_stripped() {
    let mut m = message(Some("@rara_bot  what time is it "));
    m.is_group = true;
    let raw = to_raw_message(&m, "rara_bot").unwrap();
    assert_eq!(raw.text, "what time is it");
}

#[test]
fn group_message_of_only_a_mention_is_dropped() {
    let mut m = message(Some("@rara_bot"));
    m.is_group = true;
    assert!(to_raw_message(&m, "rara_bot").is_none());
}

#[test]
fn blank_text_without_media_is_dropped() {
    assert!(to_raw_message(&message(Some("   ")), "rara_bot").is_none());
    assert!(to_raw_message(&message(None), "rara_bot").is_none());
}

#[test]
fn photo_without_caption_is_kept_with_empty_text() {
    let mut m = message(None);
    m.has_photo = true;
    let raw = to_raw_message(&m, "rara_bot").unwrap();
    assert_eq!(raw.text, "");
}

#[test]
fn caption_is_used_when_there_is_no_text() {
    let mut m = message(None);
    m.caption = Some("a cat".to_string());
    m.has_photo = true;
    m.thread_id = Some(9);
    m.reply_to_message_id = Some(-3);
    let raw = to_raw_message(&m, "rara_bot").unwrap();
    assert_eq!(raw.text, "a cat");
    assert_eq!(raw.thread_id.as_deref(), Some("9"));
    assert_eq!(raw.reply_to_platform_msg_id.as_deref(), Some("-3"));
}

#[test]
fn sender_without_last_name_or_missing_sender() {
    let mut m = message(Some("hi"));
    m.from = Some(MessageAuthor {
        id: 5,
        username: None,
        first_name: "Bob".to_string(),
        last_name: None,
    });
    let raw = to_raw_message(&m, "rara_bot").unwrap();
    assert_eq!(raw.display_name.as_deref(), Some("Bob"));
    assert_eq!(raw.username, None);
    m.from = None;
    let raw = to_raw_message(&m, "rara_bot").unwrap();
    assert_eq!(raw.platform_user_id, "unknown");
    assert_eq!(raw.display_name, None);
}

#[test]
fn channel_info_per_channel() {
    let (name, chat, thread) = channel_info(
        ChannelKind::Telegram,
        &Some(MetaValue::Int(-100)),
        &Some(MetaValue::Text("7".to_string())),
    );
    assert_eq!(name, "telegram");
    assert_eq!(chat, "-100");
    assert_eq!(thread.as_deref(), Some("7"));

    let (name, chat, thread) =
        channel_info(ChannelKind::Cli, &Some(MetaValue::Text("cli-1".to_string())), &None);
    assert_eq!(name, "cli");
    assert_eq!(chat, "cli-1");
    assert_eq!(thread, None);

    let (name, chat, thread) = channel_info(ChannelKind::Other, &Some(MetaValue::Int(3)), &None);
    assert_eq!(name, "unknown");
    assert_eq!(chat, "0");
    assert_eq!(thread, None);

    let (_, chat, _) = channel_info(ChannelKind::Telegram, &Some(MetaValue::Other), &None);
    assert_eq!(chat, "0");
}

#[test]
fn chat_and_thread_ids_from_metadata() {
    assert_eq!(extract_chat_id(&Some(MetaValue::Int(-42))), Ok("-42".to_string()));
    assert_eq!(extract_chat_id(&Some(MetaValue::Text("99".to_string()))), Ok("99".to_string()));
    assert_eq!(extract_chat_id(&Some(MetaValue::Other)), Err(MISSING_CHAT_ID));
    assert_eq!(extract_chat_id(&None), Err(MISSING_CHAT_ID));
    assert_eq!(extract_thread_id(&Some(MetaValue::Int(7))).as_deref(), Some("7"));
    assert_eq!(extract_thread_id(&None), None);
}
