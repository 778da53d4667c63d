use rara_channels::telegram::pinned_status::{short_path, PinnedSessionCard};

/// Token count as the card shows it: `1.2M`, `45.0k` or the bare number.
fn format_token_count(tokens: u32) -> String {
    if tokens >= 1_000_000 {
        format!("{:.1}M", tokens as f64 / 1_000_000.0)
    } else if tokens >= 1_000 {
        format!("{:.1}k", tokens as f64 / 1_000.0)
    } else {
        format!("{tokens}")
    }
}

/// The context gauge of the first line, from the card's usage.
fn gauge(card: &PinnedSessionCard) -> String {
    match card.context_usage() {
        (0, Some(limit)) => format!(" · 0/{} (0%)", format_token_count(limit)),
        (used, Some(limit)) if limit > 0 => {
            let pct = (used as f64 / limit as f64 * 100.0) as u32;
            format!(
                " · {}/{} ({pct}%)",
                format_token_count(used),
                format_token_count(limit)
            )
        }
        (used, _) if used > 0 => format!(" · {}", format_token_count(used)),
        _ => String::new(),
    }
}

fn render(card: &PinnedSessionCard) -> String {
    card.render(&gauge(card))
}

fn needs_flush(card: &mut PinnedSessionCard) -> bool {
    let g = gauge(card);
    card.needs_flush(&g)
}

fn mark_flushed(card: &mut PinnedSessionCard) {
    let g = gauge(card);
    card.mark_flushed(&g)
}

#[test]
fn render_with_model_and_context() {
    let mut card = PinnedSessionCard::new(123, "s1".into(), "mita".into());
    card.on_turn_started("sonnet-4".into(), Some(200_000));
    card.on_usage_update(45_000, 12_000, 5_000);
    for _ in 0..8 {
        card.on_tool_start();
    }

    let text = render(&card);
    let line1 = text.lines().next().expect("line 1 present");
    assert!(line1.contains("\u{1f7e2}"));
    assert!(line1.contains("<code>sonnet-4</code>"));
    assert!(line1.contains("45.0k/200.0k"));
    assert!(line1.contains('%'));
    assert!(text.contains("<i>mita</i>"));
    assert!(!text.contains("Cost:"));
    assert!(text.contains("Thinking: 5s"));
    assert!(text.contains("8 tool calls"));
}

#[test]
fn render_unknown_model_omits_limit() {
    let mut card = PinnedSessionCard::new(123, "s1".into(), "mita".into());
    card.on_turn_started("some-unknown-model".into(), None);
    card.on_usage_update(10_000, 5_000, 0);

    let text = render(&card);
    let line1 = text.lines().next().expect("line 1 present");
    assert!(line1.contains("10.0k"));
    assert!(!line1.contains('%'));
}

#[test]
fn render_line1_fallback_before_first_turn() {
    let card = PinnedSessionCard::new(123, "s1".into(), "mita".into());
    let text = render(&card);
    let line1 = text.lines().next().expect("line 1 present");
    assert!(line1.contains("<b>mita</b>"));
}

#[test]
fn render_line1_zero_tokens_shows_limit() {
    let mut card = PinnedSessionCard::new(123, "s1".into(), "mita".into());
    card.on_turn_started("sonnet-4".into(), Some(200_000));
    let text = render(&card);
    let line1 = text.lines().next().expect("line 1 present");
    assert!(line1.contains("<code>sonnet-4</code>"));
    assert!(line1.contains("0/200.0k"));
    assert!(line1.contains("0%"));
}

#[test]
fn render_idle_state() {
    let mut card = PinnedSessionCard::new(123, "s1".into(), "mita".into());
    card.on_stream_close();
    let text = render(&card);
    assert!(text.contains("\u{26aa}"));
    assert!(text.contains("<b>mita</b>"));
}

#[test]
fn on_turn_metrics_none_preserves_existing_window() {
    let mut card = PinnedSessionCard::new(123, "s1".into(), "mita".into());
    card.on_turn_started("sonnet-4".into(), Some(200_000));
    card.on_turn_metrics("sonnet-4".into(), None);
    assert_eq!(card.context_window_tokens(), Some(200_000));
}

#[test]
fn skip_unchanged_render() {
    let mut card = PinnedSessionCard::new(123, "s1".into(), "mita".into());
    assert!(needs_flush(&mut card));
    mark_flushed(&mut card);

    card.mark_dirty();
    assert!(!needs_flush(&mut card));
}

#[test]
fn dirty_flag_lifecycle() {
    let mut card = PinnedSessionCard::new(123, "s1".into(), "mita".into());
    mark_flushed(&mut card);
    assert!(!needs_flush(&mut card));

    card.on_tool_start();
    assert!(needs_flush(&mut card));

    mark_flushed(&mut card);
    assert!(!needs_flush(&mut card));
}

#[test]
fn background_tasks_render() {
    let mut card = PinnedSessionCard::new(123, "s1".into(), "mita".into());
    card.on_background_task_started("task-1".into(), "Researcher".into());
    let text = render(&card);
    assert!(text.contains("<b>Background (1)</b>"));
    assert!(text.contains("Researcher"));
}

#[test]
fn background_task_done_hides_from_render() {
    let mut card = PinnedSessionCard::new(123, "s1".into(), "mita".into());
    card.on_background_task_started("task-1".into(), "Researcher".into());
    card.on_background_task_done("task-1");
    let text = render(&card);
    assert!(!text.contains("Background"));
}

#[test]
fn render_changed_files() {
    let mut card = PinnedSessionCard::new(123, "s1".into(), "mita".into());
    card.on_file_changed("src/main.rs".into(), 12, 5);
    card.on_file_changed("tests/unit.rs".into(), 8, 0);
    let text = render(&card);
    assert!(text.contains("<b>Files (2)</b>"));
    assert!(text.contains("src/main.rs (+12 -5)"));
    assert!(text.contains("tests/unit.rs (+8)"));
}

#[test]
fn file_change_accumulates() {
    let mut card = PinnedSessionCard::new(123, "s1".into(), "mita".into());
    card.on_file_changed("src/main.rs".into(), 5, 2);
    card.on_file_changed("src/main.rs".into(), 3, 1);
    assert_eq!(card.changed_files().len(), 1);
    assert_eq!(card.changed_files()[0].additions, 8);
    assert_eq!(card.changed_files()[0].deletions, 3);
}

#[test]
fn changed_files_truncated_at_10() {
    let mut card = PinnedSessionCard::new(123, "s1".into(), "mita".into());
    for i in 0..15 {
        card.on_file_changed(format!("file_{i}.rs"), 1, 0);
    }
    let text = render(&card);
    assert!(text.contains("Files (15)"));
    assert!(text.contains("\u{2026} and 5 more"));
    assert!(text.contains("file_9.rs"));
    assert!(!text.contains("file_10.rs"));
}

#[test]
fn render_project_and_branch() {
    let mut card = PinnedSessionCard::new(123, "s1".into(), "mita".into());
    card.set_project_info("rara".into(), "main".into());
    let text = render(&card);
    assert!(text.contains("Project: rara: main"));
}

#[test]
fn render_project_no_branch() {
    let mut card = PinnedSessionCard::new(123, "s1".into(), "mita".into());
    card.set_project_info("rara".into(), String::new());
    let text = render(&card);
    assert!(text.contains("Project: rara"));
    assert!(!text.contains("Project: rara:"));
}

#[test]
fn short_path_trims_prefix() {
    assert_eq!(short_path("/Users/ryan/code/rara/src/main.rs"), "rara/src/main.rs");
    assert_eq!(short_path("src/main.rs"), "src/main.rs");
}

#[test]
fn omits_empty_sections() {
    let card = PinnedSessionCard::new(123, "s1".into(), "mita".into());
    let text = render(&card);
    assert!(!text.contains("Model:"));
    assert!(!text.contains("Context:"));
    assert!(!text.contains("Cost:"));
    assert!(!text.contains("tool calls"));
}

#[test]
fn escapes_html_in_title_and_paths() {
    let mut card = PinnedSessionCard::new(1, "s".into(), "a<b>&c".into());
    card.on_file_changed("x/<y>.rs".into(), 0, 0);
    let text = render(&card);
    assert_eq!(text, "\u{1f7e2} <b>a&lt;b&gt;&amp;c</b>\n\n\u{1f4c1} <b>Files (1)</b>\n  x/&lt;y&gt;.rs");
}

#[test]
fn mark_flushed_then_no_flush_due() {
    let mut card = PinnedSessionCard::new(9, "s".into(), "t".into());
    card.on_file_changed("a.rs".into(), 1, 1);
    mark_flushed(&mut card);
    card.mark_dirty();
    assert!(!needs_flush(&mut card));
    assert!(!card.is_dirty());
}

#[test]
fn marking_an_unchanged_card_dirty_needs_no_flush() {
    let mut card = PinnedSessionCard::new(7, "s".into(), "t".into());
    card.on_tool_start();
    assert!(needs_flush(&mut card));
    mark_flushed(&mut card);
    card.mark_dirty();
    assert!(!needs_flush(&mut card));
    card.on_file_changed("src/a.rs".into(), 1, 0);
    assert!(needs_flush(&mut card));
}

#[test]
fn needs_flush_answers_whether_the_rendering_changed() {
    let mut card = PinnedSessionCard::new(1, "s".into(), "t".into());
    // Never flushed: the rendering differs from the empty last flush.
    assert!(needs_flush(&mut card));
    mark_flushed(&mut card);
    assert!(!needs_flush(&mut card));
    card.on_background_task_done("unknown");
    assert!(!needs_flush(&mut card));
    card.set_project_info("p".into(), "main".into());
    assert!(needs_flush(&mut card));
    assert!(needs_flush(&mut card));
    mark_flushed(&mut card);
    assert!(!needs_flush(&mut card));
}
