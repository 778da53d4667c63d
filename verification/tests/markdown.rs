use rara_channels::telegram::markdown::{chunk_message, markdown_to_telegram_html, TELEGRAM_MAX_MESSAGE_LEN};

#[test]
fn bold_and_italic() {
    assert_eq!(markdown_to_telegram_html("**bold** and *it*"), "<b>bold</b> and <i>it</i>");
    assert_eq!(markdown_to_telegram_html("__b__ _i_"), "<b>b</b> <i>i</i>");
}

#[test]
fn html_is_escaped_before_markdown() {
    assert_eq!(markdown_to_telegram_html("a < b & c > d"), "a &lt; b &amp; c &gt; d");
}

#[test]
fn inline_code_and_fenced_block() {
    assert_eq!(markdown_to_telegram_html("use `x<y`"), "use <code>x&lt;y</code>");
    assert_eq!(
        markdown_to_telegram_html("```rust\nfn main() {}\n```"),
        "<pre>fn main() {}</pre>"
    );
}

#[test]
fn links_become_anchors() {
    assert_eq!(
        markdown_to_telegram_html("see [docs](https://example.com/a_(b))"),
        "see <a href=\"https://example.com/a_(b)\">docs</a>"
    );
}

#[test]
fn headings_rules_and_quotes() {
    assert_eq!(markdown_to_telegram_html("## Title"), "<b>Title</b>");
    assert_eq!(markdown_to_telegram_html("a\n---\nb"), "a\n\nb");
    assert_eq!(markdown_to_telegram_html("> quoted"), "quoted");
    assert_eq!(markdown_to_telegram_html("#hashtag"), "#hashtag");
}

#[test]
fn unmatched_delimiters_are_kept() {
    assert_eq!(markdown_to_telegram_html("2 * 3 = 6"), "2 * 3 = 6");
    assert_eq!(markdown_to_telegram_html("snake_case"), "snake_case");
}

#[test]
fn crlf_lines_are_normalised() {
    assert_eq!(markdown_to_telegram_html("a\r\nb"), "a\nb");
}

#[test]
fn unclosed_fence_resumes_two_chars_before_end() {
    assert_eq!(markdown_to_telegram_html("```\ncode"), "<pre>co</pre>de");
}

#[test]
fn short_message_is_one_chunk() {
    assert_eq!(chunk_message("hello", TELEGRAM_MAX_MESSAGE_LEN), vec!["hello".to_string()]);
}

#[test]
fn chunks_break_after_newline_then_space() {
    assert_eq!(chunk_message("ab\ncd\nef", 6), vec!["ab\ncd\n".to_string(), "ef".to_string()]);
    assert_eq!(chunk_message("ab cd ef", 6), vec!["ab cd ".to_string(), "ef".to_string()]);
    assert_eq!(chunk_message("abcdefgh", 3), vec!["abc".to_string(), "def".to_string(), "gh".to_string()]);
}

#[test]
fn chunks_concatenate_to_input() {
    let text = "line one\nline two is longer\nshort\n".repeat(40);
    let chunks = chunk_message(&text, 50);
    assert!(chunks.iter().all(|c| c.len() <= 50));
    assert_eq!(chunks.concat(), text);
}

#[test]
fn chunks_never_split_a_tag() {
    assert_eq!(
        chunk_message("<b>abc</b>", 4),
        vec!["<b>a".to_string(), "bc".to_string(), "</b>".to_string()]
    );
    // A break at the space inside a link tag moves before the tag.
    assert_eq!(
        chunk_message("see <a href=\"u\">x</a>", 12),
        vec!["see ".to_string(), "<a href=\"u\">".to_string(), "x</a>".to_string()]
    );
    // A tag that starts the chunk is kept whole when it fits.
    assert_eq!(chunk_message("<a href=\"u\">xyz", 13), vec!["<a href=\"u\">".to_string(), "xyz".to_string()]);
    for c in chunk_message("<b>bold</b> and <i>it</i>\n<code>x</code>", 9) {
        assert_eq!(c.matches('<').count(), c.matches('>').count());
    }
}

#[test]
fn chunk_limit_counts_characters() {
    assert_eq!(chunk_message("ééé", 3), vec!["ééé".to_string()]);
    assert_eq!(chunk_message("éééé", 3), vec!["ééé".to_string(), "é".to_string()]);
}

#[test]
fn only_generated_tags_reach_the_html() {
    let html = markdown_to_telegram_html("a <script> **b** [x](u) `<i>`");
    assert_eq!(html, "a &lt;script&gt; <b>b</b> <a href=\"u\">x</a> <code>&lt;i&gt;</code>");
}

#[test]
fn plain_text_is_only_escaped() {
    assert_eq!(markdown_to_telegram_html("  a & b < c > d  "), "  a &amp; b &lt; c &gt; d  ");
}
