//! Markdown to Telegram HTML converter with message chunking.
//!
//! Telegram's Bot API supports a limited HTML subset: `<b>`, `<i>`,
//! `<code>`, `<pre>` and `<a>`. Standard Markdown formatting is converted to
//! that subset:
//!
//! | Markdown              | HTML output                 |
//! |-----------------------|-----------------------------|
//! | `**bold**`, `__bold__`| `<b>bold</b>`               |
//! | `*italic*`, `_italic_`| `<i>italic</i>`             |
//! | `` `code` ``          | `<code>code</code>`         |
//! | fenced code block     | `<pre>code</pre>`           |
//! | `[text](url)`         | `<a href="url">text</a>`    |
//!
//! Headings become bold lines, horizontal rules become empty lines and
//! blockquote markers are dropped. HTML special characters (`&`, `<`, `>`)
//! are escaped before any Markdown processing.
//!
//! [`chunk_message`] splits long HTML into pieces that fit Telegram's
//! 4096-character message limit, preferring to break after a newline, then
//! after a space, and cutting hard only as a last resort; it never breaks
//! inside an HTML tag.

use vstd::prelude::*;

use crate::text::{
    chars_of, escape_html, escape_html_char, lemma_trim_start_suffix, trim_start, find_char_exec, occurs_at, find_char_from, is_ws, is_ws_exec, push_escaped_html,
    push_seq, push_str, slice_of, starts_with, starts_with_exec, string_of, trim, trim_exec,
    rfind_in, rfind_in_exec, lemma_rfind_in_range, lemma_find_char_from,
};

verus! {

/// Telegram maximum message length.
pub const TELEGRAM_MAX_MESSAGE_LEN: usize = 4096;

// ---------------------------------------------------------------------------
// Specification: block pre-processing
// ---------------------------------------------------------------------------

/// Number of leading `#` of `t` from index `n`, capped at six in total.
pub open spec fn heading_hashes(t: Seq<char>, n: int) -> int
    decreases 6 - n,
{
    if n < 0 || n >= 6 || n >= t.len() || t[n] != '#' {
        n
    } else {
        heading_hashes(t, n + 1)
    }
}

/// The text of a Markdown heading line (`# ` through `###### `), if `t` is
/// one: a run of one to six `#` followed by nothing or by a space.
pub open spec fn heading_text(t: Seq<char>) -> Option<Seq<char>> {
    let level = heading_hashes(t, 0);
    if level == 0 {
        None
    } else {
        let rest = t.skip(level);
        if rest.len() == 0 {
            Some(seq![])
        } else if rest[0] == ' ' {
            Some(trim(rest.skip(1)))
        } else {
            None
        }
    }
}

/// The characters of `t` that are not white space.
pub open spec fn non_ws(t: Seq<char>) -> Seq<char>
    decreases t.len(),
{
    if t.len() == 0 {
        seq![]
    } else if is_ws(t.last()) {
        non_ws(t.drop_last())
    } else {
        non_ws(t.drop_last()).push(t.last())
    }
}

/// A horizontal rule: three or more of one of `-`, `*`, `_`, possibly with
/// white space between them.
pub open spec fn horizontal_rule(t: Seq<char>) -> bool {
    let st = non_ws(t);
    &&& st.len() >= 3
    &&& (st[0] == '-' || st[0] == '*' || st[0] == '_')
    &&& forall|k: int| 0 <= k < st.len() ==> #[trigger] st[k] == st[0]
}

/// `line` without the `\r` of a `\r\n` ending.
pub open spec fn strip_cr(line: Seq<char>) -> Seq<char> {
    if line.len() > 0 && line.last() == '\r' {
        line.drop_last()
    } else {
        line
    }
}

/// One line after block pre-processing: headings become `**text**`, rules
/// become empty, blockquote markers are dropped, other lines are kept.
pub open spec fn transform_line(line: Seq<char>) -> Seq<char> {
    let t = trim(line);
    match heading_text(t) {
        Some(h) => seq!['*', '*'] + h + seq!['*', '*'],
        None => if horizontal_rule(t) {
            seq![]
        } else if starts_with(t, seq!['>', ' ']) {
            t.skip(2)
        } else if t == seq!['>'] {
            seq![]
        } else {
            line
        },
    }
}

/// Block pre-processing of the lines of `s` from index `i`, joined by `\n`
/// (lines as `str::lines` splits them).
pub open spec fn preprocess_from(s: Seq<char>, i: int) -> Seq<char>
    decreases s.len() - i,
{
    if i < 0 || i >= s.len() {
        seq![]
    } else {
        match find_char_from(s, '\n', i) {
            Some(k) => if i <= k < s.len() {
                transform_line(strip_cr(s.subrange(i, k))) + if k + 1 < s.len() {
                    seq!['\n'] + preprocess_from(s, k + 1)
                } else {
                    seq![]
                }
            } else {
                seq![]
            },
            None => transform_line(s.subrange(i, s.len() as int)),
        }
    }
}

/// Block pre-processing of the whole text.
pub open spec fn preprocess(s: Seq<char>) -> Seq<char> {
    preprocess_from(s, 0)
}

// ---------------------------------------------------------------------------
// Specification: inline conversion
// ---------------------------------------------------------------------------

/// Whether a ```` ``` ```` fence starts at `i`.
pub open spec fn fence_at(s: Seq<char>, i: int) -> bool {
    0 <= i && i + 2 < s.len() && s[i] == '`' && s[i + 1] == '`' && s[i + 2] == '`'
}

/// First fence at or after `i`.
pub open spec fn find_fence(s: Seq<char>, i: int) -> Option<int>
    decreases s.len() - i,
{
    if i < 0 || i + 2 >= s.len() {
        None
    } else if fence_at(s, i) {
        Some(i)
    } else {
        find_fence(s, i + 1)
    }
}

/// `s` without trailing newlines.
pub open spec fn trim_trailing_newlines(s: Seq<char>) -> Seq<char>
    decreases s.len(),
{
    if s.len() > 0 && s.last() == '\n' {
        trim_trailing_newlines(s.drop_last())
    } else {
        s
    }
}

/// Start of the code of a fenced block opening at `i`: after the language
/// tag line, or the end of the text when no newline follows.
pub open spec fn fence_code_start(s: Seq<char>, i: int) -> int {
    match find_char_from(s, '\n', i + 3) {
        Some(k) => k + 1,
        None => s.len() as int,
    }
}

/// Code of a fenced block opening at `i` and the index where scanning
/// resumes. Without a closing fence the block ends two characters before the
/// end of the text (or at its code start), and scanning resumes there.
pub open spec fn fenced_block(s: Seq<char>, i: int) -> (Seq<char>, int) {
    let start = fence_code_start(s, i);
    match find_fence(s, start) {
        Some(m) => (trim_trailing_newlines(s.subrange(start, m)), m + 3),
        None => {
            let stop = if start + 2 < s.len() {
                s.len() - 2
            } else {
                start
            };
            (trim_trailing_newlines(s.subrange(start, stop)), stop)
        },
    }
}

/// Code of an inline span opening at `i` and the index after it; an
/// unclosed span runs to the end.
pub open spec fn inline_code(s: Seq<char>, i: int) -> (Seq<char>, int) {
    match find_char_from(s, '`', i + 1) {
        Some(k) => (s.subrange(i + 1, k), k + 1),
        None => (s.subrange(i + 1, s.len() as int), s.len() as int),
    }
}

/// Index of the `close` that brings the nesting depth of `open`/`close`
/// from `depth` to zero, scanning from `i`.
pub open spec fn match_close(s: Seq<char>, i: int, depth: nat, open: char, close: char) -> Option<
    int,
>
    decreases s.len() - i,
{
    if i < 0 || i >= s.len() || depth == 0 {
        None
    } else {
        let d: int = if s[i] == open {
            depth + 1int
        } else if s[i] == close {
            depth - 1int
        } else {
            depth as int
        };
        if d == 0 {
            Some(i)
        } else {
            match_close(s, i + 1, d as nat, open, close)
        }
    }
}

/// A link `[text](url)` at `pos`: text, url and the index after it.
pub open spec fn link_at(s: Seq<char>, pos: int) -> Option<(Seq<char>, Seq<char>, int)> {
    if pos < 0 || pos >= s.len() || s[pos] != '[' {
        None
    } else {
        match match_close(s, pos + 1, 1, '[', ']') {
            None => None,
            Some(j) => if j + 1 >= s.len() || s[j + 1] != '(' {
                None
            } else {
                match match_close(s, j + 2, 1, '(', ')') {
                    None => None,
                    Some(k) => Some((s.subrange(pos + 1, j), s.subrange(j + 2, k), k + 1)),
                }
            },
        }
    }
}

/// Scan for the closing delimiter `d` of content starting at `cs`; empty
/// content is not allowed.
pub open spec fn delim_scan(s: Seq<char>, d: Seq<char>, cs: int, i: int) -> Option<(Seq<char>, int)>
    decreases s.len() - i,
{
    if i < 0 || i >= s.len() || i + d.len() > s.len() {
        None
    } else if s.subrange(i, i + d.len()) == d && i > cs {
        Some((s.subrange(cs, i), i + d.len()))
    } else {
        delim_scan(s, d, cs, i + 1)
    }
}

/// Content between the delimiter `d` at `pos` and its next occurrence, and
/// the index after the closing delimiter.
pub open spec fn delimited(s: Seq<char>, pos: int, d: Seq<char>) -> Option<(Seq<char>, int)> {
    if pos < 0 || pos + d.len() > s.len() || s.subrange(pos, pos + d.len()) != d {
        None
    } else {
        delim_scan(s, d, pos + d.len(), pos + d.len())
    }
}

/// HTML for the escaped text `s` from index `i`.
pub open spec fn md_from(s: Seq<char>, i: int) -> Seq<char>
    decreases s.len() - i,
{
    if i < 0 || i >= s.len() {
        seq![]
    } else if fence_at(s, i) {
        let (code, next) = fenced_block(s, i);
        if i < next <= s.len() {
            "<pre>"@ + code + "</pre>"@ + md_from(s, next)
        } else {
            seq![]
        }
    } else if s[i] == '`' {
        let (code, next) = inline_code(s, i);
        if i < next <= s.len() {
            "<code>"@ + code + "</code>"@ + md_from(s, next)
        } else {
            seq![]
        }
    } else if s[i] == '[' && link_at(s, i) is Some {
        let (text, url, next) = link_at(s, i)->0;
        if i < next <= s.len() {
            "<a href=\""@ + url + "\">"@ + text + "</a>"@ + md_from(s, next)
        } else {
            seq![]
        }
    } else if i + 1 < s.len() && s[i] == '*' && s[i + 1] == '*' && delimited(s, i, "**"@) is Some {
        let (c, next) = delimited(s, i, "**"@)->0;
        if i < next <= s.len() {
            "<b>"@ + c + "</b>"@ + md_from(s, next)
        } else {
            seq![]
        }
    } else if i + 1 < s.len() && s[i] == '_' && s[i + 1] == '_' && delimited(s, i, "__"@) is Some {
        let (c, next) = delimited(s, i, "__"@)->0;
        if i < next <= s.len() {
            "<b>"@ + c + "</b>"@ + md_from(s, next)
        } else {
            seq![]
        }
    } else if s[i] == '*' && delimited(s, i, "*"@) is Some {
        let (c, next) = delimited(s, i, "*"@)->0;
        if i < next <= s.len() {
            "<i>"@ + c + "</i>"@ + md_from(s, next)
        } else {
            seq![]
        }
    } else if s[i] == '_' && delimited(s, i, "_"@) is Some {
        let (c, next) = delimited(s, i, "_"@)->0;
        if i < next <= s.len() {
            "<i>"@ + c + "</i>"@ + md_from(s, next)
        } else {
            seq![]
        }
    } else {
        seq![s[i]] + md_from(s, i + 1)
    }
}

/// What [`markdown_to_telegram_html`] makes of `md`.
pub open spec fn telegram_html(md: Seq<char>) -> Seq<char> {
    md_from(escape_html(preprocess(md)), 0)
}


// ---------------------------------------------------------------------------
// Specification: chunking
// ---------------------------------------------------------------------------

/// Where a chunk starting at `i` whose budget ends at `p` breaks: after the
/// last newline before `p`, else after the last space, else at `p`.
pub open spec fn break_after(s: Seq<char>, i: int, p: int) -> int {
    match rfind_in(s, '\n', i, p) {
        Some(j) => j + 1,
        None => match rfind_in(s, ' ', i, p) {
            Some(j) => j + 1,
            None => p,
        },
    }
}

/// The first `<` of `s[i..b]` that no `>` follows before `b`: the start of
/// the tag that a cut at `b` would split, if any.
pub open spec fn open_tag_before(s: Seq<char>, i: int, b: int) -> Option<int> {
    let g = match rfind_in(s, '>', i, b) {
        Some(g) => g + 1,
        None => i,
    };
    match find_char_from(s, '<', g) {
        Some(o) => if o < b {
            Some(o)
        } else {
            None
        },
        None => None,
    }
}

/// Where a chunk of at most `max` characters that starts at `i` ends when
/// the rest is longer: at the preferred break, moved back before a tag the
/// break would split. A tag that starts the chunk is kept whole when it
/// closes within the budget; only a tag longer than the budget is cut.
pub open spec fn chunk_end(s: Seq<char>, i: int, max: nat) -> int {
    let p = i + max;
    let b = break_after(s, i, p);
    match open_tag_before(s, i, b) {
        None => b,
        Some(o) => if o > i {
            o
        } else {
            match find_char_from(s, '>', b) {
                Some(m) => if m < p {
                    m + 1
                } else {
                    b
                },
                None => b,
            }
        },
    }
}

/// The chunks of `s[i..]` when each may hold at most `max` characters.
pub open spec fn chunks_from(s: Seq<char>, i: int, max: nat) -> Seq<Seq<char>>
    decreases s.len() - i,
{
    if i < 0 || i >= s.len() {
        seq![]
    } else if s.len() - i <= max {
        seq![s.subrange(i, s.len() as int)]
    } else {
        let e = chunk_end(s, i, max);
        if i < e <= s.len() {
            seq![s.subrange(i, e)] + chunks_from(s, e, max)
        } else {
            seq![]
        }
    }
}

/// What [`chunk_message`] returns for `s` and `max`.
pub open spec fn chunks(s: Seq<char>, max: nat) -> Seq<Seq<char>> {
    if s.len() <= max {
        seq![s]
    } else {
        chunks_from(s, 0, max)
    }
}

/// Whether every `<` of `t` is closed by a later `>` of `t`: no tag of `t`
/// is cut off at its end.
pub open spec fn tags_closed(t: Seq<char>) -> bool {
    forall|k: int| 0 <= k < t.len() && t[k] == '<' ==> exists|m: int| k < m < t.len() && t[m] == '>'
}

/// Whether every tag of `t` closes within `max` characters of its `<`.
pub open spec fn tags_fit(t: Seq<char>, max: nat) -> bool {
    forall|k: int|
        0 <= k < t.len() && t[k] == '<' ==> exists|m: int| k < m < t.len() && m < k + max && t[m] == '>'
}

// ---------------------------------------------------------------------------
// Laws
// ---------------------------------------------------------------------------

/// What [`rfind_in`] finds: the last `c` of the range, with none after it.
proof fn lemma_rfind_in_full(s: Seq<char>, c: char, lo: int, hi: int)
    requires
        0 <= lo,
        hi <= s.len(),
    ensures
        rfind_in(s, c, lo, hi) matches Some(j) ==> lo <= j < hi && s[j] == c && forall|k: int|
            j < k < hi ==> s[k] != c,
        rfind_in(s, c, lo, hi) is None ==> forall|k: int| lo <= k < hi ==> s[k] != c,
    decreases hi - lo,
{
    if hi > lo && s[hi - 1] != c {
        lemma_rfind_in_full(s, c, lo, hi - 1);
    }
}

/// A chunk that does not hold the whole rest ends after its start and
/// within its budget.
proof fn lemma_chunk_end(s: Seq<char>, i: int, max: nat)
    requires
        0 <= i,
        max >= 1,
        i + max < s.len(),
    ensures
        i < chunk_end(s, i, max) <= i + max,
{
    let p = i + max;
    lemma_rfind_in_range(s, '\n', i, p);
    lemma_rfind_in_range(s, ' ', i, p);
    let b = break_after(s, i, p);
    lemma_rfind_in_range(s, '>', i, b);
    let g = match rfind_in(s, '>', i, b) {
        Some(g) => g + 1,
        None => i,
    };
    lemma_find_char_from(s, '<', g);
    lemma_find_char_from(s, '>', b);
}

/// A chunk cut from `s` keeps its tags whole when every tag of `s` closes
/// within the budget.
proof fn lemma_chunk_closed(s: Seq<char>, i: int, max: nat)
    requires
        0 <= i,
        max >= 1,
        i + max < s.len(),
        tags_fit(s, max),
    ensures
        tags_closed(s.subrange(i, chunk_end(s, i, max))),
{
    lemma_chunk_end(s, i, max);
    let p = i + max;
    lemma_rfind_in_range(s, '\n', i, p);
    lemma_rfind_in_range(s, ' ', i, p);
    let b = break_after(s, i, p);
    lemma_rfind_in_full(s, '>', i, b);
    let g = match rfind_in(s, '>', i, b) {
        Some(g) => g + 1,
        None => i,
    };
    lemma_find_char_from(s, '<', g);
    lemma_find_char_from(s, '>', b);
    let e = chunk_end(s, i, max);
    let c = s.subrange(i, e);
    assert forall|k: int| 0 <= k < c.len() && c[k] == '<' implies exists|m: int|
        k < m < c.len() && c[m] == '>' by {
        let kk = i + k;
        assert(s[kk] == '<');
        match open_tag_before(s, i, b) {
            None => {
                let g0 = rfind_in(s, '>', i, b)->0;
                assert(c[g0 - i] == '>');
            },
            Some(o) => {
                if o > i {
                    let g0 = rfind_in(s, '>', i, b)->0;
                    assert(c[g0 - i] == '>');
                } else {
                    let fm = find_char_from(s, '>', b);
                    if fm is Some && fm->0 < p {
                        assert(c[fm->0 - i] == '>');
                    } else {
                        assert(s[i] == '<');
                        let mm = choose|mm: int| i < mm < s.len() && mm < i + max && s[mm] == '>';
                        assert(mm >= b);
                    }
                }
            },
        }
    }
}

/// Chunking `s[i..]` keeps every character, in order; every chunk is
/// non-empty and fits the budget.
proof fn lemma_chunks_from(s: Seq<char>, i: int, max: nat)
    requires
        0 <= i <= s.len(),
        max >= 1,
    ensures
        chunks_from(s, i, max).flatten() == s.subrange(i, s.len() as int),
        forall|k: int|
            0 <= k < chunks_from(s, i, max).len() ==> (#[trigger] chunks_from(s, i, max)[k]).len() <= max
                && chunks_from(s, i, max)[k].len() > 0,
    decreases s.len() - i,
{
    if i == s.len() {
        assert(s.subrange(i, s.len() as int) =~= Seq::<char>::empty());
    } else if s.len() - i <= max {
        seq![s.subrange(i, s.len() as int)].lemma_flatten_one_element();
    } else {
        lemma_chunk_end(s, i, max);
        let e = chunk_end(s, i, max);
        lemma_chunks_from(s, e, max);
        let tail = chunks_from(s, e, max);
        assert(chunks_from(s, i, max) == seq![s.subrange(i, e)] + tail);
        let x = seq![s.subrange(i, e)] + tail;
        assert(x.drop_first() =~= tail);
        assert(x.first() == s.subrange(i, e));
        assert(x.flatten() == s.subrange(i, e) + tail.flatten());
        assert(s.subrange(i, e) + s.subrange(e, s.len() as int) =~= s.subrange(i, s.len() as int));
        assert forall|k: int| 0 <= k < chunks_from(s, i, max).len() implies (#[trigger] chunks_from(
            s,
            i,
            max,
        )[k]).len() <= max && chunks_from(s, i, max)[k].len() > 0 by {
            if k > 0 {
                assert(chunks_from(s, i, max)[k] == tail[k - 1]);
            }
        }
    }
}

/// Every chunk of `s[i..]` keeps its tags whole when the tags of `s` fit.
proof fn lemma_chunks_closed(s: Seq<char>, i: int, max: nat)
    requires
        0 <= i <= s.len(),
        max >= 1,
        tags_fit(s, max),
    ensures
        forall|k: int| 0 <= k < chunks_from(s, i, max).len() ==> tags_closed(#[trigger] chunks_from(s, i, max)[k]),
    decreases s.len() - i,
{
    if i == s.len() {
    } else if s.len() - i <= max {
        let c = s.subrange(i, s.len() as int);
        assert forall|k: int| 0 <= k < c.len() && c[k] == '<' implies exists|m: int|
            k < m < c.len() && c[m] == '>' by {
            assert(s[i + k] == '<');
            let mm = choose|mm: int| i + k < mm < s.len() && mm < i + k + max && s[mm] == '>';
            assert(c[mm - i] == '>');
        }
        assert(chunks_from(s, i, max) == seq![c]);
    } else {
        lemma_chunk_end(s, i, max);
        lemma_chunk_closed(s, i, max);
        let e = chunk_end(s, i, max);
        lemma_chunks_closed(s, e, max);
        let tail = chunks_from(s, e, max);
        assert(chunks_from(s, i, max) == seq![s.subrange(i, e)] + tail);
        assert forall|k: int| 0 <= k < chunks_from(s, i, max).len() implies tags_closed(
            #[trigger] chunks_from(s, i, max)[k],
        ) by {
            if k > 0 {
                assert(chunks_from(s, i, max)[k] == tail[k - 1]);
            }
        }
    }
}

/// Chunking loses nothing and respects the budget: with a positive budget
/// (or an input that fits) the chunks concatenate back to the input, every
/// chunk holds at most `max` characters, and no chunk of a non-empty input
/// is empty.
pub proof fn law_chunks_partition_input(s: Seq<char>, max: nat)
    requires
        max > 0 || s.len() <= max,
    ensures
        chunks(s, max).flatten() == s,
        forall|k: int| 0 <= k < chunks(s, max).len() ==> (#[trigger] chunks(s, max)[k]).len() <= max,
        s.len() > 0 ==> forall|k: int| 0 <= k < chunks(s, max).len() ==> (#[trigger] chunks(s, max)[k]).len() > 0,
{
    if s.len() <= max {
        seq![s].lemma_flatten_one_element();
    } else {
        lemma_chunks_from(s, 0, max);
        assert(s.subrange(0, s.len() as int) =~= s);
    }
}

/// Chunking never breaks a tag: when every tag of the input closes within
/// the budget (as Telegram's tags do for any usable budget), every `<` of a
/// chunk is closed by a `>` of the same chunk.
pub proof fn law_chunks_keep_tags_whole(s: Seq<char>, max: nat)
    requires
        max > 0,
        tags_fit(s, max),
    ensures
        forall|k: int| 0 <= k < chunks(s, max).len() ==> tags_closed(#[trigger] chunks(s, max)[k]),
{
    if s.len() <= max {
        assert forall|k: int| 0 <= k < s.len() && s[k] == '<' implies exists|m: int|
            k < m < s.len() && s[m] == '>' by {
            let mm = choose|mm: int| k < mm < s.len() && mm < k + max && s[mm] == '>';
        }
        assert(chunks(s, max) == seq![s]);
    } else {
        lemma_chunks_closed(s, 0, max);
    }
}
// ---------------------------------------------------------------------------
// Laws: headings and break points
// ---------------------------------------------------------------------------

/// `n` characters `#`.
pub open spec fn hashes(n: nat) -> Seq<char> {
    Seq::new(n, |_k: int| '#')
}

/// Counting `#` from `k` stops at the first character past the run of `n`
/// leading `#` (or at six).
proof fn lemma_heading_hashes_run(s: Seq<char>, k: int, n: int)
    requires
        0 <= k <= n <= 6,
        n <= s.len(),
        forall|j: int| 0 <= j < n ==> s[j] == '#',
        n == 6 || n == s.len() || s[n] != '#',
    ensures
        heading_hashes(s, k) == n,
    decreases n - k,
{
    if k < n {
        lemma_heading_hashes_run(s, k + 1, n);
    }
}

/// Headings of every level: one to six `#` followed by a space and text
/// read as that text, trimmed; a bare run of one to six `#` is an empty
/// heading; a run followed by anything but a space, or a run of seven `#`,
/// is no heading.
pub proof fn law_heading_levels(n: nat, t: Seq<char>)
    requires
        1 <= n <= 6,
    ensures
        heading_text(hashes(n) + seq![' '] + t) == Some(trim(t)),
        heading_text(hashes(n)) == Some(Seq::<char>::empty()),
        t.len() > 0 && t[0] != ' ' && t[0] != '#' ==> heading_text(hashes(n) + t) is None,
        heading_text(hashes(7) + t) is None,
{
    let a = hashes(n) + seq![' '] + t;
    lemma_heading_hashes_run(a, 0, n as int);
    assert(a.skip(n as int) =~= seq![' '] + t);
    assert(a.skip(n as int).skip(1) =~= t);
    lemma_heading_hashes_run(hashes(n), 0, n as int);
    assert(hashes(n).skip(n as int) =~= Seq::<char>::empty());
    if t.len() > 0 && t[0] != ' ' && t[0] != '#' {
        let b = hashes(n) + t;
        lemma_heading_hashes_run(b, 0, n as int);
        assert(b.skip(n as int) =~= t);
    }
    let c = hashes(7) + t;
    lemma_heading_hashes_run(c, 0, 6);
    assert(c.skip(6)[0] == '#');
}

/// The break point of a chunk, read off the window of `max` characters
/// that starts it, when no tag starts in that window.
proof fn lemma_first_chunk(s: Seq<char>, max: nat)
    requires
        max > 0,
        s.len() > max,
        forall|k: int| 0 <= k < max ==> s[k] != '<',
    ensures
        chunks(s, max)[0] == s.take(chunk_end(s, 0, max)),
        chunk_end(s, 0, max) == break_after(s, 0, max as int),
{
    lemma_chunk_end(s, 0, max);
    let p = max as int;
    lemma_rfind_in_range(s, '\n', 0, p);
    lemma_rfind_in_range(s, ' ', 0, p);
    let b = break_after(s, 0, p);
    lemma_rfind_in_range(s, '>', 0, b);
    let g = match rfind_in(s, '>', 0, b) {
        Some(g) => g + 1,
        None => 0,
    };
    lemma_find_char_from(s, '<', g);
    assert(open_tag_before(s, 0, b) is None);
    let e = chunk_end(s, 0, max);
    assert(chunks_from(s, 0, max)[0] == s.subrange(0, e));
    assert(s.subrange(0, e) =~= s.take(e));
}

/// A chunk ends after the last newline of its window: when the first
/// `max` characters of a longer input hold a newline (and start no tag),
/// the first chunk runs up to and including the last of them.
pub proof fn law_chunk_breaks_after_last_newline(s: Seq<char>, max: nat, j: int)
    requires
        max > 0,
        s.len() > max,
        forall|k: int| 0 <= k < max ==> s[k] != '<',
        0 <= j < max,
        s[j] == '\n',
        forall|k: int| j < k < max ==> s[k] != '\n',
    ensures
        chunks(s, max)[0] == s.take(j + 1),
{
    lemma_first_chunk(s, max);
    lemma_rfind_in_full(s, '\n', 0, max as int);
}

/// Without a newline in the window, a chunk ends after the window's last
/// space; with neither, it is cut at the budget.
pub proof fn law_chunk_breaks_after_last_space(s: Seq<char>, max: nat)
    requires
        max > 0,
        s.len() > max,
        forall|k: int| 0 <= k < max ==> s[k] != '<' && s[k] != '\n',
    ensures
        forall|j: int|
            0 <= j < max && s[j] == ' ' && (forall|k: int| j < k < max ==> s[k] != ' ') ==> chunks(s, max)[0]
                == s.take(j + 1),
        (forall|k: int| 0 <= k < max ==> s[k] != ' ') ==> chunks(s, max)[0] == s.take(max as int),
{
    lemma_first_chunk(s, max);
    lemma_rfind_in_full(s, '\n', 0, max as int);
    lemma_rfind_in_full(s, ' ', 0, max as int);
}

/// `o` added to an index, if any.
pub open spec fn index_plus(r: Option<int>, o: int) -> Option<int> {
    match r {
        Some(j) => Some(j + o),
        None => None,
    }
}

/// Searching backwards in `s` is searching in `s` without its first `o`
/// characters, indices moved by `o`.
proof fn lemma_rfind_in_skip(s: Seq<char>, c: char, lo: int, hi: int, o: int)
    requires
        0 <= o <= lo,
        hi <= s.len(),
    ensures
        rfind_in(s, c, lo, hi) == index_plus(rfind_in(s.skip(o), c, lo - o, hi - o), o),
    decreases hi - lo,
{
    if hi > lo {
        assert(s.skip(o)[hi - 1 - o] == s[hi - 1]);
        if s[hi - 1] != c {
            lemma_rfind_in_skip(s, c, lo, hi - 1, o);
        }
    }
}

/// Searching forwards likewise.
proof fn lemma_find_char_from_skip(s: Seq<char>, c: char, i: int, o: int)
    requires
        0 <= o <= i,
        o <= s.len(),
    ensures
        find_char_from(s, c, i) == index_plus(find_char_from(s.skip(o), c, i - o), o),
    decreases s.len() - i,
{
    if i < s.len() {
        assert(s.skip(o)[i - o] == s[i]);
        if s[i] != c {
            lemma_find_char_from_skip(s, c, i + 1, o);
        }
    }
}

/// Where a chunk ends depends only on the text from its start on.
proof fn lemma_chunk_end_skip(s: Seq<char>, i: int, max: nat, o: int)
    requires
        0 <= o <= i,
        max >= 1,
        i + max < s.len(),
    ensures
        chunk_end(s, i, max) == chunk_end(s.skip(o), i - o, max) + o,
{
    let t = s.skip(o);
    let p = i + max;
    lemma_rfind_in_skip(s, '\n', i, p, o);
    lemma_rfind_in_skip(s, ' ', i, p, o);
    lemma_rfind_in_range(s, '\n', i, p);
    lemma_rfind_in_range(s, ' ', i, p);
    let b = break_after(s, i, p);
    assert(break_after(t, i - o, p - o) == b - o);
    lemma_rfind_in_skip(s, '>', i, b, o);
    lemma_rfind_in_range(s, '>', i, b);
    let g = match rfind_in(s, '>', i, b) {
        Some(g) => g + 1,
        None => i,
    };
    lemma_find_char_from_skip(s, '<', g, o);
    assert(open_tag_before(t, i - o, b - o) == index_plus(open_tag_before(s, i, b), -o));
    lemma_find_char_from_skip(s, '>', b, o);
}

/// The chunks of `s` from `i` are those of `s` without its first `o`
/// characters, from `i - o`.
proof fn lemma_chunks_from_skip(s: Seq<char>, i: int, max: nat, o: int)
    requires
        0 <= o <= i,
        o <= s.len(),
        max >= 1,
    ensures
        chunks_from(s, i, max) == chunks_from(s.skip(o), i - o, max),
    decreases s.len() - i,
{
    let t = s.skip(o);
    if i < s.len() {
        if s.len() - i <= max {
            assert(t.subrange(i - o, t.len() as int) =~= s.subrange(i, s.len() as int));
        } else {
            lemma_chunk_end(s, i, max);
            lemma_chunk_end_skip(s, i, max, o);
            let e = chunk_end(s, i, max);
            assert(t.subrange(i - o, e - o) =~= s.subrange(i, e));
            lemma_chunks_from_skip(s, e, max, o);
            assert(chunks_from(t, i - o, max) == seq![t.subrange(i - o, e - o)] + chunks_from(t, e - o, max));
        }
    }
}

/// Chunking goes on from where the first chunk ends: the chunks of a text
/// longer than the budget are its first chunk followed by the chunks of the
/// rest. With the break laws above this places every chunk's end.
pub proof fn law_chunks_continue_after_first(s: Seq<char>, max: nat)
    requires
        max > 0,
        s.len() > max,
    ensures
        chunks(s, max).len() >= 1,
        chunks(s, max) == seq![chunks(s, max)[0]] + chunks(s.skip(chunks(s, max)[0].len() as int), max),
{
    lemma_chunk_end(s, 0, max);
    let e = chunk_end(s, 0, max);
    let t = s.skip(e);
    lemma_chunks_from_skip(s, e, max, e);
    assert(chunks(s, max) == seq![s.subrange(0, e)] + chunks_from(t, 0, max));
    assert(s.subrange(0, e).len() == e);
    if t.len() <= max {
        assert(t.subrange(0, t.len() as int) =~= t);
        assert(chunks_from(t, 0, max) == seq![t]);
    }
}

// ---------------------------------------------------------------------------
// Law: only generated tags
// ---------------------------------------------------------------------------

/// Whether `t` occurs in `r` at `k`.
pub open spec fn starts_at(r: Seq<char>, k: int, t: Seq<char>) -> bool {
    0 <= k && k + t.len() <= r.len() && r.subrange(k, k + t.len()) == t
}

/// Whether a tag the converter generates starts at `k` of `r`.
pub open spec fn generated_tag_at(r: Seq<char>, k: int) -> bool {
    ||| starts_at(r, k, "<b>"@)
    ||| starts_at(r, k, "</b>"@)
    ||| starts_at(r, k, "<i>"@)
    ||| starts_at(r, k, "</i>"@)
    ||| starts_at(r, k, "<code>"@)
    ||| starts_at(r, k, "</code>"@)
    ||| starts_at(r, k, "<pre>"@)
    ||| starts_at(r, k, "</pre>"@)
    ||| starts_at(r, k, "<a href=\""@)
    ||| starts_at(r, k, "</a>"@)
}

/// Whether every `<` of `r` starts a generated tag.
pub open spec fn only_generated_tags(r: Seq<char>) -> bool {
    forall|k: int| 0 <= k < r.len() && r[k] == '<' ==> generated_tag_at(r, k)
}

/// Whether `t` holds no `<`.
pub open spec fn lt_free(t: Seq<char>) -> bool {
    forall|k: int| 0 <= k < t.len() ==> t[k] != '<'
}

/// Joining two texts keeps each one's tags.
proof fn lemma_tags_concat(a: Seq<char>, b: Seq<char>)
    requires
        only_generated_tags(a),
        only_generated_tags(b),
    ensures
        only_generated_tags(a + b),
{
    let r = a + b;
    assert forall|k: int| 0 <= k < r.len() && r[k] == '<' implies generated_tag_at(r, k) by {
        if k < a.len() {
            assert(a[k] == '<');
            assert forall|t: Seq<char>| starts_at(a, k, t) implies starts_at(r, k, t) by {
                assert(r.subrange(k, k + t.len()) =~= a.subrange(k, k + t.len()));
            }
        } else {
            let j = k - a.len();
            assert(b[j] == '<');
            assert forall|t: Seq<char>| starts_at(b, j, t) implies starts_at(r, k, t) by {
                assert(r.subrange(k, k + t.len()) =~= b.subrange(j, j + t.len()));
            }
        }
    }
}

/// A text without `<` has only generated tags (none at all).
proof fn lemma_tags_free(t: Seq<char>)
    requires
        lt_free(t),
    ensures
        only_generated_tags(t),
{
}

/// Each generated tag, alone, has only generated tags.
proof fn lemma_tags_literals()
    ensures
        only_generated_tags("<b>"@),
        only_generated_tags("</b>"@),
        only_generated_tags("<i>"@),
        only_generated_tags("</i>"@),
        only_generated_tags("<code>"@),
        only_generated_tags("</code>"@),
        only_generated_tags("<pre>"@),
        only_generated_tags("</pre>"@),
        only_generated_tags("<a href=\""@),
        only_generated_tags("\">"@),
        only_generated_tags("</a>"@),
{
    reveal_strlit("<b>");
    reveal_strlit("</b>");
    reveal_strlit("<i>");
    reveal_strlit("</i>");
    reveal_strlit("<code>");
    reveal_strlit("</code>");
    reveal_strlit("<pre>");
    reveal_strlit("</pre>");
    reveal_strlit("<a href=\"");
    reveal_strlit("\">");
    reveal_strlit("</a>");
    assert("<b>"@.subrange(0, 3) =~= "<b>"@);
    assert("</b>"@.subrange(0, 4) =~= "</b>"@);
    assert("<i>"@.subrange(0, 3) =~= "<i>"@);
    assert("</i>"@.subrange(0, 4) =~= "</i>"@);
    assert("<code>"@.subrange(0, 6) =~= "<code>"@);
    assert("</code>"@.subrange(0, 7) =~= "</code>"@);
    assert("<pre>"@.subrange(0, 5) =~= "<pre>"@);
    assert("</pre>"@.subrange(0, 6) =~= "</pre>"@);
    assert("<a href=\""@.subrange(0, 9) =~= "<a href=\""@);
    assert("</a>"@.subrange(0, 4) =~= "</a>"@);
}

/// Escaped text holds no `<`.
proof fn lemma_escape_lt_free(s: Seq<char>)
    ensures
        lt_free(escape_html(s)),
    decreases s.len(),
{
    if s.len() > 0 {
        lemma_escape_lt_free(s.drop_last());
        let a = escape_html(s.drop_last());
        let c = escape_html_char(s.last());
        assert(escape_html(s) == a + c);
        assert(lt_free(c));
    }
}

/// A piece of a `<`-free text is `<`-free.
proof fn lemma_sub_free(s: Seq<char>, a: int, b: int)
    requires
        lt_free(s),
        0 <= a <= b <= s.len(),
    ensures
        lt_free(s.subrange(a, b)),
{
}

/// Trimming trailing newlines keeps a text `<`-free.
proof fn lemma_trim_newlines_free(t: Seq<char>)
    requires
        lt_free(t),
    ensures
        lt_free(trim_trailing_newlines(t)),
    decreases t.len(),
{
    if t.len() > 0 && t.last() == '\n' {
        lemma_trim_newlines_free(t.drop_last());
    }
}

/// A fence found lies in the text.
proof fn lemma_find_fence(s: Seq<char>, i: int)
    requires
        0 <= i,
    ensures
        find_fence(s, i) matches Some(m) ==> i <= m && m + 2 < s.len(),
    decreases s.len() - i,
{
    if i + 2 < s.len() && !fence_at(s, i) {
        lemma_find_fence(s, i + 1);
    }
}

/// The content of a delimited span is a `<`-free piece of a `<`-free text.
proof fn lemma_delim_free(s: Seq<char>, d: Seq<char>, cs: int, i: int)
    requires
        lt_free(s),
        0 <= cs,
    ensures
        delim_scan(s, d, cs, i) matches Some((c, _)) ==> lt_free(c),
    decreases s.len() - i,
{
    if i < 0 || i >= s.len() || i + d.len() > s.len() {
    } else if s.subrange(i, i + d.len()) == d && i > cs {
        lemma_sub_free(s, cs, i);
    } else {
        lemma_delim_free(s, d, cs, i + 1);
    }
}

/// The converted form of a `<`-free text has only generated tags.
proof fn lemma_md_tags(s: Seq<char>, i: int)
    requires
        lt_free(s),
        0 <= i,
    ensures
        only_generated_tags(md_from(s, i)),
    decreases s.len() - i,
{
    lemma_tags_literals();
    if i >= s.len() {
        lemma_tags_free(md_from(s, i));
    } else if fence_at(s, i) {
        let (code, next) = fenced_block(s, i);
        if i < next <= s.len() {
            lemma_find_char_from(s, '\n', i + 3);
            let start = fence_code_start(s, i);
            lemma_find_fence(s, start);
            match find_fence(s, start) {
                Some(m) => {
                    lemma_sub_free(s, start, m);
                    lemma_trim_newlines_free(s.subrange(start, m));
                },
                None => {
                    let stop = if start + 2 < s.len() {
                        s.len() - 2
                    } else {
                        start
                    };
                    lemma_sub_free(s, start, stop);
                    lemma_trim_newlines_free(s.subrange(start, stop));
                },
            }
            lemma_md_tags(s, next);
            lemma_tags_concat("<pre>"@, code);
            lemma_tags_concat("<pre>"@ + code, "</pre>"@);
            lemma_tags_concat("<pre>"@ + code + "</pre>"@, md_from(s, next));
        } else {
            lemma_tags_free(md_from(s, i));
        }
    } else if s[i] == '`' {
        let (code, next) = inline_code(s, i);
        lemma_find_char_from(s, '`', i + 1);
        if i < next <= s.len() {
            match find_char_from(s, '`', i + 1) {
                Some(k) => lemma_sub_free(s, i + 1, k),
                None => lemma_sub_free(s, i + 1, s.len() as int),
            }
            lemma_md_tags(s, next);
            lemma_tags_concat("<code>"@, code);
            lemma_tags_concat("<code>"@ + code, "</code>"@);
            lemma_tags_concat("<code>"@ + code + "</code>"@, md_from(s, next));
        } else {
            lemma_tags_free(md_from(s, i));
        }
    } else if s[i] == '[' && link_at(s, i) is Some {
        let (text, url, next) = link_at(s, i)->0;
        if i < next <= s.len() {
            let j = match_close(s, i + 1, 1, '[', ']')->0;
            let k = match_close(s, j + 2, 1, '(', ')')->0;
            lemma_match_close_range(s, i + 1, 1, '[', ']');
            lemma_match_close_range(s, j + 2, 1, '(', ')');
            lemma_sub_free(s, i + 1, j);
            lemma_sub_free(s, j + 2, k);
            lemma_md_tags(s, next);
            lemma_tags_concat("<a href=\""@, url);
            lemma_tags_concat("<a href=\""@ + url, "\">"@);
            lemma_tags_concat("<a href=\""@ + url + "\">"@, text);
            lemma_tags_concat("<a href=\""@ + url + "\">"@ + text, "</a>"@);
            lemma_tags_concat("<a href=\""@ + url + "\">"@ + text + "</a>"@, md_from(s, next));
        } else {
            lemma_tags_free(md_from(s, i));
        }
    } else if i + 1 < s.len() && s[i] == '*' && s[i + 1] == '*' && delimited(s, i, "**"@) is Some {
        let (c, next) = delimited(s, i, "**"@)->0;
        if i < next <= s.len() {
            lemma_md_tags(s, next);
        }
        lemma_md_tags_delim(s, i, "**"@, c, next, "<b>"@, "</b>"@);
        if !(i < next <= s.len()) {
            lemma_tags_free(md_from(s, i));
        }
    } else if i + 1 < s.len() && s[i] == '_' && s[i + 1] == '_' && delimited(s, i, "__"@) is Some {
        let (c, next) = delimited(s, i, "__"@)->0;
        if i < next <= s.len() {
            lemma_md_tags(s, next);
        }
        lemma_md_tags_delim(s, i, "__"@, c, next, "<b>"@, "</b>"@);
        if !(i < next <= s.len()) {
            lemma_tags_free(md_from(s, i));
        }
    } else if s[i] == '*' && delimited(s, i, "*"@) is Some {
        let (c, next) = delimited(s, i, "*"@)->0;
        if i < next <= s.len() {
            lemma_md_tags(s, next);
        }
        lemma_md_tags_delim(s, i, "*"@, c, next, "<i>"@, "</i>"@);
        if !(i < next <= s.len()) {
            lemma_tags_free(md_from(s, i));
        }
    } else if s[i] == '_' && delimited(s, i, "_"@) is Some {
        let (c, next) = delimited(s, i, "_"@)->0;
        if i < next <= s.len() {
            lemma_md_tags(s, next);
        }
        lemma_md_tags_delim(s, i, "_"@, c, next, "<i>"@, "</i>"@);
        if !(i < next <= s.len()) {
            lemma_tags_free(md_from(s, i));
        }
    } else {
        lemma_md_tags(s, i + 1);
        assert(lt_free(seq![s[i]]));
        lemma_tags_concat(seq![s[i]], md_from(s, i + 1));
    }
}

/// The emphasis case of [`lemma_md_tags`].
proof fn lemma_md_tags_delim(
    s: Seq<char>,
    i: int,
    d: Seq<char>,
    c: Seq<char>,
    next: int,
    open: Seq<char>,
    close: Seq<char>,
)
    requires
        lt_free(s),
        0 <= i < s.len(),
        delimited(s, i, d) == Some((c, next)),
        only_generated_tags(open),
        only_generated_tags(close),
        i < next <= s.len() ==> only_generated_tags(md_from(s, next)),
    ensures
        i < next <= s.len() ==> only_generated_tags(open + c + close + md_from(s, next)),
{
    lemma_delim_free(s, d, i + d.len(), i + d.len());
    if i < next <= s.len() {
        lemma_tags_concat(open, c);
        lemma_tags_concat(open + c, close);
        lemma_tags_concat(open + c + close, md_from(s, next));
    }
}

/// No `<` of the Markdown text reaches the HTML unescaped: every `<` of
/// the result starts one of the tags the converter generates.
pub proof fn law_html_tags_are_generated(md: Seq<char>)
    ensures
        only_generated_tags(telegram_html(md)),
{
    lemma_escape_lt_free(preprocess(md));
    lemma_md_tags(escape_html(preprocess(md)), 0);
}

/// A closing match lies in the scanned part of the text.
proof fn lemma_match_close_range(s: Seq<char>, i: int, depth: nat, open: char, close: char)
    ensures
        match_close(s, i, depth, open, close) matches Some(j) ==> i <= j < s.len(),
    decreases s.len() - i,
{
    if !(i < 0 || i >= s.len() || depth == 0) {
        let d: int = if s[i] == open {
            depth + 1int
        } else if s[i] == close {
            depth - 1int
        } else {
            depth as int
        };
        if d != 0 {
            lemma_match_close_range(s, i + 1, d as nat, open, close);
        }
    }
}


// ---------------------------------------------------------------------------
// Law: plain text is only escaped
// ---------------------------------------------------------------------------

/// Whether `t` holds none of the characters that open inline Markdown.
pub open spec fn inline_plain(t: Seq<char>) -> bool {
    forall|k: int| 0 <= k < t.len() ==> t[k] != '`' && t[k] != '[' && t[k] != '*' && t[k] != '_'
}

/// Inline conversion leaves text without Markdown syntax unchanged.
proof fn lemma_md_plain(s: Seq<char>, i: int)
    requires
        inline_plain(s),
        0 <= i <= s.len(),
    ensures
        md_from(s, i) == s.skip(i),
    decreases s.len() - i,
{
    if i == s.len() {
        assert(s.skip(i) =~= Seq::<char>::empty());
    } else {
        lemma_md_plain(s, i + 1);
        assert(seq![s[i]] + s.skip(i + 1) =~= s.skip(i));
    }
}

/// Escaping adds no Markdown syntax.
proof fn lemma_escape_plain(s: Seq<char>)
    requires
        inline_plain(s),
    ensures
        inline_plain(escape_html(s)),
    decreases s.len(),
{
    if s.len() > 0 {
        assert(inline_plain(s.drop_last()));
        lemma_escape_plain(s.drop_last());
        let a = escape_html(s.drop_last());
        let c = escape_html_char(s.last());
        assert(escape_html(s) == a + c);
        assert(inline_plain(c));
    }
}

/// Text without Markdown syntax is only HTML-escaped: no newline, no
/// `* _ ` [ #`, no leading `>` and not a horizontal rule.
pub proof fn law_plain_text_is_only_escaped(md: Seq<char>)
    requires
        forall|k: int|
            0 <= k < md.len() ==> md[k] != '\n' && md[k] != '\r' && md[k] != '*' && md[k] != '_' && md[k]
                != '`' && md[k] != '[' && md[k] != '#',
        !(trim(md).len() > 0 && trim(md)[0] == '>'),
        !horizontal_rule(trim(md)),
    ensures
        telegram_html(md) == escape_html(md),
{
    if md.len() > 0 {
        lemma_find_char_from(md, '\n', 0);
        assert(md.subrange(0, md.len() as int) =~= md);
        let t = trim(md);
        lemma_trim_start_suffix(md);
        crate::text::lemma_trim_end_prefix(trim_start(md));
        let ts = trim_start(md);
        if t.len() > 0 {
            assert(t[0] == ts[0]);
            assert(ts[0] == md[md.len() - ts.len()]);
            assert(t[0] != '#');
        }
        assert(heading_hashes(t, 0) == 0);
        assert(!starts_with(t, seq!['>', ' ']));
        assert(t != seq!['>']);
        assert(preprocess(md) == md);
    }
    lemma_escape_plain(md);
    lemma_md_plain(escape_html(md), 0);
    assert(escape_html(md).skip(0) =~= escape_html(md));
}

// ---------------------------------------------------------------------------
// Implementation: block pre-processing
// ---------------------------------------------------------------------------

/// Convert Markdown text to the Telegram HTML subset.
///
/// Block syntax is pre-processed first (headings become bold, rules become
/// empty lines, blockquote markers are dropped), then `&`, `<` and `>` are
/// escaped, then fenced code, inline code, links, bold and italics are
/// converted.
pub fn markdown_to_telegram_html(md: &str) -> (r: String)
    ensures
        r@ == telegram_html(md@),
{
    let src = chars_of(md);
    let pre = preprocess_blocks(&src);
    let mut chars: Vec<char> = Vec::new();
    push_escaped_html(&mut chars, &pre);
    proof {
        assert(chars@ =~= escape_html(preprocess(md@)));
    }
    let len = chars.len();
    let mut result: Vec<char> = Vec::new();
    let mut i: usize = 0;
    while i < len
        invariant
            len == chars@.len(),
            i <= len,
            md_from(chars@, 0) == result@ + md_from(chars@, i as int),
        decreases len - i,
    {
        let ghost before = result@;
        let next = md_step(&chars, i, &mut result);
        proof {
            assert(md_from(chars@, 0) =~= before + md_from(chars@, i as int));
        }
        i = next;
    }
    string_of(&result)
}

/// Convert the construct at `i` of the escaped text, appending its HTML to
/// `result`; returns the index where conversion resumes.
#[verifier::rlimit(60)]
fn md_step(chars: &Vec<char>, i: usize, result: &mut Vec<char>) -> (next: usize)
    requires
        i < chars@.len(),
    ensures
        i < next <= chars@.len(),
        final(result)@ + md_from(chars@, next as int) == old(result)@ + md_from(chars@, i as int),
{
    let len = chars.len();
    let ghost before = result@;
        if len - i > 2 && chars[i] == '`' && chars[i + 1] == '`' && chars[i + 2] == '`' {
            let (code, next) = fenced_block_exec(chars, i);
            push_str(result, "<pre>");
            push_seq(result, &code);
            push_str(result, "</pre>");
            proof {
                assert(result@ + md_from(chars@, next as int) =~= before + ("<pre>"@ + code@
                    + "</pre>"@ + md_from(chars@, next as int)));
            }
            return next;
        }
        if chars[i] == '`' {
            let (code, next) = inline_code_exec(chars, i);
            push_str(result, "<code>");
            push_seq(result, &code);
            push_str(result, "</code>");
            proof {
                assert(result@ + md_from(chars@, next as int) =~= before + ("<code>"@ + code@
                    + "</code>"@ + md_from(chars@, next as int)));
            }
            return next;
        }
        if chars[i] == '[' {
            match try_parse_link(chars, i) {
                Some((text, url, next)) => {
                    push_str(result, "<a href=\"");
                    push_seq(result, &url);
                    push_str(result, "\">");
                    push_seq(result, &text);
                    push_str(result, "</a>");
                    proof {
                        assert(result@ + md_from(chars@, next as int) =~= before + ("<a href=\""@
                            + url@ + "\">"@ + text@ + "</a>"@ + md_from(chars@, next as int)));
                    }
                    return next;
                },
                None => {},
            }
        }
        if i + 1 < len && chars[i] == '*' && chars[i + 1] == '*' {
            proof {
                reveal_strlit("**");
            }
            match try_parse_delimited(chars, i, "**") {
                Some((content, next)) => {
                    push_tagged(result, "<b>", &content, "</b>");
                    proof {
                        assert(result@ + md_from(chars@, next as int) =~= before + ("<b>"@
                            + content@ + "</b>"@ + md_from(chars@, next as int)));
                    }
                    return next;
                },
                None => {},
            }
        }
        if i + 1 < len && chars[i] == '_' && chars[i + 1] == '_' {
            proof {
                reveal_strlit("__");
            }
            match try_parse_delimited(chars, i, "__") {
                Some((content, next)) => {
                    push_tagged(result, "<b>", &content, "</b>");
                    proof {
                        assert(result@ + md_from(chars@, next as int) =~= before + ("<b>"@
                            + content@ + "</b>"@ + md_from(chars@, next as int)));
                    }
                    return next;
                },
                None => {},
            }
        }
        if chars[i] == '*' {
            proof {
                reveal_strlit("*");
            }
            match try_parse_delimited(chars, i, "*") {
                Some((content, next)) => {
                    push_tagged(result, "<i>", &content, "</i>");
                    proof {
                        assert(result@ + md_from(chars@, next as int) =~= before + ("<i>"@
                            + content@ + "</i>"@ + md_from(chars@, next as int)));
                    }
                    return next;
                },
                None => {},
            }
        }
        if chars[i] == '_' {
            proof {
                reveal_strlit("_");
            }
            match try_parse_delimited(chars, i, "_") {
                Some((content, next)) => {
                    push_tagged(result, "<i>", &content, "</i>");
                    proof {
                        assert(result@ + md_from(chars@, next as int) =~= before + ("<i>"@
                            + content@ + "</i>"@ + md_from(chars@, next as int)));
                    }
                    return next;
                },
                None => {},
            }
        }
        result.push(chars[i]);
        proof {
            assert(result@ =~= before + seq![chars@[i as int]]);
        }
        i + 1
}

/// Append `open`, `content` and `close`.
fn push_tagged(out: &mut Vec<char>, open: &str, content: &Vec<char>, close: &str)
    ensures
        final(out)@ == old(out)@ + open@ + content@ + close@,
{
    push_str(out, open);
    push_seq(out, content);
    push_str(out, close);
}

/// Pre-process block-level Markdown into inline equivalents, line by line.
fn preprocess_blocks(md: &Vec<char>) -> (r: Vec<char>)
    ensures
        r@ == preprocess(md@),
{
    let len = md.len();
    let mut out: Vec<char> = Vec::new();
    let mut i: usize = 0;
    while i < len
        invariant
            len == md@.len(),
            i <= len,
            preprocess(md@) == out@ + preprocess_from(md@, i as int),
        decreases len - i,
    {
        let ghost before = out@;
        match find_char_exec(md, '\n', i) {
            Some(k) => {
                let mut line = slice_of(md, i, k);
                if line.len() > 0 && line[line.len() - 1] == '\r' {
                    line.pop();
                }
                proof {
                    assert(line@ == strip_cr(md@.subrange(i as int, k as int)));
                }
                let t = transform_line_exec(&line);
                push_seq(&mut out, &t);
                if k + 1 < len {
                    out.push('\n');
                    proof {
                        assert(out@ + preprocess_from(md@, k + 1) =~= before + (t@ + (seq!['\n']
                            + preprocess_from(md@, k + 1))));
                    }
                    i = k + 1;
                } else {
                    proof {
                        assert(out@ =~= before + (t@ + Seq::<char>::empty()));
                    }
                    return out;
                }
            },
            None => {
                let line = slice_of(md, i, len);
                let t = transform_line_exec(&line);
                push_seq(&mut out, &t);
                return out;
            },
        }
    }
    out
}

/// Pre-process one line.
fn transform_line_exec(line: &Vec<char>) -> (r: Vec<char>)
    ensures
        r@ == transform_line(line@),
{
    let t = trim_exec(line);
    match strip_heading_prefix(&t) {
        Some(h) => {
            let mut out: Vec<char> = Vec::new();
            out.push('*');
            out.push('*');
            push_seq(&mut out, &h);
            out.push('*');
            out.push('*');
            proof {
                assert(out@ =~= seq!['*', '*'] + h@ + seq!['*', '*']);
            }
            out
        },
        None => {
            if is_horizontal_rule(&t) {
                Vec::new()
            } else if t.len() >= 2 && t[0] == '>' && t[1] == ' ' {
                proof {
                    assert(t@.take(2) =~= seq!['>', ' ']);
                    assert(t@.skip(2) =~= t@.subrange(2, t@.len() as int));
                }
                slice_of(&t, 2, t.len())
            } else if t.len() == 1 && t[0] == '>' {
                proof {
                    assert(t@ =~= seq!['>']);
                }
                Vec::new()
            } else {
                proof {
                    assert(!starts_with(t@, seq!['>', ' '])) by {
                        if t@.len() >= 2 {
                            assert(t@.take(2)[0] == t@[0]);
                            assert(t@.take(2)[1] == t@[1]);
                        }
                    }
                    assert(t@ != seq!['>']) by {
                        if t@.len() == 1 {
                            assert(t@[0] != seq!['>'][0]);
                        }
                    }
                }
                slice_of(line, 0, line.len())
            }
        },
    }
}

/// The heading text of `line` (`# ` through `###### `), if it is a heading.
fn strip_heading_prefix(line: &Vec<char>) -> (r: Option<Vec<char>>)
    ensures
        match r {
            Some(h) => heading_text(line@) == Some(h@),
            None => heading_text(line@) is None,
        },
{
    let len = line.len();
    let mut level: usize = 0;
    while level < len && level < 6 && line[level] == '#'
        invariant
            level <= len,
            level <= 6,
            len == line@.len(),
            heading_hashes(line@, 0) == heading_hashes(line@, level as int),
        decreases 6 - level,
    {
        level = level + 1;
    }
    if level == 0 {
        return None;
    }
    let rest = slice_of(line, level, len);
    proof {
        assert(rest@ =~= line@.skip(level as int));
    }
    if rest.len() == 0 {
        return Some(Vec::new());
    }
    if rest[0] == ' ' {
        let tail = slice_of(&rest, 1, rest.len());
        proof {
            assert(tail@ =~= rest@.skip(1));
        }
        return Some(trim_exec(&tail));
    }
    None
}

/// Whether `line` is a Markdown horizontal rule (`---`, `***`, `___`,
/// possibly with spaces between).
fn is_horizontal_rule(line: &Vec<char>) -> (r: bool)
    ensures
        r == horizontal_rule(line@),
{
    let n = line.len();
    let mut st: Vec<char> = Vec::new();
    for k in 0..n
        invariant
            n == line@.len(),
            st@ == non_ws(line@.take(k as int)),
    {
        proof {
            assert(line@.take(k + 1).drop_last() =~= line@.take(k as int));
        }
        if !is_ws_exec(line[k]) {
            st.push(line[k]);
        }
    }
    proof {
        assert(line@.take(n as int) =~= line@);
    }
    if st.len() < 3 {
        return false;
    }
    let ch = st[0];
    if !(ch == '-' || ch == '*' || ch == '_') {
        return false;
    }
    let m = st.len();
    for j in 0..m
        invariant
            m == st@.len(),
            m >= 3,
            st@ == non_ws(line@),
            ch == st@[0],
            forall|q: int| 0 <= q < j ==> st@[q] == ch,
    {
        if st[j] != ch {
            proof {
                assert(st@[j as int] != st@[0]);
            }
            return false;
        }
    }
    true
}

// ---------------------------------------------------------------------------
// Implementation: inline conversion
// ---------------------------------------------------------------------------

/// Code of the fenced block opening at `i` and where scanning resumes.
fn fenced_block_exec(chars: &Vec<char>, i: usize) -> (r: (Vec<char>, usize))
    requires
        fence_at(chars@, i as int),
    ensures
        (r.0@, r.1 as int) == fenced_block(chars@, i as int),
        i < r.1 <= chars@.len(),
{
    let len = chars.len();
    let start = match find_char_exec(chars, '\n', i + 3) {
        Some(k) => k + 1,
        None => len,
    };
    let mut j = start;
    while j < len && len - j > 2
        invariant
            start <= j <= len,
            len == chars@.len(),
            fence_at(chars@, i as int),
            start as int == fence_code_start(chars@, i as int),
            i + 3 <= start <= len,
            start + 2 < len ==> j + 2 <= len,
            start + 2 >= len ==> j == start,
            find_fence(chars@, start as int) == find_fence(chars@, j as int),
        decreases len - j,
    {
        if chars[j] == '`' && chars[j + 1] == '`' && chars[j + 2] == '`' {
            assert(find_fence(chars@, j as int) == Some(j as int));
            let code = slice_of(chars, start, j);
            let trimmed = trim_trailing_newlines_exec(&code);
            return (trimmed, j + 3);
        }
        j = j + 1;
    }
    let code = slice_of(chars, start, j);
    let trimmed = trim_trailing_newlines_exec(&code);
    (trimmed, j)
}

/// `s` without trailing newlines.
fn trim_trailing_newlines_exec(s: &Vec<char>) -> (r: Vec<char>)
    ensures
        r@ == trim_trailing_newlines(s@),
{
    let mut j = s.len();
    proof {
        assert(s@.take(j as int) =~= s@);
    }
    while j > 0 && s[j - 1] == '\n'
        invariant
            j <= s@.len(),
            trim_trailing_newlines(s@) == trim_trailing_newlines(s@.take(j as int)),
        decreases j,
    {
        proof {
            assert(s@.take(j as int).drop_last() =~= s@.take(j - 1));
        }
        j = j - 1;
    }
    proof {
        assert(s@.take(j as int) =~= s@.subrange(0, j as int));
    }
    slice_of(s, 0, j)
}

/// Code of the inline span opening at `i` and the index after it.
fn inline_code_exec(chars: &Vec<char>, i: usize) -> (r: (Vec<char>, usize))
    requires
        i < chars@.len(),
    ensures
        (r.0@, r.1 as int) == inline_code(chars@, i as int),
        i < r.1 <= chars@.len(),
{
    let len = chars.len();
    match find_char_exec(chars, '`', i + 1) {
        Some(k) => (slice_of(chars, i + 1, k), k + 1),
        None => (slice_of(chars, i + 1, len), len),
    }
}

/// Index of the `close` that ends a group opened just before `start`.
fn match_close_exec(chars: &Vec<char>, start: usize, open: char, close: char) -> (r: Option<usize>)
    requires
        start >= 1,
    ensures
        match r {
            Some(k) => match_close(chars@, start as int, 1, open, close) == Some(k as int) && start
                <= k < chars@.len(),
            None => match_close(chars@, start as int, 1, open, close) is None,
        },
{
    let len = chars.len();
    let mut depth: usize = 1;
    let mut i = start;
    while i < len
        invariant
            len == chars@.len(),
            start >= 1,
            start <= i,
            1 <= depth <= i - start + 1,
            match_close(chars@, start as int, 1, open, close) == match_close(
                chars@,
                i as int,
                depth as nat,
                open,
                close,
            ),
        decreases len - i,
    {
        let c = chars[i];
        if c == open {
            depth = depth + 1;
        } else if c == close {
            depth = depth - 1;
            if depth == 0 {
                return Some(i);
            }
        }
        i = i + 1;
    }
    None
}

/// Try to parse `[text](url)` at `pos`: text, url and the index after it.
fn try_parse_link(chars: &Vec<char>, pos: usize) -> (r: Option<(Vec<char>, Vec<char>, usize)>)
    ensures
        match r {
            Some((t, u, e)) => link_at(chars@, pos as int) == Some((t@, u@, e as int)) && pos < e
                <= chars@.len(),
            None => link_at(chars@, pos as int) is None,
        },
{
    let len = chars.len();
    if pos >= len || chars[pos] != '[' {
        return None;
    }
    let j = match match_close_exec(chars, pos + 1, '[', ']') {
        Some(j) => j,
        None => {
            return None;
        },
    };
    if j + 1 >= len || chars[j + 1] != '(' {
        return None;
    }
    let k = match match_close_exec(chars, j + 2, '(', ')') {
        Some(k) => k,
        None => {
            return None;
        },
    };
    let text = slice_of(chars, pos + 1, j);
    let url = slice_of(chars, j + 2, k);
    Some((text, url, k + 1))
}

/// Content between the delimiter `delim` at `pos` and its next occurrence
/// (empty content is not allowed), and the index after the closing
/// delimiter.
fn try_parse_delimited(chars: &Vec<char>, pos: usize, delim: &str) -> (r: Option<(Vec<char>, usize)>)
    requires
        delim@.len() > 0,
    ensures
        match r {
            Some((c, e)) => delimited(chars@, pos as int, delim@) == Some((c@, e as int)) && pos
                < e <= chars@.len(),
            None => delimited(chars@, pos as int, delim@) is None,
        },
{
    let d = chars_of(delim);
    let len = chars.len();
    let dl = d.len();
    if !crate::text::occurs_at_exec(chars, &d, pos) {
        return None;
    }
    let cs = pos + dl;
    let mut i = cs;
    while i < len && dl <= len - i
        invariant
            len == chars@.len(),
            dl == d@.len(),
            dl > 0,
            cs == pos + dl,
            cs <= i,
            cs <= len,
            d@ == delim@,
            occurs_at(chars@, d@, pos as int),
            delim_scan(chars@, d@, cs as int, cs as int) == delim_scan(
                chars@,
                d@,
                cs as int,
                i as int,
            ),
        decreases len - i,
    {
        if crate::text::occurs_at_exec(chars, &d, i) && i > cs {
            let content = slice_of(chars, cs, i);
            return Some((content, i + dl));
        }
        i = i + 1;
    }
    None
}

// ---------------------------------------------------------------------------
// Implementation: chunking
// ---------------------------------------------------------------------------

/// Where the chunk that starts at `i` ends (the rest being longer than
/// `max` characters).
fn chunk_end_exec(s: &Vec<char>, i: usize, max: usize) -> (e: usize)
    requires
        max > 0,
        i + max < s.len(),
    ensures
        e == chunk_end(s@, i as int, max as nat),
{
    let p = i + max;
    proof {
        lemma_rfind_in_range(s@, '\n', i as int, p as int);
        lemma_rfind_in_range(s@, ' ', i as int, p as int);
    }
    let b = match rfind_in_exec(s, '\n', i, p) {
        Some(j) => j + 1,
        None => match rfind_in_exec(s, ' ', i, p) {
            Some(j) => j + 1,
            None => p,
        },
    };
    let g = match rfind_in_exec(s, '>', i, b) {
        Some(g) => g + 1,
        None => i,
    };
    let o = match find_char_exec(s, '<', g) {
        Some(o) => if o < b {
            Some(o)
        } else {
            None
        },
        None => None,
    };
    match o {
        None => b,
        Some(o) => if o > i {
            o
        } else {
            match find_char_exec(s, '>', b) {
                Some(m) => if m < p {
                    m + 1
                } else {
                    b
                },
                None => b,
            }
        },
    }
}

/// Split a long HTML message into chunks of at most `max_len` characters.
///
/// A chunk ends after the last newline within the budget, else after the
/// last space, else at the budget. A break that would fall inside a tag
/// moves back before the tag; a tag that starts the chunk is kept whole
/// when it closes within the budget.
pub fn chunk_message(html: &str, max_len: usize) -> (r: Vec<String>)
    requires
        max_len > 0 || html@.len() <= max_len,
    ensures
        r@.map_values(|x: String| x@) == chunks(html@, max_len as nat),
{
    let s = chars_of(html);
    let len = s.len();
    let mut out: Vec<String> = Vec::new();
    if len <= max_len {
        out.push(string_of(&s));
        proof {
            assert(out@.map_values(|x: String| x@) =~= seq![s@]);
        }
        return out;
    }
    let mut i: usize = 0;
    while i < len
        invariant
            len == s@.len(),
            s@ == html@,
            i <= len,
            max_len > 0,
            len > max_len,
            chunks(s@, max_len as nat) == out@.map_values(|x: String| x@) + chunks_from(
                s@,
                i as int,
                max_len as nat,
            ),
        decreases len - i,
    {
        let ghost before = out@.map_values(|x: String| x@);
        if len - i <= max_len {
            let rest = slice_of(&s, i, len);
            out.push(string_of(&rest));
            proof {
                assert(chunks_from(s@, i as int, max_len as nat) == seq![rest@]);
                assert(out@.map_values(|x: String| x@) =~= before + seq![rest@]);
            }
            return out;
        }
        let e = chunk_end_exec(&s, i, max_len);
        proof {
            lemma_chunk_end(s@, i as int, max_len as nat);
        }
        let piece = slice_of(&s, i, e);
        out.push(string_of(&piece));
        proof {
            assert(out@.map_values(|x: String| x@) =~= before + seq![piece@]);
            assert(chunks_from(s@, i as int, max_len as nat) =~= seq![piece@] + chunks_from(
                s@,
                e as int,
                max_len as nat,
            ));
        }
        i = e;
    }
    proof {
        assert(out@.map_values(|x: String| x@) + chunks_from(s@, len as int, max_len as nat)
            =~= out@.map_values(|x: String| x@));
    }
    out
}

} // verus!
