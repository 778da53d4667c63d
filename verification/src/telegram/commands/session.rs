//! `/sessions`, `/usage` and `/model`: session listing and details.

use vstd::prelude::*;

use super::client::{ChatModelItem, SessionDetail, SessionListItem};
use super::{button_view, callback_button, keyboard_view, row_view, ButtonView, InlineButton};
use crate::text::{
    chars_of, cut_at_bytes, cut_at_bytes_exec, decimal, escape_html, opt_view, push_decimal,
    push_escaped_str, push_seq, push_str, slice_of, str_eq, string_of, truncate_bytes,
    truncate_str, utf8_len, utf8_width,
};

verus! {

// ---------------------------------------------------------------------------
// Timestamps
// ---------------------------------------------------------------------------

/// Whether the byte slices `[..10]` and `[11..16]` that shorten a timestamp
/// of at least 16 bytes fall on character boundaries.
pub open spec fn timestamp_sliceable(raw: Seq<char>) -> bool {
    utf8_len(raw) >= 16 ==> {
        &&& cut_at_bytes(raw, 0, 0, 10) is Some
        &&& cut_at_bytes(raw, 0, 0, 11) is Some
        &&& cut_at_bytes(raw, 0, 0, 16) is Some
    }
}

/// An ISO-8601 timestamp in the compact `YYYY-MM-DD HH:MM` form: bytes
/// `[..10]`, a space and bytes `[11..16]`; shorter input stays as it is.
pub open spec fn short_timestamp(raw: Seq<char>) -> Seq<char> {
    if utf8_len(raw) >= 16 {
        match (cut_at_bytes(raw, 0, 0, 10), cut_at_bytes(raw, 0, 0, 11), cut_at_bytes(raw, 0, 0, 16)) {
            (Some(a), Some(b), Some(c)) => raw.take(a) + seq![' '] + raw.subrange(b, c),
            _ => raw,
        }
    } else {
        raw
    }
}

/// A byte cut found by [`cut_at_bytes`] lies in the string and covers
/// exactly the counted bytes.
pub proof fn lemma_cut_at_bytes(s: Seq<char>, q: int, acc: int, n: int)
    requires
        0 <= q <= s.len(),
        acc <= n,
    ensures
        cut_at_bytes(s, q, acc, n) matches Some(k) ==> q <= k <= s.len() && acc + utf8_len(
            s.subrange(q, k),
        ) == n,
    decreases s.len() - q,
{
    if acc == n {
        assert(s.subrange(q, q) =~= Seq::<char>::empty());
    } else if q < s.len() && acc + utf8_width(s[q]) <= n {
        lemma_cut_at_bytes(s, q + 1, acc + utf8_width(s[q]), n);
        if let Some(k) = cut_at_bytes(s, q, acc, n) {
            crate::text::lemma_utf8_len_append(seq![s[q]], s.subrange(q + 1, k));
            assert(seq![s[q]] + s.subrange(q + 1, k) =~= s.subrange(q, k));
            assert(utf8_len(seq![s[q]]) == utf8_width(s[q])) by {
                reveal_with_fuel(utf8_len, 2);
                assert(seq![s[q]].drop_last() =~= Seq::<char>::empty());
            }
        }
    } else if q < s.len() {
        if acc + utf8_width(s[q]) > n {
            assert(cut_at_bytes(s, q + 1, acc + utf8_width(s[q]), n) is None) by {
                reveal_with_fuel(cut_at_bytes, 2);
                if q + 1 < s.len() {
                }
            }
        }
    }
}

/// A longer prefix has at least as many bytes.
proof fn lemma_utf8_len_prefix(s: Seq<char>, a: int, b: int)
    requires
        0 <= a <= b <= s.len(),
    ensures
        utf8_len(s.take(a)) <= utf8_len(s.take(b)),
{
    crate::text::lemma_utf8_len_append(s.take(a), s.subrange(a, b));
    assert(s.take(a) + s.subrange(a, b) =~= s.take(b));
}

/// Shorten an ISO-8601 timestamp to `YYYY-MM-DD HH:MM`.
pub fn format_timestamp(raw: &str) -> (r: String)
    requires
        timestamp_sliceable(raw@),
    ensures
        r@ == short_timestamp(raw@),
{
    let v = chars_of(raw);
    if crate::text::fits_in_bytes(&v, 0, 15) {
        proof {
            assert(v@.subrange(0, v@.len() as int) =~= v@);
        }
        return string_of(&v);
    }
    proof {
        assert(v@.subrange(0, v@.len() as int) =~= v@);
    }
    let a = cut_at_bytes_exec(&v, 0, 10);
    let b = cut_at_bytes_exec(&v, 0, 11);
    let c = cut_at_bytes_exec(&v, 0, 16);
    match (a, b, c) {
        (Some(a), Some(b), Some(c)) => {
            proof {
                lemma_cut_at_bytes(v@, 0, 0, 10);
                lemma_cut_at_bytes(v@, 0, 0, 11);
                lemma_cut_at_bytes(v@, 0, 0, 16);
                assert(v@.subrange(0, b as int) =~= v@.take(b as int));
                assert(v@.subrange(0, c as int) =~= v@.take(c as int));
                if c < b {
                    lemma_utf8_len_prefix(v@, c as int, b as int);
                }
            }
            let mut out = slice_of(&v, 0, a);
            out.push(' ');
            let tail = slice_of(&v, b, c);
            push_seq(&mut out, &tail);
            proof {
                assert(out@ =~= v@.take(a as int) + seq![' '] + v@.subrange(b as int, c as int));
            }
            string_of(&out)
        },
        _ => string_of(&v),
    }
}

// ---------------------------------------------------------------------------
// Display names and relative times
// ---------------------------------------------------------------------------

/// Display name of a listed session: the title cut to 30 bytes, else the
/// preview cut to 20 bytes, else `Untitled`.
pub open spec fn display_name(s: SessionListItem) -> Seq<char> {
    match s.title {
        Some(t) => truncate_bytes(t@, 30),
        None => match s.preview {
            Some(p) => truncate_bytes(p@, 20),
            None => "Untitled"@,
        },
    }
}

/// Resolve a human-readable display name for a session.
pub fn session_display_name(s: &SessionListItem) -> (r: String)
    ensures
        r@ == display_name(*s),
{
    match &s.title {
        Some(t) => truncate_str(t.as_str(), 30),
        None => match &s.preview {
            Some(p) => truncate_str(p.as_str(), 20),
            None => "Untitled".to_string(),
        },
    }
}

/// How long ago something happened, from the seconds elapsed since then;
/// empty when the time was unreadable.
pub open spec fn relative_time(elapsed: Option<i64>) -> Seq<char> {
    match elapsed {
        None => seq![],
        Some(secs) => if secs < 60 {
            "now"@
        } else if secs < 3600 {
            decimal((secs / 60) as nat) + "m ago"@
        } else if secs < 86400 {
            decimal((secs / 3600) as nat) + "h ago"@
        } else if secs / 86400 > 30 {
            "30d+ ago"@
        } else {
            decimal((secs / 86400) as nat) + "d ago"@
        },
    }
}

/// Compact relative time: `now`, `3m ago`, `2h ago`, `5d ago`, `30d+ ago`.
/// `elapsed` is the number of seconds since the timestamp, `None` when it
/// could not be read.
pub fn format_relative_time(elapsed: Option<i64>) -> (r: String)
    ensures
        r@ == relative_time(elapsed),
{
    match elapsed {
        None => String::new(),
        Some(secs) => {
            if secs < 60 {
                "now".to_string()
            } else if secs < 3600 {
                let mut out: Vec<char> = Vec::new();
                push_decimal(&mut out, (secs / 60) as u128);
                push_str(&mut out, "m ago");
                string_of(&out)
            } else if secs < 86400 {
                let mut out: Vec<char> = Vec::new();
                push_decimal(&mut out, (secs / 3600) as u128);
                push_str(&mut out, "h ago");
                string_of(&out)
            } else if secs / 86400 > 30 {
                "30d+ ago".to_string()
            } else {
                let mut out: Vec<char> = Vec::new();
                push_decimal(&mut out, (secs / 86400) as u128);
                push_str(&mut out, "d ago");
                string_of(&out)
            }
        },
    }
}

/// The instant an RFC 3339 timestamp names, as chrono reads it
/// (`DateTime::parse_from_rfc3339`): whole seconds since the epoch and the
/// nanoseconds past them; `None` when chrono rejects the text.
pub uninterp spec fn rfc3339_instant(s: Seq<char>) -> Option<(i64, u32)>;

/// The whole seconds from the instant `then` to the instant `now` as chrono
/// counts them (`signed_duration_since(..).num_seconds()`, truncated toward
/// zero); `None` when chrono cannot represent one of the instants.
pub uninterp spec fn chrono_seconds_between(now_secs: i64, now_nanos: u32, then_secs: i64, then_nanos: u32) -> Option<
    i64,
>;

/// `chrono::DateTime::parse_from_rfc3339`, read back as the timestamp and
/// its sub-second nanoseconds. The contract names the result and claims
/// nothing else of chrono's parser.
#[verifier::external_body]
fn parse_rfc3339(s: &str) -> (r: Option<(i64, u32)>)
    ensures
        r == rfc3339_instant(s@),
{
    chrono::DateTime::parse_from_rfc3339(s).ok().map(|d| (d.timestamp(), d.timestamp_subsec_nanos()))
}

/// `DateTime::<Utc>::signed_duration_since` between two instants given as
/// timestamps (built with `DateTime::from_timestamp`), in whole seconds.
/// The contract names the result.
#[verifier::external_body]
fn seconds_between(now_secs: i64, now_nanos: u32, then_secs: i64, then_nanos: u32) -> (r: Option<i64>)
    ensures
        r == chrono_seconds_between(now_secs, now_nanos, then_secs, then_nanos),
{
    match (
        chrono::DateTime::<chrono::Utc>::from_timestamp(now_secs, now_nanos),
        chrono::DateTime::<chrono::Utc>::from_timestamp(then_secs, then_nanos),
    ) {
        (Some(now), Some(then)) => Some(now.signed_duration_since(then).num_seconds()),
        _ => None,
    }
}

/// The seconds from an RFC 3339 timestamp to the instant `now`; `None`
/// when the timestamp cannot be read.
pub open spec fn age_of(updated_at: Seq<char>, now_secs: i64, now_nanos: u32) -> Option<i64> {
    match rfc3339_instant(updated_at) {
        Some((s, n)) => chrono_seconds_between(now_secs, now_nanos, s, n),
        None => None,
    }
}

/// The compact relative time of an RFC 3339 timestamp at the instant `now`
/// (the caller reads the clock): empty when the timestamp cannot be read.
pub fn relative_time_since(updated_at: &str, now_secs: i64, now_nanos: u32) -> (r: String)
    ensures
        r@ == relative_time(age_of(updated_at@, now_secs, now_nanos)),
{
    let age = match parse_rfc3339(updated_at) {
        Some((s, n)) => seconds_between(now_secs, now_nanos, s, n),
        None => None,
    };
    format_relative_time(age)
}

/// The relative times of the listed sessions at the instant `now`.
pub fn session_ages(sessions: &Vec<SessionListItem>, now_secs: i64, now_nanos: u32) -> (r: Vec<String>)
    ensures
        r@.len() == sessions@.len(),
        forall|i: int|
            0 <= i < r@.len() ==> #[trigger] r@[i]@ == relative_time(
                age_of(sessions@[i].updated_at@, now_secs, now_nanos),
            ),
{
    let mut ages: Vec<String> = Vec::new();
    for i in 0..sessions.len()
        invariant
            ages@.len() == i,
            forall|k: int|
                0 <= k < i ==> #[trigger] ages@[k]@ == relative_time(
                    age_of(sessions@[k].updated_at@, now_secs, now_nanos),
                ),
    {
        ages.push(relative_time_since(sessions[i].updated_at.as_str(), now_secs, now_nanos));
    }
    ages
}

// ---------------------------------------------------------------------------
// /sessions
// ---------------------------------------------------------------------------

/// The keyboard row of a listed session: its label (check mark when it is
/// the active one, display name, age) opening details or switching to it,
/// and a delete button.
pub open spec fn session_row(s: SessionListItem, active_key: Option<Seq<char>>, age: Seq<char>) -> Seq<
    ButtonView,
> {
    let active = active_key == Some(s.key@);
    let suffix = if age.len() == 0 {
        seq![]
    } else {
        " · "@ + age
    };
    let label = if active {
        "✅ "@ + display_name(s) + suffix
    } else {
        display_name(s) + suffix
    };
    let data = if active {
        "detail:"@ + truncate_bytes(s.key@, 56)
    } else {
        "switch:"@ + truncate_bytes(s.key@, 56)
    };
    seq![
        (label, Some(data), None::<Seq<char>>),
        ("🗑"@, Some("delete:"@ + truncate_bytes(s.key@, 56)), None::<Seq<char>>),
    ]
}

/// The `/sessions` header.
pub open spec fn sessions_header(n: nat) -> Seq<char> {
    "📋 Sessions ("@ + decimal(n) + " total)"@
}

/// One keyboard row of the `/sessions` list.
fn session_row_exec(s: &SessionListItem, active_key: &Option<String>, age: &String) -> (r: Vec<
    InlineButton,
>)
    ensures
        row_view(r) == session_row(*s, opt_view(*active_key), age@),
{
    let active = match active_key {
        Some(k) => str_eq(k.as_str(), s.key.as_str()),
        None => false,
    };
    let ghost suffix: Seq<char> = if age@.len() == 0 {
        seq![]
    } else {
        " · "@ + age@
    };
    proof {
        assert(active == (opt_view(*active_key) == Some(s.key@)));
    }
    let name = session_display_name(s);
    let mut label: Vec<char> = Vec::new();
    if active {
        push_str(&mut label, "✅ ");
    }
    push_str(&mut label, name.as_str());
    let ghost head = label@;
    let age_chars = chars_of(age.as_str());
    if age_chars.len() > 0 {
        push_str(&mut label, " · ");
        push_str(&mut label, age.as_str());
    }
    proof {
        reveal_strlit("");
        assert(label@ =~= head + suffix);
        if active {
            assert(label@ =~= "✅ "@ + display_name(*s) + suffix);
        } else {
            assert(label@ =~= display_name(*s) + suffix);
        }
    }
    let key = truncate_str(s.key.as_str(), 56);
    let mut data: Vec<char> = Vec::new();
    if active {
        push_str(&mut data, "detail:");
    } else {
        push_str(&mut data, "switch:");
    }
    push_str(&mut data, key.as_str());
    let mut del: Vec<char> = Vec::new();
    push_str(&mut del, "delete:");
    push_str(&mut del, key.as_str());
    let b1 = callback_button(string_of(&label), string_of(&data));
    let b2 = callback_button("🗑".to_string(), string_of(&del));
    let mut row: Vec<InlineButton> = Vec::new();
    row.push(b1);
    row.push(b2);
    proof {
        let expect = session_row(*s, opt_view(*active_key), age@);
        assert(row_view(row)[0] == expect[0]);
        assert(row_view(row)[1] == expect[1]);
        assert(row_view(row) =~= expect);
    }
    row
}

/// The `/sessions` keyboard: one row per listed session. `ages[i]` is the
/// relative time of `sessions[i]` (see [`format_relative_time`]).
pub fn sessions_keyboard(
    sessions: &Vec<SessionListItem>,
    active_key: &Option<String>,
    ages: &Vec<String>,
) -> (r: Vec<Vec<InlineButton>>)
    requires
        ages@.len() == sessions@.len(),
    ensures
        keyboard_view(r@) == Seq::new(
            sessions@.len(),
            |i: int| session_row(sessions@[i], opt_view(*active_key), ages@[i]@),
        ),
{
    let mut rows: Vec<Vec<InlineButton>> = Vec::new();
    let n = sessions.len();
    for i in 0..n
        invariant
            n == sessions@.len(),
            ages@.len() == n,
            keyboard_view(rows@) == Seq::new(
                i as nat,
                |j: int| session_row(sessions@[j], opt_view(*active_key), ages@[j]@),
            ),
    {
        let row = session_row_exec(&sessions[i], active_key, &ages[i]);
        let ghost before = rows@;
        rows.push(row);
        proof {
            assert(keyboard_view(rows@) =~= keyboard_view(before).push(row_view(row)));
            assert(keyboard_view(rows@) =~= Seq::new(
                (i + 1) as nat,
                |j: int| session_row(sessions@[j], opt_view(*active_key), ages@[j]@),
            ));
        }
    }
    rows
}

/// The `/sessions` header line.
pub fn sessions_header_text(n: usize) -> (r: String)
    ensures
        r@ == sessions_header(n as nat),
{
    let mut out: Vec<char> = Vec::new();
    push_str(&mut out, "📋 Sessions (");
    push_decimal(&mut out, n as u128);
    push_str(&mut out, " total)");
    string_of(&out)
}

// ---------------------------------------------------------------------------
// /usage
// ---------------------------------------------------------------------------

/// The title shown for a session: its title, else its preview, else
/// `Untitled`.
pub open spec fn detail_title(d: SessionDetail) -> Seq<char> {
    match d.title {
        Some(t) => t@,
        None => match d.preview {
            Some(p) => p@,
            None => "Untitled"@,
        },
    }
}

/// Title of a session as [`detail_title`] says.
pub fn session_title(d: &SessionDetail) -> (r: String)
    ensures
        r@ == detail_title(*d),
{
    match &d.title {
        Some(t) => t.clone(),
        None => match &d.preview {
            Some(p) => p.clone(),
            None => "Untitled".to_string(),
        },
    }
}

/// Whether the timestamps of a session can be shortened.
pub open spec fn detail_sliceable(d: SessionDetail) -> bool {
    timestamp_sliceable(d.created_at@) && timestamp_sliceable(d.updated_at@)
}

/// The model line of the `/usage` report, when the session has a model.
pub open spec fn usage_model_line(d: SessionDetail) -> Seq<char> {
    match d.model {
        Some(m) => "<b>Model:</b> "@ + escape_html(m@) + "\n"@,
        None => seq![],
    }
}

/// The last-message block of the `/usage` report, when there is a preview.
pub open spec fn usage_preview_block(d: SessionDetail) -> Seq<char> {
    match d.preview {
        Some(p) => "\n<b>Last message:</b>\n"@ + escape_html(truncate_bytes(p@, 200)) + "\n"@,
        None => seq![],
    }
}

/// The `/usage` report of a session.
pub open spec fn usage_report(d: SessionDetail) -> Seq<char> {
    "<b>Session:</b> "@ + escape_html(detail_title(d)) + "\n<b>Key:</b> <code>"@ + escape_html(d.key@)
        + "</code>\n"@ + usage_model_line(d) + "<b>Created:</b> "@ + short_timestamp(d.created_at@)
        + "\n<b>Last active:</b> "@ + short_timestamp(d.updated_at@) + "\n"@ + usage_preview_block(d)
}

/// Render the `/usage` report of a session.
pub fn usage_text(d: &SessionDetail) -> (r: String)
    requires
        detail_sliceable(*d),
    ensures
        r@ == usage_report(*d),
{
    let title = session_title(d);
    let mut out: Vec<char> = Vec::new();
    push_str(&mut out, "<b>Session:</b> ");
    push_escaped_str(&mut out, title.as_str());
    push_str(&mut out, "\n<b>Key:</b> <code>");
    push_escaped_str(&mut out, d.key.as_str());
    push_str(&mut out, "</code>\n");
    let ghost p1 = out@;
    match &d.model {
        Some(m) => {
            push_str(&mut out, "<b>Model:</b> ");
            push_escaped_str(&mut out, m.as_str());
            push_str(&mut out, "\n");
        },
        None => {},
    }
    let ghost p2 = out@;
    push_str(&mut out, "<b>Created:</b> ");
    push_str(&mut out, format_timestamp(d.created_at.as_str()).as_str());
    push_str(&mut out, "\n<b>Last active:</b> ");
    push_str(&mut out, format_timestamp(d.updated_at.as_str()).as_str());
    push_str(&mut out, "\n");
    let ghost p3 = out@;
    match &d.preview {
        Some(p) => {
            push_str(&mut out, "\n<b>Last message:</b>\n");
            push_escaped_str(&mut out, truncate_str(p.as_str(), 200).as_str());
            push_str(&mut out, "\n");
        },
        None => {},
    }
    proof {
        assert(p2 =~= p1 + usage_model_line(*d));
        assert(out@ =~= p3 + usage_preview_block(*d));
        assert(out@ =~= usage_report(*d));
    }
    string_of(&out)
}

// ---------------------------------------------------------------------------
// /model
// ---------------------------------------------------------------------------

/// The keyboard row of a chat model: check mark on the current one, the
/// context length in thousands, switching to it on tap.
pub open spec fn model_row(m: ChatModelItem, current: Option<Seq<char>>) -> Seq<ButtonView> {
    let suffix = match m.context_length {
        Some(c) => " · "@ + decimal((c / 1000) as nat) + "k"@,
        None => seq![],
    };
    let label = if current == Some(m.id@) {
        "✅ "@ + m.name@ + suffix
    } else {
        m.name@ + suffix
    };
    seq![(label, Some("model:"@ + truncate_bytes(m.id@, 56)), None::<Seq<char>>)]
}

/// The `/model` keyboard: one row per model.
pub fn models_keyboard(models: &Vec<ChatModelItem>, current: &Option<String>) -> (r: Vec<
    Vec<InlineButton>,
>)
    ensures
        keyboard_view(r@) == Seq::new(models@.len(), |i: int| model_row(models@[i], opt_view(*current))),
{
    let mut rows: Vec<Vec<InlineButton>> = Vec::new();
    let n = models.len();
    for i in 0..n
        invariant
            n == models@.len(),
            keyboard_view(rows@) == Seq::new(i as nat, |j: int| model_row(models@[j], opt_view(*current))),
    {
        let m = &models[i];
        let is_current = match current {
            Some(c) => str_eq(c.as_str(), m.id.as_str()),
            None => false,
        };
        let mut label: Vec<char> = Vec::new();
        if is_current {
            push_str(&mut label, "✅ ");
        }
        push_str(&mut label, m.name.as_str());
        let ghost before = label@;
        match m.context_length {
            Some(c) => {
                push_str(&mut label, " · ");
                push_decimal(&mut label, (c / 1000) as u128);
                push_str(&mut label, "k");
            },
            None => {},
        }
        proof {
            let suffix: Seq<char> = match m.context_length {
                Some(c) => " · "@ + decimal((c / 1000) as nat) + "k"@,
                None => seq![],
            };
            assert(label@ =~= before + suffix);
            assert(is_current == (opt_view(*current) == Some(m.id@)));
            if is_current {
                assert(label@ =~= "✅ "@ + m.name@ + suffix);
            } else {
                assert(label@ =~= m.name@ + suffix);
            }
        }
        let mut data: Vec<char> = Vec::new();
        push_str(&mut data, "model:");
        push_str(&mut data, truncate_str(m.id.as_str(), 56).as_str());
        let mut row: Vec<InlineButton> = Vec::new();
        row.push(callback_button(string_of(&label), string_of(&data)));
        proof {
            assert(row_view(row)[0] == model_row(*m, opt_view(*current))[0]);
            assert(row_view(row) =~= model_row(*m, opt_view(*current)));
        }
        let ghost before_rows = rows@;
        rows.push(row);
        proof {
            assert(keyboard_view(rows@) =~= keyboard_view(before_rows).push(row_view(row)));
            assert(keyboard_view(rows@) =~= Seq::new(
                (i + 1) as nat,
                |j: int| model_row(models@[j], opt_view(*current)),
            ));
        }
    }
    rows
}

/// The `/model` header line.
pub fn models_header_text(n: usize) -> (r: String)
    ensures
        r@ == "🤖 Models ("@ + decimal(n as nat) + " total)"@,
{
    let mut out: Vec<char> = Vec::new();
    push_str(&mut out, "🤖 Models (");
    push_decimal(&mut out, n as u128);
    push_str(&mut out, " total)");
    string_of(&out)
}

/// The `/model` reply when no model list is available: the current model
/// and how to switch.
pub fn current_model_text(model: &Option<String>) -> (r: String)
    ensures
        r@ == "Model: <b>"@ + escape_html(
            match *model {
                Some(m) => m@,
                None => "(default)"@,
            },
        ) + "</b>\n\nSwitch: <code>/model model-name</code>"@,
{
    let mut out: Vec<char> = Vec::new();
    push_str(&mut out, "Model: <b>");
    match model {
        Some(m) => push_escaped_str(&mut out, m.as_str()),
        None => push_escaped_str(&mut out, "(default)"),
    }
    push_str(&mut out, "</b>\n\nSwitch: <code>/model model-name</code>");
    string_of(&out)
}

/// The `/model <name>` reply after the backend updated the session.
pub fn model_updated_text(d: &SessionDetail) -> (r: String)
    ensures
        r@ == "Model updated.\nSession <code>"@ + escape_html(d.key@) + "</code>\nModel: <b>"@
            + escape_html(
            match d.model {
                Some(m) => m@,
                None => "(default)"@,
            },
        ) + "</b>"@,
{
    let mut out: Vec<char> = Vec::new();
    push_str(&mut out, "Model updated.\nSession <code>");
    push_escaped_str(&mut out, d.key.as_str());
    push_str(&mut out, "</code>\nModel: <b>");
    match &d.model {
        Some(m) => push_escaped_str(&mut out, m.as_str()),
        None => push_escaped_str(&mut out, "(default)"),
    }
    push_str(&mut out, "</b>");
    string_of(&out)
}

} // verus!
