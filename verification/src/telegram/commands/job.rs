//! The job commands: `/search` (its arguments, its results and the search
//! parameters carried in the callback data of its "more results" button)
//! and `/jd`.

use vstd::prelude::*;

use super::client::DiscoveryJob;
use super::{callback_button, keyboard_view, row_view, ButtonView, CommandReply, InlineButton};
use crate::text::{
    find_str_exec, find_str_from, lemma_find_char_from, opt_view, strs_view, trim, trim_exec, words, words_exec,
    chars_of, decimal, escape_html, push_decimal, push_escaped_html, push_escaped_str, push_seq,
    push_signed, push_str, signed_decimal, slice_of, string_of,
};

verus! {

// ---------------------------------------------------------------------------
// Splitting and joining
// ---------------------------------------------------------------------------

/// The pieces `str::split(sep)` yields from `s`, scanning from index `i`
/// with the current piece starting at `start`.
pub open spec fn split_from(s: Seq<char>, sep: char, i: int, start: int) -> Seq<Seq<char>>
    decreases s.len() - i,
{
    if i < 0 || i >= s.len() {
        seq![s.subrange(start, s.len() as int)]
    } else if s[i] == sep {
        seq![s.subrange(start, i)] + split_from(s, sep, i + 1, i + 1)
    } else {
        split_from(s, sep, i + 1, start)
    }
}

/// `s.split(sep)`: the pieces between separators (one piece, `s`, when
/// there is none).
pub open spec fn split_on(s: Seq<char>, sep: char) -> Seq<Seq<char>> {
    split_from(s, sep, 0, 0)
}

/// `pieces.join(sep)`.
pub open spec fn join_with(pieces: Seq<Seq<char>>, sep: Seq<char>) -> Seq<char>
    decreases pieces.len(),
{
    if pieces.len() == 0 {
        seq![]
    } else if pieces.len() == 1 {
        pieces[0]
    } else {
        join_with(pieces.drop_last(), sep) + sep + pieces.last()
    }
}

/// Whether `c` occurs nowhere in `s`.
pub open spec fn free_of(s: Seq<char>, c: char) -> bool {
    forall|k: int| 0 <= k < s.len() ==> s[k] != c
}

/// Search parameters in callback data: the keywords joined by `+`, then
/// `@` and the location when there is one.
pub open spec fn encoded_params(keywords: Seq<Seq<char>>, location: Option<Seq<char>>) -> Seq<char> {
    match location {
        Some(l) => join_with(keywords, seq!['+']) + seq!['@'] + l,
        None => join_with(keywords, seq!['+']),
    }
}

/// Search parameters read back from callback data: the keywords before the
/// first `@` split at `+`, and what follows that `@` as the location.
pub open spec fn decoded_params(e: Seq<char>) -> (Seq<Seq<char>>, Option<Seq<char>>) {
    match crate::text::find_char(e, '@') {
        Some(i) => (split_on(e.take(i), '+'), Some(e.skip(i + 1))),
        None => (split_on(e, '+'), None),
    }
}

/// Joining a piece in front of at least one more piece.
proof fn lemma_join_front(p: Seq<char>, rest: Seq<Seq<char>>, sep: Seq<char>)
    requires
        rest.len() > 0,
    ensures
        join_with(seq![p] + rest, sep) == p + sep + join_with(rest, sep),
    decreases rest.len(),
{
    let all = seq![p] + rest;
    if rest.len() == 1 {
        assert(all.drop_last() =~= seq![p]);
        assert(join_with(seq![p], sep) == p);
        assert(all.last() == rest[0]);
    } else {
        lemma_join_front(p, rest.drop_last(), sep);
        assert(all.drop_last() =~= seq![p] + rest.drop_last());
        assert(all.last() == rest.last());
        assert(join_with(rest, sep) == join_with(rest.drop_last(), sep) + sep + rest.last());
        assert(join_with(all, sep) =~= p + sep + join_with(rest, sep));
    }
}

/// Scanning a string that starts with a separator-free prefix `p` and a
/// separator: the prefix is the first piece and the rest splits on its own.
proof fn lemma_split_shift(p: Seq<char>, y: Seq<char>, sep: char, i: int, start: int)
    requires
        0 <= start <= i <= y.len(),
    ensures
        split_from(p + y, sep, p.len() + i, p.len() + start) == split_from(y, sep, i, start),
    decreases y.len() - i,
{
    let s = p + y;
    if i < y.len() {
        assert(s[p.len() + i] == y[i]);
        if y[i] == sep {
            lemma_split_shift(p, y, sep, i + 1, i + 1);
            assert(s.subrange(p.len() + start, p.len() + i) =~= y.subrange(start, i));
        } else {
            lemma_split_shift(p, y, sep, i + 1, start);
        }
    } else {
        assert(s.subrange(p.len() + start, s.len() as int) =~= y.subrange(start, y.len() as int));
    }
}

/// Scanning a separator-free stretch keeps the current piece open.
proof fn lemma_split_skip(s: Seq<char>, sep: char, i: int, j: int, start: int)
    requires
        0 <= start <= i <= j <= s.len(),
        forall|k: int| i <= k < j ==> s[k] != sep,
    ensures
        split_from(s, sep, i, start) == split_from(s, sep, j, start),
    decreases j - i,
{
    if i < j {
        lemma_split_skip(s, sep, i + 1, j, start);
    }
}

/// Splitting a joined list of separator-free pieces gives the pieces back.
pub proof fn lemma_split_join(pieces: Seq<Seq<char>>, sep: char)
    requires
        pieces.len() > 0,
        forall|k: int| 0 <= k < pieces.len() ==> free_of(#[trigger] pieces[k], sep),
    ensures
        split_on(join_with(pieces, seq![sep]), sep) == pieces,
    decreases pieces.len(),
{
    let p = pieces[0];
    if pieces.len() == 1 {
        lemma_split_skip(p, sep, 0, p.len() as int, 0);
        assert(p.subrange(0, p.len() as int) =~= p);
        assert(seq![p] =~= pieces);
    } else {
        let rest = pieces.subrange(1, pieces.len() as int);
        assert(pieces =~= seq![p] + rest);
        lemma_join_front(p, rest, seq![sep]);
        assert forall|k: int| 0 <= k < rest.len() implies free_of(#[trigger] rest[k], sep) by {
            assert(rest[k] == pieces[k + 1]);
        }
        lemma_split_join(rest, sep);
        let y = join_with(rest, seq![sep]);
        let s = p + seq![sep] + y;
        assert(free_of(p, sep)) by {
            assert(pieces[0] == p);
        }
        lemma_split_skip(s, sep, 0, p.len() as int, 0);
        assert(s[p.len() as int] == sep);
        assert(s.subrange(0, p.len() as int) =~= p);
        assert(s =~= (p + seq![sep]) + y);
        lemma_split_shift(p + seq![sep], y, sep, 0, 0);
    }
}

/// Joining the pieces of a split gives the string back, from any scan
/// position whose open piece holds no separator yet.
proof fn lemma_join_split_from(s: Seq<char>, sep: char, i: int, start: int)
    requires
        0 <= start <= i <= s.len(),
        forall|k: int| start <= k < i ==> s[k] != sep,
    ensures
        join_with(split_from(s, sep, i, start), seq![sep]) == s.subrange(start, s.len() as int),
    decreases s.len() - i,
{
    if i < s.len() {
        if s[i] == sep {
            lemma_join_split_from(s, sep, i + 1, i + 1);
            lemma_split_nonempty(s, sep, i + 1, i + 1);
            lemma_join_front(s.subrange(start, i), split_from(s, sep, i + 1, i + 1), seq![sep]);
            assert(s.subrange(start, i) + seq![sep] + s.subrange(i + 1, s.len() as int) =~= s.subrange(
                start,
                s.len() as int,
            ));
        } else {
            lemma_join_split_from(s, sep, i + 1, start);
        }
    }
}

/// A split has at least one piece.
proof fn lemma_split_nonempty(s: Seq<char>, sep: char, i: int, start: int)
    ensures
        split_from(s, sep, i, start).len() > 0,
    decreases s.len() - i,
{
    if 0 <= i < s.len() && s[i] != sep {
        lemma_split_nonempty(s, sep, i + 1, start);
    }
}

/// The pieces of a split hold no separator.
proof fn lemma_split_free(s: Seq<char>, sep: char, i: int, start: int)
    requires
        0 <= start <= i <= s.len(),
        forall|k: int| start <= k < i ==> s[k] != sep,
    ensures
        forall|k: int|
            0 <= k < split_from(s, sep, i, start).len() ==> free_of(
                #[trigger] split_from(s, sep, i, start)[k],
                sep,
            ),
    decreases s.len() - i,
{
    if i < s.len() {
        if s[i] == sep {
            lemma_split_free(s, sep, i + 1, i + 1);
            let rest = split_from(s, sep, i + 1, i + 1);
            let first = s.subrange(start, i);
            assert(split_from(s, sep, i, start) == seq![first] + rest);
            assert forall|k: int| 0 <= k < split_from(s, sep, i, start).len() implies free_of(
                #[trigger] split_from(s, sep, i, start)[k],
                sep,
            ) by {
                if k > 0 {
                    assert(split_from(s, sep, i, start)[k] == rest[k - 1]);
                } else {
                    assert(split_from(s, sep, i, start)[k] == first);
                    assert forall|m: int| 0 <= m < first.len() implies first[m] != sep by {
                        assert(first[m] == s[start + m]);
                    }
                }
            }
        } else {
            lemma_split_free(s, sep, i + 1, start);
            assert(split_from(s, sep, i, start) == split_from(s, sep, i + 1, start));
        }
    } else {
        let only = s.subrange(start, s.len() as int);
        assert(split_from(s, sep, i, start) == seq![only]);
        assert forall|m: int| 0 <= m < only.len() implies only[m] != sep by {
            assert(only[m] == s[start + m]);
        }
        assert(free_of(split_from(s, sep, i, start)[0], sep));
    }
}

/// A joined list of pieces free of `c`, with a separator other than `c`,
/// holds no `c`.
proof fn lemma_join_free(pieces: Seq<Seq<char>>, sep: Seq<char>, c: char)
    requires
        free_of(sep, c),
        forall|k: int| 0 <= k < pieces.len() ==> free_of(#[trigger] pieces[k], c),
    ensures
        free_of(join_with(pieces, sep), c),
    decreases pieces.len(),
{
    if pieces.len() > 1 {
        assert forall|k: int| 0 <= k < pieces.drop_last().len() implies free_of(
            #[trigger] pieces.drop_last()[k],
            c,
        ) by {
            assert(pieces.drop_last()[k] == pieces[k]);
        }
        lemma_join_free(pieces.drop_last(), sep, c);
        assert(free_of(pieces.last(), c)) by {
            assert(pieces[pieces.len() - 1] == pieces.last());
        }
    } else if pieces.len() == 1 {
        assert(free_of(pieces[0], c));
    }
}

/// The first `c` of `a + [c] + b` is right after `a` when `a` holds none.
proof fn lemma_find_after(a: Seq<char>, b: Seq<char>, c: char, i: int)
    requires
        free_of(a, c),
        0 <= i <= a.len(),
    ensures
        crate::text::find_char_from(a + seq![c] + b, c, i) == Some(a.len() as int),
    decreases a.len() - i,
{
    let s = a + seq![c] + b;
    if i < a.len() {
        assert(s[i] == a[i]);
        lemma_find_after(a, b, c, i + 1);
    } else {
        assert(s[a.len() as int] == c);
    }
}

/// No `c` at or after `i` when `s` holds none.
proof fn lemma_find_none(s: Seq<char>, c: char, i: int)
    requires
        free_of(s, c),
        0 <= i,
    ensures
        crate::text::find_char_from(s, c, i) is None,
    decreases s.len() - i,
{
    if i < s.len() {
        lemma_find_none(s, c, i + 1);
    }
}


// ---------------------------------------------------------------------------
// Laws
// ---------------------------------------------------------------------------

/// Decoding what was encoded gives back the keywords and the location, for
/// at least one keyword, none of which holds `+` or `@`.
pub proof fn law_decode_inverts_encode(keywords: Seq<Seq<char>>, location: Option<Seq<char>>)
    requires
        keywords.len() > 0,
        forall|k: int| 0 <= k < keywords.len() ==> free_of(#[trigger] keywords[k], '+') && free_of(
            keywords[k],
            '@',
        ),
    ensures
        decoded_params(encoded_params(keywords, location)) == (keywords, location),
{
    let kw = join_with(keywords, seq!['+']);
    lemma_split_join(keywords, '+');
    assert forall|k: int| 0 <= k < keywords.len() implies free_of(#[trigger] keywords[k], '@') by {}
    assert(free_of(seq!['+'], '@'));
    lemma_join_free(keywords, seq!['+'], '@');
    match location {
        Some(l) => {
            lemma_find_after(kw, l, '@', 0);
            let e = kw + seq!['@'] + l;
            assert(e.take(kw.len() as int) =~= kw);
            assert(e.skip(kw.len() as int + 1) =~= l);
        },
        None => {
            lemma_find_none(kw, '@', 0);
        },
    }
}

/// Encoding what was decoded gives back the callback data, whatever it was.
pub proof fn law_encode_inverts_decode(e: Seq<char>)
    ensures
        encoded_params(decoded_params(e).0, decoded_params(e).1) == e,
{
    lemma_find_char_from(e, '@', 0);
    match crate::text::find_char(e, '@') {
        Some(i) => {
            let kw = e.take(i);
            lemma_join_split_from(kw, '+', 0, 0);
            assert(kw.subrange(0, kw.len() as int) =~= kw);
            assert(kw + seq!['@'] + e.skip(i + 1) =~= e);
        },
        None => {
            lemma_join_split_from(e, '+', 0, 0);
            assert(e.subrange(0, e.len() as int) =~= e);
        },
    }
}

// ---------------------------------------------------------------------------
// Encoding and decoding
// ---------------------------------------------------------------------------

/// Views of a list of strings.
pub open spec fn string_views(v: Seq<String>) -> Seq<Seq<char>> {
    v.map_values(|s: String| s@)
}

/// `pieces.join(sep)` on strings.
fn join_strings(pieces: &Vec<String>, sep: &str) -> (r: Vec<char>)
    ensures
        r@ == join_with(string_views(pieces@), sep@),
{
    let mut out: Vec<char> = Vec::new();
    let n = pieces.len();
    if n == 0 {
        proof {
            assert(string_views(pieces@).len() == 0);
        }
        return out;
    }
    push_str(&mut out, pieces[0].as_str());
    let mut i: usize = 1;
    while i < n
        invariant
            1 <= i <= n,
            n == pieces@.len(),
            out@ == join_with(string_views(pieces@).take(i as int), sep@),
        decreases n - i,
    {
        proof {
            assert(string_views(pieces@).take(i + 1).drop_last() =~= string_views(pieces@).take(
                i as int,
            ));
        }
        push_str(&mut out, sep);
        push_str(&mut out, pieces[i].as_str());
        i = i + 1;
    }
    proof {
        assert(string_views(pieces@).take(n as int) =~= string_views(pieces@));
    }
    out
}

/// `s.split(sep)` collected into strings.
fn split_strings(s: &Vec<char>, sep: char) -> (r: Vec<String>)
    ensures
        string_views(r@) == split_on(s@, sep),
{
    let mut out: Vec<String> = Vec::new();
    let n = s.len();
    let mut start: usize = 0;
    let mut i: usize = 0;
    while i < n
        invariant
            start <= i <= n,
            n == s@.len(),
            string_views(out@) + split_from(s@, sep, i as int, start as int) == split_on(s@, sep),
        decreases n - i,
    {
        if s[i] == sep {
            let piece = slice_of(s, start, i);
            let ghost before = out@;
            out.push(string_of(&piece));
            proof {
                assert(string_views(out@) =~= string_views(before).push(piece@));
                assert(string_views(out@) + split_from(s@, sep, i + 1, i + 1) =~= string_views(
                    before,
                ) + split_from(s@, sep, i as int, start as int));
            }
            start = i + 1;
        }
        i = i + 1;
    }
    let piece = slice_of(s, start, n);
    let ghost before = out@;
    out.push(string_of(&piece));
    proof {
        assert(string_views(out@) =~= string_views(before) + split_from(s@, sep, n as int, start as int));
    }
    out
}

/// Encode search params for callback data: `keyword1+keyword2@location`.
pub fn encode_search_params(keywords: &Vec<String>, location: Option<&str>) -> (r: String)
    ensures
        r@ == encoded_params(
            string_views(keywords@),
            match location {
                Some(l) => Some(l@),
                None => None,
            },
        ),
{
    let mut out = join_strings(keywords, "+");
    proof {
        reveal_strlit("+");
        assert("+"@ =~= seq!['+']);
    }
    let ghost kw = out@;
    match location {
        Some(l) => {
            out.push('@');
            push_str(&mut out, l);
            proof {
                assert(out@ =~= kw + seq!['@'] + l@);
            }
        },
        None => {},
    }
    string_of(&out)
}

/// Decode search params from callback data.
pub fn decode_search_params(encoded: &str) -> (r: (Vec<String>, Option<String>))
    ensures
        string_views(r.0@) == decoded_params(encoded@).0,
        crate::text::opt_view(r.1) == decoded_params(encoded@).1,
{
    let e = chars_of(encoded);
    match crate::text::find_char_exec(&e, '@', 0) {
        Some(i) => {
            assert(i < e.len());
            let kw = slice_of(&e, 0, i);
            let loc = slice_of(&e, i + 1, e.len());
            proof {
                assert(kw@ =~= e@.take(i as int));
                assert(loc@ =~= e@.skip(i + 1));
            }
            (split_strings(&kw, '+'), Some(string_of(&loc)))
        },
        None => (split_strings(&e, '+'), None),
    }
}

// ---------------------------------------------------------------------------
// Results
// ---------------------------------------------------------------------------

/// The location part of a job entry.
pub open spec fn job_location_part(job: DiscoveryJob) -> Seq<char> {
    match job.location {
        Some(l) => "   "@ + escape_html(l@),
        None => seq![],
    }
}

/// The salary part of a job entry, when both bounds are known.
pub open spec fn job_salary_part(job: DiscoveryJob) -> Seq<char> {
    match (job.salary_min, job.salary_max) {
        (Some(lo), Some(hi)) => " | "@ + signed_decimal(lo as int) + "-"@ + signed_decimal(hi as int)
            + " "@ + match job.salary_currency {
            Some(c) => c@,
            None => seq![],
        },
        _ => seq![],
    }
}

/// The URL line of a job entry.
pub open spec fn job_url_part(job: DiscoveryJob) -> Seq<char> {
    match job.url {
        Some(u) => "   "@ + u@ + "\n"@,
        None => seq![],
    }
}

/// One job of the results, numbered `number`.
pub open spec fn job_entry(number: nat, job: DiscoveryJob) -> Seq<char> {
    "<b>"@ + decimal(number) + ".</b> "@ + escape_html(job.title@) + " - "@ + escape_html(job.company@)
        + "\n"@ + job_location_part(job) + job_salary_part(job) + "\n"@ + job_url_part(job) + "\n"@
}

/// The entries of the first `n` jobs.
pub open spec fn job_entries(jobs: Seq<DiscoveryJob>, n: nat) -> Seq<char>
    decreases n,
{
    if n == 0 {
        seq![]
    } else {
        job_entries(jobs, (n - 1) as nat) + job_entry(n, jobs[n - 1])
    }
}

/// The search results: a header with the count, keywords and location
/// (`any` when none), then the numbered jobs.
pub open spec fn job_results(
    jobs: Seq<DiscoveryJob>,
    keywords: Seq<Seq<char>>,
    location: Option<Seq<char>>,
) -> Seq<char> {
    "Found <b>"@ + decimal(jobs.len()) + "</b> jobs for <i>"@ + escape_html(join_with(keywords, " "@))
        + "</i> @ <i>"@ + escape_html(
        match location {
            Some(l) => l,
            None => "any"@,
        },
    ) + "</i>:\n\n"@ + job_entries(jobs, jobs.len())
}

/// Append the salary part of a job entry.
fn push_job_salary(out: &mut Vec<char>, job: &DiscoveryJob)
    ensures
        final(out)@ == old(out)@ + job_salary_part(*job),
{
    let ghost start = out@;
    match (job.salary_min, job.salary_max) {
        (Some(lo), Some(hi)) => {
            push_str(out, " | ");
            push_signed(out, lo as i64);
            push_str(out, "-");
            push_signed(out, hi as i64);
            push_str(out, " ");
            let ghost m = out@;
            match &job.salary_currency {
                Some(c) => push_str(out, c.as_str()),
                None => {},
            }
            proof {
                assert(out@ =~= start + job_salary_part(*job));
            }
        },
        _ => {
            proof {
                assert(out@ =~= start + job_salary_part(*job));
            }
        },
    }
}

/// Append the URL line of a job entry.
fn push_job_url(out: &mut Vec<char>, job: &DiscoveryJob)
    ensures
        final(out)@ == old(out)@ + job_url_part(*job),
{
    let ghost start = out@;
    match &job.url {
        Some(u) => {
            push_str(out, "   ");
            push_str(out, u.as_str());
            push_str(out, "\n");
            proof {
                assert(out@ =~= start + job_url_part(*job));
            }
        },
        None => {
            proof {
                assert(out@ =~= start + job_url_part(*job));
            }
        },
    }
}

/// Append one job entry.
fn push_job_entry(out: &mut Vec<char>, number: usize, job: &DiscoveryJob)
    ensures
        final(out)@ == old(out)@ + job_entry(number as nat, *job),
{
    let ghost start = out@;
    push_str(out, "<b>");
    push_decimal(out, number as u128);
    push_str(out, ".</b> ");
    push_escaped_str(out, job.title.as_str());
    push_str(out, " - ");
    push_escaped_str(out, job.company.as_str());
    push_str(out, "\n");
    let ghost a = out@;
    match &job.location {
        Some(l) => {
            push_str(out, "   ");
            push_escaped_str(out, l.as_str());
        },
        None => {},
    }
    let ghost b = out@;
    push_job_salary(out, job);
    let ghost c = out@;
    push_str(out, "\n");
    push_job_url(out, job);
    let ghost d = out@;
    push_str(out, "\n");
    proof {
        assert(b =~= a + job_location_part(*job));
        assert(c =~= b + job_salary_part(*job));
        assert(d =~= c + "\n"@ + job_url_part(*job));
        assert(out@ =~= start + job_entry(number as nat, *job));
    }
}

/// Format job results as HTML.
pub fn format_job_results(jobs: &Vec<DiscoveryJob>, keywords: &Vec<String>, location: Option<&str>) -> (r:
    String)
    ensures
        r@ == job_results(
            jobs@,
            string_views(keywords@),
            match location {
                Some(l) => Some(l@),
                None => None,
            },
        ),
{
    let kw = join_strings(keywords, " ");
    let mut out: Vec<char> = Vec::new();
    push_str(&mut out, "Found <b>");
    push_decimal(&mut out, jobs.len() as u128);
    push_str(&mut out, "</b> jobs for <i>");
    push_escaped_html(&mut out, &kw);
    push_str(&mut out, "</i> @ <i>");
    match location {
        Some(l) => push_escaped_str(&mut out, l),
        None => push_escaped_str(&mut out, "any"),
    }
    push_str(&mut out, "</i>:\n\n");
    let ghost head = out@;
    let n = jobs.len();
    for i in 0..n
        invariant
            n == jobs@.len(),
            out@ == head + job_entries(jobs@, i as nat),
    {
        push_job_entry(&mut out, i + 1, &jobs[i]);
    }
    string_of(&out)
}

// ---------------------------------------------------------------------------
// /search and /jd
// ---------------------------------------------------------------------------

/// The reply outside the primary chat.
pub const PRIMARY_ONLY_REPLY: &'static str = "This command is only available in the primary chat.";

/// The reply to `/search` without arguments.
pub const SEARCH_USAGE: &'static str = "Usage: /search <keywords> [@ location]\nExample: /search rust engineer @ beijing";

/// The reply to `/search` whose keyword part holds no word.
pub const NO_KEYWORDS_REPLY: &'static str = "Please provide at least one keyword.";

/// The reply to a search that found nothing.
pub const NO_JOBS_REPLY: &'static str = "No jobs found matching your criteria.";

/// How many jobs one search asks for.
pub const SEARCH_LIMIT: u32 = 3;

/// The reply to `/jd` without text.
pub const JD_USAGE: &'static str = "Usage: /jd <paste job description text>";

/// The reply once a job description was handed on.
pub const JD_RECEIVED: &'static str = "Received your JD, processing...";

/// Whether a command comes from the primary chat: its `is_primary_chat`
/// metadata entry when that is a boolean, yes otherwise.
pub fn is_primary_chat(flag: Option<bool>) -> (r: bool)
    ensures
        r == (flag != Some(false)),
{
    match flag {
        Some(b) => b,
        None => true,
    }
}

/// What `/search` was asked for.
pub enum SearchRequest {
    /// No arguments: show the usage.
    Usage,
    /// The keyword part holds no word.
    NoKeywords,
    /// Search for these keywords, near this location.
    Search { keywords: Vec<String>, location: Option<String> },
}

/// The keyword part and the location of trimmed `/search` arguments: split
/// at the first ` @ `, the location trimmed.
pub open spec fn search_parts(a: Seq<char>) -> (Seq<char>, Option<Seq<char>>) {
    match find_str_from(a, " @ "@, 0) {
        Some(k) => (a.subrange(0, k), Some(trim(a.skip(k + 3)))),
        None => (a, None),
    }
}

/// Reads the arguments of `/search <keywords> [@ location]`.
pub fn parse_search_args(args: &str) -> (r: SearchRequest)
    ensures
        trim(args@).len() == 0 ==> r is Usage,
        trim(args@).len() > 0 ==> {
            let (kw, loc) = search_parts(trim(args@));
            if words(kw).len() == 0 {
                r is NoKeywords
            } else {
                r matches SearchRequest::Search { keywords, location } && strs_view(keywords@)
                    == words(kw) && opt_view(location) == loc
            }
        },
{
    let a = trim_exec(&chars_of(args));
    if a.len() == 0 {
        return SearchRequest::Usage;
    }
    proof {
        reveal_strlit(" @ ");
    }
    let sep = chars_of(" @ ");
    let (kw, location) = match find_str_exec(&a, &sep, 0) {
        Some(k) => {
            let rest = slice_of(&a, k + 3, a.len());
            proof {
                assert(rest@ =~= a@.skip(k + 3));
            }
            (slice_of(&a, 0, k), Some(string_of(&trim_exec(&rest))))
        },
        None => (a, None),
    };
    let keywords = words_exec(&kw);
    if keywords.len() == 0 {
        SearchRequest::NoKeywords
    } else {
        SearchRequest::Search { keywords, location }
    }
}

/// The callback data of the "Load More" button after `n` results.
pub open spec fn more_data(n: nat, keywords: Seq<Seq<char>>, location: Option<Seq<char>>) -> Seq<char> {
    "search_more:"@ + decimal(n) + ":"@ + encoded_params(keywords, location)
}

/// The reply to a search, given what the job service returned: the failure,
/// the empty answer, or the results with a "Load More" button.
pub fn search_reply(
    outcome: &Result<Vec<DiscoveryJob>, String>,
    keywords: &Vec<String>,
    location: Option<&str>,
) -> (r: CommandReply)
    ensures
        match outcome {
            Err(e) => r matches CommandReply::Text(t) && t@ == "Search failed: "@ + e@,
            Ok(jobs) => if jobs@.len() == 0 {
                r matches CommandReply::Text(t) && t@ == NO_JOBS_REPLY@
            } else {
                let loc = match location {
                    Some(l) => Some(l@),
                    None => None,
                };
                r matches CommandReply::HtmlWithKeyboard { html, keyboard } && html@ == job_results(
                    jobs@,
                    string_views(keywords@),
                    loc,
                ) && keyboard_view(keyboard@) == seq![
                    seq![("Load More"@, Some(more_data(jobs@.len(), string_views(keywords@), loc)), None::<Seq<char>>)],
                ]
            },
        },
{
    match outcome {
        Err(e) => {
            let mut t: Vec<char> = Vec::new();
            push_str(&mut t, "Search failed: ");
            push_str(&mut t, e.as_str());
            CommandReply::Text(string_of(&t))
        },
        Ok(jobs) => {
            if jobs.len() == 0 {
                return CommandReply::Text(NO_JOBS_REPLY.to_string());
            }
            let html = format_job_results(jobs, keywords, location);
            let encoded = encode_search_params(keywords, location);
            let mut data: Vec<char> = Vec::new();
            push_str(&mut data, "search_more:");
            push_decimal(&mut data, jobs.len() as u128);
            push_str(&mut data, ":");
            push_str(&mut data, encoded.as_str());
            let mut row: Vec<InlineButton> = Vec::new();
            row.push(callback_button("Load More".to_string(), string_of(&data)));
            let mut keyboard: Vec<Vec<InlineButton>> = Vec::new();
            keyboard.push(row);
            proof {
                let loc = match location {
                    Some(l) => Some(l@),
                    None => None,
                };
                let want: Seq<Seq<ButtonView>> = seq![
                    seq![("Load More"@, Some(more_data(jobs@.len(), string_views(keywords@), loc)), None::<Seq<char>>)],
                ];
                assert(row_view(row) =~= want[0]);
                assert(keyboard_view(keyboard@) =~= want);
            }
            CommandReply::HtmlWithKeyboard { html, keyboard }
        },
    }
}

/// The job description of `/jd <text>`: the trimmed text, none when empty.
pub fn parse_jd_args(args: &str) -> (r: Option<String>)
    ensures
        opt_view(r) == if trim(args@).len() == 0 {
            None
        } else {
            Some(trim(args@))
        },
{
    let t = trim_exec(&chars_of(args));
    if t.len() == 0 {
        None
    } else {
        Some(string_of(&t))
    }
}

/// The reply once the job description went to the parser, or failed to.
pub fn jd_reply(outcome: &Result<(), String>) -> (r: String)
    ensures
        r@ == match outcome {
            Ok(_) => JD_RECEIVED@,
            Err(e) => "JD parse failed: "@ + e@,
        },
{
    match outcome {
        Ok(_) => JD_RECEIVED.to_string(),
        Err(e) => {
            let mut t: Vec<char> = Vec::new();
            push_str(&mut t, "JD parse failed: ");
            push_str(&mut t, e.as_str());
            string_of(&t)
        },
    }
}

} // verus!
