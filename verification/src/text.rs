//! Character-sequence helpers shared by every renderer in the crate.
//!
//! Text is modelled as `Seq<char>` (the view of `str` and `String`). The
//! executable helpers work on `Vec<char>` buffers and convert at the edges.

use vstd::prelude::*;

verus! {

broadcast use vstd::string::group_string_axioms;

// ---------------------------------------------------------------------------
// Specifications
// ---------------------------------------------------------------------------

/// Unicode `White_Space`, the property behind `char::is_whitespace`.
pub open spec fn is_ws(c: char) -> bool {
    let u = c as u32;
    ||| 0x09 <= u <= 0x0d
    ||| u == 0x20
    ||| u == 0x85
    ||| u == 0xa0
    ||| u == 0x1680
    ||| 0x2000 <= u <= 0x200a
    ||| u == 0x2028
    ||| u == 0x2029
    ||| u == 0x202f
    ||| u == 0x205f
    ||| u == 0x3000
}

/// `s` with leading white space removed (`str::trim_start`).
pub open spec fn trim_start(s: Seq<char>) -> Seq<char>
    decreases s.len(),
{
    if s.len() > 0 && is_ws(s[0]) {
        trim_start(s.drop_first())
    } else {
        s
    }
}

/// `s` with trailing white space removed (`str::trim_end`).
pub open spec fn trim_end(s: Seq<char>) -> Seq<char>
    decreases s.len(),
{
    if s.len() > 0 && is_ws(s.last()) {
        trim_end(s.drop_last())
    } else {
        s
    }
}

/// `s` with white space removed at both ends (`str::trim`).
pub open spec fn trim(s: Seq<char>) -> Seq<char> {
    trim_end(trim_start(s))
}

/// The HTML escape of one character: `&`, `<` and `>` become entities.
pub open spec fn escape_html_char(c: char) -> Seq<char> {
    if c == '&' {
        seq!['&', 'a', 'm', 'p', ';']
    } else if c == '<' {
        seq!['&', 'l', 't', ';']
    } else if c == '>' {
        seq!['&', 'g', 't', ';']
    } else {
        seq![c]
    }
}

/// `s` with `&`, `<` and `>` replaced by their HTML entities, in that order of
/// precedence (the `&` of an inserted entity is never escaped again).
pub open spec fn escape_html(s: Seq<char>) -> Seq<char>
    decreases s.len(),
{
    if s.len() == 0 {
        seq![]
    } else {
        escape_html(s.drop_last()) + escape_html_char(s.last())
    }
}

/// Index of the first occurrence of `c` in `s` at or after `i`, if any.
pub open spec fn find_char_from(s: Seq<char>, c: char, i: int) -> Option<int>
    decreases s.len() - i,
{
    if i < 0 || i >= s.len() {
        None
    } else if s[i] == c {
        Some(i)
    } else {
        find_char_from(s, c, i + 1)
    }
}

/// Index of the first occurrence of `c` in `s`, if any.
pub open spec fn find_char(s: Seq<char>, c: char) -> Option<int> {
    find_char_from(s, c, 0)
}

/// The first line of `s` as `str::lines` yields it (without the `\n`, and
/// without a `\r` that stands right before it); `s` itself when it holds no
/// newline.
pub open spec fn first_line(s: Seq<char>) -> Seq<char> {
    match find_char(s, '\n') {
        Some(k) => if k > 0 && s[k - 1] == '\r' {
            s.take(k - 1)
        } else {
            s.take(k)
        },
        None => s,
    }
}

/// Whether `p` is a prefix of `s`.
pub open spec fn starts_with(s: Seq<char>, p: Seq<char>) -> bool {
    p.len() <= s.len() && s.take(p.len() as int) == p
}

/// Whether `p` is a suffix of `s`.
pub open spec fn ends_with(s: Seq<char>, p: Seq<char>) -> bool {
    p.len() <= s.len() && s.skip(s.len() - p.len()) == p
}

/// Whether `p` occurs in `s` starting at index `i`.
pub open spec fn occurs_at(s: Seq<char>, p: Seq<char>, i: int) -> bool {
    0 <= i && i + p.len() <= s.len() && s.subrange(i, i + p.len()) == p
}

/// Whether `p` occurs anywhere in `s` (`str::contains`).
pub open spec fn contains(s: Seq<char>, p: Seq<char>) -> bool {
    exists|i: int| occurs_at(s, p, i)
}

/// The decimal digit for `d < 10`.
pub open spec fn digit_char(d: nat) -> char {
    (48 + d) as char
}

/// Decimal representation of `n` without leading zeros (`"0"` for zero).
pub open spec fn decimal(n: nat) -> Seq<char>
    decreases n,
{
    if n < 10 {
        seq![digit_char(n)]
    } else {
        decimal(n / 10).push(digit_char(n % 10))
    }
}

/// Decimal representation of a signed integer, with a leading `-` when
/// negative (`i64`'s `Display`).
pub open spec fn signed_decimal(n: int) -> Seq<char> {
    if n < 0 {
        seq!['-'] + decimal((-n) as nat)
    } else {
        decimal(n as nat)
    }
}

/// Number of bytes of the UTF-8 encoding of `c`.
pub open spec fn utf8_width(c: char) -> nat {
    let u = c as u32;
    if u < 0x80 {
        1
    } else if u < 0x800 {
        2
    } else if u < 0x10000 {
        3
    } else {
        4
    }
}

/// Number of bytes of the UTF-8 encoding of `s` (`str::len`).
pub open spec fn utf8_len(s: Seq<char>) -> nat
    decreases s.len(),
{
    if s.len() == 0 {
        0
    } else {
        utf8_len(s.drop_last()) + utf8_width(s.last())
    }
}

/// Last index `j` in `[lo, hi)` with `s[j] == c`.
pub open spec fn rfind_in(s: Seq<char>, c: char, lo: int, hi: int) -> Option<int>
    decreases hi - lo,
{
    if hi <= lo {
        None
    } else if s[hi - 1] == c {
        Some(hi - 1)
    } else {
        rfind_in(s, c, lo, hi - 1)
    }
}

/// `s` with every non-overlapping occurrence of the non-empty `p` removed,
/// scanning left to right from index `i` (`str::replace(p, "")`).
pub open spec fn remove_all_from(s: Seq<char>, p: Seq<char>, i: int) -> Seq<char>
    decreases s.len() - i,
{
    if i < 0 || i >= s.len() || p.len() == 0 {
        s.skip(i)
    } else if occurs_at(s, p, i) {
        remove_all_from(s, p, i + p.len())
    } else {
        seq![s[i]] + remove_all_from(s, p, i + 1)
    }
}

/// `s` with every occurrence of the non-empty `p` removed.
pub open spec fn remove_all(s: Seq<char>, p: Seq<char>) -> Seq<char> {
    remove_all_from(s, p, 0)
}

/// Whether every character of `s` is an ASCII digit.
pub open spec fn all_digits(s: Seq<char>) -> bool {
    forall|k: int| 0 <= k < s.len() ==> '0' <= #[trigger] s[k] <= '9'
}

/// The value of a string of decimal digits.
pub open spec fn digits_value(s: Seq<char>) -> int
    decreases s.len(),
{
    if s.len() == 0 {
        0
    } else {
        digits_value(s.drop_last()) * 10 + (s.last() as int - 48)
    }
}

/// The integer written in `s` as Rust's integer `FromStr` reads it: an
/// optional `+` or `-`, then one or more ASCII digits, nothing else.
pub open spec fn parse_int(s: Seq<char>) -> Option<int> {
    let neg = s.len() > 0 && s[0] == '-';
    let body = if s.len() > 0 && (s[0] == '-' || s[0] == '+') {
        s.skip(1)
    } else {
        s
    };
    if body.len() == 0 || !all_digits(body) {
        None
    } else if neg {
        Some(-digits_value(body))
    } else {
        Some(digits_value(body))
    }
}

/// [`parse_int`] restricted to the range `lo..=hi` of the target type.
pub open spec fn parse_in_range(s: Seq<char>, lo: int, hi: int) -> Option<int> {
    match parse_int(s) {
        Some(v) => if lo <= v <= hi {
            Some(v)
        } else {
            None
        },
        None => None,
    }
}

/// Full Unicode lowercase mapping of a string, as `str::to_lowercase`
/// computes it.
pub uninterp spec fn str_to_lowercase(s: Seq<char>) -> Seq<char>;

/// Lines joined by `\n`.
pub open spec fn join_lines(ls: Seq<Seq<char>>) -> Seq<char>
    decreases ls.len(),
{
    if ls.len() == 0 {
        seq![]
    } else if ls.len() == 1 {
        ls[0]
    } else {
        join_lines(ls.drop_last()) + seq!['\n'] + ls.last()
    }
}

/// The character views of a vector of buffers.
pub open spec fn views(v: Seq<Vec<char>>) -> Seq<Seq<char>> {
    v.map_values(|l: Vec<char>| l@)
}

/// Index `q` at which exactly `n` bytes of UTF-8 have been counted, scanning
/// from `q` with `acc` bytes already counted; `None` when `n` falls inside a
/// character or beyond the end.
pub open spec fn cut_at_bytes(s: Seq<char>, q: int, acc: int, n: int) -> Option<int>
    decreases s.len() - q,
{
    if acc == n {
        Some(q)
    } else if q < 0 || q >= s.len() || acc > n {
        None
    } else {
        cut_at_bytes(s, q + 1, acc + utf8_width(s[q]), n)
    }
}

/// Index just past the characters of `s`, from index `i` on, whose first
/// byte lies at an offset `<= limit`, `acc` being the byte offset of `s[i]`:
/// where `char_indices().take_while(|(o, _)| *o <= limit)` stops.
pub open spec fn starts_within(s: Seq<char>, i: int, acc: int, limit: int) -> int
    decreases s.len() - i,
{
    if i < 0 || i >= s.len() || acc > limit {
        i
    } else {
        starts_within(s, i + 1, acc + utf8_width(s[i]), limit)
    }
}

/// `s` cut to at most `max` bytes the way the command helpers shorten
/// labels: unchanged when it fits, else the characters that start within
/// the first `max - 3` bytes (saturating).
pub open spec fn truncate_bytes(s: Seq<char>, max: int) -> Seq<char> {
    if utf8_len(s) <= max {
        s
    } else {
        s.take(starts_within(s, 0, 0, if max >= 3 { max - 3 } else { 0 }))
    }
}

/// The view of an optional string.
pub open spec fn opt_view(o: Option<String>) -> Option<Seq<char>> {
    match o {
        Some(s) => Some(s@),
        None => None,
    }
}

/// Index of the first occurrence of `p` in `s` at or after `i`, if any.
pub open spec fn find_str_from(s: Seq<char>, p: Seq<char>, i: int) -> Option<int>
    decreases s.len() + 1 - i,
{
    if i < 0 || i > s.len() {
        None
    } else if occurs_at(s, p, i) {
        Some(i)
    } else {
        find_str_from(s, p, i + 1)
    }
}

/// `s` with every trailing repetition of the non-empty `p` removed
/// (`str::trim_end_matches`).
pub open spec fn trim_end_all(s: Seq<char>, p: Seq<char>) -> Seq<char>
    decreases s.len(),
{
    if p.len() > 0 && ends_with(s, p) {
        trim_end_all(s.take(s.len() - p.len()), p)
    } else {
        s
    }
}

/// Index of the first white-space character of `s` at or after `i`.
pub open spec fn find_ws_from(s: Seq<char>, i: int) -> Option<int>
    decreases s.len() - i,
{
    if i < 0 || i >= s.len() {
        None
    } else if is_ws(s[i]) {
        Some(i)
    } else {
        find_ws_from(s, i + 1)
    }
}

/// The first white-space separated word of `s`
/// (`s.split_whitespace().next()`).
pub open spec fn first_word(s: Seq<char>) -> Option<Seq<char>> {
    let t = trim_start(s);
    if t.len() == 0 {
        None
    } else {
        match find_ws_from(t, 0) {
            Some(w) => Some(t.take(w)),
            None => Some(t),
        }
    }
}

// ---------------------------------------------------------------------------
// Lemmas
// ---------------------------------------------------------------------------

/// Escaping distributes over concatenation.
pub proof fn lemma_escape_html_append(a: Seq<char>, b: Seq<char>)
    ensures
        escape_html(a + b) == escape_html(a) + escape_html(b),
    decreases b.len(),
{
    if b.len() == 0 {
        assert(a + b =~= a);
        assert(escape_html(b) =~= Seq::<char>::empty());
        assert(escape_html(a) + escape_html(b) =~= escape_html(a));
    } else {
        lemma_escape_html_append(a, b.drop_last());
        assert((a + b).drop_last() =~= a + b.drop_last());
        assert((a + b).last() == b.last());
        assert(escape_html(a + b) =~= escape_html(a) + escape_html(b));
    }
}

/// UTF-8 length distributes over concatenation.
pub proof fn lemma_utf8_len_append(a: Seq<char>, b: Seq<char>)
    ensures
        utf8_len(a + b) == utf8_len(a) + utf8_len(b),
    decreases b.len(),
{
    if b.len() == 0 {
        assert(a + b =~= a);
    } else {
        lemma_utf8_len_append(a, b.drop_last());
        assert((a + b).drop_last() =~= a + b.drop_last());
    }
}

/// A match of [`rfind_in`] lies in the searched range.
pub proof fn lemma_rfind_in_range(s: Seq<char>, c: char, lo: int, hi: int)
    ensures
        rfind_in(s, c, lo, hi) matches Some(j) ==> lo <= j < hi,
    decreases hi - lo,
{
    if hi > lo && s[hi - 1] != c {
        lemma_rfind_in_range(s, c, lo, hi - 1);
    }
}

/// The first `c` in `s` at or after `i` holds `c`, with none before it.
pub proof fn lemma_find_char_from(s: Seq<char>, c: char, i: int)
    requires
        0 <= i,
    ensures
        find_char_from(s, c, i) matches Some(k) ==> i <= k < s.len() && s[k] == c && forall|j: int|
            i <= j < k ==> s[j] != c,
        find_char_from(s, c, i) is None ==> forall|j: int| i <= j < s.len() ==> s[j] != c,
    decreases s.len() - i,
{
    if i < s.len() && s[i] != c {
        lemma_find_char_from(s, c, i + 1);
    }
}

/// Trimming the end keeps a prefix.
pub proof fn lemma_trim_end_prefix(s: Seq<char>)
    ensures
        trim_end(s).len() <= s.len(),
        trim_end(s) == s.take(trim_end(s).len() as int),
    decreases s.len(),
{
    if s.len() > 0 && is_ws(s.last()) {
        lemma_trim_end_prefix(s.drop_last());
        assert(s.drop_last().take(trim_end(s).len() as int) =~= s.take(trim_end(s).len() as int));
    } else {
        assert(s.take(s.len() as int) =~= s);
    }
}

/// Trimming the start keeps a suffix.
pub proof fn lemma_trim_start_suffix(s: Seq<char>)
    ensures
        trim_start(s).len() <= s.len(),
        trim_start(s) == s.skip(s.len() - trim_start(s).len()),
    decreases s.len(),
{
    if s.len() > 0 && is_ws(s[0]) {
        lemma_trim_start_suffix(s.drop_first());
        assert(s.drop_first().skip(s.drop_first().len() - trim_start(s).len()) =~= s.skip(
            s.len() - trim_start(s).len(),
        ));
    } else {
        assert(s.skip(0) =~= s);
    }
}

/// A digit string is worth at least any of its prefixes.
pub proof fn lemma_digits_value_prefix(s: Seq<char>, k: int)
    requires
        0 <= k <= s.len(),
        all_digits(s),
    ensures
        0 <= digits_value(s.take(k)) <= digits_value(s),
    decreases s.len(),
{
    if k < s.len() {
        assert(s.drop_last().take(k) =~= s.take(k));
        assert(all_digits(s.drop_last())) by {
            assert forall|j: int| 0 <= j < s.drop_last().len() implies '0' <= #[trigger] s.drop_last()[j] <= '9' by {
                assert(s.drop_last()[j] == s[j]);
            }
        }
        lemma_digits_value_prefix(s.drop_last(), k);
        lemma_digits_value_prefix(s.drop_last(), s.len() - 1);
        assert(s.drop_last().take(s.len() - 1) =~= s.drop_last());
        assert('0' <= s[s.len() - 1] <= '9');
    } else {
        assert(s.take(k) =~= s);
        if s.len() > 0 {
            assert(all_digits(s.drop_last())) by {
                assert forall|j: int| 0 <= j < s.drop_last().len() implies '0' <= #[trigger] s.drop_last()[j] <= '9' by {
                    assert(s.drop_last()[j] == s[j]);
                }
            }
            lemma_digits_value_prefix(s.drop_last(), s.len() - 1);
            assert(s.drop_last().take(s.len() - 1) =~= s.drop_last());
            assert('0' <= s[s.len() - 1] <= '9');
        }
    }
}

// ---------------------------------------------------------------------------
// Executable helpers
// ---------------------------------------------------------------------------

/// Last index in `[lo, hi)` holding `c`.
pub fn rfind_in_exec(s: &Vec<char>, c: char, lo: usize, hi: usize) -> (r: Option<usize>)
    requires
        hi <= s@.len(),
    ensures
        match r {
            Some(j) => rfind_in(s@, c, lo as int, hi as int) == Some(j as int) && lo <= j < hi,
            None => rfind_in(s@, c, lo as int, hi as int) is None,
        },
{
    let mut h = hi;
    while h > lo
        invariant
            h <= hi <= s@.len(),
            rfind_in(s@, c, lo as int, hi as int) == rfind_in(s@, c, lo as int, h as int),
        decreases h,
    {
        if s[h - 1] == c {
            return Some(h - 1);
        }
        h = h - 1;
    }
    None
}


/// Collect the characters of `s` into a vector.
pub fn chars_of(s: &str) -> (r: Vec<char>)
    ensures
        r@ == s@,
{
    let mut out: Vec<char> = Vec::new();
    for c in it: s.chars()
        invariant
            it.seq() == s@,
            out@ == s@.take(it.index() as int),
    {
        out.push(c);
        proof {
            assert(s@.take(it.index() + 1) =~= s@.take(it.index() as int).push(c));
        }
    }
    proof {
        assert(out@ =~= s@);
    }
    out
}

/// `String: FromIterator<char>`: the string made of the characters of `v`.
#[verifier::external_body]
pub fn string_of(v: &Vec<char>) -> (r: String)
    ensures
        r@ == v@,
{
    v.iter().collect()
}

/// Append the characters of `s` to `out`.
pub fn push_seq(out: &mut Vec<char>, s: &Vec<char>)
    ensures
        final(out)@ == old(out)@ + s@,
{
    let n = s.len();
    for i in 0..n
        invariant
            n == s@.len(),
            out@ == old(out)@ + s@.take(i as int),
    {
        out.push(s[i]);
        proof {
            assert(s@.take(i + 1) =~= s@.take(i as int).push(s@[i as int]));
        }
    }
    proof {
        assert(s@.take(n as int) =~= s@);
    }
}

/// Append the characters of `s` to `out`.
pub fn push_str(out: &mut Vec<char>, s: &str)
    ensures
        final(out)@ == old(out)@ + s@,
{
    let v = chars_of(s);
    push_seq(out, &v);
}

/// Copy of `s[lo..hi]`.
pub fn slice_of(s: &Vec<char>, lo: usize, hi: usize) -> (r: Vec<char>)
    requires
        lo <= hi <= s@.len(),
    ensures
        r@ == s@.subrange(lo as int, hi as int),
{
    let mut out: Vec<char> = Vec::new();
    let mut i = lo;
    while i < hi
        invariant
            lo <= i <= hi <= s@.len(),
            out@ == s@.subrange(lo as int, i as int),
        decreases hi - i,
    {
        out.push(s[i]);
        i = i + 1;
        proof {
            assert(s@.subrange(lo as int, i as int) =~= s@.subrange(lo as int, i - 1).push(
                s@[i - 1],
            ));
        }
    }
    out
}

/// Whether the character sequences `a` and `b` are equal.
pub fn seq_eq(a: &Vec<char>, b: &Vec<char>) -> (r: bool)
    ensures
        r == (a@ == b@),
{
    if a.len() != b.len() {
        return false;
    }
    let n = a.len();
    for i in 0..n
        invariant
            n == a@.len(),
            n == b@.len(),
            forall|j: int| 0 <= j < i ==> a@[j] == b@[j],
    {
        if a[i] != b[i] {
            return false;
        }
    }
    proof {
        assert(a@ =~= b@);
    }
    true
}

/// Whether the buffer `v` holds exactly the characters of `lit`.
pub fn eq_lit(v: &Vec<char>, lit: &str) -> (r: bool)
    ensures
        r == (v@ == lit@),
{
    let mut k: usize = 0;
    for c in it: lit.chars()
        invariant
            it.seq() == lit@,
            k == it.index(),
            k <= v@.len(),
            v@.take(k as int) == lit@.take(k as int),
    {
        if k >= v.len() || v[k] != c {
            proof {
                if k < v@.len() {
                    assert(v@[k as int] != lit@[k as int]);
                }
                assert(v@ != lit@);
            }
            return false;
        }
        k = k + 1;
        proof {
            assert(v@.take(k as int) =~= v@.take(k - 1).push(v@[k - 1]));
            assert(lit@.take(k as int) =~= lit@.take(k - 1).push(lit@[k - 1]));
        }
    }
    if k != v.len() {
        proof {
            assert(lit@.len() == k);
            assert(v@.len() != lit@.len());
        }
        return false;
    }
    proof {
        assert(v@ =~= v@.take(k as int));
        assert(lit@ =~= lit@.take(k as int));
    }
    true
}

/// Whether the strings `a` and `b` hold the same characters.
pub fn str_eq(a: &str, b: &str) -> (r: bool)
    ensures
        r == (a@ == b@),
{
    let va = chars_of(a);
    let vb = chars_of(b);
    seq_eq(&va, &vb)
}

/// Whether `p` occurs in `s` at position `i`.
pub fn occurs_at_exec(s: &Vec<char>, p: &Vec<char>, i: usize) -> (r: bool)
    ensures
        r == occurs_at(s@, p@, i as int),
{
    if i > s.len() || p.len() > s.len() - i {
        return false;
    }
    let n = p.len();
    for j in 0..n
        invariant
            n == p@.len(),
            i + n <= s.len(),
            forall|k: int| 0 <= k < j ==> s@[i + k] == p@[k],
    {
        if s[i + j] != p[j] {
            proof {
                assert(s@.subrange(i as int, i + n)[j as int] != p@[j as int]);
            }
            return false;
        }
    }
    proof {
        assert(s@.subrange(i as int, i + n) =~= p@);
    }
    true
}

/// Whether `s` starts with `p`.
pub fn starts_with_exec(s: &Vec<char>, p: &Vec<char>) -> (r: bool)
    ensures
        r == starts_with(s@, p@),
{
    let r = occurs_at_exec(s, p, 0);
    proof {
        assert(s@.subrange(0, p@.len() as int) =~= s@.take(p@.len() as int));
    }
    r
}

/// Whether `s` ends with `p`.
pub fn ends_with_exec(s: &Vec<char>, p: &Vec<char>) -> (r: bool)
    ensures
        r == ends_with(s@, p@),
{
    if p.len() > s.len() {
        return false;
    }
    let r = occurs_at_exec(s, p, s.len() - p.len());
    proof {
        assert(s@.subrange(s@.len() - p@.len(), s@.len() as int) =~= s@.skip(
            s@.len() - p@.len(),
        ));
    }
    r
}

/// Whether `p` occurs anywhere in `s`.
pub fn contains_exec(s: &Vec<char>, p: &Vec<char>) -> (r: bool)
    ensures
        r == contains(s@, p@),
{
    if p.len() > s.len() {
        return false;
    }
    let last = s.len() - p.len();
    let mut i: usize = 0;
    while i <= last
        invariant
            last == s@.len() - p@.len(),
            i <= last + 1,
            forall|k: int| 0 <= k < i ==> !occurs_at(s@, p@, k),
        decreases last + 1 - i,
    {
        if occurs_at_exec(s, p, i) {
            return true;
        }
        if i == last {
            return false;
        }
        i = i + 1;
    }
    false
}

/// First index at or after `from` holding `c`.
pub fn find_char_exec(s: &Vec<char>, c: char, from: usize) -> (r: Option<usize>)
    ensures
        match r {
            Some(k) => find_char_from(s@, c, from as int) == Some(k as int) && from <= k < s@.len(),
            None => find_char_from(s@, c, from as int) is None,
        },
{
    let mut i = from;
    while i < s.len()
        invariant
            from <= i,
            find_char_from(s@, c, from as int) == find_char_from(s@, c, i as int),
        decreases s.len() - i,
    {
        if s[i] == c {
            return Some(i);
        }
        i = i + 1;
    }
    None
}

/// The first line of `s` as `str::lines` yields it, or `s` when it holds no
/// newline.
pub fn first_line_exec(s: &Vec<char>) -> (r: Vec<char>)
    ensures
        r@ == first_line(s@),
{
    match find_char_exec(s, '\n', 0) {
        Some(k) => {
            if k > 0 && s[k - 1] == '\r' {
                slice_of(s, 0, k - 1)
            } else {
                slice_of(s, 0, k)
            }
        },
        None => slice_of(s, 0, s.len()),
    }
}

/// `s` with every occurrence of the non-empty `p` removed.
pub fn remove_all_exec(s: &Vec<char>, p: &Vec<char>) -> (r: Vec<char>)
    requires
        p@.len() > 0,
    ensures
        r@ == remove_all(s@, p@),
{
    let len = s.len();
    let mut out: Vec<char> = Vec::new();
    let mut i: usize = 0;
    while i < len
        invariant
            len == s@.len(),
            p@.len() > 0,
            i <= len,
            remove_all(s@, p@) == out@ + remove_all_from(s@, p@, i as int),
        decreases len - i,
    {
        if occurs_at_exec(s, p, i) {
            i = i + p.len();
        } else {
            let ghost before = out@;
            out.push(s[i]);
            proof {
                assert(out@ =~= before + seq![s@[i as int]]);
            }
            i = i + 1;
        }
    }
    proof {
        assert(s@.skip(i as int) =~= Seq::<char>::empty());
    }
    out
}

/// Parse `v` as an integer in `lo..=hi` (Rust's integer `FromStr`).
pub fn parse_int_exec(v: &Vec<char>, lo: i128, hi: i128) -> (r: Option<i128>)
    requires
        -0x8000_0000_0000_0000 <= lo <= 0,
        0 <= hi <= 0xffff_ffff_ffff_ffff,
    ensures
        match r {
            Some(x) => parse_in_range(v@, lo as int, hi as int) == Some(x as int),
            None => parse_in_range(v@, lo as int, hi as int) is None,
        },
{
    let len = v.len();
    let neg = len > 0 && v[0] == '-';
    let start: usize = if len > 0 && (v[0] == '-' || v[0] == '+') {
        1
    } else {
        0
    };
    let body = slice_of(v, start, len);
    proof {
        assert(body@ =~= if v@.len() > 0 && (v@[0] == '-' || v@[0] == '+') {
            v@.skip(1)
        } else {
            v@
        });
    }
    let n = body.len();
    if n == 0 {
        return None;
    }
    let mut acc: u128 = 0;
    let mut k: usize = 0;
    while k < n
        invariant
            n == body@.len(),
            k <= n,
            -0x8000_0000_0000_0000 <= lo <= 0,
            0 <= hi <= 0xffff_ffff_ffff_ffff,
            neg == (v@.len() > 0 && v@[0] == '-'),
            body@ == if v@.len() > 0 && (v@[0] == '-' || v@[0] == '+') {
                v@.skip(1)
            } else {
                v@
            },
            acc == digits_value(body@.take(k as int)),
            acc <= 0x1_0000_0000_0000_0000,
            forall|j: int| 0 <= j < k ==> '0' <= #[trigger] body@[j] <= '9',
        decreases n - k,
    {
        let c = body[k];
        if !('0' <= c && c <= '9') {
            proof {
                assert(!all_digits(body@));
            }
            return None;
        }
        proof {
            assert(body@.take(k + 1).drop_last() =~= body@.take(k as int));
        }
        let d = (c as u32 - 48) as u128;
        acc = acc * 10 + d;
        k = k + 1;
        if acc > 0x1_0000_0000_0000_0000 {
            proof {
                if all_digits(body@) {
                    lemma_digits_value_prefix(body@, k as int);
                }
            }
            return None;
        }
    }
    proof {
        assert(body@.take(n as int) =~= body@);
    }
    let value: i128 = if neg {
        -(acc as i128)
    } else {
        acc as i128
    };
    if lo <= value && value <= hi {
        Some(value)
    } else {
        None
    }
}

/// The unsigned integer written in `s` as Rust's `FromStr` for an
/// unsigned type reads it (no `-` sign), if it is at most `max`.
pub open spec fn parse_unsigned(s: Seq<char>, max: int) -> Option<int> {
    if s.len() > 0 && s[0] == '-' {
        None
    } else {
        parse_in_range(s, 0, max)
    }
}

/// `s.parse::<u64>()`.
pub fn parse_u64_exec(s: &str) -> (r: Option<u64>)
    ensures
        match r {
            Some(x) => parse_unsigned(s@, u64::MAX as int) == Some(x as int),
            None => parse_unsigned(s@, u64::MAX as int) is None,
        },
{
    let v = chars_of(s);
    if v.len() > 0 && v[0] == '-' {
        return None;
    }
    match parse_int_exec(&v, 0, 0xffff_ffff_ffff_ffff) {
        Some(x) => Some(x as u64),
        None => None,
    }
}

/// The pieces of `s.splitn(n, sep)` from position `i`, the current piece
/// starting at `start`, with `n` pieces still allowed.
pub open spec fn splitn_from(s: Seq<char>, sep: char, n: nat, i: int, start: int) -> Seq<Seq<char>>
    decreases s.len() - i,
{
    if n <= 1 || i < 0 || i >= s.len() {
        seq![s.subrange(start, s.len() as int)]
    } else if s[i] == sep {
        seq![s.subrange(start, i)] + splitn_from(s, sep, (n - 1) as nat, i + 1, i + 1)
    } else {
        splitn_from(s, sep, n, i + 1, start)
    }
}

/// `s.splitn(n, sep)`: at most `n` pieces, the last holding the rest.
pub open spec fn splitn(s: Seq<char>, n: nat, sep: char) -> Seq<Seq<char>> {
    if n == 0 {
        seq![]
    } else {
        splitn_from(s, sep, n, 0, 0)
    }
}

/// The decimal representation of `n` is a non-empty string of digits
/// whose value is `n`.
pub proof fn lemma_decimal_digits(n: nat)
    ensures
        decimal(n).len() >= 1,
        all_digits(decimal(n)),
        digits_value(decimal(n)) == n,
    decreases n,
{
    if n < 10 {
        assert(digits_value(decimal(n)) == digits_value(decimal(n).drop_last()) * 10 + (decimal(n).last() as int - 48));
        assert(decimal(n).drop_last() =~= Seq::<char>::empty());
    } else {
        lemma_decimal_digits(n / 10);
        let d = decimal(n / 10);
        assert(decimal(n).drop_last() =~= d);
        assert forall|k: int| 0 <= k < decimal(n).len() implies '0' <= #[trigger] decimal(n)[k] <= '9' by {
            if k < d.len() {
                assert(decimal(n)[k] == d[k]);
            }
        }
    }
}

/// Reading back a signed decimal gives the number (`i64`'s `Display`
/// then `FromStr`).
pub proof fn lemma_parse_signed_decimal(n: int)
    ensures
        parse_int(signed_decimal(n)) == Some(n),
{
    if n < 0 {
        lemma_decimal_digits((-n) as nat);
        let s = signed_decimal(n);
        assert(s.skip(1) =~= decimal((-n) as nat));
    } else {
        lemma_decimal_digits(n as nat);
        let s = decimal(n as nat);
        assert('0' <= s[0] <= '9');
    }
}

/// `splitn` yields between one and `n` pieces.
pub proof fn lemma_splitn_len(s: Seq<char>, sep: char, n: nat, i: int, start: int)
    requires
        n >= 1,
    ensures
        1 <= splitn_from(s, sep, n, i, start).len() <= n,
    decreases s.len() - i,
{
    if n <= 1 || i < 0 || i >= s.len() {
    } else if s[i] == sep {
        lemma_splitn_len(s, sep, (n - 1) as nat, i + 1, i + 1);
    } else {
        lemma_splitn_len(s, sep, n, i + 1, start);
    }
}

/// Whether `c` does not occur in `s`.
pub open spec fn char_free(s: Seq<char>, c: char) -> bool {
    forall|k: int| 0 <= k < s.len() ==> s[k] != c
}

/// Splitting the text after a prefix is splitting the rest.
proof fn lemma_splitn_shift(p: Seq<char>, y: Seq<char>, sep: char, n: nat, i: int, start: int)
    requires
        0 <= start <= i <= y.len(),
    ensures
        splitn_from(p + y, sep, n, p.len() + i, p.len() + start) == splitn_from(y, sep, n, i, start),
    decreases y.len() - i,
{
    let s = p + y;
    if n <= 1 || i >= y.len() {
        assert(s.subrange(p.len() + start, s.len() as int) =~= y.subrange(start, y.len() as int));
    } else if y[i] == sep {
        assert(s[p.len() + i] == y[i]);
        lemma_splitn_shift(p, y, sep, (n - 1) as nat, i + 1, i + 1);
        assert(s.subrange(p.len() + start, p.len() + i) =~= y.subrange(start, i));
    } else {
        assert(s[p.len() + i] == y[i]);
        lemma_splitn_shift(p, y, sep, n, i + 1, start);
    }
}

/// A stretch without the separator is passed over.
proof fn lemma_splitn_skip(s: Seq<char>, sep: char, n: nat, i: int, j: int, start: int)
    requires
        0 <= i <= j <= s.len(),
        forall|k: int| i <= k < j ==> s[k] != sep,
    ensures
        splitn_from(s, sep, n, i, start) == splitn_from(s, sep, n, j, start),
    decreases j - i,
{
    if i < j && n > 1 {
        lemma_splitn_skip(s, sep, n, i + 1, j, start);
    }
}

/// Splitting `a`, the separator and `rest` into `n >= 2` pieces gives `a`
/// and the pieces of `rest`.
pub proof fn lemma_splitn_cons(a: Seq<char>, rest: Seq<char>, sep: char, n: nat)
    requires
        n >= 2,
        char_free(a, sep),
    ensures
        splitn(a + seq![sep] + rest, n, sep) == seq![a] + splitn(rest, (n - 1) as nat, sep),
{
    let s = a + seq![sep] + rest;
    let p = a + seq![sep];
    assert(s =~= p + rest);
    assert forall|k: int| 0 <= k < a.len() implies s[k] != sep by {
        assert(s[k] == a[k]);
    }
    lemma_splitn_skip(s, sep, n, 0, a.len() as int, 0);
    assert(s[a.len() as int] == sep);
    assert(s.subrange(0, a.len() as int) =~= a);
    lemma_splitn_shift(p, rest, sep, (n - 1) as nat, 0, 0);
}

/// A signed decimal holds no character but digits and `-`.
pub proof fn lemma_signed_decimal_free(n: int, c: char)
    requires
        c != '-' && !('0' <= c <= '9'),
    ensures
        char_free(signed_decimal(n), c),
{
    if n < 0 {
        lemma_decimal_digits((-n) as nat);
        let d = decimal((-n) as nat);
        assert forall|k: int| 0 <= k < signed_decimal(n).len() implies signed_decimal(n)[k] != c by {
            if k > 0 {
                assert(signed_decimal(n)[k] == d[k - 1]);
            }
        }
    } else {
        lemma_decimal_digits(n as nat);
    }
}

/// The views of some strings.
pub open spec fn strs_view(v: Seq<String>) -> Seq<Seq<char>> {
    v.map_values(|x: String| x@)
}

/// `s.splitn(n, sep)`, collected.
pub fn splitn_exec(s: &str, n: usize, sep: char) -> (r: Vec<String>)
    ensures
        strs_view(r@) == splitn(s@, n as nat, sep),
{
    let mut out: Vec<String> = Vec::new();
    if n == 0 {
        proof {
            assert(strs_view(out@) =~= splitn(s@, n as nat, sep));
        }
        return out;
    }
    let v = chars_of(s);
    let len = v.len();
    let mut i: usize = 0;
    let mut start: usize = 0;
    let mut m: usize = n;
    while m > 1 && i < len
        invariant
            len == v@.len(),
            v@ == s@,
            start <= i <= len,
            1 <= m <= n,
            splitn(s@, n as nat, sep) == strs_view(out@) + splitn_from(v@, sep, m as nat, i as int, start as int),
        decreases len - i,
    {
        if v[i] == sep {
            let piece = string_of(&slice_of(&v, start, i));
            let ghost before = out@;
            out.push(piece);
            proof {
                assert(strs_view(out@) =~= strs_view(before).push(v@.subrange(start as int, i as int)));
                assert(splitn_from(v@, sep, m as nat, i as int, start as int) == seq![v@.subrange(start as int, i as int)]
                    + splitn_from(v@, sep, (m - 1) as nat, i + 1, i + 1));
                assert(strs_view(out@) + splitn_from(v@, sep, (m - 1) as nat, i + 1, i + 1) =~= strs_view(before)
                    + splitn_from(v@, sep, m as nat, i as int, start as int));
            }
            m = m - 1;
            i = i + 1;
            start = i;
        } else {
            i = i + 1;
        }
    }
    let last = string_of(&slice_of(&v, start, len));
    let ghost before = out@;
    out.push(last);
    proof {
        assert(splitn_from(v@, sep, m as nat, i as int, start as int) == seq![v@.subrange(start as int, len as int)]);
        assert(strs_view(out@) =~= strs_view(before).push(v@.subrange(start as int, len as int)));
        assert(strs_view(out@) =~= strs_view(before) + seq![v@.subrange(start as int, len as int)]);
    }
    out
}

/// Lowercase `s` with the full Unicode mapping (`str::to_lowercase`).
#[verifier::external_body]
pub(crate) fn to_lowercase(s: &str) -> (r: String)
    ensures
        r@ == str_to_lowercase(s@),
{
    s.to_lowercase()
}

/// Join the lines with `\n` (`[String]::join("\n")`).
pub fn join_lines_exec(lines: &Vec<Vec<char>>) -> (r: Vec<char>)
    ensures
        r@ == join_lines(views(lines@)),
{
    let n = lines.len();
    let mut out: Vec<char> = Vec::new();
    for k in 0..n
        invariant
            n == lines@.len(),
            out@ == join_lines(views(lines@).take(k as int)),
    {
        proof {
            assert(views(lines@).take(k + 1).drop_last() =~= views(lines@).take(k as int));
            assert(views(lines@).take(k + 1).last() == lines@[k as int]@);
        }
        if k > 0 {
            out.push('\n');
        }
        push_seq(&mut out, &lines[k]);
        proof {
            if k == 0 {
                assert(out@ =~= lines@[0]@);
            }
        }
    }
    proof {
        assert(views(lines@).take(n as int) =~= views(lines@));
    }
    out
}

/// Whether `c` is white space (`char::is_whitespace`).
pub fn is_ws_exec(c: char) -> (r: bool)
    ensures
        r == is_ws(c),
{
    let u = c as u32;
    (0x09 <= u && u <= 0x0d) || u == 0x20 || u == 0x85 || u == 0xa0 || u == 0x1680 || (0x2000
        <= u && u <= 0x200a) || u == 0x2028 || u == 0x2029 || u == 0x202f || u == 0x205f || u
        == 0x3000
}

/// `str::trim_start` on a character buffer.
pub fn trim_start_exec(s: &Vec<char>) -> (r: Vec<char>)
    ensures
        r@ == trim_start(s@),
{
    let mut i: usize = 0;
    proof {
        assert(s@.skip(0) =~= s@);
    }
    while i < s.len() && is_ws_exec(s[i])
        invariant
            i <= s@.len(),
            trim_start(s@) == trim_start(s@.skip(i as int)),
        decreases s.len() - i,
    {
        proof {
            assert(s@.skip(i as int).drop_first() =~= s@.skip(i + 1));
        }
        i = i + 1;
    }
    proof {
        assert(s@.skip(i as int) =~= s@.subrange(i as int, s@.len() as int));
    }
    slice_of(s, i, s.len())
}

/// `str::trim_end` on a character buffer.
pub fn trim_end_exec(s: &Vec<char>) -> (r: Vec<char>)
    ensures
        r@ == trim_end(s@),
{
    let mut j: usize = s.len();
    proof {
        assert(s@.take(j as int) =~= s@);
    }
    while j > 0 && is_ws_exec(s[j - 1])
        invariant
            j <= s@.len(),
            trim_end(s@) == trim_end(s@.take(j as int)),
        decreases j,
    {
        proof {
            assert(s@.take(j as int).drop_last() =~= s@.take(j - 1));
        }
        j = j - 1;
    }
    proof {
        assert(s@.take(j as int) =~= s@.subrange(0, j as int));
    }
    slice_of(s, 0, j)
}

/// `str::trim` on a character buffer.
pub fn trim_exec(s: &Vec<char>) -> (r: Vec<char>)
    ensures
        r@ == trim(s@),
{
    let a = trim_start_exec(s);
    trim_end_exec(&a)
}

/// Append the HTML escape of `s` to `out`.
pub fn push_escaped_html(out: &mut Vec<char>, s: &Vec<char>)
    ensures
        final(out)@ == old(out)@ + escape_html(s@),
{
    let n = s.len();
    for i in 0..n
        invariant
            n == s@.len(),
            out@ == old(out)@ + escape_html(s@.take(i as int)),
    {
        let c = s[i];
        proof {
            assert(s@.take(i + 1).drop_last() =~= s@.take(i as int));
            assert(s@.take(i + 1).last() == c);
        }
        if c == '&' {
            out.push('&');
            out.push('a');
            out.push('m');
            out.push('p');
            out.push(';');
        } else if c == '<' {
            out.push('&');
            out.push('l');
            out.push('t');
            out.push(';');
        } else if c == '>' {
            out.push('&');
            out.push('g');
            out.push('t');
            out.push(';');
        } else {
            out.push(c);
        }
        proof {
            assert(out@ =~= old(out)@ + escape_html(s@.take(i + 1)));
        }
    }
    proof {
        assert(s@.take(n as int) =~= s@);
    }
}

/// The HTML escape of `s` (`&`, `<`, `>` become entities).
pub fn html_escape(s: &str) -> (r: String)
    ensures
        r@ == escape_html(s@),
{
    let v = chars_of(s);
    let mut out: Vec<char> = Vec::new();
    push_escaped_html(&mut out, &v);
    string_of(&out)
}

/// The decimal digit character for `d < 10`.
pub fn digit_exec(d: u128) -> (c: char)
    requires
        d < 10,
    ensures
        c == digit_char(d as nat),
{
    let b: u8 = 48u8 + (d as u8);
    b as char
}

/// Decimal representation of `n`.
pub fn decimal_exec(n: u128) -> (r: Vec<char>)
    ensures
        r@ == decimal(n as nat),
    decreases n,
{
    if n < 10 {
        let mut v: Vec<char> = Vec::new();
        v.push(digit_exec(n));
        proof {
            assert(v@ =~= seq![digit_char(n as nat)]);
        }
        v
    } else {
        let mut v = decimal_exec(n / 10);
        v.push(digit_exec(n % 10));
        v
    }
}

/// Decimal representation of the signed `n`.
pub fn signed_decimal_exec(n: i64) -> (r: Vec<char>)
    ensures
        r@ == signed_decimal(n as int),
{
    if n < 0 {
        let m: u128 = ((-(n + 1)) as u128) + 1;
        let mut v: Vec<char> = Vec::new();
        v.push('-');
        let d = decimal_exec(m);
        push_seq(&mut v, &d);
        proof {
            assert(v@ =~= seq!['-'] + decimal(m as nat));
        }
        v
    } else {
        decimal_exec(n as u128)
    }
}

/// Number of bytes of the UTF-8 encoding of `c`.
pub fn utf8_width_exec(c: char) -> (r: usize)
    ensures
        r == utf8_width(c),
{
    let u = c as u32;
    if u < 0x80 {
        1
    } else if u < 0x800 {
        2
    } else if u < 0x10000 {
        3
    } else {
        4
    }
}

/// Whether the UTF-8 encoding of `s[i..]` takes at most `max` bytes.
pub fn fits_in_bytes(s: &Vec<char>, i: usize, max: usize) -> (r: bool)
    requires
        i <= s@.len(),
    ensures
        r == (utf8_len(s@.subrange(i as int, s@.len() as int)) <= max),
{
    let len = s.len();
    let mut acc: u128 = 0;
    let mut k = i;
    proof {
        assert(s@.subrange(i as int, i as int) =~= Seq::<char>::empty());
    }
    while k < len
        invariant
            i <= k <= len,
            len == s@.len(),
            acc == utf8_len(s@.subrange(i as int, k as int)),
            acc <= 4 * (k - i),
        decreases len - k,
    {
        let w = utf8_width_exec(s[k]);
        proof {
            assert(s@.subrange(i as int, k + 1).drop_last() =~= s@.subrange(i as int, k as int));
        }
        acc = acc + w as u128;
        k = k + 1;
    }
    acc <= max as u128
}

/// Character index at which `max` bytes of `s[i..]` end, if that is a
/// character boundary.
pub fn cut_at_bytes_exec(s: &Vec<char>, i: usize, max: usize) -> (r: Option<usize>)
    ensures
        match r {
            Some(p) => cut_at_bytes(s@, i as int, 0, max as int) == Some(p as int),
            None => cut_at_bytes(s@, i as int, 0, max as int) is None,
        },
{
    let len = s.len();
    let mut acc: u128 = 0;
    let mut q = i;
    while acc < max as u128 && q < len
        invariant
            len == s@.len(),
            acc <= max + 4,
            cut_at_bytes(s@, i as int, 0, max as int) == cut_at_bytes(
                s@,
                q as int,
                acc as int,
                max as int,
            ),
        decreases len - q,
    {
        let w = utf8_width_exec(s[q]);
        acc = acc + w as u128;
        q = q + 1;
    }
    if acc == max as u128 {
        Some(q)
    } else {
        None
    }
}

/// Executable [`starts_within`] from the start of `s`.
pub fn starts_within_exec(s: &Vec<char>, limit: usize) -> (r: usize)
    ensures
        r == starts_within(s@, 0, 0, limit as int),
        r <= s@.len(),
{
    let len = s.len();
    let mut i: usize = 0;
    let mut acc: u128 = 0;
    while i < len && acc <= limit as u128
        invariant
            i <= len,
            len == s@.len(),
            acc <= limit + 4,
            starts_within(s@, 0, 0, limit as int) == starts_within(s@, i as int, acc as int, limit as int),
        decreases len - i,
    {
        let w = utf8_width_exec(s[i]);
        acc = acc + w as u128;
        i = i + 1;
    }
    i
}

/// Executable [`truncate_bytes`].
pub fn truncate_bytes_exec(s: &Vec<char>, max: usize) -> (r: Vec<char>)
    ensures
        r@ == truncate_bytes(s@, max as int),
{
    if fits_in_bytes(s, 0, max) {
        proof {
            assert(s@.subrange(0, s@.len() as int) =~= s@);
        }
        return slice_of(s, 0, s.len());
    }
    proof {
        assert(s@.subrange(0, s@.len() as int) =~= s@);
    }
    let limit = if max >= 3 {
        max - 3
    } else {
        0
    };
    let end = starts_within_exec(s, limit);
    let r = slice_of(s, 0, end);
    proof {
        assert(r@ =~= s@.take(end as int));
    }
    r
}

/// `s` shortened as [`truncate_bytes`] says.
pub fn truncate_str(s: &str, max: usize) -> (r: String)
    ensures
        r@ == truncate_bytes(s@, max as int),
{
    let v = chars_of(s);
    string_of(&truncate_bytes_exec(&v, max))
}

/// Append the HTML escape of `s`.
pub fn push_escaped_str(out: &mut Vec<char>, s: &str)
    ensures
        final(out)@ == old(out)@ + escape_html(s@),
{
    let v = chars_of(s);
    push_escaped_html(out, &v);
}

/// Append the decimal representation of `n`.
pub fn push_decimal(out: &mut Vec<char>, n: u128)
    ensures
        final(out)@ == old(out)@ + decimal(n as nat),
{
    let d = decimal_exec(n);
    push_seq(out, &d);
}

/// Append the decimal representation of the signed `n`.
pub fn push_signed(out: &mut Vec<char>, n: i64)
    ensures
        final(out)@ == old(out)@ + signed_decimal(n as int),
{
    let d = signed_decimal_exec(n);
    push_seq(out, &d);
}

/// First occurrence of `p` in `s` at or after `from`.
pub fn find_str_exec(s: &Vec<char>, p: &Vec<char>, from: usize) -> (r: Option<usize>)
    ensures
        match r {
            Some(k) => find_str_from(s@, p@, from as int) == Some(k as int) && from <= k <= s@.len()
                && occurs_at(s@, p@, k as int),
            None => find_str_from(s@, p@, from as int) is None,
        },
{
    let mut i = from;
    while i <= s.len()
        invariant
            from <= i,
            find_str_from(s@, p@, from as int) == find_str_from(s@, p@, i as int),
        decreases s.len() + 1 - i,
    {
        if occurs_at_exec(s, p, i) {
            return Some(i);
        }
        if i == s.len() {
            proof {
                assert(find_str_from(s@, p@, i + 1) is None);
            }
            return None;
        }
        i = i + 1;
    }
    None
}

/// Executable [`trim_end_all`].
pub fn trim_end_all_exec(s: &Vec<char>, p: &Vec<char>) -> (r: Vec<char>)
    ensures
        r@ == trim_end_all(s@, p@),
{
    let mut end = s.len();
    if p.len() == 0 {
        return slice_of(s, 0, end);
    }
    proof {
        assert(s@.take(end as int) =~= s@);
    }
    while end >= p.len()
        invariant
            end <= s@.len(),
            p@.len() > 0,
            trim_end_all(s@, p@) == trim_end_all(s@.take(end as int), p@),
        decreases end,
    {
        let cur = slice_of(s, 0, end);
        proof {
            assert(cur@ =~= s@.take(end as int));
        }
        if !ends_with_exec(&cur, p) {
            return cur;
        }
        proof {
            assert(s@.take(end as int).take(end - p@.len()) =~= s@.take(end - p@.len()));
        }
        end = end - p.len();
    }
    let cur = slice_of(s, 0, end);
    proof {
        assert(cur@ =~= s@.take(end as int));
    }
    cur
}

/// Index of the first white-space character of `s`.
pub fn find_ws(s: &Vec<char>) -> (r: Option<usize>)
    ensures
        match r {
            Some(w) => find_ws_from(s@, 0) == Some(w as int) && w < s@.len(),
            None => find_ws_from(s@, 0) is None,
        },
{
    let mut i: usize = 0;
    while i < s.len()
        invariant
            find_ws_from(s@, 0) == find_ws_from(s@, i as int),
        decreases s.len() - i,
    {
        if is_ws_exec(s[i]) {
            return Some(i);
        }
        i = i + 1;
    }
    None
}

/// `s.split_whitespace().next()`.
pub fn first_word_exec(s: &Vec<char>) -> (r: Option<Vec<char>>)
    ensures
        match r {
            Some(w) => first_word(s@) == Some(w@),
            None => first_word(s@) is None,
        },
{
    let t = trim_start_exec(s);
    if t.len() == 0 {
        return None;
    }
    match find_ws(&t) {
        Some(w) => Some(slice_of(&t, 0, w)),
        None => Some(t),
    }
}

/// Number of bytes of the UTF-8 encoding of `s`.
pub fn utf8_len_exec(s: &Vec<char>) -> (r: u128)
    ensures
        r == utf8_len(s@),
        r <= 4 * s@.len(),
{
    let len = s.len();
    let mut acc: u128 = 0;
    let mut k: usize = 0;
    proof {
        assert(s@.take(0) =~= Seq::<char>::empty());
    }
    while k < len
        invariant
            k <= len,
            len == s@.len(),
            acc == utf8_len(s@.take(k as int)),
            acc <= 4 * k,
        decreases len - k,
    {
        let w = utf8_width_exec(s[k]);
        proof {
            assert(s@.take(k + 1).drop_last() =~= s@.take(k as int));
        }
        acc = acc + w as u128;
        k = k + 1;
    }
    proof {
        assert(s@.take(len as int) =~= s@);
    }
    acc
}

/// The end of the word that starts at `i`: the first index at or after `i`
/// holding white space, or the length.
pub open spec fn word_end(s: Seq<char>, i: int) -> int
    decreases s.len() - i,
{
    if i < 0 || i >= s.len() || is_ws(s[i]) {
        i
    } else {
        word_end(s, i + 1)
    }
}

/// `word_end` does not move backwards and stays within the text.
pub proof fn lemma_word_end(s: Seq<char>, i: int)
    requires
        0 <= i <= s.len(),
    ensures
        i <= word_end(s, i) <= s.len(),
        forall|k: int| i <= k < word_end(s, i) ==> !is_ws(#[trigger] s[k]),
        word_end(s, i) < s.len() ==> is_ws(s[word_end(s, i)]),
    decreases s.len() - i,
{
    if i < s.len() && !is_ws(s[i]) {
        lemma_word_end(s, i + 1);
    }
}

/// The words of `s[i..]`, separated by white space (`str::split_whitespace`).
pub open spec fn words_from(s: Seq<char>, i: int) -> Seq<Seq<char>>
    decreases s.len() - i,
{
    if i < 0 || i >= s.len() {
        seq![]
    } else if is_ws(s[i]) {
        words_from(s, i + 1)
    } else {
        let e = word_end(s, i + 1);
        proof {
            lemma_word_end(s, i + 1);
        }
        seq![s.subrange(i, e)] + words_from(s, e)
    }
}

/// The words of `s` (`str::split_whitespace`).
pub open spec fn words(s: Seq<char>) -> Seq<Seq<char>> {
    words_from(s, 0)
}

/// `s.split_whitespace()`, collected.
pub fn words_exec(s: &Vec<char>) -> (r: Vec<String>)
    ensures
        strs_view(r@) == words(s@),
{
    let n = s.len();
    let mut out: Vec<String> = Vec::new();
    let mut i: usize = 0;
    while i < n
        invariant
            n == s@.len(),
            i <= n,
            words(s@) == strs_view(out@) + words_from(s@, i as int),
        decreases n - i,
    {
        if is_ws_exec(s[i]) {
            i = i + 1;
        } else {
            let mut j: usize = i + 1;
            proof {
                lemma_word_end(s@, i + 1);
            }
            while j < n && !is_ws_exec(s[j])
                invariant
                    n == s@.len(),
                    i < j <= n,
                    j <= word_end(s@, i + 1),
                    word_end(s@, j as int) == word_end(s@, i + 1),
                decreases n - j,
            {
                proof {
                    lemma_word_end(s@, j + 1);
                }
                j = j + 1;
            }
            let ghost before = out@;
            out.push(string_of(&slice_of(s, i, j)));
            proof {
                assert(strs_view(out@) =~= strs_view(before).push(s@.subrange(i as int, j as int)));
                assert(strs_view(out@) + words_from(s@, j as int) =~= strs_view(before)
                    + words_from(s@, i as int));
            }
            i = j;
        }
    }
    proof {
        assert(strs_view(out@) + words_from(s@, i as int) =~= strs_view(out@));
    }
    out
}

} // verus!
