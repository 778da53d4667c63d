//! Graphviz DOT rendering of an anchor tree: one node per anchor, chained
//! within a session, with dashed edges where a session forks.

use std::collections::hash_map::DefaultHasher;
use std::hash::Hasher;

use vstd::prelude::*;

use crate::text::{chars_of, push_seq, push_str, slice_of, string_of};

verus! {

/// An anchor in a session's tape.
pub struct AnchorNode {
    pub name: String,
    pub summary: Option<String>,
    pub entry_id: u64,
}

/// A fork of a session at one of its anchors.
pub struct ForkEdge {
    pub at_anchor: String,
    pub branch: SessionBranch,
}

/// A session with its anchors and the sessions forked from it.
pub struct SessionBranch {
    pub session_key: String,
    pub title: Option<String>,
    pub anchors: Vec<AnchorNode>,
    pub forks: Vec<ForkEdge>,
}

/// The anchor tree of a session family.
pub struct AnchorTree {
    pub root: SessionBranch,
    pub current_session: String,
}

// ---------------------------------------------------------------------------
// Text helpers
// ---------------------------------------------------------------------------

/// The DOT escape of one character: backslash, double quote and newline
/// get a backslash.
pub open spec fn escape_dot_char(c: char) -> Seq<char> {
    if c == '\\' {
        seq!['\\', '\\']
    } else if c == '"' {
        seq!['\\', '"']
    } else if c == '\n' {
        seq!['\\', 'n']
    } else {
        seq![c]
    }
}

/// `s` escaped for a quoted DOT label.
pub open spec fn escape_dot_of(s: Seq<char>) -> Seq<char>
    decreases s.len(),
{
    if s.len() == 0 {
        seq![]
    } else {
        escape_dot_of(s.drop_last()) + escape_dot_char(s.last())
    }
}

/// Escape a string for a quoted DOT label.
pub fn escape_dot(s: &str) -> (r: String)
    ensures
        r@ == escape_dot_of(s@),
{
    let v = chars_of(s);
    let mut out: Vec<char> = Vec::new();
    push_escaped_dot(&mut out, &v);
    string_of(&out)
}

/// Append the DOT escape of `s`.
fn push_escaped_dot(out: &mut Vec<char>, s: &Vec<char>)
    ensures
        final(out)@ == old(out)@ + escape_dot_of(s@),
{
    let ghost start = out@;
    for i in 0..s.len()
        invariant
            out@ == start + escape_dot_of(s@.take(i as int)),
    {
        let c = s[i];
        if c == '\\' {
            out.push('\\');
            out.push('\\');
        } else if c == '"' {
            out.push('\\');
            out.push('"');
        } else if c == '\n' {
            out.push('\\');
            out.push('n');
        } else {
            out.push(c);
        }
        proof {
            assert(s@.take(i + 1).drop_last() =~= s@.take(i as int));
            assert(out@ =~= start + escape_dot_of(s@.take(i + 1)));
        }
    }
    proof {
        assert(s@.take(s@.len() as int) =~= s@);
    }
}

/// `s` cut to `max` characters with `...` appended when longer.
pub open spec fn truncated(s: Seq<char>, max: nat) -> Seq<char> {
    if s.len() <= max {
        s
    } else {
        s.take(max as int) + "..."@
    }
}

/// Cut a string to `max` characters, marking the cut with `...`.
pub fn truncate(s: &str, max_len: usize) -> (r: String)
    ensures
        r@ == truncated(s@, max_len as nat),
{
    let v = chars_of(s);
    if v.len() <= max_len {
        return string_of(&v);
    }
    let mut out = slice_of(&v, 0, max_len);
    push_str(&mut out, "...");
    proof {
        assert(out@ =~= s@.take(max_len as int) + "..."@);
    }
    string_of(&out)
}

/// Lowercase hexadecimal digit of `d < 16`.
pub open spec fn hex_digit(d: nat) -> char {
    if d < 10 {
        (48 + d) as char
    } else {
        (87 + d) as char
    }
}

/// Lowercase hexadecimal representation of `n` (`{:x}`).
pub open spec fn hex(n: nat) -> Seq<char>
    decreases n,
{
    if n < 16 {
        seq![hex_digit(n)]
    } else {
        hex(n / 16).push(hex_digit(n % 16))
    }
}

/// Executable [`hex`].
fn hex_exec(n: u64) -> (r: Vec<char>)
    ensures
        r@ == hex(n as nat),
    decreases n,
{
    let d = (n % 16) as u8;
    let c: char = if d < 10 {
        (48 + d) as char
    } else {
        (87 + d) as char
    };
    if n < 16 {
        let mut out: Vec<char> = Vec::new();
        out.push(c);
        proof {
            assert(out@ =~= hex(n as nat));
        }
        out
    } else {
        let mut out = hex_exec(n / 16);
        out.push(c);
        out
    }
}

// ---------------------------------------------------------------------------
// Node identifiers
// ---------------------------------------------------------------------------

/// The node identifier of an anchor: `n_` and the hexadecimal default hash
/// of `session_key::anchor_name`, hashed as a string is (its bytes, then
/// `0xff`).
pub open spec fn node_id_of(session_key: Seq<char>, anchor_name: Seq<char>) -> Seq<char> {
    "n_"@ + hex(
        <DefaultHasher as vstd::std_specs::hash::DefaultHasherAdditionalSpecFns>::spec_finish(
            seq![
                vstd::utf8::encode_utf8(session_key + "::"@ + anchor_name),
                seq![0xffu8],
            ],
        ) as nat,
    )
}

/// Deterministic node identifier of an anchor.
pub fn node_id(session_key: &str, anchor_name: &str) -> (r: String)
    ensures
        r@ == node_id_of(session_key@, anchor_name@),
{
    let mut raw: Vec<char> = Vec::new();
    push_str(&mut raw, session_key);
    push_str(&mut raw, "::");
    push_str(&mut raw, anchor_name);
    let raw_s = string_of(&raw);
    let raw_str = raw_s.as_str();
    let bytes = raw_str.as_bytes();
    proof {
        assert(raw@ =~= session_key@ + "::"@ + anchor_name@);
        assert(bytes@ == vstd::utf8::encode_utf8(session_key@ + "::"@ + anchor_name@));
    }
    let mut hasher = DefaultHasher::new();
    hasher.write(bytes);
    let sep: [u8; 1] = [0xff];
    let sep_slice = sep.as_slice();
    proof {
        assert(sep_slice@ =~= seq![0xffu8]);
    }
    hasher.write(sep_slice);
    proof {
        assert(hasher@ =~= seq![bytes@, seq![0xffu8]]);
    }
    let h = hasher.finish();
    let mut out: Vec<char> = Vec::new();
    push_str(&mut out, "n_");
    push_seq(&mut out, &hex_exec(h));
    string_of(&out)
}

// ---------------------------------------------------------------------------
// Rendering
// ---------------------------------------------------------------------------

/// The name a session's nodes carry: its title, else its key.
pub open spec fn session_label(b: SessionBranch) -> Seq<char> {
    match b.title {
        Some(t) => t@,
        None => b.session_key@,
    }
}

/// The summary line of an anchor's label, when the anchor has a summary.
pub open spec fn summary_part(a: AnchorNode) -> Seq<char> {
    match a.summary {
        Some(sm) => "\\n"@ + escape_dot_of(truncated(sm@, 40)),
        None => seq![],
    }
}

/// The label of an anchor's node: session name, session key, anchor name
/// and, when there is one, the start of the anchor's summary.
pub open spec fn anchor_label(b: SessionBranch, a: AnchorNode) -> Seq<char> {
    "["@ + escape_dot_of(session_label(b)) + "]\\n("@ + escape_dot_of(b.session_key@) + ")\\n"@
        + escape_dot_of(a.name@) + summary_part(a)
}

/// Fill colour of a session's nodes: green for the current session.
pub open spec fn fill_colour(is_current: bool) -> Seq<char> {
    if is_current {
        "#d9f4dd"@
    } else {
        "#f8f9fa"@
    }
}

/// Border colour of a session's nodes.
pub open spec fn border_colour(is_current: bool) -> Seq<char> {
    if is_current {
        "#1f8f3a"@
    } else {
        "#5a6773"@
    }
}

/// The node of anchor `k` of a session.
pub open spec fn node_line(b: SessionBranch, k: int, current: Seq<char>) -> Seq<char> {
    let is_current = b.session_key@ == current;
    "  "@ + node_id_of(b.session_key@, b.anchors@[k].name@) + " [label=\""@ + anchor_label(
        b,
        b.anchors@[k],
    ) + "\", fillcolor=\""@ + fill_colour(is_current) + "\", color=\""@ + border_colour(is_current)
        + "\"];\n"@
}

/// The edge from anchor `k - 1` to anchor `k` of a session (none for the
/// first anchor).
pub open spec fn prev_edge(b: SessionBranch, k: int) -> Seq<char> {
    if k > 0 {
        "  "@ + node_id_of(b.session_key@, b.anchors@[k - 1].name@) + " -> "@ + node_id_of(
            b.session_key@,
            b.anchors@[k].name@,
        ) + ";\n"@
    } else {
        seq![]
    }
}

/// The node of anchor `k` of a session, followed by the edge from the
/// previous anchor.
pub open spec fn anchor_lines(b: SessionBranch, k: int, current: Seq<char>) -> Seq<char> {
    node_line(b, k, current) + prev_edge(b, k)
}

/// The nodes of the first `n` anchors of a session.
pub open spec fn anchors_dot(b: SessionBranch, current: Seq<char>, n: nat) -> Seq<char>
    decreases n,
{
    if n == 0 {
        seq![]
    } else {
        anchors_dot(b, current, (n - 1) as nat) + anchor_lines(b, n - 1, current)
    }
}

/// The dashed edge from the anchor a fork starts at to the forked session's
/// first anchor (none when that session has no anchor).
pub open spec fn fork_edge(b: SessionBranch, f: ForkEdge) -> Seq<char> {
    if f.branch.anchors@.len() > 0 {
        "  "@ + node_id_of(b.session_key@, f.at_anchor@) + " -> "@ + node_id_of(
            f.branch.session_key@,
            f.branch.anchors@[0].name@,
        ) + " [style=dashed, color=\"#1f6feb\", label=\"fork\"];\n"@
    } else {
        seq![]
    }
}

/// The first `n` forks of a session, each with the forked session's graph.
pub open spec fn forks_dot(b: SessionBranch, current: Seq<char>, n: nat) -> Seq<char>
    decreases b, n,
{
    if n == 0 || n > b.forks@.len() {
        seq![]
    } else {
        forks_dot(b, current, (n - 1) as nat) + fork_edge(b, b.forks[n - 1]) + branch_dot(
            b.forks[n - 1].branch,
            current,
        )
    }
}

/// The graph of a session: its anchors, then its forks.
pub open spec fn branch_dot(b: SessionBranch, current: Seq<char>) -> Seq<char>
    decreases b, b.forks@.len() + 1,
{
    anchors_dot(b, current, b.anchors@.len()) + forks_dot(b, current, b.forks@.len())
}

/// The DOT preamble.
pub open spec fn dot_header() -> Seq<char> {
    "digraph anchor_tree {\n  rankdir=TB;\n  nodesep=0.5;\n  ranksep=0.8;\n  node [shape=box, style=\"rounded,filled\", fontname=\"Helvetica\", fontsize=11];\n  edge [fontname=\"Helvetica\", fontsize=9];\n\n"@
}

/// The DOT text of an anchor tree.
pub open spec fn tree_dot(t: AnchorTree) -> Seq<char> {
    dot_header() + branch_dot(t.root, t.current_session@) + "}\n"@
}

/// Append the label of an anchor's node.
fn push_anchor_label(dot: &mut Vec<char>, b: &SessionBranch, a: &AnchorNode)
    ensures
        final(dot)@ == old(dot)@ + anchor_label(*b, *a),
{
    let ghost start = dot@;
    push_str(dot, "[");
    match &b.title {
        Some(t) => push_escaped_dot(dot, &chars_of(t.as_str())),
        None => push_escaped_dot(dot, &chars_of(b.session_key.as_str())),
    }
    push_str(dot, "]\\n(");
    push_escaped_dot(dot, &chars_of(b.session_key.as_str()));
    push_str(dot, ")\\n");
    push_escaped_dot(dot, &chars_of(a.name.as_str()));
    let ghost before_summary = dot@;
    match &a.summary {
        Some(sm) => {
            push_str(dot, "\\n");
            push_escaped_dot(dot, &chars_of(truncate(sm.as_str(), 40).as_str()));
        },
        None => {},
    }
    proof {
        assert(dot@ =~= before_summary + summary_part(*a));
        assert(dot@ =~= start + anchor_label(*b, *a));
    }
}

/// Append the node of anchor `k`.
fn push_node_line(dot: &mut Vec<char>, b: &SessionBranch, k: usize, current: &str)
    requires
        k < b.anchors@.len(),
    ensures
        final(dot)@ == old(dot)@ + node_line(*b, k as int, current@),
{
    let ghost start = dot@;
    let is_current = crate::text::str_eq(b.session_key.as_str(), current);
    let a = &b.anchors[k];
    let node = node_id(b.session_key.as_str(), a.name.as_str());
    push_str(dot, "  ");
    push_str(dot, node.as_str());
    push_str(dot, " [label=\"");
    push_anchor_label(dot, b, a);
    push_str(dot, "\", fillcolor=\"");
    let ghost f0 = dot@;
    if is_current {
        push_str(dot, "#d9f4dd");
    } else {
        push_str(dot, "#f8f9fa");
    }
    let ghost f1 = dot@;
    push_str(dot, "\", color=\"");
    let ghost c0 = dot@;
    if is_current {
        push_str(dot, "#1f8f3a");
    } else {
        push_str(dot, "#5a6773");
    }
    let ghost c1 = dot@;
    push_str(dot, "\"];\n");
    proof {
        assert(f1 =~= f0 + fill_colour(b.session_key@ == current@));
        assert(c1 =~= c0 + border_colour(b.session_key@ == current@));
        assert(dot@ =~= start + node_line(*b, k as int, current@));
    }
}

/// Append the edge from the previous anchor to anchor `k`.
fn push_prev_edge(dot: &mut Vec<char>, b: &SessionBranch, k: usize)
    requires
        k < b.anchors@.len(),
    ensures
        final(dot)@ == old(dot)@ + prev_edge(*b, k as int),
{
    let ghost start = dot@;
    if k > 0 {
        let prev = node_id(b.session_key.as_str(), b.anchors[k - 1].name.as_str());
        let node = node_id(b.session_key.as_str(), b.anchors[k].name.as_str());
        push_str(dot, "  ");
        push_str(dot, prev.as_str());
        push_str(dot, " -> ");
        push_str(dot, node.as_str());
        push_str(dot, ";\n");
    }
    proof {
        assert(dot@ =~= start + prev_edge(*b, k as int));
    }
}

/// Append the node of anchor `k` and the edge from the previous anchor.
fn push_anchor_lines(dot: &mut Vec<char>, b: &SessionBranch, k: usize, current: &str)
    requires
        k < b.anchors@.len(),
    ensures
        final(dot)@ == old(dot)@ + anchor_lines(*b, k as int, current@),
{
    push_node_line(dot, b, k, current);
    push_prev_edge(dot, b, k);
}

/// Append the dashed edge of a fork.
fn push_fork_edge(dot: &mut Vec<char>, b: &SessionBranch, f: &ForkEdge)
    ensures
        final(dot)@ == old(dot)@ + fork_edge(*b, *f),
{
    let ghost start = dot@;
    if f.branch.anchors.len() > 0 {
        let parent = node_id(b.session_key.as_str(), f.at_anchor.as_str());
        let child = node_id(f.branch.session_key.as_str(), f.branch.anchors[0].name.as_str());
        push_str(dot, "  ");
        push_str(dot, parent.as_str());
        push_str(dot, " -> ");
        push_str(dot, child.as_str());
        push_str(dot, " [style=dashed, color=\"#1f6feb\", label=\"fork\"];\n");
    }
    proof {
        assert(dot@ =~= start + fork_edge(*b, *f));
    }
}

/// Append the graph of a session and of the sessions forked from it.
fn render_branch(dot: &mut Vec<char>, b: &SessionBranch, current: &str)
    ensures
        final(dot)@ == old(dot)@ + branch_dot(*b, current@),
    decreases b,
{
    let ghost start = dot@;
    let na = b.anchors.len();
    for k in 0..na
        invariant
            na == b.anchors@.len(),
            dot@ == start + anchors_dot(*b, current@, k as nat),
    {
        push_anchor_lines(dot, b, k, current);
        proof {
            assert(dot@ =~= start + anchors_dot(*b, current@, (k + 1) as nat));
        }
    }
    let ghost mid = dot@;
    let nf = b.forks.len();
    for i in 0..nf
        invariant
            nf == b.forks@.len(),
            dot@ == mid + forks_dot(*b, current@, i as nat),
    {
        let f = &b.forks[i];
        push_fork_edge(dot, b, f);
        proof {
            assert(decreases_to!(b => b.forks[i as int].branch));
        }
        render_branch(dot, &f.branch, current);
        proof {
            assert(dot@ =~= mid + forks_dot(*b, current@, (i + 1) as nat));
        }
    }
    proof {
        assert(dot@ =~= start + branch_dot(*b, current@));
    }
}

/// Render an anchor tree to Graphviz DOT text.
pub fn render_dot(tree: &AnchorTree) -> (r: String)
    ensures
        r@ == tree_dot(*tree),
{
    let mut dot: Vec<char> = Vec::new();
    push_str(
        &mut dot,
        "digraph anchor_tree {\n  rankdir=TB;\n  nodesep=0.5;\n  ranksep=0.8;\n  node [shape=box, style=\"rounded,filled\", fontname=\"Helvetica\", fontsize=11];\n  edge [fontname=\"Helvetica\", fontsize=9];\n\n",
    );
    render_branch(&mut dot, &tree.root, tree.current_session.as_str());
    push_str(&mut dot, "}\n");
    proof {
        assert(dot@ =~= tree_dot(*tree));
    }
    string_of(&dot)
}

} // verus!
