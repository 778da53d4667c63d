//! `/mcp`: the list of MCP servers, and installing one (or restarting it
//! when it is configured but down): the package an install request refers
//! to, what to do given the configured servers, how to poll a new server's
//! status, and the replies.

use vstd::prelude::*;

use super::client::{McpServerInfo, McpServerStatus};
use super::CommandReply;
use crate::text::{
    chars_of, decimal, escape_html, find_char_exec, find_char_from, find_str_exec, find_str_from,
    push_decimal, push_escaped_str, push_str, slice_of, str_eq, string_of, trim_end_all,
    trim_end_all_exec,
};

verus! {

/// The piece of `s` that `s.split(p).nth(1)` yields: what follows the first
/// occurrence of `p`, up to the next one.
pub open spec fn second_piece(s: Seq<char>, p: Seq<char>) -> Option<Seq<char>> {
    match find_str_from(s, p, 0) {
        None => None,
        Some(f) => match find_str_from(s, p, f + p.len()) {
            Some(g) => Some(s.subrange(f + p.len(), g)),
            None => Some(s.skip(f + p.len())),
        },
    }
}

/// The piece of `s` that `s.split(c).nth(1)` yields.
pub open spec fn second_field(s: Seq<char>, c: char) -> Option<Seq<char>> {
    match find_char_from(s, c, 0) {
        None => None,
        Some(f) => match find_char_from(s, c, f + 1) {
            Some(g) => Some(s.subrange(f + 1, g)),
            None => Some(s.skip(f + 1)),
        },
    }
}

/// `s` up to its first `c` (`s.split(c).next()`).
pub open spec fn before_char(s: Seq<char>, c: char) -> Seq<char> {
    match find_char_from(s, c, 0) {
        Some(k) => s.take(k),
        None => s,
    }
}

/// The package name of an MCP install request: for a `github.com/org/repo`
/// URL the repository name, without trailing `.git` or `/` and without a
/// query; anything else unchanged.
pub open spec fn mcp_package_name(input: Seq<char>) -> Seq<char> {
    match second_piece(input, "github.com/"@) {
        Some(rest) => match second_field(rest, '/') {
            Some(repo) => {
                let name = before_char(trim_end_all(trim_end_all(repo, ".git"@), seq!['/']), '?');
                if name.len() > 0 {
                    name
                } else {
                    input
                }
            },
            None => input,
        },
        None => input,
    }
}

/// `s.split(c).nth(1)`.
fn second_field_exec(s: &Vec<char>, c: char) -> (r: Option<Vec<char>>)
    ensures
        match r {
            Some(v) => second_field(s@, c) == Some(v@),
            None => second_field(s@, c) is None,
        },
{
    match find_char_exec(s, c, 0) {
        None => None,
        Some(f) => match find_char_exec(s, c, {
            assert(f < s.len());
            f + 1
        }) {
            Some(g) => Some(slice_of(s, f + 1, g)),
            None => {
                let v = slice_of(s, f + 1, s.len());
                proof {
                    assert(v@ =~= s@.skip(f + 1));
                }
                Some(v)
            },
        },
    }
}

/// Extract an MCP package name from a GitHub URL or plain string.
pub fn extract_mcp_package_name(input: &str) -> (r: String)
    ensures
        r@ == mcp_package_name(input@),
{
    let s = chars_of(input);
    let pat = chars_of("github.com/");
    let f = match find_str_exec(&s, &pat, 0) {
        Some(f) => f,
        None => return string_of(&s),
    };
    assert(f + pat.len() <= s.len());
    let after = f + pat.len();
    let rest = match find_str_exec(&s, &pat, after) {
        Some(g) => {
            proof {
                assert(f + pat@.len() <= g) by {
                    crate::telegram::commands::mcp::lemma_find_str_from_ge(s@, pat@, after as int);
                }
            }
            slice_of(&s, after, g)
        },
        None => {
            let v = slice_of(&s, after, s.len());
            proof {
                assert(v@ =~= s@.skip(after as int));
            }
            v
        },
    };
    let repo = match second_field_exec(&rest, '/') {
        Some(r) => r,
        None => return string_of(&s),
    };
    let t1 = trim_end_all_exec(&repo, &chars_of(".git"));
    let t2 = trim_end_all_exec(&t1, &chars_of("/"));
    let name = match find_char_exec(&t2, '?', 0) {
        Some(k) => slice_of(&t2, 0, k),
        None => slice_of(&t2, 0, t2.len()),
    };
    proof {
        reveal_strlit("/");
        assert("/"@ =~= seq!['/']);
        assert(name@ =~= before_char(t2@, '?'));
    }
    if name.len() > 0 {
        string_of(&name)
    } else {
        string_of(&s)
    }
}

/// An occurrence found at or after `i` lies at or after `i`.
pub proof fn lemma_find_str_from_ge(s: Seq<char>, p: Seq<char>, i: int)
    ensures
        find_str_from(s, p, i) matches Some(k) ==> i <= k,
    decreases s.len() + 1 - i,
{
    if 0 <= i <= s.len() && !crate::text::occurs_at(s, p, i) {
        lemma_find_str_from_ge(s, p, i + 1);
    }
}

// ---------------------------------------------------------------------------
// Server list
// ---------------------------------------------------------------------------

/// The icon and status text of a server.
pub open spec fn status_badge(st: McpServerStatus) -> (Seq<char>, Seq<char>) {
    match st {
        McpServerStatus::Connected => ("●"@, "connected"@),
        McpServerStatus::Connecting => ("◐"@, "connecting"@),
        McpServerStatus::Disconnected => ("○"@, "disconnected"@),
        McpServerStatus::Error { message } => ("✘"@, "error: "@ + escape_html(message@)),
    }
}

/// The line of a server; the context-mode server also shows whether its
/// interceptor is active (it is when the server is connected).
pub open spec fn server_line(s: McpServerInfo) -> Seq<char> {
    status_badge(s.status).0 + " <b>"@ + escape_html(s.name@) + "</b> — "@ + status_badge(s.status).1 + (if s.name@
        == "context-mode"@ {
        if s.status is Connected {
            " (interceptor: ✓)"@
        } else {
            " (interceptor: ✗)"@
        }
    } else {
        seq![]
    }) + "\n"@
}

/// The lines of the first `n` servers.
pub open spec fn server_lines(v: Seq<McpServerInfo>, n: nat) -> Seq<char>
    decreases n,
{
    if n == 0 || n > v.len() {
        seq![]
    } else {
        server_lines(v, (n - 1) as nat) + server_line(v[n - 1])
    }
}

/// How many of the first `n` servers are connected.
pub open spec fn connected_count(v: Seq<McpServerInfo>, n: nat) -> nat
    decreases n,
{
    if n == 0 || n > v.len() {
        0
    } else {
        connected_count(v, (n - 1) as nat) + if v[n - 1].status is Connected {
            1nat
        } else {
            0nat
        }
    }
}

/// The `/mcp` server list.
pub open spec fn server_list(v: Seq<McpServerInfo>) -> Seq<char> {
    "<b>MCP Servers</b> ("@ + decimal(v.len()) + ")\n\n"@ + server_lines(v, v.len()) + "\n"@ + decimal(
        connected_count(v, v.len()),
    ) + "/"@ + decimal(v.len()) + " connected"@
}

fn push_server_line(out: &mut Vec<char>, s: &McpServerInfo)
    ensures
        final(out)@ == old(out)@ + server_line(*s),
{
    let ghost start = out@;
    match &s.status {
        McpServerStatus::Connected => push_str(out, "●"),
        McpServerStatus::Connecting => push_str(out, "◐"),
        McpServerStatus::Disconnected => push_str(out, "○"),
        McpServerStatus::Error { .. } => push_str(out, "✘"),
    }
    push_str(out, " <b>");
    push_escaped_str(out, s.name.as_str());
    push_str(out, "</b> — ");
    match &s.status {
        McpServerStatus::Connected => push_str(out, "connected"),
        McpServerStatus::Connecting => push_str(out, "connecting"),
        McpServerStatus::Disconnected => push_str(out, "disconnected"),
        McpServerStatus::Error { message } => {
            push_str(out, "error: ");
            push_escaped_str(out, message.as_str());
        },
    }
    let ghost mid = out@;
    if str_eq(s.name.as_str(), "context-mode") {
        match &s.status {
            McpServerStatus::Connected => push_str(out, " (interceptor: ✓)"),
            _ => push_str(out, " (interceptor: ✗)"),
        }
    }
    let ghost tail = out@;
    push_str(out, "\n");
    proof {
        let extra: Seq<char> = if s.name@ == "context-mode"@ {
            if s.status is Connected {
                " (interceptor: ✓)"@
            } else {
                " (interceptor: ✗)"@
            }
        } else {
            seq![]
        };
        assert(tail =~= mid + extra);
        assert(mid =~= start + status_badge(s.status).0 + " <b>"@ + escape_html(s.name@) + "</b> — "@
            + status_badge(s.status).1);
        assert(out@ =~= start + server_line(*s));
    }
}

/// The `/mcp` reply without arguments: the configured servers with their
/// status and the number connected.
pub fn mcp_status_reply(servers: &Result<Vec<McpServerInfo>, String>) -> (r: CommandReply)
    ensures
        match servers {
            Err(e) => r matches CommandReply::Text(t) && t@ == "Failed to fetch MCP status: "@ + e@,
            Ok(v) => if v@.len() == 0 {
                r matches CommandReply::Text(t) && t@ == "No MCP servers configured."@
            } else {
                r matches CommandReply::Html(t) && t@ == server_list(v@)
            },
        },
{
    match servers {
        Err(e) => {
            let mut out = chars_of("Failed to fetch MCP status: ");
            push_str(&mut out, e.as_str());
            CommandReply::Text(string_of(&out))
        },
        Ok(v) => {
            if v.len() == 0 {
                return CommandReply::Text("No MCP servers configured.".to_string());
            }
            let mut out: Vec<char> = Vec::new();
            push_str(&mut out, "<b>MCP Servers</b> (");
            push_decimal(&mut out, v.len() as u128);
            push_str(&mut out, ")\n\n");
            let ghost head = out@;
            let mut connected: usize = 0;
            for i in 0..v.len()
                invariant
                    out@ == head + server_lines(v@, i as nat),
                    connected == connected_count(v@, i as nat),
                    connected <= i,
            {
                push_server_line(&mut out, &v[i]);
                match &v[i].status {
                    McpServerStatus::Connected => {
                        connected = connected + 1;
                    },
                    _ => {},
                }
                proof {
                    assert(out@ =~= head + server_lines(v@, (i + 1) as nat));
                }
            }
            push_str(&mut out, "\n");
            push_decimal(&mut out, connected as u128);
            push_str(&mut out, "/");
            push_decimal(&mut out, v.len() as u128);
            push_str(&mut out, " connected");
            proof {
                assert(out@ =~= server_list(v@));
            }
            CommandReply::Html(string_of(&out))
        },
    }
}

// ---------------------------------------------------------------------------
// Installing
// ---------------------------------------------------------------------------

/// What an install request turns into, given the configured servers.
pub enum InstallStep {
    /// Not configured (or the list could not be read): add it.
    Install,
    /// Configured but down: start it again, and say so.
    Restart(CommandReply),
    /// Configured and up (or coming up): say so.
    AlreadyConfigured(CommandReply),
}

/// The name of a status in the install replies.
pub open spec fn status_word(st: McpServerStatus) -> Seq<char> {
    match st {
        McpServerStatus::Connected => "connected"@,
        McpServerStatus::Connecting => "connecting"@,
        McpServerStatus::Disconnected => "disconnected"@,
        McpServerStatus::Error { .. } => "error"@,
    }
}

/// The first configured server named `name`, from `i` on.
pub open spec fn server_named(v: Seq<McpServerInfo>, name: Seq<char>, i: int) -> Option<int>
    decreases v.len() - i,
{
    if i < 0 || i >= v.len() {
        None
    } else if v[i].name@ == name {
        Some(i)
    } else {
        server_named(v, name, i + 1)
    }
}

fn status_word_exec(st: &McpServerStatus) -> (r: &'static str)
    ensures
        r@ == status_word(*st),
{
    match st {
        McpServerStatus::Connected => "connected",
        McpServerStatus::Connecting => "connecting",
        McpServerStatus::Disconnected => "disconnected",
        McpServerStatus::Error { .. } => "error",
    }
}

/// What an install request for `package` turns into, given the configured
/// servers (`None` when they could not be listed).
pub fn install_step(servers: Option<&Vec<McpServerInfo>>, package: &str) -> (r: InstallStep)
    ensures
        match servers {
            None => r is Install,
            Some(v) => match server_named(v@, package@, 0) {
                None => r is Install,
                Some(i) => if v@[i].status is Disconnected || v@[i].status is Error {
                    r matches InstallStep::Restart(CommandReply::Html(t)) && t@ == "<b>"@
                        + escape_html(package@) + "</b> already configured (was "@ + status_word(
                        v@[i].status,
                    ) + "), restarting..."@
                } else {
                    r matches InstallStep::AlreadyConfigured(CommandReply::Html(t)) && t@ == "<b>"@
                        + escape_html(package@) + "</b> already configured ("@ + status_word(
                        v@[i].status,
                    ) + ")."@
                },
            },
        },
{
    let v = match servers {
        None => {
            return InstallStep::Install;
        },
        Some(v) => v,
    };
    let n = v.len();
    for i in 0..n
        invariant
            n == v@.len(),
            servers == Some(v),
            server_named(v@, package@, 0) == server_named(v@, package@, i as int),
    {
        if str_eq(v[i].name.as_str(), package) {
            let mut out: Vec<char> = Vec::new();
            push_str(&mut out, "<b>");
            push_escaped_str(&mut out, package);
            let down = match &v[i].status {
                McpServerStatus::Disconnected | McpServerStatus::Error { .. } => true,
                _ => false,
            };
            if down {
                push_str(&mut out, "</b> already configured (was ");
                push_str(&mut out, status_word_exec(&v[i].status));
                push_str(&mut out, "), restarting...");
                return InstallStep::Restart(CommandReply::Html(string_of(&out)));
            } else {
                push_str(&mut out, "</b> already configured (");
                push_str(&mut out, status_word_exec(&v[i].status));
                push_str(&mut out, ").");
                return InstallStep::AlreadyConfigured(CommandReply::Html(string_of(&out)));
            }
        }
    }
    InstallStep::Install
}

/// The command a new server runs with, and its arguments.
pub fn install_command(package: &str) -> (r: (&'static str, Vec<String>))
    ensures
        r.0@ == "npx"@,
        r.1@.len() == 2,
        r.1@[0]@ == "-y"@,
        r.1@[1]@ == package@,
{
    let mut args: Vec<String> = Vec::new();
    args.push("-y".to_string());
    args.push(package.to_string());
    ("npx", args)
}

/// The reply when adding the server failed.
pub fn install_failed_reply(package: &str, err: &str) -> (r: CommandReply)
    ensures
        r matches CommandReply::Text(t) && t@ == "Failed to install "@ + escape_html(package@) + ": "@ + err@,
{
    let mut out = chars_of("Failed to install ");
    crate::text::push_escaped_str(&mut out, package);
    push_str(&mut out, ": ");
    push_str(&mut out, err);
    CommandReply::Text(string_of(&out))
}

/// Status polls of a new server, two seconds apart.
pub const INSTALL_POLLS: usize = 5;

/// Whether polling stops after reading `status` (`None` when the read
/// failed): it stops on a failed read, once connected, or on an error.
pub open spec fn poll_done(status: Option<McpServerStatus>) -> bool {
    match status {
        None => true,
        Some(st) => st is Connected || st is Error,
    }
}

/// Whether polling stops after this read.
pub fn poll_stops(status: &Option<McpServerStatus>) -> (r: bool)
    ensures
        r == poll_done(*status),
{
    match status {
        None => true,
        Some(McpServerStatus::Connected) => true,
        Some(McpServerStatus::Error { .. }) => true,
        Some(_) => false,
    }
}

/// The outcome of installing `package`, given the last status read (`None`
/// when none was read): the reply, and whether to remove the server's
/// configuration again (it failed to start).
pub fn install_outcome(package: &str, last: &Option<McpServerStatus>) -> (r: (CommandReply, bool))
    ensures
        match last {
            Some(McpServerStatus::Connected) => !r.1 && (r.0 matches CommandReply::Html(t) && t@ == "<b>"@
                + escape_html(package@) + "</b> installed and connected."@),
            Some(McpServerStatus::Error { message }) => r.1 && (r.0 matches CommandReply::Html(t) && t@
                == "Failed to start <b>"@ + escape_html(package@) + "</b>: "@ + escape_html(message@)
                + "\nConfig removed."@),
            _ => !r.1 && (r.0 matches CommandReply::Html(t) && t@ == "<b>"@ + escape_html(package@)
                + "</b> added, still connecting. Use /mcp to check status later."@),
        },
{
    let mut out: Vec<char> = Vec::new();
    match last {
        Some(McpServerStatus::Connected) => {
            push_str(&mut out, "<b>");
            push_escaped_str(&mut out, package);
            push_str(&mut out, "</b> installed and connected.");
            (CommandReply::Html(string_of(&out)), false)
        },
        Some(McpServerStatus::Error { message }) => {
            push_str(&mut out, "Failed to start <b>");
            push_escaped_str(&mut out, package);
            push_str(&mut out, "</b>: ");
            push_escaped_str(&mut out, message.as_str());
            push_str(&mut out, "\nConfig removed.");
            (CommandReply::Html(string_of(&out)), true)
        },
        _ => {
            push_str(&mut out, "<b>");
            push_escaped_str(&mut out, package);
            push_str(&mut out, "</b> added, still connecting. Use /mcp to check status later.");
            (CommandReply::Html(string_of(&out)), false)
        },
    }
}

} // verus!
