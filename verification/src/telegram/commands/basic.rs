//! The commands each handler answers, and the replies of `/start` and
//! `/help`.

use vstd::prelude::*;

use super::CommandReply;
use crate::text::{escape_html, push_escaped_str, push_str, string_of};

verus! {

/// A command a handler answers: its name (without `/`), what it does, and
/// how to call it.
pub struct CommandDefinition {
    pub name: String,
    pub description: String,
    pub usage: Option<String>,
}

/// The view of a definition.
pub open spec fn def_v(d: CommandDefinition) -> (Seq<char>, Seq<char>, Option<Seq<char>>) {
    (d.name@, d.description@, crate::text::opt_view(d.usage))
}

/// The views of definitions.
pub open spec fn defs_v(v: Seq<CommandDefinition>) -> Seq<(Seq<char>, Seq<char>, Option<Seq<char>>)> {
    v.map_values(|d: CommandDefinition| def_v(d))
}

fn def(name: &str, description: &str, usage: &str) -> (r: CommandDefinition)
    ensures
        def_v(r) == (name@, description@, Some(usage@)),
{
    CommandDefinition { name: name.to_string(), description: description.to_string(), usage: Some(usage.to_string()) }
}

/// The commands of the session handler.
pub fn session_commands() -> (r: Vec<CommandDefinition>)
    ensures
        defs_v(r@) == seq![("new"@, "Start a new chat session"@, Some("/new"@)), ("clear"@, "Clear current session history"@, Some("/clear"@)), ("sessions"@, "List and switch chat sessions"@, Some("/sessions"@)), ("usage"@, "Show current session info"@, Some("/usage"@)), ("model"@, "Show or switch the AI model"@, Some("/model [name]"@))],
{
    let mut v: Vec<CommandDefinition> = Vec::new();
    v.push(def("new", "Start a new chat session", "/new"));
    v.push(def("clear", "Clear current session history", "/clear"));
    v.push(def("sessions", "List and switch chat sessions", "/sessions"));
    v.push(def("usage", "Show current session info", "/usage"));
    v.push(def("model", "Show or switch the AI model", "/model [name]"));
    proof {
        assert(defs_v(v@) =~= seq![("new"@, "Start a new chat session"@, Some("/new"@)), ("clear"@, "Clear current session history"@, Some("/clear"@)), ("sessions"@, "List and switch chat sessions"@, Some("/sessions"@)), ("usage"@, "Show current session info"@, Some("/usage"@)), ("model"@, "Show or switch the AI model"@, Some("/model [name]"@))]);
    }
    v
}

/// The command that interrupts the current turn.
pub fn stop_commands() -> (r: Vec<CommandDefinition>)
    ensures
        defs_v(r@) == seq![("stop"@, "Interrupt the current operation"@, Some("/stop"@))],
{
    let mut v: Vec<CommandDefinition> = Vec::new();
    v.push(def("stop", "Interrupt the current operation", "/stop"));
    proof {
        assert(defs_v(v@) =~= seq![("stop"@, "Interrupt the current operation"@, Some("/stop"@))]);
    }
    v
}

/// The command that renames the current session.
pub fn rename_commands() -> (r: Vec<CommandDefinition>)
    ensures
        defs_v(r@) == seq![("rename"@, "Rename the current session (and its forum topic)"@, Some("/rename <name>"@))],
{
    let mut v: Vec<CommandDefinition> = Vec::new();
    v.push(def("rename", "Rename the current session (and its forum topic)", "/rename <name>"));
    proof {
        assert(defs_v(v@) =~= seq![("rename"@, "Rename the current session (and its forum topic)"@, Some("/rename <name>"@))]);
    }
    v
}

/// The basic commands.
pub fn basic_commands() -> (r: Vec<CommandDefinition>)
    ensures
        defs_v(r@) == seq![("start"@, "Start the bot"@, Some("/start"@)), ("help"@, "Show available commands"@, Some("/help"@))],
{
    let mut v: Vec<CommandDefinition> = Vec::new();
    v.push(def("start", "Start the bot", "/start"));
    v.push(def("help", "Show available commands", "/help"));
    proof {
        assert(defs_v(v@) =~= seq![("start"@, "Start the bot"@, Some("/start"@)), ("help"@, "Show available commands"@, Some("/help"@))]);
    }
    v
}

/// The owner commands that restart or update the supervised instance.
pub fn admin_commands() -> (r: Vec<CommandDefinition>)
    ensures
        defs_v(r@) == seq![("restart"@, "Restart the supervised Rara instance"@, Some("/restart"@)), ("update"@, "Build the latest upstream revision and restart"@, Some("/update"@))],
{
    let mut v: Vec<CommandDefinition> = Vec::new();
    v.push(def("restart", "Restart the supervised Rara instance", "/restart"));
    v.push(def("update", "Build the latest upstream revision and restart", "/update"));
    proof {
        assert(defs_v(v@) =~= seq![("restart"@, "Restart the supervised Rara instance"@, Some("/restart"@)), ("update"@, "Build the latest upstream revision and restart"@, Some("/update"@))]);
    }
    v
}

/// The command that shows or sets the auto-anchor mode.
pub fn anchor_mode_commands() -> (r: Vec<CommandDefinition>)
    ensures
        defs_v(r@) == seq![("anchor_mode"@, "Show or set auto-anchor frequency: chat, balanced, deep-work"@, Some("/anchor_mode [chat|balanced|deep-work]"@))],
{
    let mut v: Vec<CommandDefinition> = Vec::new();
    v.push(def("anchor_mode", "Show or set auto-anchor frequency: chat, balanced, deep-work", "/anchor_mode [chat|balanced|deep-work]"));
    proof {
        assert(defs_v(v@) =~= seq![("anchor_mode"@, "Show or set auto-anchor frequency: chat, balanced, deep-work"@, Some("/anchor_mode [chat|balanced|deep-work]"@))]);
    }
    v
}

/// The coding-task commands.
pub fn coding_commands() -> (r: Vec<CommandDefinition>)
    ensures
        defs_v(r@) == seq![("code"@, "Dispatch a coding task"@, Some("/code <prompt>"@)), ("tasks"@, "List coding tasks"@, Some("/tasks"@))],
{
    let mut v: Vec<CommandDefinition> = Vec::new();
    v.push(def("code", "Dispatch a coding task", "/code <prompt>"));
    v.push(def("tasks", "List coding tasks", "/tasks"));
    proof {
        assert(defs_v(v@) =~= seq![("code"@, "Dispatch a coding task"@, Some("/code <prompt>"@)), ("tasks"@, "List coding tasks"@, Some("/tasks"@))]);
    }
    v
}

/// The command that shows what happened for a message.
pub fn debug_commands() -> (r: Vec<CommandDefinition>)
    ensures
        defs_v(r@) == seq![("debug"@, "Debug a message by its ID"@, Some("/debug <message_id>"@))],
{
    let mut v: Vec<CommandDefinition> = Vec::new();
    v.push(def("debug", "Debug a message by its ID", "/debug <message_id>"));
    proof {
        assert(defs_v(v@) =~= seq![("debug"@, "Debug a message by its ID"@, Some("/debug <message_id>"@))]);
    }
    v
}

/// The job-search commands.
pub fn job_commands() -> (r: Vec<CommandDefinition>)
    ensures
        defs_v(r@) == seq![("search"@, "Search for jobs"@, Some("/search <keywords> [@ location]"@)), ("jd"@, "Parse a Job Description"@, Some("/jd <text>"@))],
{
    let mut v: Vec<CommandDefinition> = Vec::new();
    v.push(def("search", "Search for jobs", "/search <keywords> [@ location]"));
    v.push(def("jd", "Parse a Job Description", "/jd <text>"));
    proof {
        assert(defs_v(v@) =~= seq![("search"@, "Search for jobs"@, Some("/search <keywords> [@ location]"@)), ("jd"@, "Parse a Job Description"@, Some("/jd <text>"@))]);
    }
    v
}

/// The command that lists or installs MCP servers.
pub fn mcp_commands() -> (r: Vec<CommandDefinition>)
    ensures
        defs_v(r@) == seq![("mcp"@, "List MCP servers or install a new one"@, Some("/mcp [url|name]"@))],
{
    let mut v: Vec<CommandDefinition> = Vec::new();
    v.push(def("mcp", "List MCP servers or install a new one", "/mcp [url|name]"));
    proof {
        assert(defs_v(v@) =~= seq![("mcp"@, "List MCP servers or install a new one"@, Some("/mcp [url|name]"@))]);
    }
    v
}

/// The gateway operations command.
pub fn gateway_commands() -> (r: Vec<CommandDefinition>)
    ensures
        defs_v(r@) == seq![("gateway"@, "Owner-only gateway operations: status, restart, update"@, Some("/gateway [status|restart|update]"@))],
{
    let mut v: Vec<CommandDefinition> = Vec::new();
    v.push(def("gateway", "Owner-only gateway operations: status, restart, update", "/gateway [status|restart|update]"));
    proof {
        assert(defs_v(v@) =~= seq![("gateway"@, "Owner-only gateway operations: status, restart, update"@, Some("/gateway [status|restart|update]"@))]);
    }
    v
}

/// The status command.
pub fn status_commands() -> (r: Vec<CommandDefinition>)
    ensures
        defs_v(r@) == seq![("status"@, "Show session status and system stats"@, Some("/status"@))],
{
    let mut v: Vec<CommandDefinition> = Vec::new();
    v.push(def("status", "Show session status and system stats", "/status"));
    proof {
        assert(defs_v(v@) =~= seq![("status"@, "Show session status and system stats"@, Some("/status"@))]);
    }
    v
}

/// The tape commands (anchors and checkout).
pub fn tape_commands() -> (r: Vec<CommandDefinition>)
    ensures
        defs_v(r@) == seq![("anchors"@, "Show the anchor tree across forked sessions"@, Some("/anchors"@)), ("checkout"@, "Fork from an anchor or switch back to parent"@, Some("/checkout [anchor_name]"@))],
{
    let mut v: Vec<CommandDefinition> = Vec::new();
    v.push(def("anchors", "Show the anchor tree across forked sessions", "/anchors"));
    v.push(def("checkout", "Fork from an anchor or switch back to parent", "/checkout [anchor_name]"));
    proof {
        assert(defs_v(v@) =~= seq![("anchors"@, "Show the anchor tree across forked sessions"@, Some("/anchors"@)), ("checkout"@, "Fork from an anchor or switch back to parent"@, Some("/checkout [anchor_name]"@))]);
    }
    v
}

/// The reply to `/start`.
pub const WELCOME: &'static str = "Welcome! I'm the Job Assistant bot.\nSend me any message to start a conversation.\n\nUse /help to see all available commands.";

/// The help entry of a command: its usage (`/name` when it has none) in
/// code, then its description on an indented line.
pub open spec fn help_entry(d: (Seq<char>, Seq<char>, Option<Seq<char>>)) -> Seq<char> {
    "<code>"@ + match d.2 {
        Some(u) => u,
        None => "/"@ + d.0,
    } + "</code>\n  "@ + escape_html(d.1) + "\n\n"@
}

/// The help entries of the first `n` commands.
pub open spec fn help_entries(defs: Seq<(Seq<char>, Seq<char>, Option<Seq<char>>)>, n: nat) -> Seq<char>
    decreases n,
{
    if n == 0 || n > defs.len() {
        seq![]
    } else {
        help_entries(defs, (n - 1) as nat) + help_entry(defs[n - 1])
    }
}

/// The `/help` text: every command of every handler.
pub open spec fn help_text(defs: Seq<(Seq<char>, Seq<char>, Option<Seq<char>>)>) -> Seq<char> {
    "<b>Available commands:</b>\n\n"@ + help_entries(defs, defs.len())
}

/// The reply of the basic handler to command `name`: the welcome for
/// `start`, the list of `all_commands` for `help`, nothing otherwise.
pub fn basic_reply(name: &str, all_commands: &Vec<CommandDefinition>) -> (r: CommandReply)
    ensures
        name@ == "start"@ ==> (r matches CommandReply::Text(t) && t@ == WELCOME@),
        name@ == "help"@ ==> (r matches CommandReply::Html(t) && t@ == help_text(defs_v(all_commands@))),
        name@ != "start"@ && name@ != "help"@ ==> r is Nothing,
{
    proof {
        reveal_strlit("start");
        reveal_strlit("help");
        assert("start"@ != "help"@) by {
            assert("start"@.len() != "help"@.len());
        }
    }
    if crate::text::str_eq(name, "start") {
        return CommandReply::Text(WELCOME.to_string());
    }
    if !crate::text::str_eq(name, "help") {
        return CommandReply::Nothing;
    }
    let ghost dv = defs_v(all_commands@);
    let mut out: Vec<char> = Vec::new();
    push_str(&mut out, "<b>Available commands:</b>\n\n");
    let ghost head = out@;
    let n = all_commands.len();
    for i in 0..n
        invariant
            n == all_commands@.len(),
            dv == defs_v(all_commands@),
            out@ == head + help_entries(dv, i as nat),
    {
        let d = &all_commands[i];
        proof {
            assert(dv[i as int] == def_v(*d));
        }
        push_str(&mut out, "<code>");
        match &d.usage {
            Some(u) => push_str(&mut out, u.as_str()),
            None => {
                push_str(&mut out, "/");
                push_str(&mut out, d.name.as_str());
            },
        }
        push_str(&mut out, "</code>\n  ");
        push_escaped_str(&mut out, d.description.as_str());
        push_str(&mut out, "\n\n");
        proof {
            assert(out@ =~= head + help_entries(dv, (i + 1) as nat));
        }
    }
    CommandReply::Html(string_of(&out))
}

/// The slash menu registered with Telegram: the name and description of
/// every command of every handler, in handler order.
pub open spec fn menu_of(groups: Seq<Seq<(Seq<char>, Seq<char>, Option<Seq<char>>)>>) -> Seq<(Seq<char>, Seq<char>)>
    decreases groups.len(),
{
    if groups.len() == 0 {
        seq![]
    } else {
        menu_of(groups.drop_last()) + groups.last().map_values(
            |d: (Seq<char>, Seq<char>, Option<Seq<char>>)| (d.0, d.1),
        )
    }
}

/// The views of the definitions of each handler.
pub open spec fn groups_v(groups: Seq<Vec<CommandDefinition>>) -> Seq<Seq<(Seq<char>, Seq<char>, Option<Seq<char>>)>> {
    groups.map_values(|g: Vec<CommandDefinition>| defs_v(g@))
}

/// The entries of the slash menu, given the definitions of each handler.
/// An empty menu is not registered.
pub fn menu_entries(groups: &Vec<Vec<CommandDefinition>>) -> (r: Vec<(String, String)>)
    ensures
        r@.map_values(|e: (String, String)| (e.0@, e.1@)) == menu_of(groups_v(groups@)),
{
    let mut out: Vec<(String, String)> = Vec::new();
    let n = groups.len();
    for i in 0..n
        invariant
            n == groups@.len(),
            out@.map_values(|e: (String, String)| (e.0@, e.1@)) == menu_of(groups_v(groups@.take(i as int))),
    {
        let g = &groups[i];
        let m = g.len();
        let ghost before = out@.map_values(|e: (String, String)| (e.0@, e.1@));
        for j in 0..m
            invariant
                m == g@.len(),
                out@.map_values(|e: (String, String)| (e.0@, e.1@)) == before + defs_v(g@).take(j as int).map_values(
                    |d: (Seq<char>, Seq<char>, Option<Seq<char>>)| (d.0, d.1),
                ),
        {
            let ghost prev = out@;
            out.push((g[j].name.clone(), g[j].description.clone()));
            proof {
                assert(defs_v(g@).take(j + 1) =~= defs_v(g@).take(j as int).push(def_v(g@[j as int])));
                assert(out@.map_values(|e: (String, String)| (e.0@, e.1@)) =~= prev.map_values(
                    |e: (String, String)| (e.0@, e.1@),
                ).push((g@[j as int].name@, g@[j as int].description@)));
            }
        }
        proof {
            assert(defs_v(g@).take(m as int) =~= defs_v(g@));
            let gs = groups_v(groups@.take(i + 1));
            assert(gs.drop_last() =~= groups_v(groups@.take(i as int)));
            assert(gs.last() == defs_v(groups@[i as int]@));
        }
    }
    proof {
        assert(groups@.take(n as int) =~= groups@);
    }
    out
}

} // verus!
