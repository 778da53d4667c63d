//! Shared helpers for rendering tool-call progress across adapters.
//!
//! Raw tool names from the model map to a known [`ToolKind`], which carries
//! a short English display name (web adapter, logs) and a Chinese activity
//! phrase (Telegram progress). Tool arguments are summarised into one line
//! for progress displays.

use vstd::prelude::*;

use crate::text::{
    chars_of, ends_with, eq_lit, find_char_exec, first_line as first_line_of, push_seq, rfind_in,
    rfind_in_exec, slice_of, starts_with, starts_with_exec, string_of, trim, trim_end,
    trim_end_exec, trim_exec,
};

verus! {

/// Known tool kinds. Several raw names can map to one kind.
#[derive(Debug, Clone, Copy, PartialEq, Eq, Structural)]
pub enum ToolKind {
    /// Raw name `shell_execute`.
    ShellExecute,
    /// Raw name `bash`.
    Bash,
    /// Raw name `web_search`.
    WebSearch,
    /// Raw names `web_fetch`, `http-fetch`.
    WebFetch,
    /// Raw name `read-file`.
    ReadFile,
    /// Raw name `write-file`.
    WriteFile,
    /// Raw name `edit-file`.
    EditFile,
    /// Raw name `find-files`.
    FindFiles,
    /// Raw name `list-directory`.
    ListDirectory,
    /// Raw name `grep`.
    Grep,
    /// Raw name `screenshot`.
    Screenshot,
    /// Raw name `send-image`.
    SendImage,
    /// Raw name `send-email`.
    SendEmail,
    /// Raw name `memory_search`.
    MemorySearch,
    /// Raw name `memory_write`.
    MemoryWrite,
    /// Raw name `tape-handoff`.
    TapeHandoff,
    /// Raw name `tape-info`.
    TapeInfo,
    /// Raw names `user-note`, `write-user-note`.
    UserNote,
    /// Raw name `distill-user-notes`.
    DistillUserNotes,
    /// Raw name `settings`.
    Settings,
    /// Raw names `composio_list`, `composio_execute`, `composio_connect`, `composio_accounts`.
    Composio,
    /// Raw name `list-skills`.
    ListSkills,
    /// Raw name `create-skill`.
    CreateSkill,
    /// Raw name `delete-skill`.
    DeleteSkill,
    /// Raw name `install-mcp-server`.
    InstallMcp,
    /// Raw name `list-mcp-servers`.
    ListMcp,
    /// Raw name `remove-mcp-server`.
    RemoveMcp,
    /// Raw name `dispatch-rara`.
    Dispatch,
    /// Raw name `list-sessions`.
    ListSessions,
    /// Raw name `read-tape`.
    ReadTape,
    /// Raw name `update-soul-state`.
    UpdateSoulState,
    /// Raw name `evolve-soul`.
    EvolveSoul,
}

/// One top-level field of a tool's JSON arguments: its key and, when the
/// value is a JSON string, that string.
pub struct ToolArg {
    pub key: String,
    pub text: Option<String>,
}

/// The top-level fields of a tool's JSON arguments object, in the order the
/// JSON map iterates them (empty when the arguments are not an object).
pub struct ToolArgs {
    pub fields: Vec<ToolArg>,
}

/// View of an optional string.
pub open spec fn opt_view(o: Option<String>) -> Option<Seq<char>> {
    match o {
        Some(s) => Some(s@),
        None => None,
    }
}

impl View for ToolArgs {
    type V = Seq<(Seq<char>, Option<Seq<char>>)>;

    open spec fn view(&self) -> Seq<(Seq<char>, Option<Seq<char>>)> {
        self.fields@.map_values(|a: ToolArg| (a.key@, opt_view(a.text)))
    }
}

// ---------------------------------------------------------------------------
// Specification
// ---------------------------------------------------------------------------

/// The tool kind of a raw tool name, if it is a known one.
pub open spec fn tool_kind_of(raw: Seq<char>) -> Option<ToolKind> {
    if raw == "shell_execute"@ {
        Some(ToolKind::ShellExecute)
    } else if raw == "bash"@ {
        Some(ToolKind::Bash)
    } else if raw == "web_search"@ {
        Some(ToolKind::WebSearch)
    } else if raw == "web_fetch"@ || raw == "http-fetch"@ {
        Some(ToolKind::WebFetch)
    } else if raw == "read-file"@ {
        Some(ToolKind::ReadFile)
    } else if raw == "write-file"@ {
        Some(ToolKind::WriteFile)
    } else if raw == "edit-file"@ {
        Some(ToolKind::EditFile)
    } else if raw == "find-files"@ {
        Some(ToolKind::FindFiles)
    } else if raw == "list-directory"@ {
        Some(ToolKind::ListDirectory)
    } else if raw == "grep"@ {
        Some(ToolKind::Grep)
    } else if raw == "screenshot"@ {
        Some(ToolKind::Screenshot)
    } else if raw == "send-image"@ {
        Some(ToolKind::SendImage)
    } else if raw == "send-email"@ {
        Some(ToolKind::SendEmail)
    } else if raw == "memory_search"@ {
        Some(ToolKind::MemorySearch)
    } else if raw == "memory_write"@ {
        Some(ToolKind::MemoryWrite)
    } else if raw == "tape-handoff"@ {
        Some(ToolKind::TapeHandoff)
    } else if raw == "tape-info"@ {
        Some(ToolKind::TapeInfo)
    } else if raw == "user-note"@ || raw == "write-user-note"@ {
        Some(ToolKind::UserNote)
    } else if raw == "distill-user-notes"@ {
        Some(ToolKind::DistillUserNotes)
    } else if raw == "settings"@ {
        Some(ToolKind::Settings)
    } else if raw == "composio_list"@ || raw == "composio_execute"@ || raw == "composio_connect"@ || raw == "composio_accounts"@ {
        Some(ToolKind::Composio)
    } else if raw == "list-skills"@ {
        Some(ToolKind::ListSkills)
    } else if raw == "create-skill"@ {
        Some(ToolKind::CreateSkill)
    } else if raw == "delete-skill"@ {
        Some(ToolKind::DeleteSkill)
    } else if raw == "install-mcp-server"@ {
        Some(ToolKind::InstallMcp)
    } else if raw == "list-mcp-servers"@ {
        Some(ToolKind::ListMcp)
    } else if raw == "remove-mcp-server"@ {
        Some(ToolKind::RemoveMcp)
    } else if raw == "dispatch-rara"@ {
        Some(ToolKind::Dispatch)
    } else if raw == "list-sessions"@ {
        Some(ToolKind::ListSessions)
    } else if raw == "read-tape"@ {
        Some(ToolKind::ReadTape)
    } else if raw == "update-soul-state"@ {
        Some(ToolKind::UpdateSoulState)
    } else if raw == "evolve-soul"@ {
        Some(ToolKind::EvolveSoul)
    } else {
        None
    }
}

/// Chinese activity phrase of a tool kind.
pub open spec fn activity_phrase(k: ToolKind) -> Seq<char> {
    match k {
            ToolKind::ShellExecute => "执行命令"@,
            ToolKind::Bash => "执行命令"@,
            ToolKind::WebSearch => "搜索网页"@,
            ToolKind::WebFetch => "获取网页"@,
            ToolKind::ReadFile => "读取文件"@,
            ToolKind::WriteFile => "写入文件"@,
            ToolKind::EditFile => "编辑文件"@,
            ToolKind::FindFiles => "查找文件"@,
            ToolKind::ListDirectory => "查找文件"@,
            ToolKind::Grep => "搜索内容"@,
            ToolKind::Screenshot => "截取屏幕"@,
            ToolKind::SendImage => "发送图片"@,
            ToolKind::SendEmail => "发送邮件"@,
            ToolKind::MemorySearch => "搜索记忆"@,
            ToolKind::MemoryWrite => "写入记忆"@,
            ToolKind::TapeHandoff => "交接任务"@,
            ToolKind::TapeInfo => "查看会话"@,
            ToolKind::UserNote => "记录笔记"@,
            ToolKind::DistillUserNotes => "整理笔记"@,
            ToolKind::Settings => "调整设置"@,
            ToolKind::Composio => "执行集成"@,
            ToolKind::ListSkills => "查看技能"@,
            ToolKind::CreateSkill => "创建技能"@,
            ToolKind::DeleteSkill => "删除技能"@,
            ToolKind::InstallMcp => "安装 MCP"@,
            ToolKind::ListMcp => "检查 MCP"@,
            ToolKind::RemoveMcp => "移除 MCP"@,
            ToolKind::Dispatch => "分派任务"@,
            ToolKind::ListSessions => "查看会话列表"@,
            ToolKind::ReadTape => "读取会话记录"@,
            ToolKind::UpdateSoulState => "更新状态"@,
            ToolKind::EvolveSoul => "自我进化"@,
    }
}

/// Short English display name of a tool kind.
pub open spec fn short_name(k: ToolKind) -> Seq<char> {
    match k {
            ToolKind::ShellExecute => "shell"@,
            ToolKind::Bash => "bash"@,
            ToolKind::WebSearch => "search"@,
            ToolKind::WebFetch => "fetch"@,
            ToolKind::ReadFile => "read"@,
            ToolKind::WriteFile => "write"@,
            ToolKind::EditFile => "edit"@,
            ToolKind::FindFiles => "find"@,
            ToolKind::ListDirectory => "ls"@,
            ToolKind::Grep => "grep"@,
            ToolKind::Screenshot => "screenshot"@,
            ToolKind::SendImage => "send-image"@,
            ToolKind::SendEmail => "email"@,
            ToolKind::MemorySearch => "memory-search"@,
            ToolKind::MemoryWrite => "memory-write"@,
            ToolKind::TapeHandoff => "tape-handoff"@,
            ToolKind::TapeInfo => "tape-info"@,
            ToolKind::UserNote => "note"@,
            ToolKind::DistillUserNotes => "note-distill"@,
            ToolKind::Settings => "settings"@,
            ToolKind::Composio => "composio"@,
            ToolKind::ListSkills => "skills"@,
            ToolKind::CreateSkill => "skill-create"@,
            ToolKind::DeleteSkill => "skill-delete"@,
            ToolKind::InstallMcp => "mcp-install"@,
            ToolKind::ListMcp => "mcp-list"@,
            ToolKind::RemoveMcp => "mcp-remove"@,
            ToolKind::Dispatch => "dispatch"@,
            ToolKind::ListSessions => "sessions"@,
            ToolKind::ReadTape => "tape-read"@,
            ToolKind::UpdateSoulState => "soul-update"@,
            ToolKind::EvolveSoul => "soul-evolve"@,
    }
}

/// Display name of a raw tool name: the kind's short name, else the raw
/// name itself.
pub open spec fn display_name(raw: Seq<char>) -> Seq<char> {
    match tool_kind_of(raw) {
        Some(k) => short_name(k),
        None => raw,
    }
}

/// Activity label of a raw tool name: the kind's phrase, else `处理中`.
pub open spec fn activity_label(raw: Seq<char>) -> Seq<char> {
    match tool_kind_of(raw) {
        Some(k) => activity_phrase(k),
        None => "处理中"@,
    }
}

/// The first line of `s`, cut to `max` characters plus `…` when longer.
pub open spec fn summary_line(s: Seq<char>, max: nat) -> Seq<char> {
    let f = first_line_of(s);
    if f.len() <= max {
        f
    } else {
        f.take(max as int).push('…')
    }
}

/// Remove trailing `| head ...`, `| tail ...` and `| grep ...` segments.
pub open spec fn strip_pipes(r: Seq<char>) -> Seq<char>
    decreases r.len(),
{
    match rfind_in(r, '|', 0, r.len() as int) {
        Some(pos) => {
            let after = trim(r.skip(pos + 1));
            let head = trim_end(r.take(pos));
            if (starts_with(after, "head"@) || starts_with(after, "tail"@) || starts_with(
                after,
                "grep"@,
            )) && head.len() < r.len() {
                strip_pipes(head)
            } else {
                r
            }
        },
        None => r,
    }
}

/// A shell command without a trailing `2>&1` and without trailing pipes into
/// `head`, `tail` or `grep`.
pub open spec fn clean_shell(cmd: Seq<char>) -> Seq<char> {
    let s = trim(cmd);
    let s2 = if ends_with(s, "2>&1"@) {
        trim_end(s.take(s.len() - 4))
    } else {
        trim_end(s)
    };
    strip_pipes(s2)
}

/// The string value of field `key`, when present and a string.
pub open spec fn arg_str(f: Seq<(Seq<char>, Option<Seq<char>>)>, key: Seq<char>) -> Option<Seq<char>>
    decreases f.len(),
{
    if f.len() == 0 {
        None
    } else if f[0].0 == key {
        f[0].1
    } else {
        arg_str(f.drop_first(), key)
    }
}

/// The first string value among the fields.
pub open spec fn first_str(f: Seq<(Seq<char>, Option<Seq<char>>)>) -> Option<Seq<char>>
    decreases f.len(),
{
    if f.len() == 0 {
        None
    } else if f[0].1 is Some {
        f[0].1
    } else {
        first_str(f.drop_first())
    }
}

/// The string value of the first of `keys` that has one.
pub open spec fn first_of_keys(f: Seq<(Seq<char>, Option<Seq<char>>)>, keys: Seq<Seq<char>>) -> Option<
    Seq<char>,
>
    decreases keys.len(),
{
    if keys.len() == 0 {
        None
    } else {
        match arg_str(f, keys[0]) {
            Some(s) => Some(s),
            None => first_of_keys(f, keys.drop_first()),
        }
    }
}

/// `a` when it is a value, else `b`.
pub open spec fn or_else(a: Option<Seq<char>>, b: Option<Seq<char>>) -> Option<Seq<char>> {
    if a is Some {
        a
    } else {
        b
    }
}

/// Keys tried, in order, for the summary of a tool without its own rule.
pub open spec fn summary_keys() -> Seq<Seq<char>> {
    seq!["query"@, "command"@, "input"@, "path"@, "url"@]
}

/// Keys tried, in order, for the display info of a tool without its own
/// rule.
pub open spec fn info_keys() -> Seq<Seq<char>> {
    seq!["query"@, "command"@, "input"@, "path"@, "url"@, "name"@, "key"@]
}

/// The argument text summarised for tool `name`.
pub open spec fn summary_source(name: Seq<char>, f: Seq<(Seq<char>, Option<Seq<char>>)>) -> Option<
    Seq<char>,
> {
    if name == "shell_execute"@ {
        arg_str(f, "command"@)
    } else if name == "web_search"@ {
        arg_str(f, "query"@)
    } else if name == "web_fetch"@ {
        arg_str(f, "url"@)
    } else if name == "read-file"@ || name == "write-file"@ {
        arg_str(f, "path"@)
    } else {
        or_else(first_of_keys(f, summary_keys()), first_str(f))
    }
}

/// One-line summary of the arguments of tool `name` (empty when none).
pub open spec fn arguments_summary(name: Seq<char>, f: Seq<(Seq<char>, Option<Seq<char>>)>) -> Seq<
    char,
> {
    match summary_source(name, f) {
        Some(s) => summary_line(s, 80),
        None => seq![],
    }
}

/// The argument text shown in the display info of tool `name`.
pub open spec fn info_source(name: Seq<char>, f: Seq<(Seq<char>, Option<Seq<char>>)>) -> Option<
    Seq<char>,
> {
    if name == "bash"@ {
        arg_str(f, "command"@)
    } else if name == "web_search"@ {
        arg_str(f, "query"@)
    } else if name == "web_fetch"@ || name == "http-fetch"@ {
        arg_str(f, "url"@)
    } else if name == "read-file"@ || name == "write-file"@ || name == "edit-file"@ {
        arg_str(f, "path"@)
    } else if name == "find-files"@ || name == "list-directory"@ {
        arg_str(f, "path"@)
    } else if name == "grep"@ {
        arg_str(f, "pattern"@)
    } else if name == "memory_search"@ {
        arg_str(f, "query"@)
    } else if name == "memory_write"@ {
        arg_str(f, "key"@)
    } else if name == "tape-handoff"@ {
        arg_str(f, "summary"@)
    } else if name == "tape-info"@ {
        arg_str(f, "session_id"@)
    } else if name == "send-email"@ {
        or_else(arg_str(f, "subject"@), arg_str(f, "to"@))
    } else if name == "user-note"@ || name == "write-user-note"@ {
        or_else(arg_str(f, "title"@), arg_str(f, "key"@))
    } else if name == "dispatch-rara"@ {
        arg_str(f, "instruction"@)
    } else if name == "read-tape"@ {
        arg_str(f, "session_id"@)
    } else if name == "create-skill"@ || name == "delete-skill"@ {
        arg_str(f, "name"@)
    } else if name == "settings"@ {
        arg_str(f, "action"@)
    } else {
        or_else(first_of_keys(f, info_keys()), first_str(f))
    }
}

/// `(display name, full summary)` of tool `name` with its arguments.
pub open spec fn display_info(name: Seq<char>, f: Seq<(Seq<char>, Option<Seq<char>>)>) -> (
    Seq<char>,
    Seq<char>,
) {
    if name == "shell_execute"@ && arg_str(f, "command"@) is Some {
        let c = clean_shell(arg_str(f, "command"@)->0);
        if starts_with(c, "agent-browser "@) || starts_with(c, "agent-browser\t"@) {
            ("browser"@, first_line_of(trim(c.skip(14))))
        } else {
            ("shell"@, first_line_of(c))
        }
    } else {
        (
            display_name(name),
            match info_source(name, f) {
                Some(s) => first_line_of(s),
                None => seq![],
            },
        )
    }
}


// ---------------------------------------------------------------------------
// Implementation
// ---------------------------------------------------------------------------

impl ToolKind {
    /// Parse a raw tool name, returning `None` for unknown tools.
    pub fn parse(raw: &str) -> (r: Option<Self>)
        ensures
            r == tool_kind_of(raw@),
    {
        let v = chars_of(raw);
        if eq_lit(&v, "shell_execute") {
            Some(ToolKind::ShellExecute)
        } else if eq_lit(&v, "bash") {
            Some(ToolKind::Bash)
        } else if eq_lit(&v, "web_search") {
            Some(ToolKind::WebSearch)
        } else if eq_lit(&v, "web_fetch") || eq_lit(&v, "http-fetch") {
            Some(ToolKind::WebFetch)
        } else if eq_lit(&v, "read-file") {
            Some(ToolKind::ReadFile)
        } else if eq_lit(&v, "write-file") {
            Some(ToolKind::WriteFile)
        } else if eq_lit(&v, "edit-file") {
            Some(ToolKind::EditFile)
        } else if eq_lit(&v, "find-files") {
            Some(ToolKind::FindFiles)
        } else if eq_lit(&v, "list-directory") {
            Some(ToolKind::ListDirectory)
        } else if eq_lit(&v, "grep") {
            Some(ToolKind::Grep)
        } else if eq_lit(&v, "screenshot") {
            Some(ToolKind::Screenshot)
        } else if eq_lit(&v, "send-image") {
            Some(ToolKind::SendImage)
        } else if eq_lit(&v, "send-email") {
            Some(ToolKind::SendEmail)
        } else if eq_lit(&v, "memory_search") {
            Some(ToolKind::MemorySearch)
        } else if eq_lit(&v, "memory_write") {
            Some(ToolKind::MemoryWrite)
        } else if eq_lit(&v, "tape-handoff") {
            Some(ToolKind::TapeHandoff)
        } else if eq_lit(&v, "tape-info") {
            Some(ToolKind::TapeInfo)
        } else if eq_lit(&v, "user-note") || eq_lit(&v, "write-user-note") {
            Some(ToolKind::UserNote)
        } else if eq_lit(&v, "distill-user-notes") {
            Some(ToolKind::DistillUserNotes)
        } else if eq_lit(&v, "settings") {
            Some(ToolKind::Settings)
        } else if eq_lit(&v, "composio_list") || eq_lit(&v, "composio_execute") || eq_lit(&v, "composio_connect") || eq_lit(&v, "composio_accounts") {
            Some(ToolKind::Composio)
        } else if eq_lit(&v, "list-skills") {
            Some(ToolKind::ListSkills)
        } else if eq_lit(&v, "create-skill") {
            Some(ToolKind::CreateSkill)
        } else if eq_lit(&v, "delete-skill") {
            Some(ToolKind::DeleteSkill)
        } else if eq_lit(&v, "install-mcp-server") {
            Some(ToolKind::InstallMcp)
        } else if eq_lit(&v, "list-mcp-servers") {
            Some(ToolKind::ListMcp)
        } else if eq_lit(&v, "remove-mcp-server") {
            Some(ToolKind::RemoveMcp)
        } else if eq_lit(&v, "dispatch-rara") {
            Some(ToolKind::Dispatch)
        } else if eq_lit(&v, "list-sessions") {
            Some(ToolKind::ListSessions)
        } else if eq_lit(&v, "read-tape") {
            Some(ToolKind::ReadTape)
        } else if eq_lit(&v, "update-soul-state") {
            Some(ToolKind::UpdateSoulState)
        } else if eq_lit(&v, "evolve-soul") {
            Some(ToolKind::EvolveSoul)
        } else {
            None
        }
    }

    /// The Chinese activity phrase of this kind.
    pub fn get_message(&self) -> (r: Option<&'static str>)
        ensures
            r matches Some(m) && m@ == activity_phrase(*self),
    {
        Some(self.activity_str())
    }

    /// The short English display name of this kind.
    pub fn get_detailed_message(&self) -> (r: Option<&'static str>)
        ensures
            r matches Some(m) && m@ == short_name(*self),
    {
        Some(self.short_str())
    }

    /// The Chinese activity phrase of this kind.
    fn activity_str(&self) -> (r: &'static str)
        ensures
            r@ == activity_phrase(*self),
    {
        match self {
            ToolKind::ShellExecute => "执行命令",
            ToolKind::Bash => "执行命令",
            ToolKind::WebSearch => "搜索网页",
            ToolKind::WebFetch => "获取网页",
            ToolKind::ReadFile => "读取文件",
            ToolKind::WriteFile => "写入文件",
            ToolKind::EditFile => "编辑文件",
            ToolKind::FindFiles => "查找文件",
            ToolKind::ListDirectory => "查找文件",
            ToolKind::Grep => "搜索内容",
            ToolKind::Screenshot => "截取屏幕",
            ToolKind::SendImage => "发送图片",
            ToolKind::SendEmail => "发送邮件",
            ToolKind::MemorySearch => "搜索记忆",
            ToolKind::MemoryWrite => "写入记忆",
            ToolKind::TapeHandoff => "交接任务",
            ToolKind::TapeInfo => "查看会话",
            ToolKind::UserNote => "记录笔记",
            ToolKind::DistillUserNotes => "整理笔记",
            ToolKind::Settings => "调整设置",
            ToolKind::Composio => "执行集成",
            ToolKind::ListSkills => "查看技能",
            ToolKind::CreateSkill => "创建技能",
            ToolKind::DeleteSkill => "删除技能",
            ToolKind::InstallMcp => "安装 MCP",
            ToolKind::ListMcp => "检查 MCP",
            ToolKind::RemoveMcp => "移除 MCP",
            ToolKind::Dispatch => "分派任务",
            ToolKind::ListSessions => "查看会话列表",
            ToolKind::ReadTape => "读取会话记录",
            ToolKind::UpdateSoulState => "更新状态",
            ToolKind::EvolveSoul => "自我进化",
        }
    }

    /// The short English display name of this kind.
    fn short_str(&self) -> (r: &'static str)
        ensures
            r@ == short_name(*self),
    {
        match self {
            ToolKind::ShellExecute => "shell",
            ToolKind::Bash => "bash",
            ToolKind::WebSearch => "search",
            ToolKind::WebFetch => "fetch",
            ToolKind::ReadFile => "read",
            ToolKind::WriteFile => "write",
            ToolKind::EditFile => "edit",
            ToolKind::FindFiles => "find",
            ToolKind::ListDirectory => "ls",
            ToolKind::Grep => "grep",
            ToolKind::Screenshot => "screenshot",
            ToolKind::SendImage => "send-image",
            ToolKind::SendEmail => "email",
            ToolKind::MemorySearch => "memory-search",
            ToolKind::MemoryWrite => "memory-write",
            ToolKind::TapeHandoff => "tape-handoff",
            ToolKind::TapeInfo => "tape-info",
            ToolKind::UserNote => "note",
            ToolKind::DistillUserNotes => "note-distill",
            ToolKind::Settings => "settings",
            ToolKind::Composio => "composio",
            ToolKind::ListSkills => "skills",
            ToolKind::CreateSkill => "skill-create",
            ToolKind::DeleteSkill => "skill-delete",
            ToolKind::InstallMcp => "mcp-install",
            ToolKind::ListMcp => "mcp-list",
            ToolKind::RemoveMcp => "mcp-remove",
            ToolKind::Dispatch => "dispatch",
            ToolKind::ListSessions => "sessions",
            ToolKind::ReadTape => "tape-read",
            ToolKind::UpdateSoulState => "soul-update",
            ToolKind::EvolveSoul => "soul-evolve",
        }
    }
}

/// Map a raw tool name to its shorter, human-friendly display name; unknown
/// tools keep their raw name.
pub fn tool_display_name<'a>(raw: &'a str) -> (r: &'a str)
    ensures
        r@ == display_name(raw@),
{
    match ToolKind::parse(raw) {
        Some(k) => k.short_str(),
        None => raw,
    }
}

/// Map a raw tool name to its Chinese activity phrase; unknown tools get
/// `处理中`.
pub fn tool_activity_label(raw: &str) -> (r: &'static str)
    ensures
        r@ == activity_label(raw@),
{
    match ToolKind::parse(raw) {
        Some(k) => k.activity_str(),
        None => "处理中",
    }
}

/// The first line of `s` (everything before the first newline).
pub fn first_line(s: &str) -> (r: String)
    ensures
        r@ == first_line_of(s@),
{
    let v = chars_of(s);
    let f = crate::text::first_line_exec(&v);
    string_of(&f)
}

/// Take only the first line of `s`, cut to `max_chars` characters with a
/// trailing `…` when it is longer.
pub fn truncate_summary(s: &str, max_chars: usize) -> (r: String)
    ensures
        r@ == summary_line(s@, max_chars as nat),
{
    let v = chars_of(s);
    let r = truncate_summary_chars(&v, max_chars);
    string_of(&r)
}

/// [`truncate_summary`] on a character buffer.
fn truncate_summary_chars(v: &Vec<char>, max_chars: usize) -> (r: Vec<char>)
    ensures
        r@ == summary_line(v@, max_chars as nat),
{
    let f = crate::text::first_line_exec(v);
    if f.len() <= max_chars {
        f
    } else {
        let mut t = slice_of(&f, 0, max_chars);
        t.push('…');
        proof {
            assert(f@.subrange(0, max_chars as int) =~= f@.take(max_chars as int));
        }
        t
    }
}

/// Strip common shell noise from a command: a trailing `2>&1` and trailing
/// pipes into `head`, `tail` or `grep`.
pub fn clean_shell_command(cmd: &str) -> (r: String)
    ensures
        r@ == clean_shell(cmd@),
{
    let v = chars_of(cmd);
    let r = clean_shell_chars(&v);
    string_of(&r)
}

/// [`clean_shell_command`] on a character buffer.
fn clean_shell_chars(v: &Vec<char>) -> (r: Vec<char>)
    ensures
        r@ == clean_shell(v@),
{
    let s = trim_exec(v);
    let suffix = chars_of("2>&1");
    proof {
        reveal_strlit("2>&1");
    }
    let s2 = if crate::text::ends_with_exec(&s, &suffix) {
        let head = slice_of(&s, 0, s.len() - 4);
        proof {
            assert(head@ =~= s@.take(s@.len() - 4));
        }
        trim_end_exec(&head)
    } else {
        trim_end_exec(&s)
    };
    strip_pipe_suffixes(s2)
}

/// Remove trailing `| head`, `| tail` and `| grep` segments.
fn strip_pipe_suffixes(r: Vec<char>) -> (out: Vec<char>)
    ensures
        out@ == strip_pipes(r@),
    decreases r@.len(),
{
    let len = r.len();
    match rfind_in_exec(&r, '|', 0, len) {
        Some(pos) => {
            let tail = slice_of(&r, pos + 1, len);
            proof {
                assert(tail@ =~= r@.skip(pos + 1));
            }
            let after = trim_exec(&tail);
            let noisy = starts_with_exec(&after, &chars_of("head")) || starts_with_exec(
                &after,
                &chars_of("tail"),
            ) || starts_with_exec(&after, &chars_of("grep"));
            if noisy {
                let front = slice_of(&r, 0, pos);
                proof {
                    assert(front@ =~= r@.take(pos as int));
                    crate::text::lemma_trim_end_prefix(front@);
                }
                let head = trim_end_exec(&front);
                strip_pipe_suffixes(head)
            } else {
                r
            }
        },
        None => r,
    }
}

/// The string value of field `key`, when present and a string.
fn arg_str_exec(args: &ToolArgs, key: &str) -> (r: Option<String>)
    ensures
        opt_view(r) == arg_str(args@, key@),
{
    let n = args.fields.len();
    let k = chars_of(key);
    let mut i: usize = 0;
    proof {
        assert(args@.skip(0) =~= args@);
    }
    while i < n
        invariant
            n == args.fields@.len(),
            i <= n,
            k@ == key@,
            arg_str(args@, key@) == arg_str(args@.skip(i as int), key@),
        decreases n - i,
    {
        let f = &args.fields[i];
        proof {
            assert(args@.skip(i as int)[0] == (f.key@, opt_view(f.text)));
            assert(args@.skip(i as int).drop_first() =~= args@.skip(i + 1));
        }
        let fk = chars_of(f.key.as_str());
        if crate::text::seq_eq(&fk, &k) {
            return match &f.text {
                Some(t) => Some(t.clone()),
                None => None,
            };
        }
        i = i + 1;
    }
    None
}

/// The first string value among the top-level fields of the arguments.
pub fn first_string_value(args: &ToolArgs) -> (r: Option<String>)
    ensures
        opt_view(r) == first_str(args@),
{
    let n = args.fields.len();
    let mut i: usize = 0;
    proof {
        assert(args@.skip(0) =~= args@);
    }
    while i < n
        invariant
            n == args.fields@.len(),
            i <= n,
            first_str(args@) == first_str(args@.skip(i as int)),
        decreases n - i,
    {
        let f = &args.fields[i];
        proof {
            assert(args@.skip(i as int)[0] == (f.key@, opt_view(f.text)));
            assert(args@.skip(i as int).drop_first() =~= args@.skip(i + 1));
        }
        match &f.text {
            Some(t) => {
                return Some(t.clone());
            },
            None => {},
        }
        i = i + 1;
    }
    None
}

/// `a` when it is a value, else `b()`.
fn or_else_exec(a: Option<String>, b: Option<String>) -> (r: Option<String>)
    ensures
        opt_view(r) == or_else(opt_view(a), opt_view(b)),
{
    match a {
        Some(s) => Some(s),
        None => b,
    }
}

/// The string value of the first of the default summary keys.
fn first_of_summary_keys(args: &ToolArgs) -> (r: Option<String>)
    ensures
        opt_view(r) == first_of_keys(args@, summary_keys()),
{
    proof {
        reveal_with_fuel(first_of_keys, 6);
    }
    let a = arg_str_exec(args, "query");
    if a.is_some() {
        return a;
    }
    let a = arg_str_exec(args, "command");
    if a.is_some() {
        return a;
    }
    let a = arg_str_exec(args, "input");
    if a.is_some() {
        return a;
    }
    let a = arg_str_exec(args, "path");
    if a.is_some() {
        return a;
    }
    arg_str_exec(args, "url")
}

/// The string value of the first of the default display-info keys.
fn first_of_info_keys(args: &ToolArgs) -> (r: Option<String>)
    ensures
        opt_view(r) == first_of_keys(args@, info_keys()),
{
    proof {
        reveal_with_fuel(first_of_keys, 8);
    }
    let a = arg_str_exec(args, "query");
    if a.is_some() {
        return a;
    }
    let a = arg_str_exec(args, "command");
    if a.is_some() {
        return a;
    }
    let a = arg_str_exec(args, "input");
    if a.is_some() {
        return a;
    }
    let a = arg_str_exec(args, "path");
    if a.is_some() {
        return a;
    }
    let a = arg_str_exec(args, "url");
    if a.is_some() {
        return a;
    }
    let a = arg_str_exec(args, "name");
    if a.is_some() {
        return a;
    }
    arg_str_exec(args, "key")
}

/// Extract a one-line summary from tool arguments based on the tool name;
/// empty when no meaningful summary can be produced.
pub fn tool_arguments_summary(tool_name: &str, arguments: &ToolArgs) -> (r: String)
    ensures
        r@ == arguments_summary(tool_name@, arguments@),
{
    let name = chars_of(tool_name);
    let raw = if eq_lit(&name, "shell_execute") {
        arg_str_exec(arguments, "command")
    } else if eq_lit(&name, "web_search") {
        arg_str_exec(arguments, "query")
    } else if eq_lit(&name, "web_fetch") {
        arg_str_exec(arguments, "url")
    } else if eq_lit(&name, "read-file") || eq_lit(&name, "write-file") {
        arg_str_exec(arguments, "path")
    } else {
        let a = first_of_summary_keys(arguments);
        let b = first_string_value(arguments);
        or_else_exec(a, b)
    };
    match raw {
        Some(s) => truncate_summary(s.as_str(), 80),
        None => String::new(),
    }
}

/// The argument text shown in the display info of a tool.
fn info_source_exec(name: &Vec<char>, arguments: &ToolArgs) -> (r: Option<String>)
    ensures
        opt_view(r) == info_source(name@, arguments@),
{
    if eq_lit(name, "bash") {
        arg_str_exec(arguments, "command")
    } else if eq_lit(name, "web_search") {
        arg_str_exec(arguments, "query")
    } else if eq_lit(name, "web_fetch") || eq_lit(name, "http-fetch") {
        arg_str_exec(arguments, "url")
    } else if eq_lit(name, "read-file") || eq_lit(name, "write-file") || eq_lit(name, "edit-file") {
        arg_str_exec(arguments, "path")
    } else if eq_lit(name, "find-files") || eq_lit(name, "list-directory") {
        arg_str_exec(arguments, "path")
    } else if eq_lit(name, "grep") {
        arg_str_exec(arguments, "pattern")
    } else if eq_lit(name, "memory_search") {
        arg_str_exec(arguments, "query")
    } else if eq_lit(name, "memory_write") {
        arg_str_exec(arguments, "key")
    } else if eq_lit(name, "tape-handoff") {
        arg_str_exec(arguments, "summary")
    } else if eq_lit(name, "tape-info") {
        arg_str_exec(arguments, "session_id")
    } else if eq_lit(name, "send-email") {
        let a = arg_str_exec(arguments, "subject");
        let b = arg_str_exec(arguments, "to");
        or_else_exec(a, b)
    } else if eq_lit(name, "user-note") || eq_lit(name, "write-user-note") {
        let a = arg_str_exec(arguments, "title");
        let b = arg_str_exec(arguments, "key");
        or_else_exec(a, b)
    } else if eq_lit(name, "dispatch-rara") {
        arg_str_exec(arguments, "instruction")
    } else if eq_lit(name, "read-tape") {
        arg_str_exec(arguments, "session_id")
    } else if eq_lit(name, "create-skill") || eq_lit(name, "delete-skill") {
        arg_str_exec(arguments, "name")
    } else if eq_lit(name, "settings") {
        arg_str_exec(arguments, "action")
    } else {
        let a = first_of_info_keys(arguments);
        let b = first_string_value(arguments);
        or_else_exec(a, b)
    }
}

/// Return `(display_name, full_summary)` for a tool call.
///
/// For `shell_execute` commands starting with `agent-browser` the display
/// name becomes `browser` and the summary shows only the sub-command; shell
/// noise (trailing `2>&1`, pipes into `head`/`tail`/`grep`) is stripped. The
/// summary is the first line of the chosen argument, untruncated.
pub fn tool_display_info(tool_name: &str, arguments: &ToolArgs) -> (r: (String, String))
    ensures
        (r.0@, r.1@) == display_info(tool_name@, arguments@),
{
    let name = chars_of(tool_name);
    if eq_lit(&name, "shell_execute") {
        match arg_str_exec(arguments, "command") {
            Some(cmd) => {
                let cv = chars_of(cmd.as_str());
                let cleaned = clean_shell_chars(&cv);
                let p1 = chars_of("agent-browser ");
                let p2 = chars_of("agent-browser\t");
                if starts_with_exec(&cleaned, &p1) || starts_with_exec(&cleaned, &p2) {
                    proof {
                        reveal_strlit("agent-browser ");
                        reveal_strlit("agent-browser\t");
                    }
                    let rest = slice_of(&cleaned, 14, cleaned.len());
                    proof {
                        assert(rest@ =~= cleaned@.skip(14));
                    }
                    let t = trim_exec(&rest);
                    let f = crate::text::first_line_exec(&t);
                    return ("browser".to_string(), string_of(&f));
                }
                let f = crate::text::first_line_exec(&cleaned);
                return ("shell".to_string(), string_of(&f));
            },
            None => {},
        }
    }
    let display = tool_display_name(tool_name).to_string();
    let summary = match info_source_exec(&name, arguments) {
        Some(s) => first_line(s.as_str()),
        None => String::new(),
    };
    (display, summary)
}

proof fn lemma_shows_bash(f: Seq<(Seq<char>, Option<Seq<char>>)>)
    ensures
        display_info("bash"@, f).1 == shown(arg_str(f, "command"@)),
{
    reveal_strlit("bash");
    reveal_strlit("shell_execute");
    assert("bash"@.len() != "shell_execute"@.len());
}

proof fn lemma_shows_create_skill(f: Seq<(Seq<char>, Option<Seq<char>>)>)
    ensures
        display_info("create-skill"@, f).1 == shown(arg_str(f, "name"@)),
{
    reveal_strlit("bash");
    reveal_strlit("create-skill");
    reveal_strlit("dispatch-rara");
    reveal_strlit("edit-file");
    reveal_strlit("find-files");
    reveal_strlit("grep");
    reveal_strlit("http-fetch");
    reveal_strlit("list-directory");
    reveal_strlit("memory_search");
    reveal_strlit("memory_write");
    reveal_strlit("read-file");
    reveal_strlit("read-tape");
    reveal_strlit("send-email");
    reveal_strlit("shell_execute");
    reveal_strlit("tape-handoff");
    reveal_strlit("tape-info");
    reveal_strlit("user-note");
    reveal_strlit("web_fetch");
    reveal_strlit("web_search");
    reveal_strlit("write-file");
    reveal_strlit("write-user-note");
    assert("create-skill"@.len() != "bash"@.len());
    assert("create-skill"@.len() != "dispatch-rara"@.len());
    assert("create-skill"@.len() != "edit-file"@.len());
    assert("create-skill"@.len() != "find-files"@.len());
    assert("create-skill"@.len() != "grep"@.len());
    assert("create-skill"@.len() != "http-fetch"@.len());
    assert("create-skill"@.len() != "list-directory"@.len());
    assert("create-skill"@.len() != "memory_search"@.len());
    assert("create-skill"@[0] != "memory_write"@[0]);
    assert("create-skill"@.len() != "read-file"@.len());
    assert("create-skill"@.len() != "read-tape"@.len());
    assert("create-skill"@.len() != "send-email"@.len());
    assert("create-skill"@.len() != "shell_execute"@.len());
    assert("create-skill"@[0] != "tape-handoff"@[0]);
    assert("create-skill"@.len() != "tape-info"@.len());
    assert("create-skill"@.len() != "user-note"@.len());
    assert("create-skill"@.len() != "web_fetch"@.len());
    assert("create-skill"@.len() != "web_search"@.len());
    assert("create-skill"@.len() != "write-file"@.len());
    assert("create-skill"@.len() != "write-user-note"@.len());
}

proof fn lemma_shows_delete_skill(f: Seq<(Seq<char>, Option<Seq<char>>)>)
    ensures
        display_info("delete-skill"@, f).1 == shown(arg_str(f, "name"@)),
{
    reveal_strlit("bash");
    reveal_strlit("create-skill");
    reveal_strlit("delete-skill");
    reveal_strlit("dispatch-rara");
    reveal_strlit("edit-file");
    reveal_strlit("find-files");
    reveal_strlit("grep");
    reveal_strlit("http-fetch");
    reveal_strlit("list-directory");
    reveal_strlit("memory_search");
    reveal_strlit("memory_write");
    reveal_strlit("read-file");
    reveal_strlit("read-tape");
    reveal_strlit("send-email");
    reveal_strlit("shell_execute");
    reveal_strlit("tape-handoff");
    reveal_strlit("tape-info");
    reveal_strlit("user-note");
    reveal_strlit("web_fetch");
    reveal_strlit("web_search");
    reveal_strlit("write-file");
    reveal_strlit("write-user-note");
    assert("delete-skill"@.len() != "bash"@.len());
    assert("delete-skill"@[0] != "create-skill"@[0]);
    assert("delete-skill"@.len() != "dispatch-rara"@.len());
    assert("delete-skill"@.len() != "edit-file"@.len());
    assert("delete-skill"@.len() != "find-files"@.len());
    assert("delete-skill"@.len() != "grep"@.len());
    assert("delete-skill"@.len() != "http-fetch"@.len());
    assert("delete-skill"@.len() != "list-directory"@.len());
    assert("delete-skill"@.len() != "memory_search"@.len());
    assert("delete-skill"@[0] != "memory_write"@[0]);
    assert("delete-skill"@.len() != "read-file"@.len());
    assert("delete-skill"@.len() != "read-tape"@.len());
    assert("delete-skill"@.len() != "send-email"@.len());
    assert("delete-skill"@.len() != "shell_execute"@.len());
    assert("delete-skill"@[0] != "tape-handoff"@[0]);
    assert("delete-skill"@.len() != "tape-info"@.len());
    assert("delete-skill"@.len() != "user-note"@.len());
    assert("delete-skill"@.len() != "web_fetch"@.len());
    assert("delete-skill"@.len() != "web_search"@.len());
    assert("delete-skill"@.len() != "write-file"@.len());
    assert("delete-skill"@.len() != "write-user-note"@.len());
}

proof fn lemma_shows_dispatch_rara(f: Seq<(Seq<char>, Option<Seq<char>>)>)
    ensures
        display_info("dispatch-rara"@, f).1 == shown(arg_str(f, "instruction"@)),
{
    reveal_strlit("bash");
    reveal_strlit("dispatch-rara");
    reveal_strlit("edit-file");
    reveal_strlit("find-files");
    reveal_strlit("grep");
    reveal_strlit("http-fetch");
    reveal_strlit("list-directory");
    reveal_strlit("memory_search");
    reveal_strlit("memory_write");
    reveal_strlit("read-file");
    reveal_strlit("send-email");
    reveal_strlit("shell_execute");
    reveal_strlit("tape-handoff");
    reveal_strlit("tape-info");
    reveal_strlit("user-note");
    reveal_strlit("web_fetch");
    reveal_strlit("web_search");
    reveal_strlit("write-file");
    reveal_strlit("write-user-note");
    assert("dispatch-rara"@.len() != "bash"@.len());
    assert("dispatch-rara"@.len() != "edit-file"@.len());
    assert("dispatch-rara"@.len() != "find-files"@.len());
    assert("dispatch-rara"@.len() != "grep"@.len());
    assert("dispatch-rara"@.len() != "http-fetch"@.len());
    assert("dispatch-rara"@.len() != "list-directory"@.len());
    assert("dispatch-rara"@[0] != "memory_search"@[0]);
    assert("dispatch-rara"@.len() != "memory_write"@.len());
    assert("dispatch-rara"@.len() != "read-file"@.len());
    assert("dispatch-rara"@.len() != "send-email"@.len());
    assert("dispatch-rara"@[0] != "shell_execute"@[0]);
    assert("dispatch-rara"@.len() != "tape-handoff"@.len());
    assert("dispatch-rara"@.len() != "tape-info"@.len());
    assert("dispatch-rara"@.len() != "user-note"@.len());
    assert("dispatch-rara"@.len() != "web_fetch"@.len());
    assert("dispatch-rara"@.len() != "web_search"@.len());
    assert("dispatch-rara"@.len() != "write-file"@.len());
    assert("dispatch-rara"@.len() != "write-user-note"@.len());
}

proof fn lemma_shows_edit_file(f: Seq<(Seq<char>, Option<Seq<char>>)>)
    ensures
        display_info("edit-file"@, f).1 == shown(arg_str(f, "path"@)),
{
    reveal_strlit("bash");
    reveal_strlit("edit-file");
    reveal_strlit("http-fetch");
    reveal_strlit("read-file");
    reveal_strlit("shell_execute");
    reveal_strlit("web_fetch");
    reveal_strlit("web_search");
    reveal_strlit("write-file");
    assert("edit-file"@.len() != "bash"@.len());
    assert("edit-file"@.len() != "http-fetch"@.len());
    assert("edit-file"@[0] != "read-file"@[0]);
    assert("edit-file"@.len() != "shell_execute"@.len());
    assert("edit-file"@[0] != "web_fetch"@[0]);
    assert("edit-file"@.len() != "web_search"@.len());
    assert("edit-file"@.len() != "write-file"@.len());
}

proof fn lemma_shows_find_files(f: Seq<(Seq<char>, Option<Seq<char>>)>)
    ensures
        display_info("find-files"@, f).1 == shown(arg_str(f, "path"@)),
{
    reveal_strlit("bash");
    reveal_strlit("edit-file");
    reveal_strlit("find-files");
    reveal_strlit("http-fetch");
    reveal_strlit("read-file");
    reveal_strlit("shell_execute");
    reveal_strlit("web_fetch");
    reveal_strlit("web_search");
    reveal_strlit("write-file");
    assert("find-files"@.len() != "bash"@.len());
    assert("find-files"@.len() != "edit-file"@.len());
    assert("find-files"@[0] != "http-fetch"@[0]);
    assert("find-files"@.len() != "read-file"@.len());
    assert("find-files"@.len() != "shell_execute"@.len());
    assert("find-files"@.len() != "web_fetch"@.len());
    assert("find-files"@[0] != "web_search"@[0]);
    assert("find-files"@[0] != "write-file"@[0]);
}

proof fn lemma_shows_grep(f: Seq<(Seq<char>, Option<Seq<char>>)>)
    ensures
        display_info("grep"@, f).0 == "grep"@,
        display_info("grep"@, f).1 == shown(arg_str(f, "pattern"@)),
{
    reveal_strlit("bash");
    reveal_strlit("edit-file");
    reveal_strlit("find-files");
    reveal_strlit("grep");
    reveal_strlit("http-fetch");
    reveal_strlit("list-directory");
    reveal_strlit("read-file");
    reveal_strlit("shell_execute");
    reveal_strlit("web_fetch");
    reveal_strlit("web_search");
    reveal_strlit("write-file");
    assert("grep"@[0] != "bash"@[0]);
    assert("grep"@.len() != "edit-file"@.len());
    assert("grep"@.len() != "find-files"@.len());
    assert("grep"@.len() != "http-fetch"@.len());
    assert("grep"@.len() != "list-directory"@.len());
    assert("grep"@.len() != "read-file"@.len());
    assert("grep"@.len() != "shell_execute"@.len());
    assert("grep"@.len() != "web_fetch"@.len());
    assert("grep"@.len() != "web_search"@.len());
    assert("grep"@.len() != "write-file"@.len());
}

proof fn lemma_shows_http_fetch(f: Seq<(Seq<char>, Option<Seq<char>>)>)
    ensures
        display_info("http-fetch"@, f).1 == shown(arg_str(f, "url"@)),
{
    reveal_strlit("bash");
    reveal_strlit("http-fetch");
    reveal_strlit("shell_execute");
    reveal_strlit("web_fetch");
    reveal_strlit("web_search");
    assert("http-fetch"@.len() != "bash"@.len());
    assert("http-fetch"@.len() != "shell_execute"@.len());
    assert("http-fetch"@.len() != "web_fetch"@.len());
    assert("http-fetch"@[0] != "web_search"@[0]);
}

proof fn lemma_shows_list_directory(f: Seq<(Seq<char>, Option<Seq<char>>)>)
    ensures
        display_info("list-directory"@, f).1 == shown(arg_str(f, "path"@)),
{
    reveal_strlit("bash");
    reveal_strlit("edit-file");
    reveal_strlit("find-files");
    reveal_strlit("http-fetch");
    reveal_strlit("list-directory");
    reveal_strlit("read-file");
    reveal_strlit("shell_execute");
    reveal_strlit("web_fetch");
    reveal_strlit("web_search");
    reveal_strlit("write-file");
    assert("list-directory"@.len() != "bash"@.len());
    assert("list-directory"@.len() != "edit-file"@.len());
    assert("list-directory"@.len() != "find-files"@.len());
    assert("list-directory"@.len() != "http-fetch"@.len());
    assert("list-directory"@.len() != "read-file"@.len());
    assert("list-directory"@.len() != "shell_execute"@.len());
    assert("list-directory"@.len() != "web_fetch"@.len());
    assert("list-directory"@.len() != "web_search"@.len());
    assert("list-directory"@.len() != "write-file"@.len());
}

proof fn lemma_shows_memory_search(f: Seq<(Seq<char>, Option<Seq<char>>)>)
    ensures
        display_info("memory_search"@, f).1 == shown(arg_str(f, "query"@)),
{
    reveal_strlit("bash");
    reveal_strlit("edit-file");
    reveal_strlit("find-files");
    reveal_strlit("grep");
    reveal_strlit("http-fetch");
    reveal_strlit("list-directory");
    reveal_strlit("memory_search");
    reveal_strlit("read-file");
    reveal_strlit("shell_execute");
    reveal_strlit("web_fetch");
    reveal_strlit("web_search");
    reveal_strlit("write-file");
    assert("memory_search"@.len() != "bash"@.len());
    assert("memory_search"@.len() != "edit-file"@.len());
    assert("memory_search"@.len() != "find-files"@.len());
    assert("memory_search"@.len() != "grep"@.len());
    assert("memory_search"@.len() != "http-fetch"@.len());
    assert("memory_search"@.len() != "list-directory"@.len());
    assert("memory_search"@.len() != "read-file"@.len());
    assert("memory_search"@[0] != "shell_execute"@[0]);
    assert("memory_search"@.len() != "web_fetch"@.len());
    assert("memory_search"@.len() != "web_search"@.len());
    assert("memory_search"@.len() != "write-file"@.len());
}

proof fn lemma_shows_memory_write(f: Seq<(Seq<char>, Option<Seq<char>>)>)
    ensures
        display_info("memory_write"@, f).1 == shown(arg_str(f, "key"@)),
{
    reveal_strlit("bash");
    reveal_strlit("edit-file");
    reveal_strlit("find-files");
    reveal_strlit("grep");
    reveal_strlit("http-fetch");
    reveal_strlit("list-directory");
    reveal_strlit("memory_search");
    reveal_strlit("memory_write");
    reveal_strlit("read-file");
    reveal_strlit("shell_execute");
    reveal_strlit("web_fetch");
    reveal_strlit("web_search");
    reveal_strlit("write-file");
    assert("memory_write"@.len() != "bash"@.len());
    assert("memory_write"@.len() != "edit-file"@.len());
    assert("memory_write"@.len() != "find-files"@.len());
    assert("memory_write"@.len() != "grep"@.len());
    assert("memory_write"@.len() != "http-fetch"@.len());
    assert("memory_write"@.len() != "list-directory"@.len());
    assert("memory_write"@.len() != "memory_search"@.len());
    assert("memory_write"@.len() != "read-file"@.len());
    assert("memory_write"@.len() != "shell_execute"@.len());
    assert("memory_write"@.len() != "web_fetch"@.len());
    assert("memory_write"@.len() != "web_search"@.len());
    assert("memory_write"@.len() != "write-file"@.len());
}

proof fn lemma_shows_read_file(f: Seq<(Seq<char>, Option<Seq<char>>)>)
    ensures
        display_info("read-file"@, f).1 == shown(arg_str(f, "path"@)),
{
    reveal_strlit("bash");
    reveal_strlit("http-fetch");
    reveal_strlit("read-file");
    reveal_strlit("shell_execute");
    reveal_strlit("web_fetch");
    reveal_strlit("web_search");
    assert("read-file"@.len() != "bash"@.len());
    assert("read-file"@.len() != "http-fetch"@.len());
    assert("read-file"@.len() != "shell_execute"@.len());
    assert("read-file"@[0] != "web_fetch"@[0]);
    assert("read-file"@.len() != "web_search"@.len());
}

proof fn lemma_shows_read_tape(f: Seq<(Seq<char>, Option<Seq<char>>)>)
    ensures
        display_info("read-tape"@, f).1 == shown(arg_str(f, "session_id"@)),
{
    reveal_strlit("bash");
    reveal_strlit("dispatch-rara");
    reveal_strlit("edit-file");
    reveal_strlit("find-files");
    reveal_strlit("grep");
    reveal_strlit("http-fetch");
    reveal_strlit("list-directory");
    reveal_strlit("memory_search");
    reveal_strlit("memory_write");
    reveal_strlit("read-file");
    reveal_strlit("read-tape");
    reveal_strlit("send-email");
    reveal_strlit("shell_execute");
    reveal_strlit("tape-handoff");
    reveal_strlit("tape-info");
    reveal_strlit("user-note");
    reveal_strlit("web_fetch");
    reveal_strlit("web_search");
    reveal_strlit("write-file");
    reveal_strlit("write-user-note");
    assert("read-tape"@.len() != "bash"@.len());
    assert("read-tape"@.len() != "dispatch-rara"@.len());
    assert("read-tape"@[0] != "edit-file"@[0]);
    assert("read-tape"@.len() != "find-files"@.len());
    assert("read-tape"@.len() != "grep"@.len());
    assert("read-tape"@.len() != "http-fetch"@.len());
    assert("read-tape"@.len() != "list-directory"@.len());
    assert("read-tape"@.len() != "memory_search"@.len());
    assert("read-tape"@.len() != "memory_write"@.len());
    assert("read-tape"@[5] != "read-file"@[5]);
    assert("read-tape"@.len() != "send-email"@.len());
    assert("read-tape"@.len() != "shell_execute"@.len());
    assert("read-tape"@.len() != "tape-handoff"@.len());
    assert("read-tape"@[0] != "tape-info"@[0]);
    assert("read-tape"@[0] != "user-note"@[0]);
    assert("read-tape"@[0] != "web_fetch"@[0]);
    assert("read-tape"@.len() != "web_search"@.len());
    assert("read-tape"@.len() != "write-file"@.len());
    assert("read-tape"@.len() != "write-user-note"@.len());
}

proof fn lemma_shows_send_email(f: Seq<(Seq<char>, Option<Seq<char>>)>)
    ensures
        display_info("send-email"@, f).1 == shown(or_else(arg_str(f, "subject"@), arg_str(f, "to"@))),
{
    reveal_strlit("bash");
    reveal_strlit("edit-file");
    reveal_strlit("find-files");
    reveal_strlit("grep");
    reveal_strlit("http-fetch");
    reveal_strlit("list-directory");
    reveal_strlit("memory_search");
    reveal_strlit("memory_write");
    reveal_strlit("read-file");
    reveal_strlit("send-email");
    reveal_strlit("shell_execute");
    reveal_strlit("tape-handoff");
    reveal_strlit("tape-info");
    reveal_strlit("web_fetch");
    reveal_strlit("web_search");
    reveal_strlit("write-file");
    assert("send-email"@.len() != "bash"@.len());
    assert("send-email"@.len() != "edit-file"@.len());
    assert("send-email"@[0] != "find-files"@[0]);
    assert("send-email"@.len() != "grep"@.len());
    assert("send-email"@[0] != "http-fetch"@[0]);
    assert("send-email"@.len() != "list-directory"@.len());
    assert("send-email"@.len() != "memory_search"@.len());
    assert("send-email"@.len() != "memory_write"@.len());
    assert("send-email"@.len() != "read-file"@.len());
    assert("send-email"@.len() != "shell_execute"@.len());
    assert("send-email"@.len() != "tape-handoff"@.len());
    assert("send-email"@.len() != "tape-info"@.len());
    assert("send-email"@.len() != "web_fetch"@.len());
    assert("send-email"@[0] != "web_search"@[0]);
    assert("send-email"@[0] != "write-file"@[0]);
}

proof fn lemma_shows_settings(f: Seq<(Seq<char>, Option<Seq<char>>)>)
    ensures
        display_info("settings"@, f).1 == shown(arg_str(f, "action"@)),
{
    reveal_strlit("bash");
    reveal_strlit("create-skill");
    reveal_strlit("delete-skill");
    reveal_strlit("dispatch-rara");
    reveal_strlit("edit-file");
    reveal_strlit("find-files");
    reveal_strlit("grep");
    reveal_strlit("http-fetch");
    reveal_strlit("list-directory");
    reveal_strlit("memory_search");
    reveal_strlit("memory_write");
    reveal_strlit("read-file");
    reveal_strlit("read-tape");
    reveal_strlit("send-email");
    reveal_strlit("settings");
    reveal_strlit("shell_execute");
    reveal_strlit("tape-handoff");
    reveal_strlit("tape-info");
    reveal_strlit("user-note");
    reveal_strlit("web_fetch");
    reveal_strlit("web_search");
    reveal_strlit("write-file");
    reveal_strlit("write-user-note");
    assert("settings"@.len() != "bash"@.len());
    assert("settings"@.len() != "create-skill"@.len());
    assert("settings"@.len() != "delete-skill"@.len());
    assert("settings"@.len() != "dispatch-rara"@.len());
    assert("settings"@.len() != "edit-file"@.len());
    assert("settings"@.len() != "find-files"@.len());
    assert("settings"@.len() != "grep"@.len());
    assert("settings"@.len() != "http-fetch"@.len());
    assert("settings"@.len() != "list-directory"@.len());
    assert("settings"@.len() != "memory_search"@.len());
    assert("settings"@.len() != "memory_write"@.len());
    assert("settings"@.len() != "read-file"@.len());
    assert("settings"@.len() != "read-tape"@.len());
    assert("settings"@.len() != "send-email"@.len());
    assert("settings"@.len() != "shell_execute"@.len());
    assert("settings"@.len() != "tape-handoff"@.len());
    assert("settings"@.len() != "tape-info"@.len());
    assert("settings"@.len() != "user-note"@.len());
    assert("settings"@.len() != "web_fetch"@.len());
    assert("settings"@.len() != "web_search"@.len());
    assert("settings"@.len() != "write-file"@.len());
    assert("settings"@.len() != "write-user-note"@.len());
}

proof fn lemma_shows_tape_handoff(f: Seq<(Seq<char>, Option<Seq<char>>)>)
    ensures
        display_info("tape-handoff"@, f).1 == shown(arg_str(f, "summary"@)),
{
    reveal_strlit("bash");
    reveal_strlit("edit-file");
    reveal_strlit("find-files");
    reveal_strlit("grep");
    reveal_strlit("http-fetch");
    reveal_strlit("list-directory");
    reveal_strlit("memory_search");
    reveal_strlit("memory_write");
    reveal_strlit("read-file");
    reveal_strlit("shell_execute");
    reveal_strlit("tape-handoff");
    reveal_strlit("web_fetch");
    reveal_strlit("web_search");
    reveal_strlit("write-file");
    assert("tape-handoff"@.len() != "bash"@.len());
    assert("tape-handoff"@.len() != "edit-file"@.len());
    assert("tape-handoff"@.len() != "find-files"@.len());
    assert("tape-handoff"@.len() != "grep"@.len());
    assert("tape-handoff"@.len() != "http-fetch"@.len());
    assert("tape-handoff"@.len() != "list-directory"@.len());
    assert("tape-handoff"@.len() != "memory_search"@.len());
    assert("tape-handoff"@[0] != "memory_write"@[0]);
    assert("tape-handoff"@.len() != "read-file"@.len());
    assert("tape-handoff"@.len() != "shell_execute"@.len());
    assert("tape-handoff"@.len() != "web_fetch"@.len());
    assert("tape-handoff"@.len() != "web_search"@.len());
    assert("tape-handoff"@.len() != "write-file"@.len());
}

proof fn lemma_shows_tape_info(f: Seq<(Seq<char>, Option<Seq<char>>)>)
    ensures
        display_info("tape-info"@, f).1 == shown(arg_str(f, "session_id"@)),
{
    reveal_strlit("bash");
    reveal_strlit("edit-file");
    reveal_strlit("find-files");
    reveal_strlit("grep");
    reveal_strlit("http-fetch");
    reveal_strlit("list-directory");
    reveal_strlit("memory_search");
    reveal_strlit("memory_write");
    reveal_strlit("read-file");
    reveal_strlit("shell_execute");
    reveal_strlit("tape-handoff");
    reveal_strlit("tape-info");
    reveal_strlit("web_fetch");
    reveal_strlit("web_search");
    reveal_strlit("write-file");
    assert("tape-info"@.len() != "bash"@.len());
    assert("tape-info"@[0] != "edit-file"@[0]);
    assert("tape-info"@.len() != "find-files"@.len());
    assert("tape-info"@.len() != "grep"@.len());
    assert("tape-info"@.len() != "http-fetch"@.len());
    assert("tape-info"@.len() != "list-directory"@.len());
    assert("tape-info"@.len() != "memory_search"@.len());
    assert("tape-info"@.len() != "memory_write"@.len());
    assert("tape-info"@[0] != "read-file"@[0]);
    assert("tape-info"@.len() != "shell_execute"@.len());
    assert("tape-info"@.len() != "tape-handoff"@.len());
    assert("tape-info"@[0] != "web_fetch"@[0]);
    assert("tape-info"@.len() != "web_search"@.len());
    assert("tape-info"@.len() != "write-file"@.len());
}

proof fn lemma_shows_user_note(f: Seq<(Seq<char>, Option<Seq<char>>)>)
    ensures
        display_info("user-note"@, f).1 == shown(or_else(arg_str(f, "title"@), arg_str(f, "key"@))),
{
    reveal_strlit("bash");
    reveal_strlit("edit-file");
    reveal_strlit("find-files");
    reveal_strlit("grep");
    reveal_strlit("http-fetch");
    reveal_strlit("list-directory");
    reveal_strlit("memory_search");
    reveal_strlit("memory_write");
    reveal_strlit("read-file");
    reveal_strlit("send-email");
    reveal_strlit("shell_execute");
    reveal_strlit("tape-handoff");
    reveal_strlit("tape-info");
    reveal_strlit("user-note");
    reveal_strlit("web_fetch");
    reveal_strlit("web_search");
    reveal_strlit("write-file");
    assert("user-note"@.len() != "bash"@.len());
    assert("user-note"@[0] != "edit-file"@[0]);
    assert("user-note"@.len() != "find-files"@.len());
    assert("user-note"@.len() != "grep"@.len());
    assert("user-note"@.len() != "http-fetch"@.len());
    assert("user-note"@.len() != "list-directory"@.len());
    assert("user-note"@.len() != "memory_search"@.len());
    assert("user-note"@.len() != "memory_write"@.len());
    assert("user-note"@[0] != "read-file"@[0]);
    assert("user-note"@.len() != "send-email"@.len());
    assert("user-note"@.len() != "shell_execute"@.len());
    assert("user-note"@.len() != "tape-handoff"@.len());
    assert("user-note"@[0] != "tape-info"@[0]);
    assert("user-note"@[0] != "web_fetch"@[0]);
    assert("user-note"@.len() != "web_search"@.len());
    assert("user-note"@.len() != "write-file"@.len());
}

proof fn lemma_shows_web_fetch(f: Seq<(Seq<char>, Option<Seq<char>>)>)
    ensures
        display_info("web_fetch"@, f).1 == shown(arg_str(f, "url"@)),
{
    reveal_strlit("bash");
    reveal_strlit("shell_execute");
    reveal_strlit("web_fetch");
    reveal_strlit("web_search");
    assert("web_fetch"@.len() != "bash"@.len());
    assert("web_fetch"@.len() != "shell_execute"@.len());
    assert("web_fetch"@.len() != "web_search"@.len());
}

proof fn lemma_shows_web_search(f: Seq<(Seq<char>, Option<Seq<char>>)>)
    ensures
        display_info("web_search"@, f).1 == shown(arg_str(f, "query"@)),
{
    reveal_strlit("bash");
    reveal_strlit("shell_execute");
    reveal_strlit("web_search");
    assert("web_search"@.len() != "bash"@.len());
    assert("web_search"@.len() != "shell_execute"@.len());
}

proof fn lemma_shows_write_file(f: Seq<(Seq<char>, Option<Seq<char>>)>)
    ensures
        display_info("write-file"@, f).1 == shown(arg_str(f, "path"@)),
{
    reveal_strlit("bash");
    reveal_strlit("http-fetch");
    reveal_strlit("read-file");
    reveal_strlit("shell_execute");
    reveal_strlit("web_fetch");
    reveal_strlit("web_search");
    reveal_strlit("write-file");
    assert("write-file"@.len() != "bash"@.len());
    assert("write-file"@[0] != "http-fetch"@[0]);
    assert("write-file"@.len() != "read-file"@.len());
    assert("write-file"@.len() != "shell_execute"@.len());
    assert("write-file"@.len() != "web_fetch"@.len());
    assert("write-file"@[1] != "web_search"@[1]);
}

proof fn lemma_shows_write_user_note(f: Seq<(Seq<char>, Option<Seq<char>>)>)
    ensures
        display_info("write-user-note"@, f).1 == shown(or_else(arg_str(f, "title"@), arg_str(f, "key"@))),
{
    reveal_strlit("bash");
    reveal_strlit("edit-file");
    reveal_strlit("find-files");
    reveal_strlit("grep");
    reveal_strlit("http-fetch");
    reveal_strlit("list-directory");
    reveal_strlit("memory_search");
    reveal_strlit("memory_write");
    reveal_strlit("read-file");
    reveal_strlit("send-email");
    reveal_strlit("shell_execute");
    reveal_strlit("tape-handoff");
    reveal_strlit("tape-info");
    reveal_strlit("user-note");
    reveal_strlit("web_fetch");
    reveal_strlit("web_search");
    reveal_strlit("write-file");
    reveal_strlit("write-user-note");
    assert("write-user-note"@.len() != "bash"@.len());
    assert("write-user-note"@.len() != "edit-file"@.len());
    assert("write-user-note"@.len() != "find-files"@.len());
    assert("write-user-note"@.len() != "grep"@.len());
    assert("write-user-note"@.len() != "http-fetch"@.len());
    assert("write-user-note"@.len() != "list-directory"@.len());
    assert("write-user-note"@.len() != "memory_search"@.len());
    assert("write-user-note"@.len() != "memory_write"@.len());
    assert("write-user-note"@.len() != "read-file"@.len());
    assert("write-user-note"@.len() != "send-email"@.len());
    assert("write-user-note"@.len() != "shell_execute"@.len());
    assert("write-user-note"@.len() != "tape-handoff"@.len());
    assert("write-user-note"@.len() != "tape-info"@.len());
    assert("write-user-note"@.len() != "user-note"@.len());
    assert("write-user-note"@.len() != "web_fetch"@.len());
    assert("write-user-note"@.len() != "web_search"@.len());
    assert("write-user-note"@.len() != "write-file"@.len());
}

/// The summary shown for an argument, if any: its first line, else nothing.
pub open spec fn shown(arg: Option<Seq<char>>) -> Seq<char> {
    match arg {
        Some(p) => first_line_of(p),
        None => seq![],
    }
}

/// A tool with its own rule is summarised by its own argument: `grep` is
/// shown as `grep` with the first line of its `pattern`, `bash` with its
/// `command`, the file tools with their `path`, `send-email` with its
/// `subject` or else its `to`, and so on (nothing when it is missing).
pub proof fn law_tools_show_their_own_argument(f: Seq<(Seq<char>, Option<Seq<char>>)>)
    ensures
        display_info("bash"@, f).1 == shown(arg_str(f, "command"@)),
        display_info("create-skill"@, f).1 == shown(arg_str(f, "name"@)),
        display_info("delete-skill"@, f).1 == shown(arg_str(f, "name"@)),
        display_info("dispatch-rara"@, f).1 == shown(arg_str(f, "instruction"@)),
        display_info("edit-file"@, f).1 == shown(arg_str(f, "path"@)),
        display_info("find-files"@, f).1 == shown(arg_str(f, "path"@)),
        display_info("grep"@, f).0 == "grep"@,
        display_info("grep"@, f).1 == shown(arg_str(f, "pattern"@)),
        display_info("http-fetch"@, f).1 == shown(arg_str(f, "url"@)),
        display_info("list-directory"@, f).1 == shown(arg_str(f, "path"@)),
        display_info("memory_search"@, f).1 == shown(arg_str(f, "query"@)),
        display_info("memory_write"@, f).1 == shown(arg_str(f, "key"@)),
        display_info("read-file"@, f).1 == shown(arg_str(f, "path"@)),
        display_info("read-tape"@, f).1 == shown(arg_str(f, "session_id"@)),
        display_info("send-email"@, f).1 == shown(or_else(arg_str(f, "subject"@), arg_str(f, "to"@))),
        display_info("settings"@, f).1 == shown(arg_str(f, "action"@)),
        display_info("tape-handoff"@, f).1 == shown(arg_str(f, "summary"@)),
        display_info("tape-info"@, f).1 == shown(arg_str(f, "session_id"@)),
        display_info("user-note"@, f).1 == shown(or_else(arg_str(f, "title"@), arg_str(f, "key"@))),
        display_info("web_fetch"@, f).1 == shown(arg_str(f, "url"@)),
        display_info("web_search"@, f).1 == shown(arg_str(f, "query"@)),
        display_info("write-file"@, f).1 == shown(arg_str(f, "path"@)),
        display_info("write-user-note"@, f).1 == shown(or_else(arg_str(f, "title"@), arg_str(f, "key"@))),
{
    lemma_shows_bash(f);
    lemma_shows_create_skill(f);
    lemma_shows_delete_skill(f);
    lemma_shows_dispatch_rara(f);
    lemma_shows_edit_file(f);
    lemma_shows_find_files(f);
    lemma_shows_grep(f);
    lemma_shows_http_fetch(f);
    lemma_shows_list_directory(f);
    lemma_shows_memory_search(f);
    lemma_shows_memory_write(f);
    lemma_shows_read_file(f);
    lemma_shows_read_tape(f);
    lemma_shows_send_email(f);
    lemma_shows_settings(f);
    lemma_shows_tape_handoff(f);
    lemma_shows_tape_info(f);
    lemma_shows_user_note(f);
    lemma_shows_web_fetch(f);
    lemma_shows_web_search(f);
    lemma_shows_write_file(f);
    lemma_shows_write_user_note(f);
}

/// The one-line summary of a tool with its own rule comes from its own
/// argument, cut to 80 characters: `shell_execute` its `command`,
/// `web_search` its `query`, `web_fetch` its `url`, `read-file` and
/// `write-file` their `path`.
pub proof fn law_summaries_use_their_own_argument(f: Seq<(Seq<char>, Option<Seq<char>>)>)
    ensures
        arguments_summary("shell_execute"@, f) == match arg_str(f, "command"@) {
            Some(p) => summary_line(p, 80),
            None => seq![],
        },
        arguments_summary("web_search"@, f) == match arg_str(f, "query"@) {
            Some(p) => summary_line(p, 80),
            None => seq![],
        },
        arguments_summary("web_fetch"@, f) == match arg_str(f, "url"@) {
            Some(p) => summary_line(p, 80),
            None => seq![],
        },
        arguments_summary("read-file"@, f) == match arg_str(f, "path"@) {
            Some(p) => summary_line(p, 80),
            None => seq![],
        },
        arguments_summary("write-file"@, f) == match arg_str(f, "path"@) {
            Some(p) => summary_line(p, 80),
            None => seq![],
        },
{
    reveal_strlit("shell_execute");
    reveal_strlit("web_search");
    reveal_strlit("web_fetch");
    reveal_strlit("read-file");
    reveal_strlit("write-file");
    assert("web_search"@.len() != "shell_execute"@.len());
    assert("web_fetch"@.len() != "shell_execute"@.len());
    assert("web_fetch"@.len() != "web_search"@.len());
    assert("read-file"@.len() != "shell_execute"@.len());
    assert("read-file"@.len() != "web_search"@.len());
    assert("read-file"@[0] != "web_fetch"@[0]);
    assert("write-file"@.len() != "shell_execute"@.len());
    assert("write-file"@[1] != "web_search"@[1]);
    assert("write-file"@.len() != "web_fetch"@.len());
    assert("write-file"@.len() != "read-file"@.len());
}

} // verus!
