//! `/anchor_mode`: presets for how eagerly context is folded into anchors.

use vstd::prelude::*;

use crate::text::{
    chars_of, decimal, escape_html, push_decimal, push_escaped_str, push_str, seq_eq, string_of,
    trim, trim_exec,
};

verus! {

/// Auto-anchor aggressiveness preset.
#[derive(Debug, Clone, Copy, PartialEq, Eq, Structural)]
pub enum AnchorModePreset {
    Chat,
    Balanced,
    DeepWork,
}

/// `c` lowercased if it is an ASCII letter, with `_` turned into `-`.
pub open spec fn normalize_char(c: char) -> char {
    if 'A' <= c <= 'Z' {
        ((c as u32) + 32) as char
    } else if c == '_' {
        '-'
    } else {
        c
    }
}

/// The trimmed, ASCII-lowercased preset name with `_` read as `-`.
pub open spec fn normalized_name(raw: Seq<char>) -> Seq<char> {
    trim(raw).map_values(|c: char| normalize_char(c))
}

/// The preset a name stands for.
pub open spec fn preset_named(raw: Seq<char>) -> Option<AnchorModePreset> {
    let n = normalized_name(raw);
    if n == "chat"@ {
        Some(AnchorModePreset::Chat)
    } else if n == "balanced"@ {
        Some(AnchorModePreset::Balanced)
    } else if n == "deep-work"@ || n == "deepwork"@ {
        Some(AnchorModePreset::DeepWork)
    } else {
        None
    }
}

/// The label of a preset.
pub open spec fn preset_label(p: AnchorModePreset) -> Seq<char> {
    match p {
        AnchorModePreset::Chat => "chat"@,
        AnchorModePreset::Balanced => "balanced"@,
        AnchorModePreset::DeepWork => "deep-work"@,
    }
}

/// What a preset does.
pub open spec fn preset_behavior(p: AnchorModePreset) -> Seq<char> {
    match p {
        AnchorModePreset::Chat => "Fold sooner so casual chat keeps a smaller working set."@,
        AnchorModePreset::Balanced => "Keep the default balance between continuity and context cleanup."@,
        AnchorModePreset::DeepWork => "Fold later so longer local reasoning stays in immediate context."@,
    }
}

/// Executable [`normalize_char`].
fn normalize_char_exec(c: char) -> (r: char)
    ensures
        r == normalize_char(c),
{
    if 'A' <= c && c <= 'Z' {
        let b: u8 = ((c as u32) + 32) as u8;
        b as char
    } else if c == '_' {
        '-'
    } else {
        c
    }
}

impl AnchorModePreset {
    /// Parse a preset name: `chat`, `balanced`, `deep-work` (or `deepwork`),
    /// in any ASCII case, with `_` for `-`, around white space.
    pub fn parse(raw: &str) -> (r: Option<Self>)
        ensures
            r == preset_named(raw@),
    {
        let t = trim_exec(&chars_of(raw));
        let mut n: Vec<char> = Vec::new();
        for i in 0..t.len()
            invariant
                n@ == t@.take(i as int).map_values(|c: char| normalize_char(c)),
        {
            n.push(normalize_char_exec(t[i]));
            proof {
                assert(t@.take(i + 1) =~= t@.take(i as int).push(t@[i as int]));
                assert(n@ =~= t@.take(i + 1).map_values(|c: char| normalize_char(c)));
            }
        }
        proof {
            assert(t@.take(t@.len() as int) =~= t@);
        }
        if seq_eq(&n, &chars_of("chat")) {
            Some(AnchorModePreset::Chat)
        } else if seq_eq(&n, &chars_of("balanced")) {
            Some(AnchorModePreset::Balanced)
        } else if seq_eq(&n, &chars_of("deep-work")) || seq_eq(&n, &chars_of("deepwork")) {
            Some(AnchorModePreset::DeepWork)
        } else {
            None
        }
    }

    /// The preset's name.
    pub fn label(self) -> (r: &'static str)
        ensures
            r@ == preset_label(self),
    {
        match self {
            AnchorModePreset::Chat => "chat",
            AnchorModePreset::Balanced => "balanced",
            AnchorModePreset::DeepWork => "deep-work",
        }
    }

    /// What the preset does, in one sentence.
    pub fn behavior(self) -> (r: &'static str)
        ensures
            r@ == preset_behavior(self),
    {
        match self {
            AnchorModePreset::Chat => "Fold sooner so casual chat keeps a smaller working set.",
            AnchorModePreset::Balanced => "Keep the default balance between continuity and context cleanup.",
            AnchorModePreset::DeepWork => "Fold later so longer local reasoning stays in immediate context.",
        }
    }

    /// Minimum number of tape entries between two folds under the preset.
    pub fn min_entries_between_folds(self) -> (r: u64)
        ensures
            r == match self {
                AnchorModePreset::Chat => 6u64,
                AnchorModePreset::Balanced => 15u64,
                AnchorModePreset::DeepWork => 32u64,
            },
    {
        match self {
            AnchorModePreset::Chat => 6,
            AnchorModePreset::Balanced => 15,
            AnchorModePreset::DeepWork => 32,
        }
    }
}

/// The folding settings the report shows. The fold threshold is a float,
/// which this crate does not handle: it arrives formatted (two decimals),
/// and `preset` is the preset the settings match, if any.
pub struct FoldingSummary {
    pub preset: Option<AnchorModePreset>,
    pub enabled: bool,
    pub threshold_text: String,
    pub min_entries_between_folds: u64,
    pub fold_model: Option<String>,
}

/// The mode label of the report.
pub open spec fn mode_label(s: FoldingSummary) -> Seq<char> {
    match s.preset {
        Some(p) => preset_label(p),
        None => if s.enabled {
            "custom"@
        } else {
            "custom (auto-fold off)"@
        },
    }
}

/// The behavior line of the report.
pub open spec fn mode_behavior(s: FoldingSummary) -> Seq<char> {
    match s.preset {
        Some(p) => preset_behavior(p),
        None => if s.enabled {
            "Using custom context folding values."@
        } else {
            "Automatic context folding is currently disabled."@
        },
    }
}

/// The fold model shown.
pub open spec fn fold_model_text(s: FoldingSummary) -> Seq<char> {
    match s.fold_model {
        Some(m) => escape_html(m@),
        None => "session default"@,
    }
}

/// The `/anchor_mode` report, after an optional update notice.
pub open spec fn anchor_mode_report(s: FoldingSummary, notice: Option<Seq<char>>) -> Seq<char> {
    (match notice {
        Some(n) => n + "\n\n"@,
        None => seq![],
    }) + "<b>Anchor mode</b>: "@ + escape_html(mode_label(s)) + "\n<b>Behavior</b>: "@ + escape_html(
        mode_behavior(s),
    ) + "\n<b>Auto-fold enabled</b>: "@ + (if s.enabled {
        "true"@
    } else {
        "false"@
    }) + "\n<b>Fold threshold</b>: "@ + s.threshold_text@ + "\n<b>Min entries between folds</b>: "@
        + decimal(s.min_entries_between_folds as nat) + "\n<b>Fold model</b>: "@ + fold_model_text(s)
        + "\n\nSet with <code>/anchor_mode chat</code>, <code>/anchor_mode balanced</code>, or <code>/anchor_mode deep-work</code>."@
}

/// Render the `/anchor_mode` report.
pub fn render_anchor_mode_report(s: &FoldingSummary, update_notice: Option<String>) -> (r: String)
    ensures
        r@ == anchor_mode_report(*s, crate::text::opt_view(update_notice)),
{
    let mut out: Vec<char> = Vec::new();
    match &update_notice {
        Some(n) => {
            push_str(&mut out, n.as_str());
            push_str(&mut out, "\n\n");
        },
        None => {},
    }
    let ghost head = out@;
    push_str(&mut out, "<b>Anchor mode</b>: ");
    match s.preset {
        Some(p) => push_escaped_str(&mut out, p.label()),
        None => if s.enabled {
            push_escaped_str(&mut out, "custom")
        } else {
            push_escaped_str(&mut out, "custom (auto-fold off)")
        },
    }
    push_str(&mut out, "\n<b>Behavior</b>: ");
    match s.preset {
        Some(p) => push_escaped_str(&mut out, p.behavior()),
        None => if s.enabled {
            push_escaped_str(&mut out, "Using custom context folding values.")
        } else {
            push_escaped_str(&mut out, "Automatic context folding is currently disabled.")
        },
    }
    push_str(&mut out, "\n<b>Auto-fold enabled</b>: ");
    if s.enabled {
        push_str(&mut out, "true");
    } else {
        push_str(&mut out, "false");
    }
    push_str(&mut out, "\n<b>Fold threshold</b>: ");
    push_str(&mut out, s.threshold_text.as_str());
    push_str(&mut out, "\n<b>Min entries between folds</b>: ");
    push_decimal(&mut out, s.min_entries_between_folds as u128);
    push_str(&mut out, "\n<b>Fold model</b>: ");
    let ghost before_model = out@;
    match &s.fold_model {
        Some(m) => push_escaped_str(&mut out, m.as_str()),
        None => push_str(&mut out, "session default"),
    }
    let ghost after_model = out@;
    push_str(
        &mut out,
        "\n\nSet with <code>/anchor_mode chat</code>, <code>/anchor_mode balanced</code>, or <code>/anchor_mode deep-work</code>.",
    );
    proof {
        let notice: Seq<char> = match crate::text::opt_view(update_notice) {
            Some(n) => n + "\n\n"@,
            None => seq![],
        };
        assert(head =~= notice);
        assert(after_model =~= before_model + fold_model_text(*s));
        assert(out@ =~= anchor_mode_report(*s, crate::text::opt_view(update_notice)));
    }
    string_of(&out)
}

/// What `/anchor_mode` was asked to do.
#[derive(Debug, Clone, Copy, PartialEq, Eq, Structural)]
pub enum AnchorModeRequest {
    /// Show the current settings.
    Show,
    /// Switch to a preset.
    Switch(AnchorModePreset),
    /// Unknown argument: show the usage.
    Usage,
}

/// The request the arguments of `/anchor_mode` make.
pub open spec fn anchor_mode_request(args: Seq<char>) -> AnchorModeRequest {
    let a = trim(args);
    if a.len() == 0 || a == "show"@ || a == "status"@ || a == "current"@ {
        AnchorModeRequest::Show
    } else {
        match preset_named(args) {
            Some(p) => AnchorModeRequest::Switch(p),
            None => AnchorModeRequest::Usage,
        }
    }
}

/// Read the arguments of `/anchor_mode`.
pub fn parse_anchor_mode_request(args: &str) -> (r: AnchorModeRequest)
    ensures
        r == anchor_mode_request(args@),
{
    let a = trim_exec(&chars_of(args));
    if a.len() == 0 || seq_eq(&a, &chars_of("show")) || seq_eq(&a, &chars_of("status")) || seq_eq(
        &a,
        &chars_of("current"),
    ) {
        return AnchorModeRequest::Show;
    }
    match AnchorModePreset::parse(args) {
        Some(p) => AnchorModeRequest::Switch(p),
        None => AnchorModeRequest::Usage,
    }
}

/// The usage of `/anchor_mode`.
pub fn usage_text() -> (r: &'static str)
    ensures
        r@ == "Usage: /anchor_mode [chat|balanced|deep-work]"@,
{
    "Usage: /anchor_mode [chat|balanced|deep-work]"
}

/// The notice shown above the report after switching presets.
pub fn update_notice(p: AnchorModePreset) -> (r: String)
    ensures
        r@ == "Updated anchor mode to <b>"@ + preset_label(p)
            + "</b>. The new folding behavior applies on the next turn."@,
{
    let mut out: Vec<char> = Vec::new();
    push_str(&mut out, "Updated anchor mode to <b>");
    push_str(&mut out, p.label());
    push_str(&mut out, "</b>. The new folding behavior applies on the next turn.");
    string_of(&out)
}

} // verus!
