//! LaTeX math to Unicode text converter for Telegram.
//!
//! Telegram does not render LaTeX. `$...$` (inline math) and `$$...$$`
//! (display math) blocks are turned into readable Unicode text: Greek
//! letters, operators, relations, arrows and big operators become their
//! Unicode symbols, `_x` / `^x` become sub- and superscripts where Unicode
//! has them, `\frac{a}{b}` becomes `a/b`, `\sqrt{x}` becomes `√x` and
//! `\text{...}` keeps its content. Text outside math delimiters is returned
//! unchanged.

use vstd::prelude::*;

use crate::text::{chars_of, eq_lit, is_ws, is_ws_exec, push_seq, slice_of, string_of, trim, trim_exec, trim_start, trim_end};

verus! {

/// Maximum nesting depth of converted groups (sub/superscripts inside
/// sub/superscripts, fractions inside fractions). Deeper content is copied
/// verbatim, which keeps adversarial input from exhausting the stack.
pub const MAX_DEPTH: usize = 8;

// ---------------------------------------------------------------------------
// Specification
// ---------------------------------------------------------------------------

/// ASCII letter (`char::is_ascii_alphabetic`).
pub open spec fn is_ascii_alpha(c: char) -> bool {
    ('a' <= c && c <= 'z') || ('A' <= c && c <= 'Z')
}

/// Characters that a backslash escapes literally inside math.
pub open spec fn is_escapable(c: char) -> bool {
    c == '{' || c == '}' || c == '\\' || c == '$' || c == '%' || c == '&'
}

/// Sub- or superscript form of `c`.
pub open spec fn script_char(c: char, sup: bool) -> char {
    if sup {
        superscript_char(c)
    } else {
        subscript_char(c)
    }
}

/// Every character of `s` in its sub- or superscript form.
pub open spec fn scripted(s: Seq<char>, sup: bool) -> Seq<char> {
    s.map_values(|c: char| script_char(c, sup))
}

/// Unicode subscript form of `c`, or `c` itself when there is none.
pub open spec fn subscript_char(c: char) -> char {
    if c == '0' {
        '₀'
    } else if c == '1' {
        '₁'
    } else if c == '2' {
        '₂'
    } else if c == '3' {
        '₃'
    } else if c == '4' {
        '₄'
    } else if c == '5' {
        '₅'
    } else if c == '6' {
        '₆'
    } else if c == '7' {
        '₇'
    } else if c == '8' {
        '₈'
    } else if c == '9' {
        '₉'
    } else if c == '+' {
        '₊'
    } else if c == '-' {
        '₋'
    } else if c == '=' {
        '₌'
    } else if c == '(' {
        '₍'
    } else if c == ')' {
        '₎'
    } else if c == 'a' {
        'ₐ'
    } else if c == 'e' {
        'ₑ'
    } else if c == 'h' {
        'ₕ'
    } else if c == 'i' {
        'ᵢ'
    } else if c == 'j' {
        'ⱼ'
    } else if c == 'k' {
        'ₖ'
    } else if c == 'l' {
        'ₗ'
    } else if c == 'm' {
        'ₘ'
    } else if c == 'n' {
        'ₙ'
    } else if c == 'o' {
        'ₒ'
    } else if c == 'p' {
        'ₚ'
    } else if c == 'r' {
        'ᵣ'
    } else if c == 's' {
        'ₛ'
    } else if c == 't' {
        'ₜ'
    } else if c == 'u' {
        'ᵤ'
    } else if c == 'v' {
        'ᵥ'
    } else if c == 'x' {
        'ₓ'
    } else {
        c
    }
}

/// Unicode superscript form of `c`, or `c` itself when there is none.
pub open spec fn superscript_char(c: char) -> char {
    if c == '0' {
        '⁰'
    } else if c == '1' {
        '¹'
    } else if c == '2' {
        '²'
    } else if c == '3' {
        '³'
    } else if c == '4' {
        '⁴'
    } else if c == '5' {
        '⁵'
    } else if c == '6' {
        '⁶'
    } else if c == '7' {
        '⁷'
    } else if c == '8' {
        '⁸'
    } else if c == '9' {
        '⁹'
    } else if c == '+' {
        '⁺'
    } else if c == '-' {
        '⁻'
    } else if c == '=' {
        '⁼'
    } else if c == '(' {
        '⁽'
    } else if c == ')' {
        '⁾'
    } else if c == 'n' {
        'ⁿ'
    } else if c == 'i' {
        'ⁱ'
    } else {
        c
    }
}

/// The Unicode replacement of a simple LaTeX command, by command name.
pub open spec fn latex_symbol(name: Seq<char>) -> Option<Seq<char>> {
    if name == "alpha"@ {
        Some("α"@)
    } else if name == "beta"@ {
        Some("β"@)
    } else if name == "gamma"@ {
        Some("γ"@)
    } else if name == "delta"@ {
        Some("δ"@)
    } else if name == "epsilon"@ {
        Some("ε"@)
    } else if name == "varepsilon"@ {
        Some("ε"@)
    } else if name == "zeta"@ {
        Some("ζ"@)
    } else if name == "eta"@ {
        Some("η"@)
    } else if name == "theta"@ {
        Some("θ"@)
    } else if name == "vartheta"@ {
        Some("θ"@)
    } else if name == "iota"@ {
        Some("ι"@)
    } else if name == "kappa"@ {
        Some("κ"@)
    } else if name == "lambda"@ {
        Some("λ"@)
    } else if name == "mu"@ {
        Some("μ"@)
    } else if name == "nu"@ {
        Some("ν"@)
    } else if name == "xi"@ {
        Some("ξ"@)
    } else if name == "pi"@ {
        Some("π"@)
    } else if name == "varpi"@ {
        Some("π"@)
    } else if name == "rho"@ {
        Some("ρ"@)
    } else if name == "varrho"@ {
        Some("ρ"@)
    } else if name == "sigma"@ {
        Some("σ"@)
    } else if name == "varsigma"@ {
        Some("σ"@)
    } else if name == "tau"@ {
        Some("τ"@)
    } else if name == "upsilon"@ {
        Some("υ"@)
    } else if name == "phi"@ {
        Some("φ"@)
    } else if name == "varphi"@ {
        Some("φ"@)
    } else if name == "chi"@ {
        Some("χ"@)
    } else if name == "psi"@ {
        Some("ψ"@)
    } else if name == "omega"@ {
        Some("ω"@)
    } else if name == "Gamma"@ {
        Some("Γ"@)
    } else if name == "Delta"@ {
        Some("Δ"@)
    } else if name == "Theta"@ {
        Some("Θ"@)
    } else if name == "Lambda"@ {
        Some("Λ"@)
    } else if name == "Xi"@ {
        Some("Ξ"@)
    } else if name == "Pi"@ {
        Some("Π"@)
    } else if name == "Sigma"@ {
        Some("Σ"@)
    } else if name == "Upsilon"@ {
        Some("Υ"@)
    } else if name == "Phi"@ {
        Some("Φ"@)
    } else if name == "Psi"@ {
        Some("Ψ"@)
    } else if name == "Omega"@ {
        Some("Ω"@)
    } else if name == "times"@ {
        Some("×"@)
    } else if name == "div"@ {
        Some("÷"@)
    } else if name == "cdot"@ {
        Some("·"@)
    } else if name == "pm"@ {
        Some("±"@)
    } else if name == "mp"@ {
        Some("∓"@)
    } else if name == "ast"@ {
        Some("∗"@)
    } else if name == "star"@ {
        Some("⋆"@)
    } else if name == "circ"@ {
        Some("∘"@)
    } else if name == "bullet"@ {
        Some("•"@)
    } else if name == "leq"@ {
        Some("≤"@)
    } else if name == "le"@ {
        Some("≤"@)
    } else if name == "geq"@ {
        Some("≥"@)
    } else if name == "ge"@ {
        Some("≥"@)
    } else if name == "neq"@ {
        Some("≠"@)
    } else if name == "ne"@ {
        Some("≠"@)
    } else if name == "approx"@ {
        Some("≈"@)
    } else if name == "equiv"@ {
        Some("≡"@)
    } else if name == "sim"@ {
        Some("∼"@)
    } else if name == "simeq"@ {
        Some("≃"@)
    } else if name == "cong"@ {
        Some("≅"@)
    } else if name == "propto"@ {
        Some("∝"@)
    } else if name == "ll"@ {
        Some("≪"@)
    } else if name == "gg"@ {
        Some("≫"@)
    } else if name == "subset"@ {
        Some("⊂"@)
    } else if name == "supset"@ {
        Some("⊃"@)
    } else if name == "subseteq"@ {
        Some("⊆"@)
    } else if name == "supseteq"@ {
        Some("⊇"@)
    } else if name == "in"@ {
        Some("∈"@)
    } else if name == "notin"@ {
        Some("∉"@)
    } else if name == "ni"@ {
        Some("∋"@)
    } else if name == "to"@ {
        Some("→"@)
    } else if name == "rightarrow"@ {
        Some("→"@)
    } else if name == "leftarrow"@ {
        Some("←"@)
    } else if name == "leftrightarrow"@ {
        Some("↔"@)
    } else if name == "Rightarrow"@ {
        Some("⇒"@)
    } else if name == "Leftarrow"@ {
        Some("⇐"@)
    } else if name == "Leftrightarrow"@ {
        Some("⇔"@)
    } else if name == "uparrow"@ {
        Some("↑"@)
    } else if name == "downarrow"@ {
        Some("↓"@)
    } else if name == "mapsto"@ {
        Some("↦"@)
    } else if name == "sum"@ {
        Some("∑"@)
    } else if name == "prod"@ {
        Some("∏"@)
    } else if name == "int"@ {
        Some("∫"@)
    } else if name == "iint"@ {
        Some("∬"@)
    } else if name == "iiint"@ {
        Some("∭"@)
    } else if name == "oint"@ {
        Some("∮"@)
    } else if name == "bigcup"@ {
        Some("⋃"@)
    } else if name == "bigcap"@ {
        Some("⋂"@)
    } else if name == "infty"@ {
        Some("∞"@)
    } else if name == "partial"@ {
        Some("∂"@)
    } else if name == "nabla"@ {
        Some("∇"@)
    } else if name == "forall"@ {
        Some("∀"@)
    } else if name == "exists"@ {
        Some("∃"@)
    } else if name == "nexists"@ {
        Some("∄"@)
    } else if name == "emptyset"@ {
        Some("∅"@)
    } else if name == "varnothing"@ {
        Some("∅"@)
    } else if name == "neg"@ {
        Some("¬"@)
    } else if name == "lnot"@ {
        Some("¬"@)
    } else if name == "land"@ {
        Some("∧"@)
    } else if name == "wedge"@ {
        Some("∧"@)
    } else if name == "lor"@ {
        Some("∨"@)
    } else if name == "vee"@ {
        Some("∨"@)
    } else if name == "cap"@ {
        Some("∩"@)
    } else if name == "cup"@ {
        Some("∪"@)
    } else if name == "therefore"@ {
        Some("∴"@)
    } else if name == "because"@ {
        Some("∵"@)
    } else if name == "angle"@ {
        Some("∠"@)
    } else if name == "triangle"@ {
        Some("△"@)
    } else if name == "perp"@ {
        Some("⊥"@)
    } else if name == "parallel"@ {
        Some("∥"@)
    } else if name == "prime"@ {
        Some("′"@)
    } else if name == "hbar"@ {
        Some("ℏ"@)
    } else if name == "ell"@ {
        Some("ℓ"@)
    } else if name == "Re"@ {
        Some("ℜ"@)
    } else if name == "Im"@ {
        Some("ℑ"@)
    } else if name == "aleph"@ {
        Some("ℵ"@)
    } else if name == "ldots"@ {
        Some("…"@)
    } else if name == "dots"@ {
        Some("…"@)
    } else if name == "cdots"@ {
        Some("⋯"@)
    } else if name == "vdots"@ {
        Some("⋮"@)
    } else if name == "ddots"@ {
        Some("⋱"@)
    } else if name == "quad"@ {
        Some("  "@)
    } else if name == "qquad"@ {
        Some("    "@)
    } else if name == ","@ {
        Some(" "@)
    } else if name == ";"@ {
        Some(" "@)
    } else if name == "!"@ {
        Some(""@)
    } else if name == "left"@ {
        Some(""@)
    } else if name == "right"@ {
        Some(""@)
    } else if name == "big"@ {
        Some(""@)
    } else if name == "Big"@ {
        Some(""@)
    } else if name == "bigg"@ {
        Some(""@)
    } else if name == "Bigg"@ {
        Some(""@)
    } else if name == "displaystyle"@ {
        Some(""@)
    } else if name == "textstyle"@ {
        Some(""@)
    } else if name == "scriptstyle"@ {
        Some(""@)
    } else if name == "mathrm"@ {
        Some(""@)
    } else if name == "mathbf"@ {
        Some(""@)
    } else if name == "mathit"@ {
        Some(""@)
    } else if name == "mathcal"@ {
        Some(""@)
    } else if name == "mathbb"@ {
        Some(""@)
    } else {
        None
    }
}



/// First index `k >= i` with `$$` at `k`, `k + 1`.
pub open spec fn find_double_dollar(s: Seq<char>, i: int) -> Option<int>
    decreases s.len() - i,
{
    if i < 0 || i + 1 >= s.len() {
        None
    } else if s[i] == '$' && s[i + 1] == '$' {
        Some(i)
    } else {
        find_double_dollar(s, i + 1)
    }
}

/// A display-math block `$$...$$` opening at `pos`: its content and the
/// index after the closing `$$`. `None` when there is no closing `$$`.
pub open spec fn display_math(s: Seq<char>, pos: int) -> Option<(Seq<char>, int)> {
    if pos < 0 || pos + 1 >= s.len() || s[pos] != '$' || s[pos + 1] != '$' {
        None
    } else {
        match find_double_dollar(s, pos + 2) {
            Some(k) => Some((s.subrange(pos + 2, k), k + 2)),
            None => None,
        }
    }
}

/// Scan for the `$` closing an inline block whose content starts at `cs`.
pub open spec fn inline_close(s: Seq<char>, cs: int, i: int) -> Option<(Seq<char>, int)>
    decreases s.len() - i,
{
    if i < cs || i >= s.len() {
        None
    } else if s[i] == '$' {
        if i > cs && !is_ws(s[i - 1]) {
            Some((s.subrange(cs, i), i + 1))
        } else {
            None
        }
    } else if s[i] == '\n' {
        None
    } else {
        inline_close(s, cs, i + 1)
    }
}

/// An inline-math block `$...$` opening at `pos`: its content and the index
/// after the closing `$`. The content must be non-empty, must not start or
/// end with white space and must not span a newline.
pub open spec fn inline_math(s: Seq<char>, pos: int) -> Option<(Seq<char>, int)> {
    if pos < 0 || pos >= s.len() || s[pos] != '$' {
        None
    } else if pos + 1 >= s.len() || is_ws(s[pos + 1]) {
        None
    } else {
        inline_close(s, pos + 1, pos + 1)
    }
}

/// Index of the `}` that brings the brace depth from `depth` to zero,
/// scanning from `i`.
pub open spec fn brace_close(s: Seq<char>, i: int, depth: nat) -> Option<int>
    decreases s.len() - i,
{
    if i < 0 || i >= s.len() || depth == 0 {
        None
    } else {
        let d: int = if s[i] == '{' {
            depth + 1int
        } else if s[i] == '}' {
            depth - 1int
        } else {
            depth as int
        };
        if d == 0 {
            Some(i)
        } else {
            brace_close(s, i + 1, d as nat)
        }
    }
}

/// A balanced `{...}` group opening at `pos`: its content and the index
/// after the closing brace.
pub open spec fn braced_group(s: Seq<char>, pos: int) -> Option<(Seq<char>, int)> {
    if pos < 0 || pos >= s.len() || s[pos] != '{' {
        None
    } else {
        match brace_close(s, pos + 1, 1) {
            Some(k) => Some((s.subrange(pos + 1, k), k + 1)),
            None => None,
        }
    }
}

/// End of the run of ASCII letters starting at `j`.
pub open spec fn alpha_end(s: Seq<char>, j: int) -> int
    decreases s.len() - j,
{
    if j < 0 || j >= s.len() || !is_ascii_alpha(s[j]) {
        j
    } else {
        alpha_end(s, j + 1)
    }
}

/// Whether the command name passes its braced argument through unchanged.
pub open spec fn is_text_command(name: Seq<char>) -> bool {
    name == "text"@ || name == "mathrm"@ || name == "textrm"@ || name == "textbf"@
}

/// The LaTeX command at `pos` (which holds `\`): its replacement, the index
/// after it, and whether the replacement is a fixed symbol (as opposed to
/// text built from the command's arguments).
pub open spec fn command_full(s: Seq<char>, pos: int, depth: nat) -> Option<(Seq<char>, int, bool)>
    decreases s.len(), s.len() - pos, 0int,
{
    if pos < 0 || pos >= s.len() || s[pos] != '\\' {
        None
    } else {
        let ne = alpha_end(s, pos + 1);
        if ne == pos + 1 {
            None
        } else {
            let name = s.subrange(pos + 1, ne);
            if name == "frac"@ {
                match braced_group(s, ne) {
                    None => None,
                    Some((num, a)) => match braced_group(s, a) {
                        None => None,
                        Some((den, b)) => if num.len() < s.len() && den.len() < s.len() {
                            Some(
                                (
                                    convert(num, depth + 1) + seq!['/'] + convert(den, depth + 1),
                                    b,
                                    false,
                                ),
                            )
                        } else {
                            None
                        },
                    },
                }
            } else if is_text_command(name) {
                match braced_group(s, ne) {
                    None => None,
                    Some((c, a)) => Some((c, a, false)),
                }
            } else if name == "sqrt"@ {
                match braced_group(s, ne) {
                    None => None,
                    Some((c, a)) => if c.len() < s.len() {
                        Some((seq!['√'] + convert(c, depth + 1), a, false))
                    } else {
                        None
                    },
                }
            } else {
                match latex_symbol(name) {
                    Some(r) => Some((r, ne, true)),
                    None => None,
                }
            }
        }
    }
}

/// A fixed-symbol command at `pos` (argument-taking commands yield `None`).
pub open spec fn command(s: Seq<char>, pos: int) -> Option<(Seq<char>, int)>
    decreases s.len(), s.len() - pos, 1int,
{
    match command_full(s, pos, 0) {
        Some((r, end, is_static)) => if is_static {
            Some((r, end))
        } else {
            None
        },
        None => None,
    }
}

/// The argument of a `_` or `^` at `pos`: a braced group (converted one
/// level deeper; an unclosed group runs to the end), a fixed-symbol command,
/// or a single character. Returns the converted text and the index after it.
pub open spec fn sub_super_arg(s: Seq<char>, pos: int, depth: nat) -> (Seq<char>, int)
    decreases s.len(), s.len() - pos, 2int,
{
    if pos < 0 || pos >= s.len() {
        (seq![], pos)
    } else if s[pos] == '{' {
        match brace_close(s, pos + 1, 1) {
            Some(k) => if pos + 1 <= k < s.len() {
                (convert(s.subrange(pos + 1, k), depth + 1), k + 1)
            } else {
                (seq![], pos + 1)
            },
            None => (convert(s.subrange(pos + 1, s.len() as int), depth + 1), s.len() as int),
        }
    } else if s[pos] == '\\' {
        match command(s, pos) {
            Some((r, end)) => (r, end),
            None => (seq![], pos + 1),
        }
    } else {
        (seq![s[pos]], pos + 1)
    }
}

/// Conversion of the math text `s[i..]`.
pub open spec fn convert_from(s: Seq<char>, i: int, depth: nat) -> Seq<char>
    decreases s.len(), s.len() - i, 3int,
{
    if i < 0 || i >= s.len() {
        seq![]
    } else if s[i] == '\\' {
        match command_full(s, i, depth) {
            Some((out, end, _)) => if i < end <= s.len() {
                out + convert_from(s, end, depth)
            } else {
                seq![]
            },
            None => if i + 1 < s.len() && is_escapable(s[i + 1]) {
                seq![s[i + 1]] + convert_from(s, i + 2, depth)
            } else {
                convert_from(s, i + 1, depth)
            },
        }
    } else if s[i] == '_' || s[i] == '^' {
        let (arg, end) = sub_super_arg(s, i + 1, depth);
        if i < end <= s.len() {
            scripted(arg, s[i] == '^') + convert_from(s, end, depth)
        } else {
            seq![]
        }
    } else if s[i] == '{' || s[i] == '}' {
        convert_from(s, i + 1, depth)
    } else {
        seq![s[i]] + convert_from(s, i + 1, depth)
    }
}

/// Conversion of the interior of a math block at nesting level `depth`;
/// at [`MAX_DEPTH`] and beyond the text is kept as it is.
pub open spec fn convert(s: Seq<char>, depth: nat) -> Seq<char>
    decreases s.len(), s.len() + 1, 0int,
{
    if depth >= MAX_DEPTH {
        s
    } else {
        convert_from(s, 0, depth)
    }
}

/// Output for the input `s[i..]` outside math.
pub open spec fn latex_from(s: Seq<char>, i: int) -> Seq<char>
    decreases s.len() - i,
{
    if i < 0 || i >= s.len() {
        seq![]
    } else if i + 1 < s.len() && s[i] == '$' && s[i + 1] == '$' {
        match display_math(s, i) {
            Some((c, end)) => if i < end <= s.len() {
                seq!['\n'] + convert(trim(c), 0) + seq!['\n'] + latex_from(s, end)
            } else {
                seq![]
            },
            None => seq!['$', '$'] + latex_from(s, i + 2),
        }
    } else if s[i] == '$' {
        match inline_math(s, i) {
            Some((c, end)) => if i < end <= s.len() {
                convert(trim(c), 0) + latex_from(s, end)
            } else {
                seq![]
            },
            None => seq![s[i]] + latex_from(s, i + 1),
        }
    } else {
        seq![s[i]] + latex_from(s, i + 1)
    }
}

/// What [`latex_to_unicode`] makes of `s`.
pub open spec fn latex_unicode(s: Seq<char>) -> Seq<char> {
    latex_from(s, 0)
}


// ---------------------------------------------------------------------------
// Laws
// ---------------------------------------------------------------------------

/// The Unicode code point of the superscript form of the decimal digit `v`:
/// `¹`, `²`, `³` sit in Latin-1 (U+00B9, U+00B2, U+00B3), the others in the
/// superscripts block from U+2070.
pub open spec fn superscript_digit_point(v: int) -> int {
    if v == 1 {
        0xB9
    } else if v == 2 {
        0xB2
    } else if v == 3 {
        0xB3
    } else {
        0x2070 + v
    }
}

/// Digits map to the Unicode digit of the same value: a digit `d` becomes
/// the subscript digit U+2080 + d and the superscript digit of `d`, so two
/// different digits never share a sub- or superscript form.
pub proof fn law_script_digits(c: char, d: char)
    requires
        0x30 <= c as int <= 0x39,
        0x30 <= d as int <= 0x39,
    ensures
        subscript_char(c) as int == 0x2080 + (c as int - 0x30),
        superscript_char(c) as int == superscript_digit_point(c as int - 0x30),
        c != d ==> superscript_char(c) != superscript_char(d) && subscript_char(c) != subscript_char(d),
{
}

/// Signs, brackets and the letters Unicode has small forms for map to
/// those code points (superscripts U+207A..U+207F and U+2071, subscripts
/// U+208A..U+208E, U+2090..U+209C, U+1D62..U+1D65, U+2C7C); a capital
/// letter, which has none, stays as it is.
pub proof fn law_script_symbols(c: char)
    ensures
        superscript_char('+') as int == 0x207a,
        superscript_char('-') as int == 0x207b,
        superscript_char('=') as int == 0x207c,
        superscript_char('(') as int == 0x207d,
        superscript_char(')') as int == 0x207e,
        superscript_char('n') as int == 0x207f,
        superscript_char('i') as int == 0x2071,
        subscript_char('+') as int == 0x208a,
        subscript_char('-') as int == 0x208b,
        subscript_char('=') as int == 0x208c,
        subscript_char('(') as int == 0x208d,
        subscript_char(')') as int == 0x208e,
        subscript_char('a') as int == 0x2090,
        subscript_char('e') as int == 0x2091,
        subscript_char('o') as int == 0x2092,
        subscript_char('x') as int == 0x2093,
        subscript_char('h') as int == 0x2095,
        subscript_char('k') as int == 0x2096,
        subscript_char('l') as int == 0x2097,
        subscript_char('m') as int == 0x2098,
        subscript_char('n') as int == 0x2099,
        subscript_char('p') as int == 0x209a,
        subscript_char('s') as int == 0x209b,
        subscript_char('t') as int == 0x209c,
        subscript_char('i') as int == 0x1d62,
        subscript_char('r') as int == 0x1d63,
        subscript_char('u') as int == 0x1d64,
        subscript_char('v') as int == 0x1d65,
        subscript_char('j') as int == 0x2c7c,
        0x41 <= c as int <= 0x5A ==> superscript_char(c) == c && subscript_char(c) == c,
{
}

/// A character that math conversion copies as it is.
pub open spec fn plain_math_char(c: char) -> bool {
    !is_ws(c) && c != '$' && c != '\\' && c != '{' && c != '}' && c != '_' && c != '^'
}

/// `^` raises and `_` lowers the character after it: inline math `$x^c$`
/// reads `x` followed by the superscript form of `c`, and `$x_c$` by its
/// subscript form (with [`law_script_digits`], `$x^3$` reads `x³`).
pub proof fn law_scripts_apply_to_the_next_character(x: char, c: char, op: char)
    requires
        plain_math_char(x),
        plain_math_char(c),
        op == '^' || op == '_',
    ensures
        latex_unicode(seq!['$', x, op, c, '$']) == seq![x, script_char(c, op == '^')],
{
    let s = seq!['$', x, op, c, '$'];
    let m = seq![x, op, c];
    assert(inline_close(s, 1, 4) == Some((s.subrange(1, 4), 5int)));
    assert(inline_close(s, 1, 3) == inline_close(s, 1, 4));
    assert(inline_close(s, 1, 2) == inline_close(s, 1, 3));
    assert(inline_close(s, 1, 1) == inline_close(s, 1, 2));
    assert(s.subrange(1, 4) =~= m);
    assert(inline_math(s, 0) == Some((m, 5int)));
    assert(trim_start(m) == m);
    assert(trim_end(m) == m);
    assert(latex_from(s, 5) == Seq::<char>::empty());
    assert(convert_from(m, 3, 0) == Seq::<char>::empty());
    assert(sub_super_arg(m, 2, 0) == (seq![c], 3int));
    assert(scripted(seq![c], op == '^') =~= seq![script_char(c, op == '^')]);
    assert(convert_from(m, 1, 0) =~= seq![script_char(c, op == '^')]);
    assert(convert_from(m, 0, 0) =~= seq![x, script_char(c, op == '^')]);
}

/// Output for a `$`-free input tail is the tail itself.
proof fn lemma_latex_from_plain(s: Seq<char>, i: int)
    requires
        0 <= i <= s.len(),
        forall|k: int| 0 <= k < s.len() ==> s[k] != '$',
    ensures
        latex_from(s, i) == s.skip(i),
    decreases s.len() - i,
{
    if i < s.len() {
        lemma_latex_from_plain(s, i + 1);
        assert(s.skip(i) =~= seq![s[i]] + s.skip(i + 1));
    } else {
        assert(s.skip(i) =~= Seq::<char>::empty());
    }
}

/// Text that holds no `$` is returned unchanged: only math set between `$`
/// delimiters is converted.
pub proof fn law_text_without_math_is_unchanged(s: Seq<char>)
    requires
        forall|k: int| 0 <= k < s.len() ==> s[k] != '$',
    ensures
        latex_unicode(s) == s,
{
    lemma_latex_from_plain(s, 0);
    assert(s.skip(0) =~= s);
}

// ---------------------------------------------------------------------------
// Implementation
// ---------------------------------------------------------------------------

/// Result of matching a LaTeX command: a fixed Unicode symbol or text built
/// from the command's arguments, each with the index after the command.
enum CommandResult {
    Static(&'static str, usize),
    Dynamic(Vec<char>, usize),
}

/// Whether an executable command result is the specified one.
spec fn command_result_is(r: Option<CommandResult>, s: Option<(Seq<char>, int, bool)>) -> bool {
    match r {
        Some(CommandResult::Static(t, e)) => s == Some((t@, e as int, true)),
        Some(CommandResult::Dynamic(t, e)) => s == Some((t@, e as int, false)),
        None => s is None,
    }
}

/// The index after an executable command result.
spec fn command_result_end(r: Option<CommandResult>) -> int {
    match r {
        Some(CommandResult::Static(_, e)) => e as int,
        Some(CommandResult::Dynamic(_, e)) => e as int,
        None => 0,
    }
}

/// ASCII letter test.
fn is_ascii_alpha_exec(c: char) -> (r: bool)
    ensures
        r == is_ascii_alpha(c),
{
    ('a' <= c && c <= 'z') || ('A' <= c && c <= 'Z')
}

/// Whether a backslash escapes `c` literally.
fn is_escapable_exec(c: char) -> (r: bool)
    ensures
        r == is_escapable(c),
{
    c == '{' || c == '}' || c == '\\' || c == '$' || c == '%' || c == '&'
}

/// Convert LaTeX math delimiters and their contents to Unicode text.
///
/// Processes `$$...$$` (display math, set on its own line) and `$...$`
/// (inline math). A `$$` without a closing `$$`, and a `$` that does not
/// open a valid inline block, are kept literally; text outside math is
/// returned unchanged.
///
/// Must only be called on plain-text segments: Markdown code spans are the
/// caller's to protect.
pub fn latex_to_unicode(input: &str) -> (r: String)
    ensures
        r@ == latex_unicode(input@),
{
    let chars = chars_of(input);
    let len = chars.len();
    let mut result: Vec<char> = Vec::new();
    let mut i: usize = 0;
    while i < len
        invariant
            len == chars@.len(),
            i <= len,
            latex_from(chars@, 0) == result@ + latex_from(chars@, i as int),
        decreases len - i,
    {
        if i + 1 < len && chars[i] == '$' && chars[i + 1] == '$' {
            match try_parse_display_math(&chars, i) {
                Some((content, end)) => {
                    let t = trim_exec(&content);
                    let converted = convert_latex_content_depth(&t, 0);
                    let ghost before = result@;
                    result.push('\n');
                    push_seq(&mut result, &converted);
                    result.push('\n');
                    proof {
                        assert(result@ =~= before + (seq!['\n'] + convert(trim(content@), 0)
                            + seq!['\n']));
                    }
                    i = end;
                    continue ;
                },
                None => {
                    let ghost before = result@;
                    result.push('$');
                    result.push('$');
                    proof {
                        assert(result@ =~= before + seq!['$', '$']);
                    }
                    i = i + 2;
                    continue ;
                },
            }
        }
        if chars[i] == '$' {
            match try_parse_inline_math(&chars, i) {
                Some((content, end)) => {
                    let t = trim_exec(&content);
                    let converted = convert_latex_content_depth(&t, 0);
                    let ghost before = result@;
                    push_seq(&mut result, &converted);
                    proof {
                        assert(result@ + latex_from(chars@, end as int) =~= before + (converted@
                            + latex_from(chars@, end as int)));
                    }
                    i = end;
                    continue ;
                },
                None => {},
            }
        }
        let ghost before = result@;
        result.push(chars[i]);
        proof {
            assert(result@ =~= before + seq![chars@[i as int]]);
        }
        i = i + 1;
    }
    string_of(&result)
}

/// Try to parse a display-math block `$$...$$` opening at `pos`; `None`
/// when no closing `$$` follows, so trailing text is never swallowed.
fn try_parse_display_math(chars: &Vec<char>, pos: usize) -> (r: Option<(Vec<char>, usize)>)
    ensures
        match r {
            Some((c, e)) => display_math(chars@, pos as int) == Some((c@, e as int)) && pos < e
                <= chars@.len(),
            None => display_math(chars@, pos as int) is None,
        },
{
    let len = chars.len();
    if pos >= len || pos + 1 >= len || chars[pos] != '$' || chars[pos + 1] != '$' {
        return None;
    }
    let content_start = pos + 2;
    let mut i = content_start;
    while i < len && i + 1 < len
        invariant
            len == chars@.len(),
            content_start == pos + 2,
            content_start <= i <= len,
            pos + 1 < len,
            chars@[pos as int] == '$',
            chars@[pos + 1] == '$',
            find_double_dollar(chars@, content_start as int) == find_double_dollar(
                chars@,
                i as int,
            ),
        decreases len - i,
    {
        if chars[i] == '$' && chars[i + 1] == '$' {
            assert(find_double_dollar(chars@, i as int) == Some(i as int));
            let content = slice_of(chars, content_start, i);
            return Some((content, i + 2));
        }
        i = i + 1;
    }
    None
}

/// Try to parse an inline-math block `$...$` opening at `pos`. Rejects empty
/// content, white space next to either delimiter, and blocks that would
/// span a newline.
fn try_parse_inline_math(chars: &Vec<char>, pos: usize) -> (r: Option<(Vec<char>, usize)>)
    ensures
        match r {
            Some((c, e)) => inline_math(chars@, pos as int) == Some((c@, e as int)) && pos < e
                <= chars@.len(),
            None => inline_math(chars@, pos as int) is None,
        },
{
    let len = chars.len();
    if pos >= len || chars[pos] != '$' {
        return None;
    }
    let content_start = pos + 1;
    if content_start >= len || is_ws_exec(chars[content_start]) {
        return None;
    }
    let mut i = content_start;
    while i < len
        invariant
            len == chars@.len(),
            content_start == pos + 1,
            content_start <= i <= len,
            content_start < len,
            chars@[pos as int] == '$',
            !is_ws(chars@[content_start as int]),
            inline_close(chars@, content_start as int, content_start as int) == inline_close(
                chars@,
                content_start as int,
                i as int,
            ),
        decreases len - i,
    {
        if chars[i] == '$' {
            if i > content_start && !is_ws_exec(chars[i - 1]) {
                let content = slice_of(chars, content_start, i);
                assert(inline_close(chars@, content_start as int, i as int) == Some(
                    (content@, i + 1),
                ));
                return Some((content, i + 1));
            }
            return None;
        }
        if chars[i] == '\n' {
            return None;
        }
        i = i + 1;
    }
    None
}

/// Index of the brace closing a group whose content starts at `start`.
fn find_brace_close(chars: &Vec<char>, start: usize) -> (r: Option<usize>)
    requires
        start >= 1,
    ensures
        match r {
            Some(k) => brace_close(chars@, start as int, 1) == Some(k as int) && start <= k
                < chars@.len(),
            None => brace_close(chars@, start as int, 1) is None,
        },
{
    let len = chars.len();
    let mut depth: usize = 1;
    let mut i = start;
    while i < len
        invariant
            len == chars@.len(),
            start >= 1,
            start <= i,
            1 <= depth <= i - start + 1,
            brace_close(chars@, start as int, 1) == brace_close(chars@, i as int, depth as nat),
        decreases len - i,
    {
        let c = chars[i];
        if c == '{' {
            depth = depth + 1;
        } else if c == '}' {
            depth = depth - 1;
            if depth == 0 {
                return Some(i);
            }
        }
        i = i + 1;
    }
    None
}

/// Convert the interior of a math block to Unicode at nesting level
/// `depth`; from [`MAX_DEPTH`] on the text is returned unconverted.
fn convert_latex_content_depth(latex: &Vec<char>, depth: usize) -> (r: Vec<char>)
    ensures
        r@ == convert(latex@, depth as nat),
    decreases latex@.len(), latex@.len() + 1, 0int,
{
    let len = latex.len();
    if depth >= MAX_DEPTH {
        return slice_of(latex, 0, len);
    }
    let mut result: Vec<char> = Vec::new();
    let mut i: usize = 0;
    while i < len
        invariant
            len == latex@.len(),
            i <= len,
            depth < MAX_DEPTH,
            convert_from(latex@, 0, depth as nat) == result@ + convert_from(
                latex@,
                i as int,
                depth as nat,
            ),
        decreases len - i,
    {
        let c = latex[i];
        if c == '\\' {
            let cmd = try_latex_command_full(latex, i, depth);
            match cmd {
                Some(CommandResult::Static(s, end)) => {
                    let v = chars_of(s);
                    let ghost before = result@;
                    push_seq(&mut result, &v);
                    proof {
                        assert(result@ + convert_from(latex@, end as int, depth as nat) =~= before
                            + (v@ + convert_from(
                            latex@,
                            end as int,
                            depth as nat,
                        )));
                    }
                    i = end;
                    continue ;
                },
                Some(CommandResult::Dynamic(s, end)) => {
                    let ghost before = result@;
                    push_seq(&mut result, &s);
                    proof {
                        assert(result@ + convert_from(latex@, end as int, depth as nat) =~= before
                            + (s@ + convert_from(
                            latex@,
                            end as int,
                            depth as nat,
                        )));
                    }
                    i = end;
                    continue ;
                },
                None => {},
            }
            if i + 1 < len && is_escapable_exec(latex[i + 1]) {
                let ghost before = result@;
                result.push(latex[i + 1]);
                proof {
                    assert(result@ =~= before + seq![latex@[i + 1]]);
                }
                i = i + 2;
                continue ;
            }
            i = i + 1;
            continue ;
        }
        if c == '_' || c == '^' {
            let sup = c == '^';
            let (arg, end) = parse_sub_super_arg(latex, i + 1, depth);
            let ghost before = result@;
            push_scripted(&mut result, &arg, sup);
            proof {
                assert(result@ + convert_from(latex@, end as int, depth as nat) =~= before + (
                scripted(arg@, sup) + convert_from(latex@, end as int, depth as nat)));
            }
            i = end;
            continue ;
        }
        if c == '{' || c == '}' {
            i = i + 1;
            continue ;
        }
        let ghost before = result@;
        result.push(c);
        proof {
            assert(result@ =~= before + seq![c]);
        }
        i = i + 1;
    }
    result
}

/// Append the sub- or superscript form of every character of `arg`.
fn push_scripted(out: &mut Vec<char>, arg: &Vec<char>, sup: bool)
    ensures
        final(out)@ == old(out)@ + scripted(arg@, sup),
{
    let n = arg.len();
    for k in 0..n
        invariant
            n == arg@.len(),
            out@ == old(out)@ + scripted(arg@.take(k as int), sup),
    {
        let ch = arg[k];
        let mapped = if sup {
            to_superscript(ch)
        } else {
            to_subscript(ch)
        };
        out.push(mapped);
        proof {
            assert(scripted(arg@.take(k + 1), sup) =~= scripted(arg@.take(k as int), sup).push(
                script_char(ch, sup),
            ));
        }
    }
    proof {
        assert(arg@.take(n as int) =~= arg@);
    }
}

/// Parse the argument of `_` or `^` at `pos`: a braced group (converted one
/// level deeper), a fixed-symbol command, or a single character.
fn parse_sub_super_arg(chars: &Vec<char>, pos: usize, depth: usize) -> (r: (Vec<char>, usize))
    requires
        depth < MAX_DEPTH,
    ensures
        sub_super_arg(chars@, pos as int, depth as nat) == (r.0@, r.1 as int),
        pos < chars@.len() ==> pos < r.1 <= chars@.len(),
    decreases chars@.len(), chars@.len() - pos, 2int,
{
    let len = chars.len();
    if pos >= len {
        return (Vec::new(), pos);
    }
    if chars[pos] == '{' {
        let start = pos + 1;
        match find_brace_close(chars, start) {
            Some(k) => {
                let content = slice_of(chars, start, k);
                let converted = convert_latex_content_depth(&content, depth + 1);
                (converted, k + 1)
            },
            None => {
                let content = slice_of(chars, start, len);
                let converted = convert_latex_content_depth(&content, depth + 1);
                (converted, len)
            },
        }
    } else if chars[pos] == '\\' {
        match try_latex_command(chars, pos) {
            Some((s, end)) => (chars_of(s), end),
            None => (Vec::new(), pos + 1),
        }
    } else {
        let mut v: Vec<char> = Vec::new();
        v.push(chars[pos]);
        proof {
            assert(v@ =~= seq![chars@[pos as int]]);
        }
        (v, pos + 1)
    }
}

/// Match the LaTeX command at `pos` (which must hold `\`).
fn try_latex_command_full(chars: &Vec<char>, pos: usize, depth: usize) -> (r: Option<CommandResult>)
    requires
        depth < MAX_DEPTH,
    ensures
        command_result_is(r, command_full(chars@, pos as int, depth as nat)),
        r is Some ==> pos < command_result_end(r) <= chars@.len(),
    decreases chars@.len(), chars@.len() - pos, 0int,
{
    let len = chars.len();
    if pos >= len || chars[pos] != '\\' {
        return None;
    }
    let name_start = pos + 1;
    let mut name_end = name_start;
    while name_end < len && is_ascii_alpha_exec(chars[name_end])
        invariant
            len == chars@.len(),
            name_start == pos + 1,
            name_start <= name_end <= len,
            alpha_end(chars@, name_start as int) == alpha_end(chars@, name_end as int),
        decreases len - name_end,
    {
        name_end = name_end + 1;
    }
    if name_end == name_start {
        return None;
    }
    let name = slice_of(chars, name_start, name_end);
    if eq_lit(&name, "frac") {
        let (num, after_num) = match parse_braced_group(chars, name_end) {
            Some(x) => x,
            None => {
                return None;
            },
        };
        let (den, after_den) = match parse_braced_group(chars, after_num) {
            Some(x) => x,
            None => {
                return None;
            },
        };
        let num_conv = convert_latex_content_depth(&num, depth + 1);
        let den_conv = convert_latex_content_depth(&den, depth + 1);
        let ghost num_seq = num_conv@;
        let mut out = num_conv;
        out.push('/');
        push_seq(&mut out, &den_conv);
        proof {
            assert(out@ =~= num_seq + seq!['/'] + den_conv@);
        }
        return Some(CommandResult::Dynamic(out, after_den));
    }
    if eq_lit(&name, "text") || eq_lit(&name, "mathrm") || eq_lit(&name, "textrm") || eq_lit(
        &name,
        "textbf",
    ) {
        return match parse_braced_group(chars, name_end) {
            Some((content, after)) => Some(CommandResult::Dynamic(content, after)),
            None => None,
        };
    }
    if eq_lit(&name, "sqrt") {
        let (content, after) = match parse_braced_group(chars, name_end) {
            Some(x) => x,
            None => {
                return None;
            },
        };
        let conv = convert_latex_content_depth(&content, depth + 1);
        let mut out: Vec<char> = Vec::new();
        out.push('√');
        push_seq(&mut out, &conv);
        proof {
            assert(out@ =~= seq!['√'] + conv@);
        }
        return Some(CommandResult::Dynamic(out, after));
    }
    match latex_command_to_unicode(&name) {
        Some(r) => Some(CommandResult::Static(r, name_end)),
        None => None,
    }
}

/// A fixed-symbol command at `pos`; commands that build text from their
/// arguments yield `None`.
fn try_latex_command(chars: &Vec<char>, pos: usize) -> (r: Option<(&'static str, usize)>)
    ensures
        match r {
            Some((t, e)) => command(chars@, pos as int) == Some((t@, e as int)) && pos < e
                <= chars@.len(),
            None => command(chars@, pos as int) is None,
        },
    decreases chars@.len(), chars@.len() - pos, 1int,
{
    match try_latex_command_full(chars, pos, 0) {
        Some(CommandResult::Static(s, end)) => Some((s, end)),
        _ => None,
    }
}

/// Parse a `{content}` group at `pos`: its content and the index after the
/// closing brace.
fn parse_braced_group(chars: &Vec<char>, pos: usize) -> (r: Option<(Vec<char>, usize)>)
    ensures
        match r {
            Some((c, e)) => braced_group(chars@, pos as int) == Some((c@, e as int)) && c@.len()
                < chars@.len() && pos < e <= chars@.len(),
            None => braced_group(chars@, pos as int) is None,
        },
{
    let len = chars.len();
    if pos >= len || chars[pos] != '{' {
        return None;
    }
    let start = pos + 1;
    match find_brace_close(chars, start) {
        Some(k) => {
            let content = slice_of(chars, start, k);
            Some((content, k + 1))
        },
        None => None,
    }
}



/// Map a character to its Unicode subscript, falling back to the character.
fn to_subscript(ch: char) -> (r: char)
    ensures
        r == subscript_char(ch),
{
    if ch == '0' {
        '₀'
    } else if ch == '1' {
        '₁'
    } else if ch == '2' {
        '₂'
    } else if ch == '3' {
        '₃'
    } else if ch == '4' {
        '₄'
    } else if ch == '5' {
        '₅'
    } else if ch == '6' {
        '₆'
    } else if ch == '7' {
        '₇'
    } else if ch == '8' {
        '₈'
    } else if ch == '9' {
        '₉'
    } else if ch == '+' {
        '₊'
    } else if ch == '-' {
        '₋'
    } else if ch == '=' {
        '₌'
    } else if ch == '(' {
        '₍'
    } else if ch == ')' {
        '₎'
    } else if ch == 'a' {
        'ₐ'
    } else if ch == 'e' {
        'ₑ'
    } else if ch == 'h' {
        'ₕ'
    } else if ch == 'i' {
        'ᵢ'
    } else if ch == 'j' {
        'ⱼ'
    } else if ch == 'k' {
        'ₖ'
    } else if ch == 'l' {
        'ₗ'
    } else if ch == 'm' {
        'ₘ'
    } else if ch == 'n' {
        'ₙ'
    } else if ch == 'o' {
        'ₒ'
    } else if ch == 'p' {
        'ₚ'
    } else if ch == 'r' {
        'ᵣ'
    } else if ch == 's' {
        'ₛ'
    } else if ch == 't' {
        'ₜ'
    } else if ch == 'u' {
        'ᵤ'
    } else if ch == 'v' {
        'ᵥ'
    } else if ch == 'x' {
        'ₓ'
    } else {
        ch
    }
}

/// Map a character to its Unicode superscript, falling back to the character.
fn to_superscript(ch: char) -> (r: char)
    ensures
        r == superscript_char(ch),
{
    if ch == '0' {
        '⁰'
    } else if ch == '1' {
        '¹'
    } else if ch == '2' {
        '²'
    } else if ch == '3' {
        '³'
    } else if ch == '4' {
        '⁴'
    } else if ch == '5' {
        '⁵'
    } else if ch == '6' {
        '⁶'
    } else if ch == '7' {
        '⁷'
    } else if ch == '8' {
        '⁸'
    } else if ch == '9' {
        '⁹'
    } else if ch == '+' {
        '⁺'
    } else if ch == '-' {
        '⁻'
    } else if ch == '=' {
        '⁼'
    } else if ch == '(' {
        '⁽'
    } else if ch == ')' {
        '⁾'
    } else if ch == 'n' {
        'ⁿ'
    } else if ch == 'i' {
        'ⁱ'
    } else {
        ch
    }
}

/// Look up the Unicode replacement of a simple LaTeX command name.
fn latex_command_to_unicode(name: &Vec<char>) -> (r: Option<&'static str>)
    ensures
        match r {
            Some(x) => latex_symbol(name@) == Some(x@),
            None => latex_symbol(name@) is None,
        },
{
    if eq_lit(name, "alpha") {
        Some("α")
    } else if eq_lit(name, "beta") {
        Some("β")
    } else if eq_lit(name, "gamma") {
        Some("γ")
    } else if eq_lit(name, "delta") {
        Some("δ")
    } else if eq_lit(name, "epsilon") {
        Some("ε")
    } else if eq_lit(name, "varepsilon") {
        Some("ε")
    } else if eq_lit(name, "zeta") {
        Some("ζ")
    } else if eq_lit(name, "eta") {
        Some("η")
    } else if eq_lit(name, "theta") {
        Some("θ")
    } else if eq_lit(name, "vartheta") {
        Some("θ")
    } else if eq_lit(name, "iota") {
        Some("ι")
    } else if eq_lit(name, "kappa") {
        Some("κ")
    } else if eq_lit(name, "lambda") {
        Some("λ")
    } else if eq_lit(name, "mu") {
        Some("μ")
    } else if eq_lit(name, "nu") {
        Some("ν")
    } else if eq_lit(name, "xi") {
        Some("ξ")
    } else if eq_lit(name, "pi") {
        Some("π")
    } else if eq_lit(name, "varpi") {
        Some("π")
    } else if eq_lit(name, "rho") {
        Some("ρ")
    } else if eq_lit(name, "varrho") {
        Some("ρ")
    } else if eq_lit(name, "sigma") {
        Some("σ")
    } else if eq_lit(name, "varsigma") {
        Some("σ")
    } else if eq_lit(name, "tau") {
        Some("τ")
    } else if eq_lit(name, "upsilon") {
        Some("υ")
    } else if eq_lit(name, "phi") {
        Some("φ")
    } else if eq_lit(name, "varphi") {
        Some("φ")
    } else if eq_lit(name, "chi") {
        Some("χ")
    } else if eq_lit(name, "psi") {
        Some("ψ")
    } else if eq_lit(name, "omega") {
        Some("ω")
    } else if eq_lit(name, "Gamma") {
        Some("Γ")
    } else if eq_lit(name, "Delta") {
        Some("Δ")
    } else if eq_lit(name, "Theta") {
        Some("Θ")
    } else if eq_lit(name, "Lambda") {
        Some("Λ")
    } else if eq_lit(name, "Xi") {
        Some("Ξ")
    } else if eq_lit(name, "Pi") {
        Some("Π")
    } else if eq_lit(name, "Sigma") {
        Some("Σ")
    } else if eq_lit(name, "Upsilon") {
        Some("Υ")
    } else if eq_lit(name, "Phi") {
        Some("Φ")
    } else if eq_lit(name, "Psi") {
        Some("Ψ")
    } else if eq_lit(name, "Omega") {
        Some("Ω")
    } else if eq_lit(name, "times") {
        Some("×")
    } else if eq_lit(name, "div") {
        Some("÷")
    } else if eq_lit(name, "cdot") {
        Some("·")
    } else if eq_lit(name, "pm") {
        Some("±")
    } else if eq_lit(name, "mp") {
        Some("∓")
    } else if eq_lit(name, "ast") {
        Some("∗")
    } else if eq_lit(name, "star") {
        Some("⋆")
    } else if eq_lit(name, "circ") {
        Some("∘")
    } else if eq_lit(name, "bullet") {
        Some("•")
    } else if eq_lit(name, "leq") {
        Some("≤")
    } else if eq_lit(name, "le") {
        Some("≤")
    } else if eq_lit(name, "geq") {
        Some("≥")
    } else if eq_lit(name, "ge") {
        Some("≥")
    } else if eq_lit(name, "neq") {
        Some("≠")
    } else if eq_lit(name, "ne") {
        Some("≠")
    } else if eq_lit(name, "approx") {
        Some("≈")
    } else if eq_lit(name, "equiv") {
        Some("≡")
    } else if eq_lit(name, "sim") {
        Some("∼")
    } else if eq_lit(name, "simeq") {
        Some("≃")
    } else if eq_lit(name, "cong") {
        Some("≅")
    } else if eq_lit(name, "propto") {
        Some("∝")
    } else if eq_lit(name, "ll") {
        Some("≪")
    } else if eq_lit(name, "gg") {
        Some("≫")
    } else if eq_lit(name, "subset") {
        Some("⊂")
    } else if eq_lit(name, "supset") {
        Some("⊃")
    } else if eq_lit(name, "subseteq") {
        Some("⊆")
    } else if eq_lit(name, "supseteq") {
        Some("⊇")
    } else if eq_lit(name, "in") {
        Some("∈")
    } else if eq_lit(name, "notin") {
        Some("∉")
    } else if eq_lit(name, "ni") {
        Some("∋")
    } else if eq_lit(name, "to") {
        Some("→")
    } else if eq_lit(name, "rightarrow") {
        Some("→")
    } else if eq_lit(name, "leftarrow") {
        Some("←")
    } else if eq_lit(name, "leftrightarrow") {
        Some("↔")
    } else if eq_lit(name, "Rightarrow") {
        Some("⇒")
    } else if eq_lit(name, "Leftarrow") {
        Some("⇐")
    } else if eq_lit(name, "Leftrightarrow") {
        Some("⇔")
    } else if eq_lit(name, "uparrow") {
        Some("↑")
    } else if eq_lit(name, "downarrow") {
        Some("↓")
    } else if eq_lit(name, "mapsto") {
        Some("↦")
    } else if eq_lit(name, "sum") {
        Some("∑")
    } else if eq_lit(name, "prod") {
        Some("∏")
    } else if eq_lit(name, "int") {
        Some("∫")
    } else if eq_lit(name, "iint") {
        Some("∬")
    } else if eq_lit(name, "iiint") {
        Some("∭")
    } else if eq_lit(name, "oint") {
        Some("∮")
    } else if eq_lit(name, "bigcup") {
        Some("⋃")
    } else if eq_lit(name, "bigcap") {
        Some("⋂")
    } else if eq_lit(name, "infty") {
        Some("∞")
    } else if eq_lit(name, "partial") {
        Some("∂")
    } else if eq_lit(name, "nabla") {
        Some("∇")
    } else if eq_lit(name, "forall") {
        Some("∀")
    } else if eq_lit(name, "exists") {
        Some("∃")
    } else if eq_lit(name, "nexists") {
        Some("∄")
    } else if eq_lit(name, "emptyset") {
        Some("∅")
    } else if eq_lit(name, "varnothing") {
        Some("∅")
    } else if eq_lit(name, "neg") {
        Some("¬")
    } else if eq_lit(name, "lnot") {
        Some("¬")
    } else if eq_lit(name, "land") {
        Some("∧")
    } else if eq_lit(name, "wedge") {
        Some("∧")
    } else if eq_lit(name, "lor") {
        Some("∨")
    } else if eq_lit(name, "vee") {
        Some("∨")
    } else if eq_lit(name, "cap") {
        Some("∩")
    } else if eq_lit(name, "cup") {
        Some("∪")
    } else if eq_lit(name, "therefore") {
        Some("∴")
    } else if eq_lit(name, "because") {
        Some("∵")
    } else if eq_lit(name, "angle") {
        Some("∠")
    } else if eq_lit(name, "triangle") {
        Some("△")
    } else if eq_lit(name, "perp") {
        Some("⊥")
    } else if eq_lit(name, "parallel") {
        Some("∥")
    } else if eq_lit(name, "prime") {
        Some("′")
    } else if eq_lit(name, "hbar") {
        Some("ℏ")
    } else if eq_lit(name, "ell") {
        Some("ℓ")
    } else if eq_lit(name, "Re") {
        Some("ℜ")
    } else if eq_lit(name, "Im") {
        Some("ℑ")
    } else if eq_lit(name, "aleph") {
        Some("ℵ")
    } else if eq_lit(name, "ldots") {
        Some("…")
    } else if eq_lit(name, "dots") {
        Some("…")
    } else if eq_lit(name, "cdots") {
        Some("⋯")
    } else if eq_lit(name, "vdots") {
        Some("⋮")
    } else if eq_lit(name, "ddots") {
        Some("⋱")
    } else if eq_lit(name, "quad") {
        Some("  ")
    } else if eq_lit(name, "qquad") {
        Some("    ")
    } else if eq_lit(name, ",") {
        Some(" ")
    } else if eq_lit(name, ";") {
        Some(" ")
    } else if eq_lit(name, "!") {
        Some("")
    } else if eq_lit(name, "left") {
        Some("")
    } else if eq_lit(name, "right") {
        Some("")
    } else if eq_lit(name, "big") {
        Some("")
    } else if eq_lit(name, "Big") {
        Some("")
    } else if eq_lit(name, "bigg") {
        Some("")
    } else if eq_lit(name, "Bigg") {
        Some("")
    } else if eq_lit(name, "displaystyle") {
        Some("")
    } else if eq_lit(name, "textstyle") {
        Some("")
    } else if eq_lit(name, "scriptstyle") {
        Some("")
    } else if eq_lit(name, "mathrm") {
        Some("")
    } else if eq_lit(name, "mathbf") {
        Some("")
    } else if eq_lit(name, "mathit") {
        Some("")
    } else if eq_lit(name, "mathcal") {
        Some("")
    } else if eq_lit(name, "mathbb") {
        Some("")
    } else {
        None
    }
}
} // verus!
