use rara_channels::telegram::latex::latex_to_unicode;

#[test]
fn inline_math_greek() {
    assert_eq!(latex_to_unicode("price is $\\alpha$"), "price is α");
}

#[test]
fn display_math_ema_formula() {
    let input = "The formula:\n$$EMA_t = \\alpha \\times P_t + (1 - \\alpha) \\times EMA_{t-1}$$";
    let output = latex_to_unicode(input);
    assert!(output.contains("EMAₜ = α × Pₜ + (1 - α) × EMAₜ₋₁"));
}

#[test]
fn subscript_and_superscript() {
    assert_eq!(latex_to_unicode("$x_1^2$"), "x₁²");
    assert_eq!(latex_to_unicode("$a_{n+1}$"), "aₙ₊₁");
}

#[test]
fn no_false_positive_on_dollar_amounts() {
    assert_eq!(latex_to_unicode("costs $5 or $ 10"), "costs $5 or $ 10");
}

#[test]
fn operators_and_relations() {
    assert_eq!(latex_to_unicode("$a \\leq b \\neq c$"), "a ≤ b ≠ c");
}

#[test]
fn escaped_braces() {
    assert_eq!(latex_to_unicode("$\\{a, b\\}$"), "{a, b}");
}

#[test]
fn preserves_non_math_text() {
    let input = "Hello world, no math here.";
    assert_eq!(latex_to_unicode(input), input);
}

#[test]
fn big_operators() {
    assert_eq!(latex_to_unicode("$\\sum_{i=0}^{n}$"), "∑ᵢ₌₀ⁿ");
}

#[test]
fn multiple_inline_math() {
    assert_eq!(
        latex_to_unicode("where $P_t$ is the price and $\\alpha$ is the weight"),
        "where Pₜ is the price and α is the weight"
    );
}

#[test]
fn nested_subscript_with_latex_command() {
    assert_eq!(latex_to_unicode("$EMA_{t-1}$"), "EMAₜ₋₁");
}

#[test]
fn unclosed_display_math_preserved() {
    let input = "price is $$100 and something";
    assert_eq!(latex_to_unicode(input), "price is $$100 and something");
}

#[test]
fn unclosed_inline_math_preserved() {
    let input = "cost is $100 total";
    assert_eq!(latex_to_unicode(input), input);
}

#[test]
fn deeply_nested_subscripts_cap() {
    let mut input = "x".to_string();
    for _ in 0..20 {
        input = format!("{input}_{{x}}");
    }
    let input = format!("${input}$");
    let result = latex_to_unicode(&input);
    assert!(!result.is_empty());
}

#[test]
fn frac_conversion() {
    assert_eq!(latex_to_unicode("$\\frac{a}{b}$"), "a/b");
}

#[test]
fn sqrt_conversion() {
    assert_eq!(latex_to_unicode("$\\sqrt{x}$"), "√x");
}

#[test]
fn display_math_is_set_on_its_own_line() {
    assert_eq!(latex_to_unicode("a $$ x^2 $$ b"), "a \nx²\n b");
}

#[test]
fn text_command_keeps_content_verbatim() {
    assert_eq!(latex_to_unicode("$\\text{km}_2$"), "km₂");
}

#[test]
fn unknown_command_drops_backslash() {
    assert_eq!(latex_to_unicode("$\\foo x$"), "foo x");
}

#[test]
fn unclosed_subscript_group_runs_to_end() {
    assert_eq!(latex_to_unicode("$x_{12$"), "x₁₂");
}

#[test]
fn inline_math_does_not_span_newlines() {
    assert_eq!(latex_to_unicode("$a\nb$"), "$a\nb$");
}

#[test]
fn depth_cap_keeps_innermost_text_raw() {
    // Nine nested subscript groups: the innermost one is not converted as
    // LaTeX, so its `_` marker survives (only mapped character by character).
    let input = "$a_{b_{c_{d_{e_{f_{g_{h_{i_{j}}}}}}}}}$";
    let out = latex_to_unicode(input);
    assert!(out.contains('_'));
    assert!(out.starts_with('a'));
    let shallow = latex_to_unicode("$a_{b_{c}}$");
    assert!(!shallow.contains('_'));
}
