use pignote::inline::{find_span, process_inline_markdown, replace_spans, SpanKind};

fn pass(kind: SpanKind, text: &str) -> String {
    let chars: Vec<char> = text.chars().collect();
    replace_spans(kind, &chars).into_iter().collect()
}

#[test]
fn link_becomes_anchor() {
    assert_eq!(process_inline_markdown("see [the docs](https://x.y/z) now"), "see <a href=\"https://x.y/z\">the docs</a> now");
}

#[test]
fn code_becomes_code_span() {
    assert_eq!(process_inline_markdown("a `b c` d"), "a <code>b c</code> d");
}

#[test]
fn bold_becomes_strong() {
    assert_eq!(process_inline_markdown("**bold** and **more**"), "<strong>bold</strong> and <strong>more</strong>");
}

#[test]
fn italic_becomes_emphasis() {
    assert_eq!(process_inline_markdown("an *italic* word"), "an <em>italic</em> word");
}

#[test]
fn plain_text_is_unchanged() {
    assert_eq!(process_inline_markdown("a < b & c > d"), "a < b & c > d");
    assert_eq!(process_inline_markdown(""), "");
}

#[test]
fn outer_bold_is_one_span() {
    let html = process_inline_markdown("**a *b* c**");
    assert_eq!(html, "<strong>a <em>b</em> c</strong>");
    assert_eq!(html.matches("<strong>").count(), 1);
    assert!(html.starts_with("<strong>") && html.ends_with("</strong>"));
}

#[test]
fn bold_pass_alone_keeps_inner_asterisks() {
    assert_eq!(pass(SpanKind::Bold, "**a *b* c**"), "<strong>a *b* c</strong>");
}

#[test]
fn italic_is_not_found_beside_a_second_asterisk() {
    assert_eq!(pass(SpanKind::Italic, "**a**"), "**a**");
    assert_eq!(pass(SpanKind::Italic, "*a**"), "*a**");
    assert_eq!(pass(SpanKind::Italic, "**a*"), "**a*");
    assert_eq!(pass(SpanKind::Italic, "*a* *b*"), "<em>a</em> <em>b</em>");
}

#[test]
fn unfinished_patterns_stay() {
    assert_eq!(process_inline_markdown("[text](url"), "[text](url");
    assert_eq!(process_inline_markdown("[](url)"), "[](url)");
    assert_eq!(process_inline_markdown("[text]()"), "[text]()");
    assert_eq!(process_inline_markdown("`code"), "`code");
    assert_eq!(process_inline_markdown("``"), "``");
    assert_eq!(process_inline_markdown("**bold"), "**bold");
    assert_eq!(process_inline_markdown("****"), "****");
    assert_eq!(process_inline_markdown("*"), "*");
}

#[test]
fn passes_run_in_their_order() {
    assert_eq!(
        process_inline_markdown("[`a`](u) **`b`** *c*"),
        "<a href=\"u\"><code>a</code></a> <strong><code>b</code></strong> <em>c</em>"
    );
}

#[test]
fn link_text_may_hold_an_opening_bracket() {
    assert_eq!(pass(SpanKind::Link, "[[a](b)"), "<a href=\"b\">[a</a>");
}

#[test]
fn span_is_reported_with_its_end() {
    let chars: Vec<char> = "x `ab` y".chars().collect();
    assert!(find_span(SpanKind::Code, &chars, 0).is_none());
    let span = find_span(SpanKind::Code, &chars, 2).unwrap();
    assert_eq!(span.end, 6);
    assert_eq!(span.html.iter().collect::<String>(), "<code>ab</code>");
}

const SAMPLES: [&str; 14] = [
    "",
    "plain",
    "[a](b)",
    "x [a](b) y [c d](e f) z",
    "[[a](b)](c)",
    "[a]](b) [a] (b) [a](b",
    "`a` ``b`` ```c``` `d",
    "**a** ***b*** ****c**** **d",
    "**a *b* c** *d* **e**f**",
    "* * ** *** a*b*c",
    "ünï [cödé](ü) `ß` **ж** *й*",
    "line\n[a\nb](c\nd) `e\nf` **g\nh**",
    "](a)[b](c)(d)",
    "**",
];

#[test]
fn link_pass_agrees_with_the_pattern() {
    let pattern = regex::Regex::new(r"\[([^\]]+)\]\(([^)]+)\)").unwrap();
    for sample in SAMPLES {
        assert_eq!(pass(SpanKind::Link, sample), pattern.replace_all(sample, "<a href=\"$2\">$1</a>"));
    }
}

#[test]
fn code_pass_agrees_with_the_pattern() {
    let pattern = regex::Regex::new(r"`([^`]+)`").unwrap();
    for sample in SAMPLES {
        assert_eq!(pass(SpanKind::Code, sample), pattern.replace_all(sample, "<code>$1</code>"));
    }
}

#[test]
fn bold_pass_agrees_with_the_pattern() {
    let pattern = regex::Regex::new(r"(?s)\*\*(.+?)\*\*").unwrap();
    for sample in SAMPLES {
        assert_eq!(pass(SpanKind::Bold, sample), pattern.replace_all(sample, "<strong>$1</strong>"));
    }
}
