use pignote::error::ExportError;
use pignote::markdown::{classify_line, markdown_to_html, LineKind};

fn render(markdown: &str) -> String {
    markdown_to_html(markdown, &|| false).unwrap()
}

#[test]
fn plain_lines_become_one_paragraph_each() {
    assert_eq!(render("first\n\nsecond\n   \nthird"), "<p>first</p>\n<p>second</p>\n<p>third</p>\n");
}

#[test]
fn paragraph_is_trimmed_and_inline_processed() {
    assert_eq!(render("   some `code` here  "), "<p>some <code>code</code> here</p>\n");
}

#[test]
fn empty_text_renders_to_nothing() {
    assert_eq!(render(""), "");
    assert_eq!(render("\n\n  \n"), "");
}

#[test]
fn table_round_trip() {
    let html = render("| A | B |\n| --- | --- |\n| 1 | 2 |");
    assert_eq!(
        html,
        "<table>\n<thead>\n<tr>\n<th>A</th>\n<th>B</th>\n</tr>\n</thead>\n<tbody>\n<tr>\n<td>1</td>\n<td>2</td>\n</tr>\n</tbody>\n</table>\n"
    );
    assert_eq!(html.matches("<table>").count(), 1);
    assert_eq!(html.matches("<th>").count(), 2);
    assert_eq!(html.matches("<td>").count(), 2);
    assert!(html.find("<th>A</th>").unwrap() < html.find("<th>B</th>").unwrap());
    assert!(html.find("<td>1</td>").unwrap() < html.find("<td>2</td>").unwrap());
}

#[test]
fn table_without_separator_keeps_second_row_as_body() {
    assert_eq!(
        render("|a|\n|b|"),
        "<table>\n<thead>\n<tr>\n<th>a</th>\n</tr>\n</thead>\n<tbody>\n<tr>\n<td>b</td>\n</tr>\n</tbody>\n</table>\n"
    );
}

#[test]
fn table_header_is_not_inline_processed_but_body_is() {
    assert_eq!(
        render("| *h* |\n|---|\n| *b* |"),
        "<table>\n<thead>\n<tr>\n<th>*h*</th>\n</tr>\n</thead>\n<tbody>\n<tr>\n<td><em>b</em></td>\n</tr>\n</tbody>\n</table>\n"
    );
}

#[test]
fn table_ends_at_first_line_that_is_no_row() {
    assert_eq!(
        render("| a |\n| - |\ntext"),
        "<table>\n<thead>\n<tr>\n<th>a</th>\n</tr>\n</thead>\n<tbody>\n<tr>\n<td>-</td>\n</tr>\n</tbody>\n</table>\n<p>text</p>\n"
    );
}

#[test]
fn empty_cells_are_dropped() {
    assert_eq!(
        render("| a |  | b |"),
        "<table>\n<thead>\n<tr>\n<th>a</th>\n<th>b</th>\n</tr>\n</thead>\n<tbody>\n</tbody>\n</table>\n"
    );
}

#[test]
fn headings_of_every_level() {
    assert_eq!(render("# a"), "<h1>a</h1>\n");
    assert_eq!(render("## a"), "<h2>a</h2>\n");
    assert_eq!(render("### a"), "<h3>a</h3>\n");
    assert_eq!(render("#### a"), "<h4>a</h4>\n");
    assert_eq!(render("##### a"), "<h5>a</h5>\n");
    assert_eq!(render("###### a"), "<h6>a</h6>\n");
}

#[test]
fn heading_text_is_copied_as_it_stands() {
    assert_eq!(render("##  *x* "), "<h2> *x*</h2>\n");
}

#[test]
fn seven_hashes_are_a_paragraph() {
    assert_eq!(render("####### a"), "<p>####### a</p>\n");
    assert_eq!(render("#a"), "<p>#a</p>\n");
}

#[test]
fn fenced_code_is_copied_verbatim() {
    assert_eq!(
        render("```\n  *a* `b` [x](y)\n**c**\n```\nafter"),
        "<pre><code>  *a* `b` [x](y)\n**c**\n</code></pre>\n<p>after</p>\n"
    );
}

#[test]
fn fenced_code_without_closing_fence_runs_to_the_end() {
    assert_eq!(render("```rust\nlet a = 1;\n\n# x"), "<pre><code>let a = 1;\n\n# x\n</code></pre>\n");
    assert_eq!(render("```"), "<pre><code></code></pre>\n");
}

#[test]
fn bullet_list_takes_contiguous_items() {
    assert_eq!(
        render("- a\n* **b**\n\n- c"),
        "<ul>\n<li>a</li>\n<li><strong>b</strong></li>\n</ul>\n<ul>\n<li>c</li>\n</ul>\n"
    );
}

#[test]
fn numbered_list_takes_text_after_first_marker() {
    assert_eq!(
        render("1. one\n2. two. three\nend"),
        "<ol>\n<li>one</li>\n<li>two. three</li>\n</ol>\n<p>end</p>\n"
    );
}

#[test]
fn line_with_digit_and_marker_anywhere_is_a_numbered_item() {
    assert_eq!(render("see. page 3"), "<ol>\n<li>page 3</li>\n</ol>\n");
    assert_eq!(render("\u{0663}. x"), "<ol>\n<li>x</li>\n</ol>\n");
    assert_eq!(render("1.x"), "<p>1.x</p>\n");
}

#[test]
fn quotation_has_one_paragraph_per_line() {
    assert_eq!(
        render("> a\n> *b*\nc"),
        "<blockquote>\n<p>a</p>\n<p><em>b</em></p>\n</blockquote>\n<p>c</p>\n"
    );
}

#[test]
fn classes_are_tried_in_order() {
    assert_eq!(classify_line(""), LineKind::Blank);
    assert_eq!(classify_line(" \t "), LineKind::Blank);
    assert_eq!(classify_line("| # 1. |"), LineKind::TableRow);
    assert_eq!(classify_line("|"), LineKind::TableRow);
    assert_eq!(classify_line("### 1. x"), LineKind::Heading(3));
    assert_eq!(classify_line("```- 1. x"), LineKind::Fence);
    assert_eq!(classify_line("- 1. x"), LineKind::Bullet);
    assert_eq!(classify_line("* x"), LineKind::Bullet);
    assert_eq!(classify_line("> 1. x"), LineKind::Numbered);
    assert_eq!(classify_line("> x"), LineKind::Quote);
    assert_eq!(classify_line("x"), LineKind::Paragraph);
    assert_eq!(classify_line("-x"), LineKind::Paragraph);
}

#[test]
fn carriage_returns_before_line_feeds_are_dropped() {
    assert_eq!(render("a\r\nb\r\n"), "<p>a</p>\n<p>b</p>\n");
    assert_eq!(render("```\r\nx\r\n```\r\n"), "<pre><code>x\n</code></pre>\n");
}

#[test]
fn a_set_flag_cancels_before_any_output() {
    assert_eq!(markdown_to_html("a\nb", &|| true), Err(ExportError::CancellationRequested));
    assert_eq!(markdown_to_html("\n", &|| true), Err(ExportError::CancellationRequested));
}

#[test]
fn a_text_without_lines_is_rendered_without_asking() {
    assert_eq!(markdown_to_html("", &|| true), Ok(String::new()));
}

#[test]
fn cancellation_is_seen_at_a_later_row() {
    let asked = std::cell::Cell::new(0u32);
    let probe = || {
        asked.set(asked.get() + 1);
        asked.get() > 3
    };
    assert_eq!(markdown_to_html("- a\n- b\n- c\n- d", &probe), Err(ExportError::CancellationRequested));
    assert_eq!(asked.get(), 4);
}

#[test]
fn code_lines_are_not_asked_about() {
    let asked = std::cell::Cell::new(0u32);
    let probe = || {
        asked.set(asked.get() + 1);
        false
    };
    assert!(markdown_to_html("```\na\nb\nc\n```", &probe).is_ok());
    assert_eq!(asked.get(), 1);
}

#[test]
fn line_with_dashes_under_a_header_is_skipped() {
    assert_eq!(
        render("| a |\n|:---:|\n| b |\n"),
        "<table>\n<thead>\n<tr>\n<th>a</th>\n</tr>\n</thead>\n<tbody>\n<tr>\n<td>b</td>\n</tr>\n</tbody>\n</table>\n"
    );
    assert_eq!(
        render("| a |\n-----\n| b |\n"),
        "<table>\n<thead>\n<tr>\n<th>a</th>\n</tr>\n</thead>\n<tbody>\n<tr>\n<td>b</td>\n</tr>\n</tbody>\n</table>\n"
    );
}

#[test]
fn only_the_line_under_the_header_is_a_separator() {
    assert_eq!(
        render("| a |\n| b |\n| --- |"),
        "<table>\n<thead>\n<tr>\n<th>a</th>\n</tr>\n</thead>\n<tbody>\n<tr>\n<td>b</td>\n</tr>\n<tr>\n<td>---</td>\n</tr>\n</tbody>\n</table>\n"
    );
}

#[test]
fn lines_are_split_as_the_standard_library_splits_them() {
    let samples = [
        "a\nb",
        "a\r\nb\r\n",
        "a\rb\n\r\n\rc\r",
        "\n\n",
        "x\r\r\ny",
        "tail\r",
        " lead\n\ttab \n",
        "",
    ];
    for sample in samples {
        let text = format!("```\n{}", sample);
        let copied: String = sample.lines().map(|l| format!("{}\n", l)).collect();
        assert_eq!(render(&text), format!("<pre><code>{}</code></pre>\n", copied), "{:?}", sample);
    }
}

#[test]
fn white_space_is_what_the_standard_library_trims() {
    assert_eq!(render("\u{3000}\u{2003}x y\u{85}\u{a0}\u{1680}"), "<p>x y</p>\n");
    assert_eq!(render("\u{200b}x"), "<p>\u{200b}x</p>\n");
    let mut c = '\0';
    loop {
        let line = format!("{}a{}", c, c);
        let expected = if line.trim().is_empty() { LineKind::Blank } else { classify_line(line.trim()) };
        assert_eq!(classify_line(&line), expected, "{:?}", c);
        assert_eq!(classify_line(&c.to_string()) == LineKind::Blank, c.is_whitespace(), "{:?}", c);
        if c == char::MAX {
            break;
        }
        c = char::from_u32(c as u32 + 1).unwrap_or('\u{e000}');
    }
}
