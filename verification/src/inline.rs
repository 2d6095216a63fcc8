//! Inline Markdown: links, code spans, bold and italic text inside one line
//! or table cell.
//!
//! The text runs through four passes in a fixed order: links, code spans,
//! bold, italic. A pass reads its input from left to right, replaces each span
//! it finds by HTML and goes on behind the span, so that it never reads what
//! it has written itself. A later pass reads what the earlier ones have
//! written. Raw text is not escaped.

use vstd::prelude::*;
use crate::text::{first_occurrence, find, find_char, index_of_from, chars_of, string_of, push_all,
    push_range, push_str, lemma_index_of_from, lemma_first_occurrence};

verus! {

/// The patterns of inline text, in the order of their passes.
#[derive(Debug, Clone, Copy, PartialEq, Eq, Structural)]
pub enum SpanKind {
    /// `[text](url)`: text without `]`, address without `)`, neither empty.
    Link,
    /// A pair of backticks around text without a backtick.
    Code,
    /// `**text**`: the text is not empty and ends at the next `**`.
    Bold,
    /// `*text*`: text without `*`, with no `*` right before or after the span.
    Italic,
}

/// A span found in a text: where it ends and the HTML that takes its place.
pub struct Span {
    pub end: usize,
    pub html: Vec<char>,
}

pub open spec fn link_html(label: Seq<char>, address: Seq<char>) -> Seq<char> {
    "<a href=\""@ + address + "\">"@ + label + "</a>"@
}

pub open spec fn code_html(content: Seq<char>) -> Seq<char> {
    "<code>"@ + content + "</code>"@
}

pub open spec fn bold_html(content: Seq<char>) -> Seq<char> {
    "<strong>"@ + content + "</strong>"@
}

pub open spec fn italic_html(content: Seq<char>) -> Seq<char> {
    "<em>"@ + content + "</em>"@
}

pub open spec fn double_star() -> Seq<char> {
    seq!['*', '*']
}

/// The link that begins at index `i` of `t`: its end and its HTML.
pub open spec fn link_at(t: Seq<char>, i: int) -> Option<(int, Seq<char>)> {
    let a = index_of_from(t, ']', i + 1);
    let b = index_of_from(t, ')', a + 2);
    if 0 <= i < t.len() && t[i] == '[' && i + 1 < a && a + 1 < t.len() && t[a + 1] == '(' && a + 2
        < b < t.len() {
        Some((b + 1, link_html(t.subrange(i + 1, a), t.subrange(a + 2, b))))
    } else {
        None
    }
}

/// The code span that begins at index `i` of `t`.
pub open spec fn code_at(t: Seq<char>, i: int) -> Option<(int, Seq<char>)> {
    let a = index_of_from(t, '`', i + 1);
    if 0 <= i < t.len() && t[i] == '`' && i + 1 < a < t.len() {
        Some((a + 1, code_html(t.subrange(i + 1, a))))
    } else {
        None
    }
}

/// The bold span that begins at index `i` of `t`.
pub open spec fn bold_at(t: Seq<char>, i: int) -> Option<(int, Seq<char>)> {
    if 0 <= i && i + 1 < t.len() && t[i] == '*' && t[i + 1] == '*' {
        match first_occurrence(t, double_star(), i + 3) {
            Some(j) => Some((j + 2, bold_html(t.subrange(i + 2, j)))),
            None => None,
        }
    } else {
        None
    }
}

/// The italic span that begins at index `i` of `t`.
pub open spec fn italic_at(t: Seq<char>, i: int) -> Option<(int, Seq<char>)> {
    let a = index_of_from(t, '*', i + 1);
    if 0 <= i < t.len() && t[i] == '*' && (i == 0 || t[i - 1] != '*') && i + 1 < a < t.len() && (a
        + 1 == t.len() || t[a + 1] != '*') {
        Some((a + 1, italic_html(t.subrange(i + 1, a))))
    } else {
        None
    }
}

pub open spec fn span_at(kind: SpanKind, t: Seq<char>, i: int) -> Option<(int, Seq<char>)> {
    match kind {
        SpanKind::Link => link_at(t, i),
        SpanKind::Code => code_at(t, i),
        SpanKind::Bold => bold_at(t, i),
        SpanKind::Italic => italic_at(t, i),
    }
}

/// One pass over `t` from index `i` on: each span of the kind, found from
/// left to right, gives way to its HTML; every other character stays.
pub open spec fn replaced_from(kind: SpanKind, t: Seq<char>, i: int) -> Seq<char>
    decreases t.len() - i,
{
    if i < 0 || i >= t.len() {
        Seq::empty()
    } else {
        match span_at(kind, t, i) {
            Some((end, html)) => if i < end <= t.len() {
                html + replaced_from(kind, t, end)
            } else {
                seq![t[i]] + replaced_from(kind, t, i + 1)
            },
            None => seq![t[i]] + replaced_from(kind, t, i + 1),
        }
    }
}

pub open spec fn replaced(kind: SpanKind, t: Seq<char>) -> Seq<char> {
    replaced_from(kind, t, 0)
}

/// The HTML of a line's text: the four passes in their order.
pub open spec fn inline_html(t: Seq<char>) -> Seq<char> {
    replaced(
        SpanKind::Italic,
        replaced(SpanKind::Bold, replaced(SpanKind::Code, replaced(SpanKind::Link, t))),
    )
}

/// A span ends behind its first character and inside the text.
pub proof fn lemma_span_bounds(kind: SpanKind, t: Seq<char>, i: int)
    ensures
        match span_at(kind, t, i) {
            Some((end, html)) => 0 <= i < end <= t.len(),
            None => true,
        },
{
    if 0 <= i < t.len() {
        match kind {
            SpanKind::Link => {
                lemma_index_of_from(t, ']', i + 1);
                let a = index_of_from(t, ']', i + 1);
                if a + 2 <= t.len() {
                    lemma_index_of_from(t, ')', a + 2);
                }
            },
            SpanKind::Code => {
                lemma_index_of_from(t, '`', i + 1);
            },
            SpanKind::Bold => {
                lemma_first_occurrence(t, double_star(), i + 3);
            },
            SpanKind::Italic => {
                lemma_index_of_from(t, '*', i + 1);
            },
        }
    }
}

/// A text in which no span of the kind begins is left as it is by the pass.
pub proof fn lemma_pass_without_spans(kind: SpanKind, t: Seq<char>, i: int)
    requires
        0 <= i <= t.len(),
        forall|k: int| i <= k < t.len() ==> span_at(kind, t, k) is None,
    ensures
        replaced_from(kind, t, i) == t.subrange(i, t.len() as int),
    decreases t.len() - i,
{
    if i < t.len() {
        lemma_pass_without_spans(kind, t, i + 1);
        assert(seq![t[i]] + t.subrange(i + 1, t.len() as int) =~= t.subrange(i, t.len() as int));
    } else {
        assert(t.subrange(i, t.len() as int) =~= Seq::<char>::empty());
    }
}

/// A text that holds none of the characters `[`, `` ` `` and `*` is its own
/// HTML.
pub proof fn law_text_without_marks_is_kept(t: Seq<char>)
    requires
        forall|i: int| 0 <= i < t.len() ==> t[i] != '[' && t[i] != '`' && t[i] != '*',
    ensures
        inline_html(t) == t,
{
    assert(t.subrange(0, t.len() as int) =~= t);
    lemma_pass_without_spans(SpanKind::Link, t, 0);
    lemma_pass_without_spans(SpanKind::Code, t, 0);
    lemma_pass_without_spans(SpanKind::Bold, t, 0);
    lemma_pass_without_spans(SpanKind::Italic, t, 0);
}

fn find_link(t: &Vec<char>, i: usize) -> (r: Option<Span>)
    requires
        i < t.len(),
    ensures
        match r {
            Some(span) => link_at(t@, i as int) == Some((span.end as int, span.html@)),
            None => link_at(t@, i as int) is None,
        },
{
    if t[i] != '[' {
        return None;
    }
    let a = find_char(t, ']', i + 1);
    if a == i + 1 || a >= t.len() - 1 || t[a + 1] != '(' {
        return None;
    }
    let b = find_char(t, ')', a + 2);
    if b == a + 2 || b >= t.len() {
        return None;
    }
    let mut html: Vec<char> = Vec::new();
    push_str(&mut html, "<a href=\"");
    push_range(&mut html, t, a + 2, b);
    push_str(&mut html, "\">");
    push_range(&mut html, t, i + 1, a);
    push_str(&mut html, "</a>");
    assert(html@ =~= link_html(
        t@.subrange(i as int + 1, a as int),
        t@.subrange(a as int + 2, b as int),
    ));
    Some(Span { end: b + 1, html })
}

fn find_code(t: &Vec<char>, i: usize) -> (r: Option<Span>)
    requires
        i < t.len(),
    ensures
        match r {
            Some(span) => code_at(t@, i as int) == Some((span.end as int, span.html@)),
            None => code_at(t@, i as int) is None,
        },
{
    if t[i] != '`' {
        return None;
    }
    let a = find_char(t, '`', i + 1);
    if a == i + 1 || a >= t.len() {
        return None;
    }
    let mut html: Vec<char> = Vec::new();
    push_str(&mut html, "<code>");
    push_range(&mut html, t, i + 1, a);
    push_str(&mut html, "</code>");
    assert(html@ =~= code_html(t@.subrange(i as int + 1, a as int)));
    Some(Span { end: a + 1, html })
}

fn find_bold(t: &Vec<char>, i: usize) -> (r: Option<Span>)
    requires
        i < t.len(),
    ensures
        match r {
            Some(span) => bold_at(t@, i as int) == Some((span.end as int, span.html@)),
            None => bold_at(t@, i as int) is None,
        },
{
    if t[i] != '*' || i + 1 >= t.len() || t[i + 1] != '*' {
        return None;
    }
    if t.len() - i < 3 {
        assert(first_occurrence(t@, double_star(), i as int + 3) is None);
        return None;
    }
    let stars: Vec<char> = vec!['*', '*'];
    assert(stars@ =~= double_star());
    proof {
        lemma_first_occurrence(t@, double_star(), i as int + 3);
    }
    match find(t, &stars, i + 3) {
        Some(j) => {
            let mut html: Vec<char> = Vec::new();
            push_str(&mut html, "<strong>");
            push_range(&mut html, t, i + 2, j);
            push_str(&mut html, "</strong>");
            assert(html@ =~= bold_html(t@.subrange(i as int + 2, j as int)));
            Some(Span { end: j + 2, html })
        },
        None => None,
    }
}

fn find_italic(t: &Vec<char>, i: usize) -> (r: Option<Span>)
    requires
        i < t.len(),
    ensures
        match r {
            Some(span) => italic_at(t@, i as int) == Some((span.end as int, span.html@)),
            None => italic_at(t@, i as int) is None,
        },
{
    if t[i] != '*' || (i > 0 && t[i - 1] == '*') {
        return None;
    }
    let a = find_char(t, '*', i + 1);
    if a == i + 1 || a >= t.len() {
        return None;
    }
    if a + 1 < t.len() && t[a + 1] == '*' {
        return None;
    }
    let mut html: Vec<char> = Vec::new();
    push_str(&mut html, "<em>");
    push_range(&mut html, t, i + 1, a);
    push_str(&mut html, "</em>");
    assert(html@ =~= italic_html(t@.subrange(i as int + 1, a as int)));
    Some(Span { end: a + 1, html })
}

/// The span of the given kind that begins at index `i`, if there is one.
pub fn find_span(kind: SpanKind, t: &Vec<char>, i: usize) -> (r: Option<Span>)
    ensures
        match r {
            Some(span) => span_at(kind, t@, i as int) == Some((span.end as int, span.html@)) && i
                < span.end <= t.len(),
            None => span_at(kind, t@, i as int) is None,
        },
{
    proof {
        lemma_span_bounds(kind, t@, i as int);
    }
    if i >= t.len() {
        return None;
    }
    match kind {
        SpanKind::Link => find_link(t, i),
        SpanKind::Code => find_code(t, i),
        SpanKind::Bold => find_bold(t, i),
        SpanKind::Italic => find_italic(t, i),
    }
}

/// One pass: replaces every span of the given kind.
pub fn replace_spans(kind: SpanKind, t: &Vec<char>) -> (out: Vec<char>)
    ensures
        out@ == replaced(kind, t@),
{
    let mut out: Vec<char> = Vec::new();
    let mut i: usize = 0;
    while i < t.len()
        invariant
            i <= t.len(),
            out@ + replaced_from(kind, t@, i as int) =~= replaced(kind, t@),
        decreases t.len() - i,
    {
        match find_span(kind, t, i) {
            Some(span) => {
                push_all(&mut out, &span.html);
                i = span.end;
            },
            None => {
                out.push(t[i]);
                i += 1;
            },
        }
    }
    assert(out@ =~= replaced(kind, t@));
    out
}

/// The four passes over a text held as characters.
pub fn render_inline(t: &Vec<char>) -> (out: Vec<char>)
    ensures
        out@ == inline_html(t@),
{
    let links = replace_spans(SpanKind::Link, t);
    let code = replace_spans(SpanKind::Code, &links);
    let bold = replace_spans(SpanKind::Bold, &code);
    replace_spans(SpanKind::Italic, &bold)
}

/// Turns the inline Markdown of `text` into HTML.
pub fn process_inline_markdown(text: &str) -> (html: String)
    ensures
        html@ == inline_html(text@),
{
    let t = chars_of(text);
    let out = render_inline(&t);
    string_of(&out)
}

} // verus!
