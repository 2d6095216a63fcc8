//! Block-level Markdown. The text is read line by line with a cursor; each
//! line that is not blank opens a block, which takes the lines that belong to
//! it and is written out as HTML at once. Nothing is kept of the blocks.

use vstd::prelude::*;
use crate::cancel::{always_requested, can_ask, checkpoint, may_report, never_requested};
use crate::error::ExportError;
use crate::inline::{inline_html, render_inline};
use crate::text::{chars_of, contains, find, find_char, first_occurrence, index_of_from,
    lemma_first_occurrence, lemma_index_of_from, lines_of, push_all, push_range, push_str,
    slice_of, split_lines, string_of, texts, trim, trimmed};

verus! {

/// Whether `c` is a numeric character as `char::is_numeric` tells it: a
/// character of one of Unicode's number categories.
pub uninterp spec fn is_numeric_char(c: char) -> bool;

/// `char::is_numeric` of the standard library. Its answer depends on the
/// character alone; nothing more is claimed of it than that it has the name
/// above.
pub assume_specification[ char::is_numeric ](c: char) -> (b: bool)
    ensures
        b == is_numeric_char(c),
;

/// What a trimmed line is taken for. The order of the variants, `Blank`
/// aside, is the order in which the classes are tried.
#[derive(Debug, Clone, Copy, PartialEq, Eq, Structural)]
pub enum LineKind {
    Blank,
    /// Begins and ends with `|`.
    TableRow,
    /// One to six `#` and a space; the number is the level.
    Heading(u8),
    /// Begins with three backticks.
    Fence,
    /// Begins with `- ` or `* `.
    Bullet,
    /// Holds a numeric character and the text `. `.
    Numbered,
    /// Begins with `> `.
    Quote,
    Paragraph,
}

/// The blocks that run over several lines.
#[derive(Debug, Clone, Copy, PartialEq, Eq, Structural)]
pub enum BlockKind {
    /// The body rows of a table.
    Table,
    /// The lines between two fences.
    Code,
    Bullets,
    Numbered,
    Quote,
}

pub open spec fn is_table_row(l: Seq<char>) -> bool {
    l.len() > 0 && l[0] == '|' && l.last() == '|'
}

/// The line under a table's header that holds `---`; it is skipped.
pub open spec fn is_separator_row(l: Seq<char>) -> bool {
    contains(l, seq!['-', '-', '-'])
}

pub open spec fn is_heading(l: Seq<char>, level: int) -> bool {
    &&& 1 <= level <= 6
    &&& level < l.len()
    &&& forall|j: int| 0 <= j < level ==> l[j] == '#'
    &&& l[level] == ' '
}

/// The level of the heading that `l` is, the longest run of `#` first.
pub open spec fn heading_level(l: Seq<char>) -> Option<int> {
    if is_heading(l, 6) {
        Some(6)
    } else if is_heading(l, 5) {
        Some(5)
    } else if is_heading(l, 4) {
        Some(4)
    } else if is_heading(l, 3) {
        Some(3)
    } else if is_heading(l, 2) {
        Some(2)
    } else if is_heading(l, 1) {
        Some(1)
    } else {
        None
    }
}

pub open spec fn is_fence(l: Seq<char>) -> bool {
    l.len() >= 3 && l[0] == '`' && l[1] == '`' && l[2] == '`'
}

pub open spec fn is_bullet(l: Seq<char>) -> bool {
    l.len() >= 2 && (l[0] == '-' || l[0] == '*') && l[1] == ' '
}

pub open spec fn has_numeric(l: Seq<char>) -> bool {
    exists|k: int| 0 <= k < l.len() && is_numeric_char(#[trigger] l[k])
}

pub open spec fn dot_space() -> Seq<char> {
    seq!['.', ' ']
}

pub open spec fn is_numbered(l: Seq<char>) -> bool {
    has_numeric(l) && contains(l, dot_space())
}

pub open spec fn is_quote(l: Seq<char>) -> bool {
    l.len() >= 2 && l[0] == '>' && l[1] == ' '
}

/// The class of a trimmed line.
pub open spec fn classify(l: Seq<char>) -> LineKind {
    if l.len() == 0 {
        LineKind::Blank
    } else if is_table_row(l) {
        LineKind::TableRow
    } else if let Some(level) = heading_level(l) {
        LineKind::Heading(level as u8)
    } else if is_fence(l) {
        LineKind::Fence
    } else if is_bullet(l) {
        LineKind::Bullet
    } else if is_numbered(l) {
        LineKind::Numbered
    } else if is_quote(l) {
        LineKind::Quote
    } else {
        LineKind::Paragraph
    }
}

/// The cells of a table row from index `i` on: the texts between the `|`,
/// trimmed, those left out that are blank.
pub open spec fn cells_from(l: Seq<char>, i: int) -> Seq<Seq<char>>
    decreases l.len() - i,
{
    if i < 0 || i > l.len() {
        Seq::empty()
    } else {
        let j = index_of_from(l, '|', i);
        let cell = trimmed(l.subrange(i, j));
        let rest = if i <= j < l.len() {
            cells_from(l, j + 1)
        } else {
            Seq::empty()
        };
        if cell.len() > 0 {
            seq![cell] + rest
        } else {
            rest
        }
    }
}

pub open spec fn cells_of(l: Seq<char>) -> Seq<Seq<char>> {
    cells_from(l, 0)
}

/// A header cell is written as it stands, a body cell as inline Markdown.
pub open spec fn cell_html(cell: Seq<char>, header: bool) -> Seq<char> {
    if header {
        "<th>"@ + cell + "</th>\n"@
    } else {
        "<td>"@ + inline_html(cell) + "</td>\n"@
    }
}

pub open spec fn cells_html(cells: Seq<Seq<char>>, header: bool) -> Seq<char>
    decreases cells.len(),
{
    if cells.len() == 0 {
        Seq::empty()
    } else {
        cells_html(cells.drop_last(), header) + cell_html(cells.last(), header)
    }
}

/// The item of a numbered list: what follows the first `. ` of the line.
pub open spec fn numbered_item_html(l: Seq<char>) -> Seq<char> {
    match first_occurrence(l, dot_space(), 0) {
        Some(k) => "<li>"@ + inline_html(l.skip(k + 2)) + "</li>\n"@,
        None => Seq::empty(),
    }
}

/// Whether a line, as it stands in the text, goes on with a running block.
pub open spec fn continues(kind: BlockKind, line: Seq<char>) -> bool {
    let l = trimmed(line);
    match kind {
        BlockKind::Table => is_table_row(l),
        BlockKind::Code => !is_fence(l),
        BlockKind::Bullets => is_bullet(l),
        BlockKind::Numbered => is_numbered(l),
        BlockKind::Quote => is_quote(l),
    }
}

/// The HTML of one line of a block. A line of code is copied as it stands.
pub open spec fn row_html(kind: BlockKind, line: Seq<char>) -> Seq<char> {
    let l = trimmed(line);
    match kind {
        BlockKind::Table => "<tr>\n"@ + cells_html(cells_of(line), false) + "</tr>\n"@,
        BlockKind::Code => line + "\n"@,
        BlockKind::Bullets => "<li>"@ + inline_html(l.skip(2)) + "</li>\n"@,
        BlockKind::Numbered => numbered_item_html(l),
        BlockKind::Quote => "<p>"@ + inline_html(l.skip(2)) + "</p>\n"@,
    }
}

/// The number of lines from index `i` on that go on with the block.
pub open spec fn block_len(kind: BlockKind, lines: Seq<Seq<char>>, i: int) -> nat
    decreases lines.len() - i,
{
    if 0 <= i < lines.len() && continues(kind, lines[i]) {
        1 + block_len(kind, lines, i + 1)
    } else {
        0
    }
}

/// The HTML of the lines `from..to` of a block, in their order.
pub open spec fn rows_html(kind: BlockKind, lines: Seq<Seq<char>>, from: int, to: int) -> Seq<
    char,
>
    decreases to - from,
{
    if from < 0 || to <= from || to > lines.len() {
        Seq::empty()
    } else {
        rows_html(kind, lines, from, to - 1) + row_html(kind, lines[to - 1])
    }
}

pub open spec fn heading_html(level: int, title: Seq<char>) -> Seq<char> {
    if level == 1 {
        "<h1>"@ + title + "</h1>\n"@
    } else if level == 2 {
        "<h2>"@ + title + "</h2>\n"@
    } else if level == 3 {
        "<h3>"@ + title + "</h3>\n"@
    } else if level == 4 {
        "<h4>"@ + title + "</h4>\n"@
    } else if level == 5 {
        "<h5>"@ + title + "</h5>\n"@
    } else {
        "<h6>"@ + title + "</h6>\n"@
    }
}

pub open spec fn paragraph_html(l: Seq<char>) -> Seq<char> {
    "<p>"@ + inline_html(l) + "</p>\n"@
}

/// Where the body of the table begins whose header is line `i`: behind the
/// header, and behind the line under it where that line is a separator.
pub open spec fn table_body_start(lines: Seq<Seq<char>>, i: int) -> int {
    if i + 1 < lines.len() && is_separator_row(trimmed(lines[i + 1])) {
        i + 2
    } else {
        i + 1
    }
}

/// The block that the line at index `i` opens: its HTML and the index of the
/// first line behind it. A blank line opens nothing and is passed over.
pub open spec fn block_at(lines: Seq<Seq<char>>, i: int) -> (Seq<char>, int) {
    let l = trimmed(lines[i]);
    match classify(l) {
        LineKind::Blank => (Seq::empty(), i + 1),
        LineKind::TableRow => {
            let start = table_body_start(lines, i);
            let end = start + block_len(BlockKind::Table, lines, start);
            (
                "<table>\n<thead>\n<tr>\n"@ + cells_html(cells_of(l), true)
                    + "</tr>\n</thead>\n<tbody>\n"@ + rows_html(BlockKind::Table, lines, start, end)
                    + "</tbody>\n</table>\n"@,
                end,
            )
        },
        LineKind::Heading(level) => (heading_html(level as int, l.skip(level + 1)), i + 1),
        LineKind::Fence => {
            let end = i + 1 + block_len(BlockKind::Code, lines, i + 1);
            (
                "<pre><code>"@ + rows_html(BlockKind::Code, lines, i + 1, end)
                    + "</code></pre>\n"@,
                if end < lines.len() {
                    end + 1
                } else {
                    end
                },
            )
        },
        LineKind::Bullet => {
            let end = i + block_len(BlockKind::Bullets, lines, i);
            ("<ul>\n"@ + rows_html(BlockKind::Bullets, lines, i, end) + "</ul>\n"@, end)
        },
        LineKind::Numbered => {
            let end = i + block_len(BlockKind::Numbered, lines, i);
            ("<ol>\n"@ + rows_html(BlockKind::Numbered, lines, i, end) + "</ol>\n"@, end)
        },
        LineKind::Quote => {
            let end = i + block_len(BlockKind::Quote, lines, i);
            (
                "<blockquote>\n"@ + rows_html(BlockKind::Quote, lines, i, end)
                    + "</blockquote>\n"@,
                end,
            )
        },
        LineKind::Paragraph => (paragraph_html(l), i + 1),
    }
}

/// The HTML of the lines from index `i` on.
pub open spec fn render_from(lines: Seq<Seq<char>>, i: int) -> Seq<char>
    decreases lines.len() - i,
{
    if i < 0 || i >= lines.len() {
        Seq::empty()
    } else {
        let (html, next) = block_at(lines, i);
        if i < next <= lines.len() {
            html + render_from(lines, next)
        } else {
            html
        }
    }
}

/// The HTML of a Markdown text.
pub open spec fn render_markdown(markdown: Seq<char>) -> Seq<char> {
    render_from(lines_of(markdown), 0)
}

/// A block ends behind the line that opens it and inside the text.
pub proof fn lemma_block_bounds(lines: Seq<Seq<char>>, i: int)
    requires
        0 <= i < lines.len(),
    ensures
        i < block_at(lines, i).1 <= lines.len(),
{
    let l = trimmed(lines[i]);
    lemma_block_len_bound(BlockKind::Table, lines, table_body_start(lines, i));
    lemma_block_len_bound(BlockKind::Code, lines, i + 1);
    lemma_block_len_bound(BlockKind::Bullets, lines, i);
    lemma_block_len_bound(BlockKind::Numbered, lines, i);
    lemma_block_len_bound(BlockKind::Quote, lines, i);
}

pub proof fn lemma_block_len_bound(kind: BlockKind, lines: Seq<Seq<char>>, i: int)
    requires
        0 <= i <= lines.len(),
    ensures
        i + block_len(kind, lines, i) <= lines.len(),
    decreases lines.len() - i,
{
    if i < lines.len() && continues(kind, lines[i]) {
        lemma_block_len_bound(kind, lines, i + 1);
    }
}


fn heading_level_of(l: &Vec<char>) -> (r: Option<u8>)
    ensures
        match r {
            Some(level) => heading_level(l@) == Some(level as int) && 1 <= level <= 6,
            None => heading_level(l@) is None,
        },
{
    let mut k: usize = 0;
    while k < l.len() && k < 7 && l[k] == '#'
        invariant
            k <= l.len(),
            k <= 7,
            forall|j: int| 0 <= j < k ==> l@[j] == '#',
        decreases 7 - k,
    {
        k += 1;
    }
    if 1 <= k && k <= 6 && k < l.len() && l[k] == ' ' {
        assert(is_heading(l@, k as int));
        assert(forall|level: int| k < level <= 6 ==> !is_heading(l@, level));
        Some(k as u8)
    } else {
        assert forall|level: int| 1 <= level <= 6 implies !is_heading(l@, level) by {
            if is_heading(l@, level) {
                if level < k {
                    assert(l@[level] == '#');
                } else if level > k {
                    assert(l@[k as int] == '#');
                }
            }
        }
        None
    }
}

fn has_numeric_char(l: &Vec<char>) -> (b: bool)
    ensures
        b == has_numeric(l@),
{
    let mut i: usize = 0;
    while i < l.len()
        invariant
            i <= l.len(),
            forall|k: int| 0 <= k < i ==> !is_numeric_char(#[trigger] l@[k]),
        decreases l.len() - i,
    {
        if l[i].is_numeric() {
            return true;
        }
        i += 1;
    }
    false
}

fn has_text(l: &Vec<char>, pattern: &Vec<char>) -> (b: bool)
    ensures
        b == contains(l@, pattern@),
{
    find(l, pattern, 0).is_some()
}

fn is_table_row_line(l: &Vec<char>) -> (b: bool)
    ensures
        b == is_table_row(l@),
{
    l.len() > 0 && l[0] == '|' && l[l.len() - 1] == '|'
}

fn is_separator_line(l: &Vec<char>) -> (b: bool)
    ensures
        b == is_separator_row(l@),
{
    let dashes: Vec<char> = vec!['-', '-', '-'];
    assert(dashes@ =~= seq!['-', '-', '-']);
    has_text(l, &dashes)
}

fn is_fence_line(l: &Vec<char>) -> (b: bool)
    ensures
        b == is_fence(l@),
{
    l.len() >= 3 && l[0] == '`' && l[1] == '`' && l[2] == '`'
}

fn is_bullet_line(l: &Vec<char>) -> (b: bool)
    ensures
        b == is_bullet(l@),
{
    l.len() >= 2 && (l[0] == '-' || l[0] == '*') && l[1] == ' '
}

fn is_numbered_line(l: &Vec<char>) -> (b: bool)
    ensures
        b == is_numbered(l@),
{
    let marker: Vec<char> = vec!['.', ' '];
    assert(marker@ =~= dot_space());
    has_numeric_char(l) && has_text(l, &marker)
}

fn is_quote_line(l: &Vec<char>) -> (b: bool)
    ensures
        b == is_quote(l@),
{
    l.len() >= 2 && l[0] == '>' && l[1] == ' '
}

/// The class of a line that has been trimmed.
pub fn classify_trimmed(l: &Vec<char>) -> (kind: LineKind)
    ensures
        kind == classify(l@),
{
    if l.len() == 0 {
        LineKind::Blank
    } else if is_table_row_line(l) {
        LineKind::TableRow
    } else if let Some(level) = heading_level_of(l) {
        LineKind::Heading(level)
    } else if is_fence_line(l) {
        LineKind::Fence
    } else if is_bullet_line(l) {
        LineKind::Bullet
    } else if is_numbered_line(l) {
        LineKind::Numbered
    } else if is_quote_line(l) {
        LineKind::Quote
    } else {
        LineKind::Paragraph
    }
}

/// The class of a line of Markdown, which is trimmed first.
pub fn classify_line(line: &str) -> (kind: LineKind)
    ensures
        kind == classify(trimmed(line@)),
{
    let raw = chars_of(line);
    let l = trim(&raw);
    classify_trimmed(&l)
}

fn collect_cells(l: &Vec<char>) -> (cells: Vec<Vec<char>>)
    ensures
        texts(cells@) == cells_of(l@),
{
    let mut cells: Vec<Vec<char>> = Vec::new();
    let mut i: usize = 0;
    let mut done = false;
    while !done
        invariant
            i <= l.len(),
            !done ==> texts(cells@) + cells_from(l@, i as int) =~= cells_of(l@),
            done ==> texts(cells@) =~= cells_of(l@),
        decreases l.len() - i, if done { 0int } else { 1int },
    {
        let j = find_char(l, '|', i);
        let segment = slice_of(l, i, j);
        let cell = trim(&segment);
        let ghost before = texts(cells@);
        if cell.len() > 0 {
            cells.push(cell);
            assert(texts(cells@) =~= before + seq![cell@]);
        }
        if j < l.len() {
            i = j + 1;
        } else {
            done = true;
        }
    }
    cells
}

fn push_cells(out: &mut Vec<char>, cells: &Vec<Vec<char>>, header: bool)
    ensures
        final(out)@ == old(out)@ + cells_html(texts(cells@), header),
{
    let ghost before = out@;
    let mut k: usize = 0;
    while k < cells.len()
        invariant
            k <= cells.len(),
            out@ =~= before + cells_html(texts(cells@).take(k as int), header),
        decreases cells.len() - k,
    {
        let ghost so_far = out@;
        if header {
            push_str(out, "<th>");
            push_all(out, &cells[k]);
            push_str(out, "</th>\n");
        } else {
            let html = render_inline(&cells[k]);
            push_str(out, "<td>");
            push_all(out, &html);
            push_str(out, "</td>\n");
        }
        proof {
            let shown = texts(cells@).take(k as int + 1);
            assert(shown.drop_last() =~= texts(cells@).take(k as int));
            assert(shown.last() == cells@[k as int]@);
            assert(out@ =~= so_far + cell_html(cells@[k as int]@, header));
        }
        k += 1;
    }
    assert(texts(cells@).take(cells@.len() as int) =~= texts(cells@));
}

fn line_continues(kind: BlockKind, line: &Vec<char>) -> (b: bool)
    ensures
        b == continues(kind, line@),
{
    let l = trim(line);
    match kind {
        BlockKind::Table => is_table_row_line(&l),
        BlockKind::Code => !is_fence_line(&l),
        BlockKind::Bullets => is_bullet_line(&l),
        BlockKind::Numbered => is_numbered_line(&l),
        BlockKind::Quote => is_quote_line(&l),
    }
}

fn push_item(out: &mut Vec<char>, open: &str, l: &Vec<char>, from: usize, close: &str)
    requires
        from <= l.len(),
    ensures
        final(out)@ == old(out)@ + (open@ + inline_html(l@.skip(from as int)) + close@),
{
    let content = slice_of(l, from, l.len());
    assert(content@ =~= l@.skip(from as int));
    let html = render_inline(&content);
    let ghost before = out@;
    push_str(out, open);
    push_all(out, &html);
    push_str(out, close);
    assert(out@ =~= before + (open@ + inline_html(l@.skip(from as int)) + close@));
}

fn push_row(kind: BlockKind, line: &Vec<char>, out: &mut Vec<char>)
    requires
        continues(kind, line@),
    ensures
        final(out)@ == old(out)@ + row_html(kind, line@),
{
    let ghost before = out@;
    match kind {
        BlockKind::Table => {
            let cells = collect_cells(line);
            push_str(out, "<tr>\n");
            push_cells(out, &cells, false);
            push_str(out, "</tr>\n");
            assert(out@ =~= before + row_html(kind, line@));
        },
        BlockKind::Code => {
            push_all(out, line);
            push_str(out, "\n");
            assert(out@ =~= before + row_html(kind, line@));
        },
        BlockKind::Bullets => {
            let l = trim(line);
            push_item(out, "<li>", &l, 2, "</li>\n");
        },
        BlockKind::Numbered => {
            let l = trim(line);
            let marker: Vec<char> = vec!['.', ' '];
            assert(marker@ =~= dot_space());
            match find(&l, &marker, 0) {
                Some(k) => {
                    proof {
                        lemma_first_occurrence(l@, dot_space(), 0);
                        assert(dot_space().len() == 2);
                    }
                    push_item(out, "<li>", &l, k + 2, "</li>\n");
                },
                None => {
                    assert(out@ =~= before + row_html(kind, line@));
                },
            }
        },
        BlockKind::Quote => {
            let l = trim(line);
            push_item(out, "<p>", &l, 2, "</p>\n");
        },
    }
}

/// Writes the lines of a block from index `start` on, asking the probe
/// before each line but a line of code, and returns the index behind them.
fn render_rows<F: Fn() -> bool>(
    kind: BlockKind,
    lines: &Vec<Vec<char>>,
    start: usize,
    out: &mut Vec<char>,
    cancelled: &F,
) -> (r: Result<usize, ExportError>)
    requires
        start <= lines.len(),
        can_ask(cancelled),
    ensures
        match r {
            Ok(end) => {
                &&& end == start + block_len(kind, texts(lines@), start as int)
                &&& end <= lines.len()
                &&& final(out)@ == old(out)@ + rows_html(
                    kind,
                    texts(lines@),
                    start as int,
                    end as int,
                )
            },
            Err(e) => e == ExportError::CancellationRequested && may_report(cancelled, true),
        },
{
    let ghost before = out@;
    let ghost all = texts(lines@);
    let mut i: usize = start;
    while i < lines.len() && line_continues(kind, &lines[i])
        invariant
            start <= i <= lines.len(),
            all == texts(lines@),
            can_ask(cancelled),
            block_len(kind, all, start as int) == (i - start) + block_len(kind, all, i as int),
            out@ =~= before + rows_html(kind, all, start as int, i as int),
        decreases lines.len() - i,
    {
        match kind {
            BlockKind::Code => {},
            _ => {
                match checkpoint(cancelled) {
                    Ok(_) => {},
                    Err(e) => {
                        return Err(e);
                    },
                }
            },
        }
        push_row(kind, &lines[i], out);
        i += 1;
    }
    Ok(i)
}

fn push_heading(out: &mut Vec<char>, level: u8, l: &Vec<char>)
    requires
        1 <= level <= 6,
        level < l.len(),
    ensures
        final(out)@ == old(out)@ + heading_html(level as int, l@.skip(level + 1)),
{
    let ghost before = out@;
    let ghost title = l@.skip(level + 1);
    let from = level as usize + 1;
    assert(l@.subrange(from as int, l@.len() as int) =~= title);
    if level == 1 {
        push_str(out, "<h1>");
        push_range(out, l, from, l.len());
        push_str(out, "</h1>\n");
    } else if level == 2 {
        push_str(out, "<h2>");
        push_range(out, l, from, l.len());
        push_str(out, "</h2>\n");
    } else if level == 3 {
        push_str(out, "<h3>");
        push_range(out, l, from, l.len());
        push_str(out, "</h3>\n");
    } else if level == 4 {
        push_str(out, "<h4>");
        push_range(out, l, from, l.len());
        push_str(out, "</h4>\n");
    } else if level == 5 {
        push_str(out, "<h5>");
        push_range(out, l, from, l.len());
        push_str(out, "</h5>\n");
    } else {
        push_str(out, "<h6>");
        push_range(out, l, from, l.len());
        push_str(out, "</h6>\n");
    }
    assert(out@ =~= before + heading_html(level as int, title));
}

/// Writes the table whose header is the line at index `i`, trimmed to `l`.
fn render_table<F: Fn() -> bool>(
    lines: &Vec<Vec<char>>,
    i: usize,
    l: &Vec<char>,
    out: &mut Vec<char>,
    cancelled: &F,
) -> (r: Result<usize, ExportError>)
    requires
        i < lines.len(),
        l@ == trimmed(lines@[i as int]@),
        classify(l@) == LineKind::TableRow,
        can_ask(cancelled),
    ensures
        match r {
            Ok(next) => {
                &&& final(out)@ == old(out)@ + block_at(texts(lines@), i as int).0
                &&& next == block_at(texts(lines@), i as int).1
            },
            Err(e) => e == ExportError::CancellationRequested && may_report(cancelled, true),
        },
{
    let ghost before = out@;
    let ghost all = texts(lines@);
    let cells = collect_cells(l);
    push_str(out, "<table>\n<thead>\n<tr>\n");
    push_cells(out, &cells, true);
    push_str(out, "</tr>\n</thead>\n<tbody>\n");
    let mut start = i + 1;
    if start < lines.len() {
        let below = trim(&lines[start]);
        if is_separator_line(&below) {
            start = start + 1;
        }
    }
    assert(start == table_body_start(all, i as int));
    let end = match render_rows(BlockKind::Table, lines, start, out, cancelled) {
        Ok(end) => end,
        Err(e) => {
            return Err(e);
        },
    };
    push_str(out, "</tbody>\n</table>\n");
    assert(out@ =~= before + ("<table>\n<thead>\n<tr>\n"@ + cells_html(cells_of(l@), true)
        + "</tr>\n</thead>\n<tbody>\n"@ + rows_html(
        BlockKind::Table,
        all,
        start as int,
        end as int,
    ) + "</tbody>\n</table>\n"@));
    Ok(end)
}

/// Writes the code block whose opening fence is the line at index `i`.
fn render_code<F: Fn() -> bool>(
    lines: &Vec<Vec<char>>,
    i: usize,
    out: &mut Vec<char>,
    cancelled: &F,
) -> (r: Result<usize, ExportError>)
    requires
        i < lines.len(),
        classify(trimmed(lines@[i as int]@)) == LineKind::Fence,
        can_ask(cancelled),
    ensures
        match r {
            Ok(next) => {
                &&& final(out)@ == old(out)@ + block_at(texts(lines@), i as int).0
                &&& next == block_at(texts(lines@), i as int).1
            },
            Err(e) => e == ExportError::CancellationRequested && may_report(cancelled, true),
        },
{
    let ghost before = out@;
    let ghost all = texts(lines@);
    push_str(out, "<pre><code>");
    let end = match render_rows(BlockKind::Code, lines, i + 1, out, cancelled) {
        Ok(end) => end,
        Err(e) => {
            return Err(e);
        },
    };
    push_str(out, "</code></pre>\n");
    assert(out@ =~= before + ("<pre><code>"@ + rows_html(
        BlockKind::Code,
        all,
        i as int + 1,
        end as int,
    ) + "</code></pre>\n"@));
    if end < lines.len() {
        Ok(end + 1)
    } else {
        Ok(end)
    }
}

/// Writes a list or a quotation that begins at index `i`: the opening tag,
/// the rows, the closing tag.
fn render_run<F: Fn() -> bool>(
    kind: BlockKind,
    open: &str,
    close: &str,
    lines: &Vec<Vec<char>>,
    i: usize,
    out: &mut Vec<char>,
    cancelled: &F,
) -> (r: Result<usize, ExportError>)
    requires
        i < lines.len(),
        can_ask(cancelled),
    ensures
        match r {
            Ok(end) => {
                &&& end == i + block_len(kind, texts(lines@), i as int)
                &&& final(out)@ == old(out)@ + (open@ + rows_html(
                    kind,
                    texts(lines@),
                    i as int,
                    end as int,
                ) + close@)
            },
            Err(e) => e == ExportError::CancellationRequested && may_report(cancelled, true),
        },
{
    let ghost before = out@;
    push_str(out, open);
    let end = match render_rows(kind, lines, i, out, cancelled) {
        Ok(end) => end,
        Err(e) => {
            return Err(e);
        },
    };
    push_str(out, close);
    assert(out@ =~= before + (open@ + rows_html(kind, texts(lines@), i as int, end as int)
        + close@));
    Ok(end)
}

/// Writes the block that the line at index `i` opens and returns the index
/// of the first line behind it.
fn render_block<F: Fn() -> bool>(
    lines: &Vec<Vec<char>>,
    i: usize,
    out: &mut Vec<char>,
    cancelled: &F,
) -> (r: Result<usize, ExportError>)
    requires
        i < lines.len(),
        can_ask(cancelled),
    ensures
        match r {
            Ok(next) => {
                &&& final(out)@ == old(out)@ + block_at(texts(lines@), i as int).0
                &&& next == block_at(texts(lines@), i as int).1
                &&& i < next <= lines.len()
            },
            Err(e) => e == ExportError::CancellationRequested && may_report(cancelled, true),
        },
{
    let ghost before = out@;
    let ghost all = texts(lines@);
    let l = trim(&lines[i]);
    proof {
        lemma_block_bounds(all, i as int);
    }
    match classify_trimmed(&l) {
        LineKind::Blank => {
            assert(out@ =~= before + Seq::<char>::empty());
            Ok(i + 1)
        },
        LineKind::TableRow => render_table(lines, i, &l, out, cancelled),
        LineKind::Heading(level) => {
            push_heading(out, level, &l);
            Ok(i + 1)
        },
        LineKind::Fence => render_code(lines, i, out, cancelled),
        LineKind::Bullet => render_run(
            BlockKind::Bullets,
            "<ul>\n",
            "</ul>\n",
            lines,
            i,
            out,
            cancelled,
        ),
        LineKind::Numbered => render_run(
            BlockKind::Numbered,
            "<ol>\n",
            "</ol>\n",
            lines,
            i,
            out,
            cancelled,
        ),
        LineKind::Quote => render_run(
            BlockKind::Quote,
            "<blockquote>\n",
            "</blockquote>\n",
            lines,
            i,
            out,
            cancelled,
        ),
        LineKind::Paragraph => {
            let html = render_inline(&l);
            push_str(out, "<p>");
            push_all(out, &html);
            push_str(out, "</p>\n");
            assert(out@ =~= before + paragraph_html(l@));
            Ok(i + 1)
        },
    }
}

/// Renders lines of Markdown as HTML. The probe is asked before each line
/// that the cursor comes to and before each row of a list, a quotation or a
/// table's body; the first request ends the work.
pub fn render_lines<F: Fn() -> bool>(lines: &Vec<Vec<char>>, cancelled: &F) -> (r: Result<
    Vec<char>,
    ExportError,
>)
    requires
        can_ask(cancelled),
    ensures
        match r {
            Ok(html) => {
                &&& html@ == render_from(texts(lines@), 0)
                &&& lines.len() > 0 ==> may_report(cancelled, false)
            },
            Err(e) => {
                &&& e == ExportError::CancellationRequested
                &&& lines.len() > 0
                &&& may_report(cancelled, true)
            },
        },
{
    let ghost all = texts(lines@);
    let mut out: Vec<char> = Vec::new();
    let mut i: usize = 0;
    while i < lines.len()
        invariant
            i <= lines.len(),
            all == texts(lines@),
            can_ask(cancelled),
            i > 0 ==> may_report(cancelled, false),
            out@ + render_from(all, i as int) =~= render_from(all, 0),
        decreases lines.len() - i,
    {
        match checkpoint(cancelled) {
            Ok(_) => {},
            Err(e) => {
                return Err(e);
            },
        }
        match render_block(lines, i, &mut out, cancelled) {
            Ok(next) => {
                i = next;
            },
            Err(e) => {
                return Err(e);
            },
        }
    }
    assert(out@ =~= render_from(all, 0));
    Ok(out)
}

/// Renders a Markdown text as HTML.
///
/// The only error is the cancellation error, and it comes only when the
/// probe has reported a request. A text without lines is rendered without
/// asking the probe.
pub fn markdown_to_html<F: Fn() -> bool>(markdown: &str, cancelled: &F) -> (r: Result<
    String,
    ExportError,
>)
    requires
        can_ask(cancelled),
    ensures
        match r {
            Ok(html) => {
                &&& html@ == render_markdown(markdown@)
                &&& lines_of(markdown@).len() > 0 ==> may_report(cancelled, false)
            },
            Err(e) => {
                &&& e == ExportError::CancellationRequested
                &&& lines_of(markdown@).len() > 0
                &&& may_report(cancelled, true)
            },
        },
        never_requested(cancelled) ==> r is Ok,
        always_requested(cancelled) && lines_of(markdown@).len() > 0 ==> r is Err,
{
    let source = chars_of(markdown);
    let lines = split_lines(&source);
    assert(lines@.len() == texts(lines@).len());
    match render_lines(&lines, cancelled) {
        Ok(html) => Ok(string_of(&html)),
        Err(e) => Err(e),
    }
}


/// A line that opens no block but a paragraph: it is blank, or in none of
/// the other classes.
pub open spec fn is_plain_line(line: Seq<char>) -> bool {
    classify(trimmed(line)) == LineKind::Blank || classify(trimmed(line)) == LineKind::Paragraph
}

/// One paragraph for each line from index `i` on that is not blank, in the
/// order of the lines.
pub open spec fn paragraphs_from(lines: Seq<Seq<char>>, i: int) -> Seq<char>
    decreases lines.len() - i,
{
    if i < 0 || i >= lines.len() {
        Seq::empty()
    } else if trimmed(lines[i]).len() == 0 {
        paragraphs_from(lines, i + 1)
    } else {
        paragraph_html(trimmed(lines[i])) + paragraphs_from(lines, i + 1)
    }
}

/// The lines `from..to`, each as it stands and followed by a line feed.
pub open spec fn verbatim(lines: Seq<Seq<char>>, from: int, to: int) -> Seq<char>
    decreases to - from,
{
    if from < 0 || to <= from || to > lines.len() {
        Seq::empty()
    } else {
        verbatim(lines, from, to - 1) + (lines[to - 1] + "\n"@)
    }
}

pub proof fn lemma_plain_lines(lines: Seq<Seq<char>>, i: int)
    requires
        0 <= i,
        forall|k: int| i <= k < lines.len() ==> is_plain_line(#[trigger] lines[k]),
    ensures
        render_from(lines, i) == paragraphs_from(lines, i),
    decreases lines.len() - i,
{
    if i < lines.len() {
        assert(is_plain_line(lines[i]));
        lemma_plain_lines(lines, i + 1);
        if trimmed(lines[i]).len() == 0 {
            assert(render_from(lines, i) =~= render_from(lines, i + 1));
        }
    }
}

/// A text of plain lines is rendered as one paragraph for each line that is
/// not blank, in the order of the lines, and as nothing else.
pub proof fn law_plain_lines_become_paragraphs(markdown: Seq<char>)
    requires
        forall|k: int|
            0 <= k < lines_of(markdown).len() ==> is_plain_line(#[trigger] lines_of(markdown)[k]),
    ensures
        render_markdown(markdown) == paragraphs_from(lines_of(markdown), 0),
{
    lemma_plain_lines(lines_of(markdown), 0);
}

pub proof fn lemma_code_rows(lines: Seq<Seq<char>>, from: int, to: int)
    ensures
        rows_html(BlockKind::Code, lines, from, to) == verbatim(lines, from, to),
    decreases to - from,
{
    if !(from < 0 || to <= from || to > lines.len()) {
        lemma_code_rows(lines, from, to - 1);
    }
}

/// A code block holds its lines as they stand in the text, up to the closing
/// fence or the end of the text: nothing in them is taken for Markdown.
pub proof fn law_code_is_copied_verbatim(lines: Seq<Seq<char>>, i: int)
    requires
        0 <= i < lines.len(),
        classify(trimmed(lines[i])) == LineKind::Fence,
    ensures
        block_at(lines, i).0 == "<pre><code>"@ + verbatim(
            lines,
            i + 1,
            i + 1 + block_len(BlockKind::Code, lines, i + 1),
        ) + "</code></pre>\n"@,
        forall|k: int|
            i + 1 <= k < i + 1 + block_len(BlockKind::Code, lines, i + 1) ==> !is_fence(
                trimmed(#[trigger] lines[k]),
            ),
{
    let end = i + 1 + block_len(BlockKind::Code, lines, i + 1);
    lemma_code_rows(lines, i + 1, end);
    lemma_block_lines_continue(BlockKind::Code, lines, i + 1);
}

/// Every line of a block goes on with it.
pub proof fn lemma_block_lines_continue(kind: BlockKind, lines: Seq<Seq<char>>, i: int)
    requires
        0 <= i,
    ensures
        forall|k: int| i <= k < i + block_len(kind, lines, i) ==> continues(kind, #[trigger] lines[k]),
    decreases lines.len() - i,
{
    if i < lines.len() && continues(kind, lines[i]) {
        lemma_block_lines_continue(kind, lines, i + 1);
    }
}

} // verus!
