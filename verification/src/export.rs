//! An export from its request to the renderer's command line: which format
//! is asked for, whether the content is HTML already, how the files are
//! named, and how the browser is run.

use vstd::prelude::*;
use crate::cancel::{always_requested, can_ask, checkpoint, may_report, never_requested};
use crate::error::ExportError;
use crate::markdown::{markdown_to_html, render_markdown};
use crate::text::{chars_of, is_space, lines_of, push_str, skip_whitespace, string_of};

verus! {

/// What an export is asked to do.
#[derive(Debug, PartialEq, Eq)]
pub struct ExportRequest {
    pub content: String,
    /// The name of the format: `pdf`, `html` or `docx`.
    pub format: String,
    pub filename: String,
    pub dark: bool,
    /// The directory against which relative image sources are resolved.
    pub base_dir: Option<String>,
}

#[derive(Debug, Clone, Copy, PartialEq, Eq, Structural)]
pub enum ExportFormat {
    Pdf,
    Html,
    Docx,
}

/// The browsers that are tried, in this order.
pub const RENDERER_CANDIDATES: [&'static str; 4] = [
    "C:\\\\Program Files\\\\Google\\\\Chrome\\\\Application\\\\chrome.exe",
    "C:\\\\Program Files (x86)\\\\Google\\\\Chrome\\\\Application\\\\chrome.exe",
    "C:\\\\Program Files\\\\Microsoft\\\\Edge\\\\Application\\\\msedge.exe",
    "C:\\\\Program Files (x86)\\\\Microsoft\\\\Edge\\\\Application\\\\msedge.exe",
];

impl ExportFormat {
    pub open spec fn extension_text(self) -> Seq<char> {
        match self {
            ExportFormat::Pdf => "pdf"@,
            ExportFormat::Html => "html"@,
            ExportFormat::Docx => "docx"@,
        }
    }

    /// The extension of the files of this format, without the dot.
    pub fn extension(self) -> (ext: &'static str)
        ensures
            ext@ == self.extension_text(),
    {
        match self {
            ExportFormat::Pdf => "pdf",
            ExportFormat::Html => "html",
            ExportFormat::Docx => "docx",
        }
    }
}

/// The format that a name stands for.
pub open spec fn format_named(name: Seq<char>) -> Option<ExportFormat> {
    if name == "pdf"@ {
        Some(ExportFormat::Pdf)
    } else if name == "html"@ {
        Some(ExportFormat::Html)
    } else if name == "docx"@ {
        Some(ExportFormat::Docx)
    } else {
        None
    }
}

fn same_text(a: &str, b: &str) -> (same: bool)
    ensures
        same == (a@ == b@),
{
    let x = chars_of(a);
    let y = chars_of(b);
    if x.len() != y.len() {
        return false;
    }
    let mut i: usize = 0;
    while i < x.len()
        invariant
            i <= x.len(),
            x.len() == y.len(),
            x@ == a@,
            y@ == b@,
            forall|k: int| 0 <= k < i ==> x@[k] == y@[k],
        decreases x.len() - i,
    {
        if x[i] != y[i] {
            assert(a@[i as int] != b@[i as int]);
            return false;
        }
        i += 1;
    }
    assert(x@ =~= y@);
    true
}

/// The format that a request names, if it names one.
pub fn parse_format(name: &str) -> (format: Option<ExportFormat>)
    ensures
        format == format_named(name@),
{
    if same_text(name, "pdf") {
        Some(ExportFormat::Pdf)
    } else if same_text(name, "html") {
        Some(ExportFormat::Html)
    } else if same_text(name, "docx") {
        Some(ExportFormat::Docx)
    } else {
        None
    }
}

/// Whether a source is HTML already: its first character that is no white
/// space is `<`.
pub open spec fn is_html(content: Seq<char>) -> bool {
    let first = skip_whitespace(content, 0);
    first < content.len() && content[first] == '<'
}

pub fn is_html_source(content: &str) -> (html: bool)
    ensures
        html == is_html(content@),
{
    let c = chars_of(content);
    let mut i: usize = 0;
    while i < c.len() && is_space(c[i])
        invariant
            i <= c.len(),
            skip_whitespace(c@, i as int) == skip_whitespace(c@, 0),
        decreases c.len() - i,
    {
        i += 1;
    }
    i < c.len() && c[i] == '<'
}

/// The HTML body of a source: the source itself where it is HTML, else its
/// rendering as Markdown.
pub open spec fn body_of(content: Seq<char>) -> Seq<char> {
    if is_html(content) {
        content
    } else {
        render_markdown(content)
    }
}

/// Whether the probe is asked on the way to the body of a source: the source
/// is Markdown and has a line.
pub open spec fn body_has_work(content: Seq<char>) -> bool {
    !is_html(content) && lines_of(content).len() > 0
}

/// Turns a source into its HTML body. HTML is handed through; Markdown is
/// rendered, with the probe asked as the renderer asks it.
pub fn body_html<F: Fn() -> bool>(content: &str, cancelled: &F) -> (r: Result<String, ExportError>)
    requires
        can_ask(cancelled),
    ensures
        match r {
            Ok(body) => {
                &&& body@ == body_of(content@)
                &&& body_has_work(content@) ==> may_report(cancelled, false)
            },
            Err(e) => {
                &&& e == ExportError::CancellationRequested
                &&& body_has_work(content@)
                &&& may_report(cancelled, true)
            },
        },
        never_requested(cancelled) ==> r is Ok,
        always_requested(cancelled) && body_has_work(content@) ==> r is Err,
{
    if is_html_source(content) {
        Ok(content.to_owned())
    } else {
        markdown_to_html(content, cancelled)
    }
}

/// Turns a source into its HTML body as the exports to PDF and to an HTML
/// page do: the probe is asked once before anything else and once when the
/// body is done, whatever the source holds.
pub fn checked_body_html<F: Fn() -> bool>(content: &str, cancelled: &F) -> (r: Result<
    String,
    ExportError,
>)
    requires
        can_ask(cancelled),
    ensures
        match r {
            Ok(body) => body@ == body_of(content@) && may_report(cancelled, false),
            Err(e) => e == ExportError::CancellationRequested && may_report(cancelled, true),
        },
        never_requested(cancelled) ==> r is Ok,
        always_requested(cancelled) ==> r is Err,
{
    match checkpoint(cancelled) {
        Ok(_) => {},
        Err(e) => {
            return Err(e);
        },
    }
    let body = match body_html(content, cancelled) {
        Ok(body) => body,
        Err(e) => {
            return Err(e);
        },
    };
    match checkpoint(cancelled) {
        Ok(_) => {},
        Err(e) => {
            return Err(e);
        },
    }
    Ok(body)
}

/// The name of the file that an export writes: the name asked for, a dot,
/// and the extension of the format.
pub fn output_file_name(filename: &str, format: ExportFormat) -> (name: String)
    ensures
        name@ == filename@ + "."@ + format.extension_text(),
{
    let mut out: Vec<char> = Vec::new();
    push_str(&mut out, filename);
    push_str(&mut out, ".");
    push_str(&mut out, format.extension());
    assert(out@ =~= filename@ + "."@ + format.extension_text());
    string_of(&out)
}

/// The name of the temporary file that holds the page for the renderer.
pub fn temporary_file_name(filename: &str) -> (name: String)
    ensures
        name@ == filename@ + "_pignote_export.html"@,
{
    let mut out: Vec<char> = Vec::new();
    push_str(&mut out, filename);
    push_str(&mut out, "_pignote_export.html");
    assert(out@ =~= filename@ + "_pignote_export.html"@);
    string_of(&out)
}

/// The arguments with which a browser prints a page to a PDF without
/// opening a window and without header and footer.
pub open spec fn renderer_command(output_path: Seq<char>, page_url: Seq<char>) -> Seq<Seq<char>> {
    seq![
        "--headless"@,
        "--disable-gpu"@,
        "--disable-features=PrintingPDFHeaderFooter"@,
        "--no-pdf-header-footer"@,
        "--print-to-pdf-no-header"@,
        "--print-to-pdf="@ + output_path,
        page_url,
    ]
}

pub fn renderer_arguments(output_path: &str, page_url: &str) -> (arguments: Vec<String>)
    ensures
        arguments@.len() == renderer_command(output_path@, page_url@).len(),
        forall|i: int|
            0 <= i < arguments@.len() ==> (#[trigger] arguments@[i])@ == renderer_command(
                output_path@,
                page_url@,
            )[i],
{
    let mut target: Vec<char> = Vec::new();
    push_str(&mut target, "--print-to-pdf=");
    push_str(&mut target, output_path);
    assert(target@ =~= "--print-to-pdf="@ + output_path@);
    let mut arguments: Vec<String> = Vec::new();
    arguments.push("--headless".to_owned());
    arguments.push("--disable-gpu".to_owned());
    arguments.push("--disable-features=PrintingPDFHeaderFooter".to_owned());
    arguments.push("--no-pdf-header-footer".to_owned());
    arguments.push("--print-to-pdf-no-header".to_owned());
    arguments.push(string_of(&target));
    arguments.push(page_url.to_owned());
    arguments
}

/// The index of the first entry that is `true`.
pub open spec fn first_present(present: Seq<bool>, from: int) -> Option<int>
    decreases present.len() - from,
{
    if from < 0 || from >= present.len() {
        None
    } else if present[from] {
        Some(from)
    } else {
        first_present(present, from + 1)
    }
}

/// Picks the browser to run: the first candidate that is present, where
/// `present` says of each candidate in its order whether it is installed.
/// Without any, the export ends before a process is spawned.
pub fn choose_renderer(present: &Vec<bool>) -> (r: Result<usize, ExportError>)
    ensures
        match r {
            Ok(index) => first_present(present@, 0) == Some(index as int) && index < present.len()
                && present@[index as int],
            Err(e) => e == ExportError::RenderingEngineNotFound && first_present(present@, 0)
                is None && forall|k: int| 0 <= k < present.len() ==> !present@[k],
        },
{
    let mut i: usize = 0;
    while i < present.len()
        invariant
            i <= present.len(),
            first_present(present@, i as int) == first_present(present@, 0),
            forall|k: int| 0 <= k < i ==> !present@[k],
        decreases present.len() - i,
    {
        if present[i] {
            return Ok(i);
        }
        i += 1;
    }
    Err(ExportError::RenderingEngineNotFound)
}

} // verus!
