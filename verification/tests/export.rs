use pignote::error::ExportError;
use pignote::export::{
    body_html, checked_body_html, choose_renderer, is_html_source, output_file_name, parse_format,
    renderer_arguments, temporary_file_name, ExportFormat, ExportRequest, RENDERER_CANDIDATES,
};

#[test]
fn html_is_known_by_its_first_character() {
    assert!(is_html_source("<p>x</p>"));
    assert!(is_html_source("  \n\t<div>"));
    assert!(!is_html_source("# title <b>"));
    assert!(!is_html_source(""));
    assert!(!is_html_source("   "));
}

#[test]
fn html_is_handed_through() {
    assert_eq!(body_html("  <p>*x*</p>", &|| false), Ok("  <p>*x*</p>".to_string()));
    assert_eq!(body_html("<p>x</p>", &|| true), Ok("<p>x</p>".to_string()));
}

#[test]
fn markdown_is_rendered() {
    assert_eq!(body_html("# t\n*x*", &|| false), Ok("<h1>t</h1>\n<p><em>x</em></p>\n".to_string()));
    assert_eq!(body_html("x", &|| true), Err(ExportError::CancellationRequested));
}

#[test]
fn checked_body_is_cancelled_whatever_the_source() {
    assert_eq!(checked_body_html("<p>x</p>", &|| true), Err(ExportError::CancellationRequested));
    assert_eq!(checked_body_html("", &|| true), Err(ExportError::CancellationRequested));
    assert_eq!(checked_body_html("x", &|| true), Err(ExportError::CancellationRequested));
    assert_eq!(checked_body_html("x", &|| false), Ok("<p>x</p>\n".to_string()));
    assert_eq!(checked_body_html("<p>x</p>", &|| false), Ok("<p>x</p>".to_string()));
}

#[test]
fn checked_body_asks_again_when_the_body_is_done() {
    let asked = std::cell::Cell::new(0u32);
    let probe = || {
        asked.set(asked.get() + 1);
        asked.get() > 1
    };
    assert_eq!(checked_body_html("<p>x</p>", &probe), Err(ExportError::CancellationRequested));
    assert_eq!(asked.get(), 2);
}

#[test]
fn output_is_named_by_format() {
    assert_eq!(output_file_name("notes", ExportFormat::Pdf), "notes.pdf");
    assert_eq!(output_file_name("notes", ExportFormat::Html), "notes.html");
    assert_eq!(output_file_name("my notes", ExportFormat::Docx), "my notes.docx");
    assert_eq!(ExportFormat::Pdf.extension(), "pdf");
    assert_eq!(temporary_file_name("notes"), "notes_pignote_export.html");
}

#[test]
fn formats_are_known_by_name() {
    assert_eq!(parse_format("pdf"), Some(ExportFormat::Pdf));
    assert_eq!(parse_format("html"), Some(ExportFormat::Html));
    assert_eq!(parse_format("docx"), Some(ExportFormat::Docx));
    assert_eq!(parse_format("PDF"), None);
    assert_eq!(parse_format(""), None);
    assert_eq!(parse_format("pdfx"), None);
}

#[test]
fn renderer_is_run_headless() {
    assert_eq!(
        renderer_arguments("C:\\Users\\me\\Desktop\\n.pdf", "file:///C:/tmp/n_pignote_export.html"),
        vec![
            "--headless",
            "--disable-gpu",
            "--disable-features=PrintingPDFHeaderFooter",
            "--no-pdf-header-footer",
            "--print-to-pdf-no-header",
            "--print-to-pdf=C:\\Users\\me\\Desktop\\n.pdf",
            "file:///C:/tmp/n_pignote_export.html",
        ]
    );
}

#[test]
fn first_installed_browser_is_chosen() {
    assert_eq!(choose_renderer(&vec![false, true, false, true]), Ok(1));
    assert_eq!(choose_renderer(&vec![true, true, true, true]), Ok(0));
    assert_eq!(choose_renderer(&vec![false, false, false, true]), Ok(3));
}

#[test]
fn missing_browser_is_an_error() {
    assert_eq!(choose_renderer(&vec![false, false, false, false]), Err(ExportError::RenderingEngineNotFound));
    assert_eq!(choose_renderer(&vec![]), Err(ExportError::RenderingEngineNotFound));
}

#[test]
fn candidates_are_chrome_then_edge() {
    assert_eq!(RENDERER_CANDIDATES.len(), 4);
    assert!(RENDERER_CANDIDATES[0].ends_with("chrome.exe"));
    assert!(RENDERER_CANDIDATES[1].ends_with("chrome.exe"));
    assert!(RENDERER_CANDIDATES[2].ends_with("msedge.exe"));
    assert!(RENDERER_CANDIDATES[3].ends_with("msedge.exe"));
}

#[test]
fn request_holds_what_was_asked() {
    let request = ExportRequest {
        content: "# t".to_string(),
        format: "pdf".to_string(),
        filename: "n".to_string(),
        dark: false,
        base_dir: None,
    };
    assert_eq!(parse_format(&request.format), Some(ExportFormat::Pdf));
}
