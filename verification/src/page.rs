//! The pages that take up a rendered body: one for printing, which the
//! renderer turns into a PDF, and one for reading in a browser. Each comes
//! light and dark. A page is a fixed text with the title, the body and, for
//! printing, the address of the brand image put in.

use vstd::prelude::*;
use crate::text::{push_str, string_of};

verus! {

/// The dark page for printing, up to the title.
pub const PRINT_DARK_HEAD: &'static str = "
        <!DOCTYPE html>
        <html>
        <head>
            <meta charset=\"UTF-8\">
            <title>";

/// The dark page for printing, from the title to the body.
pub const PRINT_DARK_STYLE: &'static str = "</title>
            <style>
                :root {
                    --accent-500: #ec4899;
                }
                 @media print {
                    @page { margin: 12mm; }
                     body { 
                        font-family: Inter, -apple-system, BlinkMacSystemFont, 'Segoe UI', Roboto, sans-serif;
                        line-height: 1.6;
                        margin: 12mm;
                        background: #0f172a;
                        color: #d1d5db;
                        font-size: 11pt;
                        font-weight: 400;
                    }
                    /* Linklerin yazdırmada URL'lerini ekleyen UA kuralını geçersiz kıl */
                    a[href]::after, a[href]::before { content: none !important; }
                     h1, h2, h3, h4, h5, h6 { page-break-after: avoid; break-after: avoid-page; }
                     h1 + *, h2 + *, h3 + *, h4 + *, h5 + * , h6 + * { break-before: avoid-page; }
                     p, ul, ol, pre, table { orphans: 3; widows: 3; }
                    h1, h2, h3, h4, h5, h6 { color: #e5e7eb; margin-top: 18pt; margin-bottom: 10pt; font-weight: 700; }
                    h1 { font-size: 18pt; border-bottom: 1pt solid #374151; padding-bottom: 5pt; }
                    h2 { font-size: 16pt; border-bottom: 1pt solid #374151; padding-bottom: 3pt; }
                    code { background: #0b1220; padding: 1pt 2pt; border-radius: 2pt; font-family: 'Courier New', monospace; color: #f59e0b; }
                    pre { background: #0b1220; padding: 10pt; border-radius: 3pt; overflow-x: auto; border: 1pt solid #2a2a2a; color: #cbd5e1; page-break-inside: avoid; break-inside: avoid; }
                    blockquote { border-left: 3pt solid var(--accent-500); margin: 0; padding-left: 15pt; color: #cbd5e1; background: #111827; }
                    img { display: block; margin: 6pt auto; width: auto; height: auto; max-width: 17cm; max-height: 16cm; object-fit: contain; page-break-inside: avoid; break-inside: avoid; break-before: avoid-page; page-break-after: auto; }
                    ul, ol { padding-left: 15pt; }
                    li { margin-bottom: 3pt; }
                    p { margin-bottom: 10pt; }
                     table { border-collapse: collapse; width: 100%; margin: 15pt 0; font-size: 10pt; page-break-inside: avoid; break-inside: avoid; }
                    th, td { 
                        border: 1pt solid #2a2a2a; 
                        padding: 6pt; 
                        text-align: left; 
                        vertical-align: top;
                        word-wrap: break-word;
                    }
                    th { 
                        background-color: #111827; 
                        font-weight: 600;
                        color: #e5e7eb;
                    }
                    thead { 
                        background-color: #111827;
                    }
                    tbody tr:nth-child(even) { background-color: #0f172a; }
                     tbody tr:hover { background-color: #0f172a; }
                    .watermark { position: fixed; top: 50%; left: 50%; transform: translate(-50%, -50%) rotate(-30deg); font-size: 64pt; font-weight: 700; color: rgba(255,255,255,0.06); z-index: 9999; white-space: nowrap; pointer-events: none; }
                    .brand-footer { position: fixed; bottom: 12mm; left: 12mm; font-size: 9pt; color: #9ca3af; display: flex; align-items: center; gap: 6pt; z-index: 10001; }
                    .brand-footer img { width: 12pt; height: 12pt; display: inline-block; }
                    /* Alt yazıların tamamını maskeleyen örtü */
                    .print-mask-bottom { position: fixed; left: 0; right: 0; bottom: 0; height: 12mm; background: #0f172a; z-index: 10000; }
                }
                 body { 
                    font-family: Inter, -apple-system, BlinkMacSystemFont, 'Segoe UI', Roboto, sans-serif;
                    line-height: 1.6;
                    background: #0f172a;
                    color: #d1d5db;
                    max-width: 860px;
                    margin: 32px auto;
                    font-weight: 400;
                }
                 .watermark { display: none; }
                 .brand-footer { display: none; }
                 .print-mask-bottom { display: none; }
                h1, h2, h3, h4, h5, h6 { color: #e5e7eb; margin-top: 24px; margin-bottom: 12px; font-weight: 700; }
                h1 { font-size: 24px; border-bottom: 2px solid #374151; padding-bottom: 10px; }
                h2 { font-size: 20px; border-bottom: 1px solid #374151; padding-bottom: 6px; }
                code { background: #0b1220; padding: 2px 4px; border-radius: 3px; font-family: 'Courier New', monospace; color: #f59e0b; }
                pre { background: #0b1220; padding: 15px; border-radius: 5px; overflow-x: auto; border: 1px solid #2a2a2a; color: #cbd5e1; }
                blockquote { border-left: 4px solid var(--accent-500); margin: 0; padding-left: 20px; color: #cbd5e1; background: #111827; }
                img { 
                    max-width: 100%; 
                    height: auto; 
                    max-height: 70vh; 
                    object-fit: contain; 
                    display: block; 
                    margin: 12px auto; 
                }
                ul, ol { padding-left: 20px; }
                li { margin-bottom: 5px; }
                p { margin-bottom: 15px; }
                table { 
                    border-collapse: collapse; 
                    width: 100%; 
                    margin: 20px 0; 
                    font-size: 14px;
                }
                th, td { 
                    border: 1px solid #2a2a2a; 
                    padding: 8px; 
                    text-align: left; 
                    vertical-align: top;
                    word-wrap: break-word;
                }
                th { 
                    background-color: #111827; 
                    font-weight: 600;
                    color: #e5e7eb;
                }
                thead { 
                    background-color: #111827;
                }
                tbody tr:nth-child(even) { background-color: #0f172a; }
                tbody tr:hover { background-color: #0f172a; }
            </style>
        </head>
        <body>
            <div class=\"print-container\">";

/// The dark page for printing, from the body to the address of the brand image.
pub const PRINT_DARK_BRAND: &'static str = "</div>
             <div class=\"watermark\">PigNote</div>
             <div class=\"brand-footer\"><img src=\"";

/// The dark page for printing, behind the address of the brand image.
pub const PRINT_DARK_TAIL: &'static str = "\" alt=\"PigNote\" /><span>PigNote</span></div>
             <div class=\"print-mask-bottom\"></div>
        </body>
        </html>
        ";

/// The light page for printing, up to the title.
pub const PRINT_LIGHT_HEAD: &'static str = "
        <!DOCTYPE html>
        <html>
        <head>
            <meta charset=\"UTF-8\">
            <title>";

/// The light page for printing, from the title to the body.
pub const PRINT_LIGHT_STYLE: &'static str = "</title>
            <style>
                :root { --accent-500: #ec4899; }
                 @media print {
                    @page { margin: 12mm; }
                    body { 
                        font-family: Inter, -apple-system, BlinkMacSystemFont, 'Segoe UI', Roboto, sans-serif; 
                        line-height: 1.6; 
                        color: #111827; 
                        margin: 12mm; 
                        font-size: 11pt; 
                        font-weight: 400; 
                        background: #ffffff;
                    }
                    /* Linklerin yazdırmada URL'lerini ekleyen UA kuralını geçersiz kıl */
                    a[href]::after, a[href]::before { content: none !important; }
                     h1, h2, h3, h4, h5, h6 { page-break-after: avoid; break-after: avoid-page; }
                     h1 + *, h2 + *, h3 + *, h4 + *, h5 + * , h6 + * { break-before: avoid-page; }
                     p, ul, ol, pre, table { orphans: 3; widows: 3; }
                    img {
                        display: block !important;
                        margin: 6pt auto !important;
                        width: auto !important;
                        height: auto !important;
                        max-width: 17cm !important;
                        max-height: 16cm !important;
                        object-fit: contain !important;
                        page-break-inside: avoid !important;
                        break-inside: avoid !important;
                        break-before: avoid-page !important;
                        page-break-after: auto !important;
                    }
                    table { 
                        border-collapse: collapse; 
                        width: 100%; 
                        margin: 15pt 0; 
                        font-size: 10pt;
                        page-break-inside: avoid; break-inside: avoid;
                    }
                    th, td { 
                        border: 1pt solid #e5e7eb; 
                        padding: 6pt; 
                        text-align: left; 
                        vertical-align: top;
                        word-wrap: break-word;
                    }
                    th { 
                        background-color: #f3f4f6; 
                        font-weight: 600;
                        color: #111827;
                    }
                    pre { page-break-inside: avoid; break-inside: avoid; }
                    .watermark { position: fixed; top: 50%; left: 50%; transform: translate(-50%, -50%) rotate(-30deg); font-size: 64pt; font-weight: 700; color: rgba(0,0,0,0.06); z-index: 9999; white-space: nowrap; pointer-events: none; }
                    .brand-footer { position: fixed; bottom: 12mm; left: 12mm; font-size: 9pt; color: #6b7280; display: flex; align-items: center; gap: 6pt; z-index: 10001; }
                    .brand-footer img { width: 12pt; height: 12pt; display: inline-block; }
                    .print-mask-bottom { position: fixed; left: 0; right: 0; bottom: 0; height: 12mm; background: #ffffff; z-index: 10000; }
                }
                body { font-family: Inter, -apple-system, BlinkMacSystemFont, 'Segoe UI', Roboto, sans-serif; line-height: 1.6; color: #374151; max-width: 860px; margin: 32px auto; font-weight: 400; }
                .watermark { display: none; }
                .brand-footer { display: none; }
                .print-mask-bottom { display: none; }
                h1, h2, h3, h4, h5, h6 { color: #111827; margin-top: 24px; margin-bottom: 12px; font-weight: 700; }
                h1 { font-size: 24px; border-bottom: 2px solid #e5e7eb; padding-bottom: 10px; }
                h2 { font-size: 20px; border-bottom: 1px solid #e5e7eb; padding-bottom: 6px; }
                code { background: #f3f4f6; padding: 2px 4px; border-radius: 3px; font-family: 'Courier New', monospace; }
                pre { background: #f3f4f6; padding: 15px; border-radius: 5px; overflow-x: auto; border-left: 4px solid var(--accent-500); }
                blockquote { border-left: 4px solid var(--accent-500); margin: 0; padding-left: 20px; color: #6b7280; background: #fafafa; }
                img { display:block; margin:12px auto; width:auto; height:auto; max-width: 860px; max-height: 70vh; object-fit: contain; }
                table { border-collapse: collapse; width: 100%; margin: 20px 0; font-size: 14px; }
                th, td { border: 1px solid #e5e7eb; padding: 8px; text-align: left; vertical-align: top; word-wrap: break-word; }
                th { background-color: #f3f4f6; font-weight: 600; color: #111827; }
            </style>
        </head>
        <body><div class=\"print-container\">";

/// The light page for printing, from the body to the address of the brand image.
pub const PRINT_LIGHT_BRAND: &'static str = "</div><div class=\"watermark\">PigNote</div><div class=\"brand-footer\"><img src=\"";

/// The light page for printing, behind the address of the brand image.
pub const PRINT_LIGHT_TAIL: &'static str = "\" alt=\"PigNote\" /><span>PigNote</span></div><div class=\"print-mask-bottom\"></div></body>
        </html>
        ";

/// The dark page for reading, up to the title.
pub const SCREEN_DARK_HEAD: &'static str = "<!DOCTYPE html>
<html>
<head>
  <meta charset=\\\"UTF-8\\\" />
  <meta name=\\\"viewport\\\" content=\\\"width=device-width, initial-scale=1\\\" />
  <title>";

/// The dark page for reading, from the title to the body.
pub const SCREEN_DARK_STYLE: &'static str = "</title>
  <style>
    :root { --accent-500: #ec4899; }
    body { font-family: Inter, -apple-system, BlinkMacSystemFont, 'Segoe UI', Roboto, sans-serif; margin: 40px auto; max-width: 860px; line-height: 1.7; color: #e5e7eb; background: #0f172a; }
    h1, h2, h3, h4, h5, h6 { color: #fff; margin-top: 28px; margin-bottom: 12px; font-weight: 700; }
    h1 { border-bottom: 1px solid #374151; padding-bottom: 6px; }
    h2 { border-bottom: 1px solid #374151; padding-bottom: 4px; }
    p { margin: 12px 0; }
    code { background: #111827; border: 1px solid #334155; color: #f59e0b; padding: 2px 6px; border-radius: 6px; }
    pre { background: #0b1220; border: 1px solid #334155; color: #cbd5e1; padding: 16px; border-radius: 12px; overflow: auto; }
    blockquote { border-left: 4px solid var(--accent-500); margin: 1em 0; padding: 8px 16px; background: #111827; color: #cbd5e1; }
    a { color: #f472b6; text-decoration: none; }
    a:hover { text-decoration: underline; }
    table { border-collapse: collapse; width: 100%; margin: 16px 0; font-size: 14px; }
    th, td { border: 1px solid #334155; padding: 10px; text-align: left; }
    th { background: #111827; color: #e5e7eb; }
    img { max-width: 100%; height: auto; display: block; margin: 8px auto; }
  </style>
</head>
<body>
";

/// The dark page for reading, behind the body.
pub const SCREEN_DARK_TAIL: &'static str = "
</body>
</html>";

/// The light page for reading, up to the title.
pub const SCREEN_LIGHT_HEAD: &'static str = "<!DOCTYPE html>
<html>
<head>
  <meta charset=\\\"UTF-8\\\" />
  <meta name=\\\"viewport\\\" content=\\\"width=device-width, initial-scale=1\\\" />
  <title>";

/// The light page for reading, from the title to the body.
pub const SCREEN_LIGHT_STYLE: &'static str = "</title>
  <style>
    :root { --accent-500: #ec4899; }
    body { font-family: Inter, -apple-system, BlinkMacSystemFont, 'Segoe UI', Roboto, sans-serif; margin: 40px auto; max-width: 860px; line-height: 1.7; color: #374151; background: #fff; }
    h1, h2, h3, h4, h5, h6 { color: #111827; margin-top: 28px; margin-bottom: 12px; font-weight: 700; }
    h1 { border-bottom: 2px solid #e5e7eb; padding-bottom: 8px; }
    h2 { border-bottom: 1px solid #e5e7eb; padding-bottom: 6px; }
    p { margin: 12px 0; }
    code { background: #f8f9fa; border: 1px solid #e5e7eb; color: #e83e8c; padding: 2px 6px; border-radius: 6px; }
    pre { background: #f8f9fa; border: 1px solid #e5e7eb; color: #374151; padding: 16px; border-radius: 12px; overflow: auto; }
    blockquote { border-left: 4px solid var(--accent-500); margin: 1em 0; padding: 8px 16px; background: #f8f9fa; color: #6b7280; }
    a { color: #ec4899; text-decoration: none; }
    a:hover { text-decoration: underline; }
    table { border-collapse: collapse; width: 100%; margin: 16px 0; font-size: 14px; }
    th, td { border: 1px solid #e5e7eb; padding: 10px; text-align: left; }
    th { background: #f8f9fa; color: #111827; }
    img { max-width: 100%; height: auto; display: block; margin: 8px auto; }
  </style>
</head>
<body>
";

/// The light page for reading, behind the body.
pub const SCREEN_LIGHT_TAIL: &'static str = "
</body>
</html>";

/// The page for printing.
pub open spec fn print_page(
    title: Seq<char>,
    body: Seq<char>,
    brand_image: Seq<char>,
    dark: bool,
) -> Seq<char> {
    if dark {
        PRINT_DARK_HEAD@ + title + PRINT_DARK_STYLE@ + body + PRINT_DARK_BRAND@ + brand_image
            + PRINT_DARK_TAIL@
    } else {
        PRINT_LIGHT_HEAD@ + title + PRINT_LIGHT_STYLE@ + body + PRINT_LIGHT_BRAND@ + brand_image
            + PRINT_LIGHT_TAIL@
    }
}

/// The page for reading.
pub open spec fn screen_page(title: Seq<char>, body: Seq<char>, dark: bool) -> Seq<char> {
    if dark {
        SCREEN_DARK_HEAD@ + title + SCREEN_DARK_STYLE@ + body + SCREEN_DARK_TAIL@
    } else {
        SCREEN_LIGHT_HEAD@ + title + SCREEN_LIGHT_STYLE@ + body + SCREEN_LIGHT_TAIL@
    }
}

/// Wraps a body in the page for printing. `brand_image` is the address of
/// the image shown beside the name in the footer.
pub fn print_page_html(title: &str, body: &str, brand_image: &str, dark: bool) -> (page: String)
    ensures
        page@ == print_page(title@, body@, brand_image@, dark),
{
    let mut out: Vec<char> = Vec::new();
    if dark {
        push_str(&mut out, PRINT_DARK_HEAD);
        push_str(&mut out, title);
        push_str(&mut out, PRINT_DARK_STYLE);
        push_str(&mut out, body);
        push_str(&mut out, PRINT_DARK_BRAND);
        push_str(&mut out, brand_image);
        push_str(&mut out, PRINT_DARK_TAIL);
    } else {
        push_str(&mut out, PRINT_LIGHT_HEAD);
        push_str(&mut out, title);
        push_str(&mut out, PRINT_LIGHT_STYLE);
        push_str(&mut out, body);
        push_str(&mut out, PRINT_LIGHT_BRAND);
        push_str(&mut out, brand_image);
        push_str(&mut out, PRINT_LIGHT_TAIL);
    }
    assert(out@ =~= print_page(title@, body@, brand_image@, dark));
    string_of(&out)
}

/// Wraps a body in the page for reading.
pub fn screen_page_html(title: &str, body: &str, dark: bool) -> (page: String)
    ensures
        page@ == screen_page(title@, body@, dark),
{
    let mut out: Vec<char> = Vec::new();
    if dark {
        push_str(&mut out, SCREEN_DARK_HEAD);
        push_str(&mut out, title);
        push_str(&mut out, SCREEN_DARK_STYLE);
        push_str(&mut out, body);
        push_str(&mut out, SCREEN_DARK_TAIL);
    } else {
        push_str(&mut out, SCREEN_LIGHT_HEAD);
        push_str(&mut out, title);
        push_str(&mut out, SCREEN_LIGHT_STYLE);
        push_str(&mut out, body);
        push_str(&mut out, SCREEN_LIGHT_TAIL);
    }
    assert(out@ =~= screen_page(title@, body@, dark));
    string_of(&out)
}

} // verus!
