//! The word-processing package. Its body holds a single reference to an
//! embedded HTML page; whatever opens the package renders that page. The
//! package has the parts that the format demands and no others.
//!
//! The library says which entries the archive has, in which order and with
//! which text; the caller writes the archive.

use vstd::prelude::*;
use crate::text::{push_str, string_of};

verus! {

/// The dark embedded page, up to the body.
pub const CHUNK_DARK_HEAD: &'static str = "<!DOCTYPE html>
<html><head><meta charset=\"UTF-8\"/><style>body{font-family:Inter,-apple-system,BlinkMacSystemFont,'Segoe UI',Roboto,Arial,sans-serif;line-height:1.6;color:#e5e7eb;background:#0f172a;}h1,h2,h3{font-weight:700;margin:1em 0 .6em;color:#fff;} table{border-collapse:collapse;width:100%;} th,td{border:1px solid #334155;padding:8px;text-align:left;color:#e5e7eb;} th{background:#111827;} code{background:#0b1220;border:1px solid #334155;color:#f59e0b;padding:2px 6px;border-radius:6px;} pre{background:#0b1220;border:1px solid #334155;color:#cbd5e1;padding:12px;border-radius:8px;}blockquote{border-left:4px solid #ec4899;padding:8px 12px;background:#111827;color:#cbd5e1;}</style></head><body>";

/// The light embedded page, up to the body.
pub const CHUNK_LIGHT_HEAD: &'static str = "<!DOCTYPE html>
<html><head><meta charset=\"UTF-8\"/><style>body{font-family:Inter,-apple-system,BlinkMacSystemFont,'Segoe UI',Roboto,Arial,sans-serif;line-height:1.6;color:#111827;background:#ffffff;}h1,h2,h3{font-weight:700;margin:1em 0 .6em;} table{border-collapse:collapse;width:100%;} th,td{border:1px solid #e5e7eb;padding:8px;text-align:left;} code{background:#f8f9fa;border:1px solid #e5e7eb;padding:2px 6px;border-radius:6px;} pre{background:#f8f9fa;border:1px solid #e5e7eb;padding:12px;border-radius:8px;}blockquote{border-left:4px solid #ec4899;padding:8px 12px;background:#f8f9fa;color:#374151;}</style></head><body>";

/// The embedded page, behind the body.
pub const CHUNK_TAIL: &'static str = "</body></html>";

/// The list of content types.
pub const CONTENT_TYPES_XML: &'static str = "<?xml version=\"1.0\" encoding=\"UTF-8\"?>
<Types xmlns=\"http://schemas.openxmlformats.org/package/2006/content-types\">
  <Default Extension=\"rels\" ContentType=\"application/vnd.openxmlformats-package.relationships+xml\"/>
  <Default Extension=\"xml\" ContentType=\"application/xml\"/>
  <Override PartName=\"/word/document.xml\" ContentType=\"application/vnd.openxmlformats-officedocument.wordprocessingml.document.main+xml\"/>
  <Override PartName=\"/docProps/core.xml\" ContentType=\"application/vnd.openxmlformats-package.core-properties+xml\"/>
  <Override PartName=\"/docProps/app.xml\" ContentType=\"application/vnd.openxmlformats-officedocument.extended-properties+xml\"/>
  <Override PartName=\"/word/afchunk1.html\" ContentType=\"text/html\"/>
</Types>";

/// The relationships of the package.
pub const PACKAGE_RELS_XML: &'static str = "<?xml version=\"1.0\" encoding=\"UTF-8\"?>
<Relationships xmlns=\"http://schemas.openxmlformats.org/package/2006/relationships\">
  <Relationship Id=\"rId1\" Type=\"http://schemas.openxmlformats.org/officeDocument/2006/relationships/officeDocument\" Target=\"word/document.xml\"/>
  <Relationship Id=\"rId2\" Type=\"http://schemas.openxmlformats.org/package/2006/relationships/metadata/core-properties\" Target=\"docProps/core.xml\"/>
  <Relationship Id=\"rId3\" Type=\"http://schemas.openxmlformats.org/officeDocument/2006/relationships/extended-properties\" Target=\"docProps/app.xml\"/>
</Relationships>";

/// The metadata of the application.
pub const APP_XML: &'static str = "<?xml version=\"1.0\" encoding=\"UTF-8\"?>
<Properties xmlns=\"http://schemas.openxmlformats.org/officeDocument/2006/extended-properties\" xmlns:vt=\"http://schemas.openxmlformats.org/officeDocument/2006/docPropsVTypes\">
  <Application>PigNote</Application>
  <DocSecurity>0</DocSecurity>
  <ScaleCrop>false</ScaleCrop>
  <Company></Company>
  <LinksUpToDate>false</LinksUpToDate>
  <SharedDoc>false</SharedDoc>
  <HyperlinksChanged>false</HyperlinksChanged>
  <AppVersion>16.0000</AppVersion>
</Properties>";

/// The relationships of the document body: the one to the embedded page.
pub const DOCUMENT_RELS_XML: &'static str = "<?xml version=\"1.0\" encoding=\"UTF-8\"?>
<Relationships xmlns=\"http://schemas.openxmlformats.org/package/2006/relationships\">
  <Relationship Id=\"rIdHtml1\" Type=\"http://schemas.openxmlformats.org/officeDocument/2006/relationships/aFChunk\" Target=\"afchunk1.html\"/>
</Relationships>";

/// The core metadata, up to the time of creation.
pub const CORE_XML_HEAD: &'static str = "<?xml version=\"1.0\" encoding=\"UTF-8\"?>
<cp:coreProperties xmlns:cp=\"http://schemas.openxmlformats.org/package/2006/metadata/core-properties\" xmlns:dc=\"http://purl.org/dc/elements/1.1/\" xmlns:dcterms=\"http://purl.org/dc/terms/\" xmlns:dcmitype=\"http://purl.org/dc/dcmitype/\" xmlns:xsi=\"http://www.w3.org/2001/XMLSchema-instance\">
  <dcterms:created xsi:type=\"dcterms:W3CDTF\">";

/// The core metadata, from the time of creation to the time of the last change.
pub const CORE_XML_BETWEEN: &'static str = "</dcterms:created>
  <dcterms:modified xsi:type=\"dcterms:W3CDTF\">";

/// The core metadata, behind the time of the last change.
pub const CORE_XML_TAIL: &'static str = "</dcterms:modified>
  <dc:creator>PigNote</dc:creator>
  <cp:lastModifiedBy>PigNote</cp:lastModifiedBy>
</cp:coreProperties>";

/// The document body: one reference to the embedded page, and the page setup.
pub const DOCUMENT_XML: &'static str = "<?xml version=\"1.0\" encoding=\"UTF-8\" standalone=\"yes\"?>
<w:document xmlns:w=\"http://schemas.openxmlformats.org/wordprocessingml/2006/main\" xmlns:r=\"http://schemas.openxmlformats.org/officeDocument/2006/relationships\"><w:body>
<w:altChunk r:id=\"rIdHtml1\"/>
<w:sectPr><w:pgSz w:w=\"11906\" w:h=\"16838\"/><w:pgMar w:top=\"1440\" w:right=\"1440\" w:bottom=\"1440\" w:left=\"1440\"/></w:sectPr></w:body></w:document>";

/// One entry of the archive: a directory, or a file with its text.
#[derive(Debug, PartialEq, Eq)]
pub struct ArchiveEntry {
    pub name: String,
    /// The text of a file; `None` for a directory.
    pub contents: Option<String>,
}

/// The embedded page: the body between a fixed head and tail.
pub open spec fn chunk_page(body: Seq<char>, dark: bool) -> Seq<char> {
    if dark {
        CHUNK_DARK_HEAD@ + body + CHUNK_TAIL@
    } else {
        CHUNK_LIGHT_HEAD@ + body + CHUNK_TAIL@
    }
}

/// The core metadata: `stamp` is the time of creation and of the last change.
pub open spec fn core_xml(stamp: Seq<char>) -> Seq<char> {
    CORE_XML_HEAD@ + stamp + CORE_XML_BETWEEN@ + stamp + CORE_XML_TAIL@
}

/// The names of the archive's entries, in the order in which they are
/// written. A name that ends in `/` is a directory.
pub open spec fn entry_names() -> Seq<Seq<char>> {
    seq![
        "[Content_Types].xml"@,
        "_rels/"@,
        "_rels/.rels"@,
        "docProps/"@,
        "docProps/app.xml"@,
        "docProps/core.xml"@,
        "word/_rels/"@,
        "word/_rels/document.xml.rels"@,
        "word/"@,
        "word/document.xml"@,
        "word/afchunk1.html"@,
    ]
}

/// The texts of the archive's entries, `None` for a directory.
pub open spec fn entry_contents(body: Seq<char>, dark: bool, stamp: Seq<char>) -> Seq<
    Option<Seq<char>>,
> {
    seq![
        Some(CONTENT_TYPES_XML@),
        None,
        Some(PACKAGE_RELS_XML@),
        None,
        Some(APP_XML@),
        Some(core_xml(stamp)),
        None,
        Some(DOCUMENT_RELS_XML@),
        None,
        Some(DOCUMENT_XML@),
        Some(chunk_page(body, dark)),
    ]
}

pub open spec fn contents_view(contents: Option<String>) -> Option<Seq<char>> {
    match contents {
        Some(text) => Some(text@),
        None => None,
    }
}

/// Wraps a body in the embedded page.
pub fn chunk_html(body: &str, dark: bool) -> (page: String)
    ensures
        page@ == chunk_page(body@, dark),
{
    let mut out: Vec<char> = Vec::new();
    if dark {
        push_str(&mut out, CHUNK_DARK_HEAD);
    } else {
        push_str(&mut out, CHUNK_LIGHT_HEAD);
    }
    push_str(&mut out, body);
    push_str(&mut out, CHUNK_TAIL);
    assert(out@ =~= chunk_page(body@, dark));
    string_of(&out)
}

/// The core metadata for a package made at `stamp`, a time written as
/// `2024-01-31T12:00:00Z` is.
pub fn core_properties(stamp: &str) -> (xml: String)
    ensures
        xml@ == core_xml(stamp@),
{
    let mut out: Vec<char> = Vec::new();
    push_str(&mut out, CORE_XML_HEAD);
    push_str(&mut out, stamp);
    push_str(&mut out, CORE_XML_BETWEEN);
    push_str(&mut out, stamp);
    push_str(&mut out, CORE_XML_TAIL);
    assert(out@ =~= core_xml(stamp@));
    string_of(&out)
}

fn directory(name: &str) -> (entry: ArchiveEntry)
    ensures
        entry.name@ == name@,
        entry.contents is None,
{
    ArchiveEntry { name: name.to_owned(), contents: None }
}

fn file(name: &str, text: String) -> (entry: ArchiveEntry)
    ensures
        entry.name@ == name@,
        entry.contents == Some(text),
{
    ArchiveEntry { name: name.to_owned(), contents: Some(text) }
}

/// The entries of the package for a body, in the order in which they are to
/// be written.
pub fn package_entries(body: &str, dark: bool, stamp: &str) -> (entries: Vec<ArchiveEntry>)
    ensures
        entries@.len() == entry_names().len(),
        forall|i: int|
            0 <= i < entries@.len() ==> (#[trigger] entries@[i]).name@ == entry_names()[i]
                && contents_view(entries@[i].contents) == entry_contents(body@, dark, stamp@)[i],
{
    let mut entries: Vec<ArchiveEntry> = Vec::new();
    entries.push(file("[Content_Types].xml", CONTENT_TYPES_XML.to_owned()));
    entries.push(directory("_rels/"));
    entries.push(file("_rels/.rels", PACKAGE_RELS_XML.to_owned()));
    entries.push(directory("docProps/"));
    entries.push(file("docProps/app.xml", APP_XML.to_owned()));
    entries.push(file("docProps/core.xml", core_properties(stamp)));
    entries.push(directory("word/_rels/"));
    entries.push(file("word/_rels/document.xml.rels", DOCUMENT_RELS_XML.to_owned()));
    entries.push(directory("word/"));
    entries.push(file("word/document.xml", DOCUMENT_XML.to_owned()));
    entries.push(file("word/afchunk1.html", chunk_html(body, dark)));
    entries
}

} // verus!
