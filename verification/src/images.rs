//! Image references in an HTML fragment. Each `<img>` tag with a `src` is
//! found, its source is classified, and a source that names a local file is
//! replaced: by the file's bytes as a data URI where they could be read, by a
//! `file:///` address of the file where they could not.
//!
//! The files are read by the caller. `image_references` lists the sources in
//! the order of their tags; the caller answers with one entry per tag.

use vstd::prelude::*;
use crate::cancel::{always_requested, can_ask, checkpoint, may_report, never_requested};
use crate::error::ExportError;
use crate::text::{chars_of, index_of_from, is_space, is_whitespace, lemma_index_of_from, find_char,
    matches_at, push_all, push_range, push_str, slice_of, starts_with, string_of};

verus! {

/// The text that `base64`'s standard engine, the alphabet of RFC 4648 with
/// padding, gives for a sequence of bytes.
pub uninterp spec fn base64_standard(bytes: Seq<u8>) -> Seq<char>;

/// The lengths for which the encoder can count its output in a `usize`.
pub open spec fn encodable_len(n: nat) -> bool {
    n / 3 * 4 + 4 <= usize::MAX
}

/// `Engine::encode` of `base64::engine::general_purpose::STANDARD`. It
/// panics where the length of its output does not fit in a `usize`, which
/// the precondition leaves out. The text it returns depends on the bytes
/// alone; nothing more is claimed of it than that it has the name above.
#[verifier::external_body]
fn encode_base64(bytes: &Vec<u8>) -> (text: String)
    requires
        encodable_len(bytes@.len()),
    ensures
        text@ == base64_standard(bytes@),
{
    base64::Engine::encode(&base64::engine::general_purpose::STANDARD, bytes)
}

/// What the source of an image is.
#[derive(Debug, Clone, Copy, PartialEq, Eq, Structural)]
pub enum ImageSourceKind {
    /// Begins with `data:`; the image is in the text already.
    DataUri,
    /// Begins with `http://`, `https://` or `file:///`.
    RemoteOrAbsolute,
    /// Anything else: a path that is resolved against a base directory.
    RelativeResolvable,
}

/// The source of one image tag of a fragment.
#[derive(Debug, PartialEq, Eq)]
pub struct ImageReference {
    pub src: String,
    pub kind: ImageSourceKind,
}

/// What the caller found for a relative source in the base directory.
#[derive(Debug, PartialEq, Eq)]
pub struct ResolvedFile {
    /// The source joined to the base directory, as a text.
    pub path: String,
    /// The extension of that path, without the dot; empty where it has none.
    pub extension: String,
    /// The bytes of the file, or `None` where it could not be read.
    pub contents: Option<Vec<u8>>,
}

/// Where an image tag and the value of its `src` stand in a text.
pub struct TagSpan {
    pub start: usize,
    pub end: usize,
    pub src_start: usize,
    pub src_end: usize,
}

pub open spec fn is_quote_mark(c: char) -> bool {
    c == '"' || c == '\''
}

/// The end of an attribute value that begins at index `i`: the first index
/// that holds a quotation mark or `>`.
pub open spec fn value_end(t: Seq<char>, i: int) -> int
    decreases t.len() - i,
{
    if 0 <= i < t.len() && !is_quote_mark(t[i]) && t[i] != '>' {
        value_end(t, i + 1)
    } else {
        i
    }
}

/// The value of the `src` attribute written at index `k`: `src=`, a
/// quotation mark, a value that is not empty, a quotation mark.
pub open spec fn src_value_at(t: Seq<char>, k: int) -> Option<(int, int)> {
    let e = value_end(t, k + 5);
    if 0 <= k && k + 5 < t.len() && t[k] == 's' && t[k + 1] == 'r' && t[k + 2] == 'c' && t[k + 3]
        == '=' && is_quote_mark(t[k + 4]) && k + 5 < e < t.len() && is_quote_mark(t[e]) {
        Some((k + 5, e))
    } else {
        None
    }
}

/// The value of the last `src` attribute that begins in `lo..hi`.
pub open spec fn last_src_value(t: Seq<char>, lo: int, hi: int) -> Option<(int, int)>
    decreases hi - lo,
{
    if hi <= lo {
        None
    } else {
        match src_value_at(t, hi - 1) {
            Some(v) => Some(v),
            None => last_src_value(t, lo, hi - 1),
        }
    }
}

/// The image tag that begins at index `p`: `<img`, white space, and up to
/// the next `>` a `src` attribute. Where the tag has several, the last one
/// counts.
pub open spec fn tag_at(t: Seq<char>, p: int) -> Option<(int, int, int)> {
    let q = index_of_from(t, '>', p);
    if 0 <= p && p + 4 < t.len() && t[p] == '<' && t[p + 1] == 'i' && t[p + 2] == 'm' && t[p + 3]
        == 'g' && is_whitespace(t[p + 4]) && p <= q < t.len() {
        match last_src_value(t, p + 5, q) {
            Some((a, b)) => Some((q + 1, a, b)),
            None => None,
        }
    } else {
        None
    }
}

pub open spec fn source_kind(src: Seq<char>) -> ImageSourceKind {
    if starts_with(src, "data:"@) {
        ImageSourceKind::DataUri
    } else if starts_with(src, "http://"@) || starts_with(src, "https://"@) || starts_with(
        src,
        "file:///"@,
    ) {
        ImageSourceKind::RemoteOrAbsolute
    } else {
        ImageSourceKind::RelativeResolvable
    }
}

/// The sources of the image tags of `t` from index `i` on, in their order.
pub open spec fn sources_from(t: Seq<char>, i: int) -> Seq<Seq<char>>
    decreases t.len() - i,
{
    if i < 0 || i >= t.len() {
        Seq::empty()
    } else {
        match tag_at(t, i) {
            Some((end, a, b)) => if i < end <= t.len() {
                seq![t.subrange(a, b)] + sources_from(t, end)
            } else {
                sources_from(t, i + 1)
            },
            None => sources_from(t, i + 1),
        }
    }
}

/// The sources of all image tags of a fragment.
pub open spec fn image_sources(t: Seq<char>) -> Seq<Seq<char>> {
    sources_from(t, 0)
}

pub open spec fn ascii_lower(c: char) -> char {
    if 'A' <= c && c <= 'Z' {
        ((c as u8) + 32) as char
    } else {
        c
    }
}

pub open spec fn lowercased(s: Seq<char>) -> Seq<char> {
    Seq::new(s.len(), |i: int| ascii_lower(s[i]))
}

/// The media type that goes with a file extension, whatever its case.
pub open spec fn mime_type(extension: Seq<char>) -> Seq<char> {
    let e = lowercased(extension);
    if e == "png"@ {
        "image/png"@
    } else if e == "jpg"@ || e == "jpeg"@ {
        "image/jpeg"@
    } else if e == "gif"@ {
        "image/gif"@
    } else if e == "svg"@ {
        "image/svg+xml"@
    } else if e == "webp"@ {
        "image/webp"@
    } else {
        "application/octet-stream"@
    }
}

/// `path` with each backslash turned into a slash.
pub open spec fn with_slashes(path: Seq<char>) -> Seq<char> {
    Seq::new(
        path.len(),
        |i: int|
            if path[i] == '\\' {
                '/'
            } else {
                path[i]
            },
    )
}

pub open spec fn file_uri(path: Seq<char>) -> Seq<char> {
    "file:///"@ + with_slashes(path)
}

pub open spec fn data_uri(extension: Seq<char>, bytes: Seq<u8>) -> Seq<char> {
    "data:"@ + mime_type(extension) + ";base64,"@ + base64_standard(bytes)
}

/// The source that takes the place of a relative one: the file itself where
/// its bytes are at hand and can be encoded, else its address.
pub open spec fn resolved_source(file: ResolvedFile) -> Seq<char> {
    match file.contents {
        Some(bytes) => if encodable_len(bytes@.len()) {
            data_uri(file.extension@, bytes@)
        } else {
            file_uri(file.path@)
        },
        None => file_uri(file.path@),
    }
}

/// The entry for the tag of index `n`; a tag without an entry has `None`.
pub open spec fn entry_for(files: Seq<Option<ResolvedFile>>, n: int) -> Option<ResolvedFile> {
    if 0 <= n < files.len() {
        files[n]
    } else {
        None
    }
}

/// The tag `t[start..end]` with the source `t[a..b]`, rewritten. Only a
/// relative source with an entry changes.
pub open spec fn tag_html(
    t: Seq<char>,
    start: int,
    end: int,
    a: int,
    b: int,
    entry: Option<ResolvedFile>,
) -> Seq<char> {
    match entry {
        Some(file) => if source_kind(t.subrange(a, b)) == ImageSourceKind::RelativeResolvable {
            t.subrange(start, a) + resolved_source(file) + t.subrange(b, end)
        } else {
            t.subrange(start, end)
        },
        None => t.subrange(start, end),
    }
}

/// The fragment from index `i` on with its image tags rewritten; `n` is the
/// number of tags before `i`.
pub open spec fn rewritten_from(
    t: Seq<char>,
    i: int,
    files: Seq<Option<ResolvedFile>>,
    n: int,
) -> Seq<char>
    decreases t.len() - i,
{
    if i < 0 || i >= t.len() {
        Seq::empty()
    } else {
        match tag_at(t, i) {
            Some((end, a, b)) => if i < end <= t.len() {
                tag_html(t, i, end, a, b, entry_for(files, n)) + rewritten_from(
                    t,
                    end,
                    files,
                    n + 1,
                )
            } else {
                seq![t[i]] + rewritten_from(t, i + 1, files, n)
            },
            None => seq![t[i]] + rewritten_from(t, i + 1, files, n),
        }
    }
}

/// A fragment with each image tag rewritten by its entry.
pub open spec fn rewritten(t: Seq<char>, files: Seq<Option<ResolvedFile>>) -> Seq<char> {
    rewritten_from(t, 0, files, 0)
}

/// The value of a `src` attribute that begins before `hi` lies behind `lo`
/// and, where no `>` stands in `lo..hi`, before `hi`.
pub proof fn lemma_last_src_value(t: Seq<char>, lo: int, hi: int)
    requires
        0 <= lo,
        hi <= t.len(),
    ensures
        match last_src_value(t, lo, hi) {
            Some((a, b)) => lo + 5 <= a < b < t.len() && is_quote_mark(t[b]),
            None => true,
        },
    decreases hi - lo,
{
    if hi > lo {
        if src_value_at(t, hi - 1) is None {
            lemma_last_src_value(t, lo, hi - 1);
        }
    }
}

/// The first of `>` and the quotation marks behind index `i` is found
/// before any `>` behind `i`.
pub proof fn lemma_value_end_before(t: Seq<char>, i: int, q: int)
    requires
        0 <= i <= q < t.len(),
        t[q] == '>',
    ensures
        value_end(t, i) <= q,
    decreases t.len() - i,
{
    if i < q && !is_quote_mark(t[i]) && t[i] != '>' {
        lemma_value_end_before(t, i + 1, q);
    }
}

/// The value of a source that begins before a `>` ends before it.
pub proof fn lemma_last_src_inside(t: Seq<char>, lo: int, hi: int, q: int)
    requires
        0 <= lo,
        hi <= q < t.len(),
        t[q] == '>',
    ensures
        match last_src_value(t, lo, hi) {
            Some((a, b)) => b < q,
            None => true,
        },
    decreases hi - lo,
{
    if hi > lo {
        match src_value_at(t, hi - 1) {
            Some((a, b)) => {
                lemma_value_end_before(t, hi + 4, q);
            },
            None => {
                lemma_last_src_inside(t, lo, hi - 1, q);
            },
        }
    }
}

/// A tag ends behind its source, and the source behind the tag's name.
pub proof fn lemma_tag_bounds(t: Seq<char>, p: int)
    ensures
        match tag_at(t, p) {
            Some((end, a, b)) => 0 <= p && p + 10 <= a < b < end - 1 && end <= t.len(),
            None => true,
        },
{
    if 0 <= p && p + 4 < t.len() {
        lemma_index_of_from(t, '>', p);
        let q = index_of_from(t, '>', p);
        if q < t.len() {
            lemma_last_src_value(t, p + 5, q);
            lemma_last_src_inside(t, p + 5, q, q);
        }
    }
}


fn find_value_end(t: &Vec<char>, from: usize) -> (e: usize)
    requires
        from <= t.len(),
    ensures
        e == value_end(t@, from as int),
        from <= e <= t.len(),
{
    let mut e: usize = from;
    while e < t.len() && t[e] != '"' && t[e] != '\'' && t[e] != '>'
        invariant
            from <= e <= t.len(),
            value_end(t@, e as int) == value_end(t@, from as int),
        decreases t.len() - e,
    {
        e += 1;
    }
    e
}

fn find_src_value(t: &Vec<char>, k: usize) -> (r: Option<(usize, usize)>)
    ensures
        match r {
            Some((a, b)) => src_value_at(t@, k as int) == Some((a as int, b as int)),
            None => src_value_at(t@, k as int) is None,
        },
{
    if t.len() < 6 || k >= t.len() - 5 {
        return None;
    }
    if t[k] != 's' || t[k + 1] != 'r' || t[k + 2] != 'c' || t[k + 3] != '=' {
        return None;
    }
    if t[k + 4] != '"' && t[k + 4] != '\'' {
        return None;
    }
    let e = find_value_end(t, k + 5);
    if e == k + 5 || e >= t.len() {
        return None;
    }
    if t[e] != '"' && t[e] != '\'' {
        return None;
    }
    Some((k + 5, e))
}

fn find_last_src_value(t: &Vec<char>, lo: usize, hi: usize) -> (r: Option<(usize, usize)>)
    ensures
        match r {
            Some((a, b)) => last_src_value(t@, lo as int, hi as int) == Some((a as int, b as int)),
            None => last_src_value(t@, lo as int, hi as int) is None,
        },
{
    let mut k: usize = hi;
    while k > lo
        invariant
            k <= hi,
            last_src_value(t@, lo as int, k as int) == last_src_value(t@, lo as int, hi as int),
        decreases k,
    {
        match find_src_value(t, k - 1) {
            Some(v) => {
                return Some(v);
            },
            None => {
                k -= 1;
            },
        }
    }
    None
}

/// The image tag that begins at index `p`, if one does.
pub fn find_tag(t: &Vec<char>, p: usize) -> (r: Option<TagSpan>)
    ensures
        match r {
            Some(tag) => {
                &&& tag_at(t@, p as int) == Some(
                    (tag.end as int, tag.src_start as int, tag.src_end as int),
                )
                &&& tag.start == p
                &&& p < tag.src_start < tag.src_end < tag.end <= t.len()
            },
            None => tag_at(t@, p as int) is None,
        },
{
    proof {
        lemma_tag_bounds(t@, p as int);
    }
    if t.len() < 5 || p >= t.len() - 4 {
        return None;
    }
    if t[p] != '<' || t[p + 1] != 'i' || t[p + 2] != 'm' || t[p + 3] != 'g' || !is_space(
        t[p + 4],
    ) {
        return None;
    }
    let q = find_char(t, '>', p);
    if q >= t.len() {
        return None;
    }
    match find_last_src_value(t, p + 5, q) {
        Some((a, b)) => Some(TagSpan { start: p, end: q + 1, src_start: a, src_end: b }),
        None => None,
    }
}

fn begins_with(v: &Vec<char>, prefix: &str) -> (b: bool)
    ensures
        b == starts_with(v@, prefix@),
{
    let pattern = chars_of(prefix);
    matches_at(v, &pattern, 0)
}

fn is_text(v: &Vec<char>, s: &str) -> (b: bool)
    ensures
        b == (v@ == s@),
{
    let pattern = chars_of(s);
    if pattern.len() != v.len() {
        return false;
    }
    let same = matches_at(v, &pattern, 0);
    assert(v@.subrange(0, v@.len() as int) =~= v@);
    same
}

fn source_kind_of(src: &Vec<char>) -> (kind: ImageSourceKind)
    ensures
        kind == source_kind(src@),
{
    if begins_with(src, "data:") {
        ImageSourceKind::DataUri
    } else if begins_with(src, "http://") || begins_with(src, "https://") || begins_with(
        src,
        "file:///",
    ) {
        ImageSourceKind::RemoteOrAbsolute
    } else {
        ImageSourceKind::RelativeResolvable
    }
}

/// What the source of an image is, by the way it begins.
pub fn classify_source(src: &str) -> (kind: ImageSourceKind)
    ensures
        kind == source_kind(src@),
{
    let v = chars_of(src);
    source_kind_of(&v)
}

/// The sources of the image tags of a fragment, in the order of the tags.
pub fn image_references(html: &str) -> (refs: Vec<ImageReference>)
    ensures
        refs@.len() == image_sources(html@).len(),
        forall|n: int|
            0 <= n < refs@.len() ==> (#[trigger] refs@[n]).src@ == image_sources(html@)[n]
                && refs@[n].kind == source_kind(image_sources(html@)[n]),
{
    let t = chars_of(html);
    let mut refs: Vec<ImageReference> = Vec::new();
    let ghost mut found: Seq<Seq<char>> = Seq::empty();
    let mut i: usize = 0;
    while i < t.len()
        invariant
            i <= t.len(),
            t@ == html@,
            found + sources_from(t@, i as int) =~= image_sources(t@),
            refs@.len() == found.len(),
            forall|n: int|
                0 <= n < refs@.len() ==> (#[trigger] refs@[n]).src@ == found[n] && refs@[n].kind
                    == source_kind(found[n]),
        decreases t.len() - i,
    {
        match find_tag(&t, i) {
            Some(tag) => {
                let src = slice_of(&t, tag.src_start, tag.src_end);
                let kind = source_kind_of(&src);
                refs.push(ImageReference { src: string_of(&src), kind });
                proof {
                    found = found.push(src@);
                }
                i = tag.end;
            },
            None => {
                i += 1;
            },
        }
    }
    refs
}

fn lower(c: char) -> (l: char)
    ensures
        l == ascii_lower(c),
{
    if 'A' <= c && c <= 'Z' {
        ((c as u8) + 32) as char
    } else {
        c
    }
}

fn lowercase(s: &Vec<char>) -> (l: Vec<char>)
    ensures
        l@ == lowercased(s@),
{
    let mut l: Vec<char> = Vec::new();
    let mut i: usize = 0;
    while i < s.len()
        invariant
            i <= s.len(),
            l@ =~= lowercased(s@).take(i as int),
        decreases s.len() - i,
    {
        l.push(lower(s[i]));
        i += 1;
    }
    assert(l@ =~= lowercased(s@));
    l
}

/// The media type that goes with a file extension.
pub fn mime_type_of(extension: &str) -> (mime: &'static str)
    ensures
        mime@ == mime_type(extension@),
{
    let raw = chars_of(extension);
    let e = lowercase(&raw);
    if is_text(&e, "png") {
        "image/png"
    } else if is_text(&e, "jpg") || is_text(&e, "jpeg") {
        "image/jpeg"
    } else if is_text(&e, "gif") {
        "image/gif"
    } else if is_text(&e, "svg") {
        "image/svg+xml"
    } else if is_text(&e, "webp") {
        "image/webp"
    } else {
        "application/octet-stream"
    }
}

fn push_with_slashes(out: &mut Vec<char>, path: &Vec<char>)
    ensures
        final(out)@ == old(out)@ + with_slashes(path@),
{
    let ghost before = out@;
    let mut i: usize = 0;
    while i < path.len()
        invariant
            i <= path.len(),
            out@ =~= before + with_slashes(path@).take(i as int),
        decreases path.len() - i,
    {
        if path[i] == '\\' {
            out.push('/');
        } else {
            out.push(path[i]);
        }
        i += 1;
    }
    assert(out@ =~= before + with_slashes(path@));
}

/// The `file:///` address of a path, its backslashes turned into slashes.
pub fn file_uri_of(path: &str) -> (uri: String)
    ensures
        uri@ == file_uri(path@),
{
    let p = chars_of(path);
    let mut out: Vec<char> = Vec::new();
    push_str(&mut out, "file:///");
    push_with_slashes(&mut out, &p);
    assert(out@ =~= file_uri(path@));
    string_of(&out)
}

fn can_encode(bytes: &Vec<u8>) -> (b: bool)
    ensures
        b == encodable_len(bytes@.len()),
{
    bytes.len() / 3 <= (usize::MAX - 4) / 4
}

/// Bytes as a data URI of the media type that goes with the extension, or
/// `None` where they are too many to encode.
pub fn data_uri_of(extension: &str, bytes: &Vec<u8>) -> (uri: Option<String>)
    ensures
        match uri {
            Some(text) => encodable_len(bytes@.len()) && text@ == data_uri(extension@, bytes@),
            None => !encodable_len(bytes@.len()),
        },
{
    if !can_encode(bytes) {
        return None;
    }
    let encoded = encode_base64(bytes);
    let mut out: Vec<char> = Vec::new();
    push_str(&mut out, "data:");
    push_str(&mut out, mime_type_of(extension));
    push_str(&mut out, ";base64,");
    push_str(&mut out, encoded.as_str());
    assert(out@ =~= data_uri(extension@, bytes@));
    Some(string_of(&out))
}


fn push_resolved_source(out: &mut Vec<char>, file: &ResolvedFile)
    ensures
        final(out)@ == old(out)@ + resolved_source(*file),
{
    let inlined = match &file.contents {
        Some(bytes) => data_uri_of(file.extension.as_str(), bytes),
        None => None,
    };
    match inlined {
        Some(uri) => {
            push_str(out, uri.as_str());
        },
        None => {
            let uri = file_uri_of(file.path.as_str());
            push_str(out, uri.as_str());
        },
    }
}

/// Rewrites the image tags of an HTML fragment.
///
/// `files` holds one entry for each tag, in the order of `image_references`:
/// what was found for a relative source in the base directory, or `None`
/// where there is no base directory. An entry for a source that is not
/// relative is not read, and a tag without an entry counts as `None`.
///
/// The probe is asked once for each tag, and once more before the bytes of
/// a file are encoded. The only error is the cancellation error, and it
/// comes only when the probe has reported a request; a fragment without
/// image tags is returned without asking.
pub fn inline_or_fix_images_cancellable<F: Fn() -> bool>(
    html: &str,
    files: &Vec<Option<ResolvedFile>>,
    cancelled: &F,
) -> (r: Result<String, ExportError>)
    requires
        can_ask(cancelled),
    ensures
        match r {
            Ok(out) => {
                &&& out@ == rewritten(html@, files@)
                &&& image_sources(html@).len() > 0 ==> may_report(cancelled, false)
            },
            Err(e) => {
                &&& e == ExportError::CancellationRequested
                &&& image_sources(html@).len() > 0
                &&& may_report(cancelled, true)
            },
        },
        never_requested(cancelled) ==> r is Ok,
        always_requested(cancelled) && image_sources(html@).len() > 0 ==> r is Err,
{
    let t = chars_of(html);
    let mut out: Vec<char> = Vec::new();
    let mut i: usize = 0;
    let mut n: usize = 0;
    while i < t.len()
        invariant
            i <= t.len(),
            n <= i,
            t@ == html@,
            can_ask(cancelled),
            n > 0 ==> may_report(cancelled, false),
            image_sources(t@).len() == n + sources_from(t@, i as int).len(),
            out@ + rewritten_from(t@, i as int, files@, n as int) =~= rewritten(t@, files@),
        decreases t.len() - i,
    {
        match find_tag(&t, i) {
            Some(tag) => {
                match checkpoint(cancelled) {
                    Ok(_) => {},
                    Err(e) => {
                        return Err(e);
                    },
                }
                let ghost before = out@;
                let ghost entry = entry_for(files@, n as int);
                let src = slice_of(&t, tag.src_start, tag.src_end);
                let mut replaced = false;
                if n < files.len() {
                    if let Some(file) = &files[n] {
                        if source_kind_of(&src) == ImageSourceKind::RelativeResolvable {
                            if file.contents.is_some() {
                                match checkpoint(cancelled) {
                                    Ok(_) => {},
                                    Err(e) => {
                                        return Err(e);
                                    },
                                }
                            }
                            push_range(&mut out, &t, i, tag.src_start);
                            push_resolved_source(&mut out, file);
                            push_range(&mut out, &t, tag.src_end, tag.end);
                            replaced = true;
                        }
                    }
                }
                if !replaced {
                    push_range(&mut out, &t, i, tag.end);
                }
                assert(out@ =~= before + tag_html(
                    t@,
                    i as int,
                    tag.end as int,
                    tag.src_start as int,
                    tag.src_end as int,
                    entry,
                ));
                i = tag.end;
                n += 1;
            },
            None => {
                out.push(t[i]);
                i += 1;
            },
        }
    }
    assert(out@ =~= rewritten(t@, files@));
    Ok(string_of(&out))
}

/// A tag whose source is no relative path is written back as it stands,
/// whatever the entry for it holds.
pub proof fn law_only_relative_sources_change(
    t: Seq<char>,
    start: int,
    end: int,
    a: int,
    b: int,
    entry: Option<ResolvedFile>,
)
    requires
        source_kind(t.subrange(a, b)) != ImageSourceKind::RelativeResolvable,
    ensures
        tag_html(t, start, end, a, b, entry) == t.subrange(start, end),
{
}

/// A fragment from index `i` on in which no image has a relative source
/// comes back as it stands.
pub proof fn lemma_rewritten_unchanged(
    t: Seq<char>,
    i: int,
    files: Seq<Option<ResolvedFile>>,
    n: int,
)
    requires
        0 <= i <= t.len(),
        forall|k: int|
            0 <= k < sources_from(t, i).len() ==> source_kind(#[trigger] sources_from(t, i)[k])
                != ImageSourceKind::RelativeResolvable,
    ensures
        rewritten_from(t, i, files, n) == t.subrange(i, t.len() as int),
    decreases t.len() - i,
{
    if i >= t.len() {
        assert(t.subrange(i, t.len() as int) =~= Seq::<char>::empty());
    } else {
        lemma_tag_bounds(t, i);
        match tag_at(t, i) {
            Some((end, a, b)) => {
                let rest = sources_from(t, end);
                let all = sources_from(t, i);
                assert(all =~= seq![t.subrange(a, b)] + rest);
                assert(all[0] == t.subrange(a, b));
                assert forall|k: int| 0 <= k < rest.len() implies source_kind(
                    #[trigger] rest[k],
                ) != ImageSourceKind::RelativeResolvable by {
                    assert(rest[k] == all[k + 1]);
                }
                lemma_rewritten_unchanged(t, end, files, n + 1);
                assert(t.subrange(i, end) + t.subrange(end, t.len() as int) =~= t.subrange(
                    i,
                    t.len() as int,
                ));
            },
            None => {
                lemma_rewritten_unchanged(t, i + 1, files, n);
                assert(seq![t[i]] + t.subrange(i + 1, t.len() as int) =~= t.subrange(
                    i,
                    t.len() as int,
                ));
            },
        }
    }
}

/// A fragment whose images all are data URIs, or remote or absolute
/// addresses, is returned as it stands, whatever the entries hold.
pub proof fn law_sources_in_place_are_kept(t: Seq<char>, files: Seq<Option<ResolvedFile>>)
    requires
        forall|k: int|
            0 <= k < image_sources(t).len() ==> source_kind(#[trigger] image_sources(t)[k])
                != ImageSourceKind::RelativeResolvable,
    ensures
        rewritten(t, files) == t,
{
    assert forall|k: int| 0 <= k < sources_from(t, 0).len() implies source_kind(
        #[trigger] sources_from(t, 0)[k],
    ) != ImageSourceKind::RelativeResolvable by {
        assert(image_sources(t)[k] == sources_from(t, 0)[k]);
    }
    lemma_rewritten_unchanged(t, 0, files, 0);
    assert(t.subrange(0, t.len() as int) =~= t);
}

} // verus!
