use base64::Engine;
use pignote::error::ExportError;
use pignote::images::{
    classify_source, data_uri_of, file_uri_of, image_references, inline_or_fix_images_cancellable,
    mime_type_of, ImageSourceKind, ResolvedFile,
};

fn loaded(path: &str, extension: &str, bytes: &[u8]) -> Option<ResolvedFile> {
    Some(ResolvedFile { path: path.to_string(), extension: extension.to_string(), contents: Some(bytes.to_vec()) })
}

fn missing(path: &str, extension: &str) -> Option<ResolvedFile> {
    Some(ResolvedFile { path: path.to_string(), extension: extension.to_string(), contents: None })
}

fn rewrite(html: &str, files: Vec<Option<ResolvedFile>>) -> String {
    inline_or_fix_images_cancellable(html, &files, &|| false).unwrap()
}

#[test]
fn data_uri_is_returned_unchanged() {
    let html = "<p><img src=\"data:image/png;base64,AAAA\" alt='x'></p>";
    assert_eq!(rewrite(html, vec![loaded("/b/x.png", "png", b"zz")]), html);
    assert_eq!(rewrite(html, vec![]), html);
}

#[test]
fn remote_and_absolute_sources_are_returned_unchanged() {
    let html = "<img src=\"http://a/b.png\"><img src='https://a/b.png'><img src=\"file:///c/d.png\">";
    assert_eq!(rewrite(html, vec![loaded("x", "png", b"1"), missing("y", "png"), loaded("z", "png", b"2")]), html);
}

#[test]
fn local_image_is_inlined() {
    let bytes: Vec<u8> = vec![0x89, b'P', b'N', b'G', 0x0d, 0x0a, 0x1a, 0x0a, 0, 1, 2, 3, 254, 255];
    let expected = format!(
        "<img src=\"data:image/png;base64,{}\">",
        base64::engine::general_purpose::STANDARD.encode(&bytes)
    );
    assert_eq!(rewrite("<img src=\"pic.png\">", vec![loaded("/base/pic.png", "png", &bytes)]), expected);
}

#[test]
fn inlined_bytes_are_encoded_exactly() {
    assert_eq!(
        rewrite("a<img src=\"pic.png\" alt=\"p\">b", vec![loaded("/base/pic.png", "png", b"hello")]),
        "a<img src=\"data:image/png;base64,aGVsbG8=\" alt=\"p\">b"
    );
    assert_eq!(data_uri_of("gif", &b"hi".to_vec()), Some("data:image/gif;base64,aGk=".to_string()));
    assert_eq!(data_uri_of("", &Vec::new()), Some("data:application/octet-stream;base64,".to_string()));
}

#[test]
fn unreadable_image_gets_a_file_address() {
    assert_eq!(
        rewrite("<img src='img\\pic.png'>", vec![missing("C:\\notes\\img\\pic.png", "png")]),
        "<img src='file:///C:/notes/img/pic.png'>"
    );
}

#[test]
fn relative_source_without_base_directory_is_left() {
    let html = "<img src=\"pic.png\"> and <img src=\"other.jpg\">";
    assert_eq!(rewrite(html, vec![None, None]), html);
    assert_eq!(rewrite(html, vec![]), html);
    assert_eq!(rewrite(html, vec![None, missing("/b/other.jpg", "jpg")]), "<img src=\"pic.png\"> and <img src=\"file:////b/other.jpg\">");
}

#[test]
fn media_types_follow_the_lowercased_extension() {
    assert_eq!(mime_type_of("png"), "image/png");
    assert_eq!(mime_type_of("PNG"), "image/png");
    assert_eq!(mime_type_of("jpg"), "image/jpeg");
    assert_eq!(mime_type_of("JpEg"), "image/jpeg");
    assert_eq!(mime_type_of("gif"), "image/gif");
    assert_eq!(mime_type_of("svg"), "image/svg+xml");
    assert_eq!(mime_type_of("webp"), "image/webp");
    assert_eq!(mime_type_of("bmp"), "application/octet-stream");
    assert_eq!(mime_type_of(""), "application/octet-stream");
    assert_eq!(mime_type_of("pngx"), "application/octet-stream");
}

#[test]
fn sources_are_classified_by_their_beginning() {
    assert_eq!(classify_source("data:image/png;base64,AA"), ImageSourceKind::DataUri);
    assert_eq!(classify_source("http://x"), ImageSourceKind::RemoteOrAbsolute);
    assert_eq!(classify_source("https://x"), ImageSourceKind::RemoteOrAbsolute);
    assert_eq!(classify_source("file:///x"), ImageSourceKind::RemoteOrAbsolute);
    assert_eq!(classify_source("file://x"), ImageSourceKind::RelativeResolvable);
    assert_eq!(classify_source("Data:x"), ImageSourceKind::RelativeResolvable);
    assert_eq!(classify_source("img/a.png"), ImageSourceKind::RelativeResolvable);
}

#[test]
fn references_are_listed_in_order() {
    let refs = image_references("<img src=\"a.png\"><p><img  class='c' src='data:x'></p><img alt=\"no source\"><img src=\"\"><img\tsrc=\"https://h/i\">");
    let listed: Vec<(&str, ImageSourceKind)> = refs.iter().map(|r| (r.src.as_str(), r.kind)).collect();
    assert_eq!(
        listed,
        vec![
            ("a.png", ImageSourceKind::RelativeResolvable),
            ("data:x", ImageSourceKind::DataUri),
            ("https://h/i", ImageSourceKind::RemoteOrAbsolute),
        ]
    );
}

#[test]
fn the_last_source_of_a_tag_counts() {
    let html = "<img src=\"a.png\" data-src=\"b.png\">";
    let refs = image_references(html);
    assert_eq!(refs.len(), 1);
    assert_eq!(refs[0].src, "b.png");
    assert_eq!(rewrite(html, vec![missing("/d/b.png", "png")]), "<img src=\"a.png\" data-src=\"file:////d/b.png\">");
}

#[test]
fn the_value_of_the_source_is_replaced_where_it_stands() {
    assert_eq!(
        rewrite("<img alt=\"pic.png\" src=\"pic.png\">", vec![loaded("/b/pic.png", "png", b"hello")]),
        "<img alt=\"pic.png\" src=\"data:image/png;base64,aGVsbG8=\">"
    );
}

#[test]
fn file_address_turns_backslashes() {
    assert_eq!(file_uri_of("C:\\a\\b c.html"), "file:///C:/a/b c.html");
    assert_eq!(file_uri_of("/tmp/x"), "file:////tmp/x");
}

#[test]
fn a_set_flag_cancels_the_first_image() {
    assert_eq!(
        inline_or_fix_images_cancellable("<img src=\"a.png\">", &vec![None], &|| true),
        Err(ExportError::CancellationRequested)
    );
}

#[test]
fn a_fragment_without_images_is_returned_without_asking() {
    assert_eq!(inline_or_fix_images_cancellable("<p>no image</p>", &vec![], &|| true), Ok("<p>no image</p>".to_string()));
}

#[test]
fn the_probe_is_asked_again_before_encoding() {
    let asked = std::cell::Cell::new(0u32);
    let probe = || {
        asked.set(asked.get() + 1);
        asked.get() > 1
    };
    assert_eq!(
        inline_or_fix_images_cancellable("<img src=\"a.png\">", &vec![loaded("/b/a.png", "png", b"1")], &probe),
        Err(ExportError::CancellationRequested)
    );
    assert_eq!(asked.get(), 2);
}

#[test]
fn tags_agree_with_the_pattern() {
    let pattern = regex::Regex::new(r#"<img\s+[^>]*src=[\"']([^\"'>]+)[\"'][^>]*>"#).unwrap();
    let samples = [
        "",
        "<img src=\"a\">",
        "<img src=a>",
        "<imgsrc=\"a\">",
        "<img\n\t src='a' >x<img src=\"b\"/>",
        "<img src=\"a\" src='b' src=\"\" src=\"c>",
        "<img alt=\"src='x'\" src=\"y\">",
        "<img src=\"a' b=\"c\">",
        "<img <img src=\"a\"> src=\"b\">",
        "<IMG src=\"a\"><img SRC=\"b\"><img src=\"c",
        "<img\u{a0}src=\"ü.png\"><img\u{3000}data-src='\u{1F600}'>",
        "<img  src=\"a\"><img src = \"b\"><img xsrc=\"c\">",
    ];
    for sample in samples {
        let expected: Vec<String> = pattern.captures_iter(sample).map(|c| c.get(1).unwrap().as_str().to_string()).collect();
        let found: Vec<String> = image_references(sample).into_iter().map(|r| r.src).collect();
        assert_eq!(found, expected, "{}", sample);
    }
}

#[test]
fn extensions_are_lowercased_as_the_standard_library_does() {
    fn reference(extension: &str) -> &'static str {
        match extension.to_lowercase().as_str() {
            "png" => "image/png",
            "jpg" | "jpeg" => "image/jpeg",
            "gif" => "image/gif",
            "svg" => "image/svg+xml",
            "webp" => "image/webp",
            _ => "application/octet-stream",
        }
    }
    let names = ["png", "jpg", "jpeg", "gif", "svg", "webp"];
    let mut c = '\0';
    loop {
        if c.to_lowercase().to_string() != c.to_string() || c.is_ascii() {
            for name in names {
                for (at, _) in name.char_indices() {
                    let mut extension = String::new();
                    extension.push_str(&name[..at]);
                    extension.push(c);
                    extension.push_str(&name[at + 1..]);
                    assert_eq!(mime_type_of(&extension), reference(&extension), "{:?}", extension);
                }
            }
        }
        if c == char::MAX {
            break;
        }
        c = char::from_u32(c as u32 + 1).unwrap_or('\u{e000}');
    }
}
