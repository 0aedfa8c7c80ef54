use std::io::{Cursor, Write};

use stump_core::checksum::{digest, sample_size};
use stump_core::error::ProcessFileError;
use stump_core::media_file::{
    get_content_type_from_mime, get_page, guess_content_type, guess_mime, process, LibraryOptions,
    MediaSource,
};

fn build_zip(entries: &[(&str, &[u8])]) -> Vec<u8> {
    let mut writer = zip::ZipWriter::new(Cursor::new(Vec::new()));
    let options = zip::write::SimpleFileOptions::default()
        .compression_method(zip::CompressionMethod::Stored);
    for (name, data) in entries {
        writer.start_file(*name, options).expect("start_file");
        writer.write_all(data).expect("write entry");
    }
    writer.finish().expect("finish").into_inner()
}

fn source_for(path: &str, content: Vec<u8>) -> MediaSource {
    MediaSource {
        path: path.to_string(),
        file_size: content.len() as u64,
        content,
    }
}

#[test]
fn ten_entry_archive_with_metadata() {
    let comic_info = "<ComicInfo><Series>Test Series</Series><Number>7</Number></ComicInfo>";
    let mut entries: Vec<(String, Vec<u8>)> = Vec::new();
    for i in 1..=10u32 {
        entries.push((format!("{:03}.jpg", i), vec![i as u8; 64]));
    }
    entries.push(("ComicInfo.xml".to_string(), comic_info.as_bytes().to_vec()));
    let borrowed: Vec<(&str, &[u8])> = entries
        .iter()
        .map(|(n, d)| (n.as_str(), d.as_slice()))
        .collect();
    let data = build_zip(&borrowed);
    let source = source_for("library/comic.cbz", data.clone());

    let processed = process(&source, &LibraryOptions::default()).expect("process should succeed");
    assert_eq!(processed.pages, 10);
    let metadata = processed.metadata.expect("metadata should parse");
    assert_eq!(metadata.series.as_deref(), Some("Test Series"));
    assert_eq!(metadata.number, Some(7));

    let sample = sample_size(data.len() as u64);
    let expected = digest(&data, sample as usize);
    assert_eq!(processed.checksum, Some(expected));
}

#[test]
fn processing_is_deterministic() {
    let data = build_zip(&[("001.jpg", b"one"), ("002.jpg", b"two")]);
    let source = source_for("a.cbz", data);
    let first = process(&source, &LibraryOptions::default()).expect("first");
    let second = process(&source, &LibraryOptions::default()).expect("second");
    assert_eq!(first.checksum, second.checksum);
    assert_eq!(first.pages, second.pages);
}

#[test]
fn pages_are_served_in_lexicographic_order() {
    let data = build_zip(&[
        ("b.jpg", b"bravo".as_slice()),
        ("a.jpg", b"alpha".as_slice()),
        ("notes.txt", b"not a page".as_slice()),
    ]);
    let source = source_for("shelf/pages.cbz", data);
    let (mime1, bytes1) = get_page(&source, 1).expect("page 1");
    assert_eq!(mime1, "image/jpeg");
    assert_eq!(bytes1, b"alpha");
    let (_, bytes2) = get_page(&source, 2).expect("page 2");
    assert_eq!(bytes2, b"bravo");
    assert!(matches!(
        get_page(&source, 3),
        Err(ProcessFileError::ArchiveReadError)
    ));
    assert!(matches!(
        get_page(&source, 0),
        Err(ProcessFileError::ArchiveReadError)
    ));
}

#[test]
fn epub_serves_only_the_cover() {
    let data = build_zip(&[
        ("mimetype", b"application/epub+zip".as_slice()),
        ("OEBPS/cover.jpg", b"cover-bytes".as_slice()),
        ("OEBPS/art/0001.jpg", b"interior".as_slice()),
    ]);
    let source = source_for("books/novel.epub", data);

    let (mime, bytes) = get_page(&source, 1).expect("cover should be served");
    assert_eq!(mime, "image/jpeg");
    assert_eq!(bytes, b"cover-bytes");

    match get_page(&source, 2) {
        Err(ProcessFileError::UnsupportedFileType(msg)) => {
            assert_eq!(
                msg,
                "You may only request the cover page (first page) for epub files on this endpoint"
            );
        }
        other => panic!("expected an unsupported-type error, got {:?}", other),
    }
}

#[test]
fn epub_cover_prefers_cover_named_entry() {
    let data = build_zip(&[
        ("mimetype", b"application/epub+zip".as_slice()),
        ("images/0001.jpg", b"first-image".as_slice()),
        ("images/Cover.jpg", b"the-cover".as_slice()),
    ]);
    let source = source_for("books/other.epub", data);
    let (_, bytes) = get_page(&source, 1).expect("cover");
    assert_eq!(bytes, b"the-cover");
}

#[test]
fn get_page_sniffs_content_when_extension_is_missing() {
    let data = build_zip(&[("001.jpg", b"first".as_slice())]);
    let source = source_for("pages-without-extension", data);
    let (mime, bytes) = get_page(&source, 1).expect("sniffed zip should serve pages");
    assert_eq!(mime, "image/jpeg");
    assert_eq!(bytes, b"first");
}

#[test]
fn unknown_extension_fails_with_unknown() {
    let source = source_for("mystery.xyz", Vec::new());
    match get_page(&source, 1) {
        Err(ProcessFileError::Unknown(msg)) => {
            assert_eq!(msg, "Unable to determine mime type for file: mystery.xyz");
        }
        other => panic!("expected an unknown error, got {:?}", other),
    }
}

#[test]
fn text_file_is_unsupported() {
    let source = source_for("readme.txt", b"hello".to_vec());
    match get_page(&source, 1) {
        Err(ProcessFileError::UnsupportedFileType(path)) => {
            assert_eq!(path, "readme.txt");
        }
        other => panic!("expected an unsupported-type error, got {:?}", other),
    }
}

#[test]
fn non_text_metadata_fails_utf8_conversion() {
    let data = build_zip(&[
        ("001.jpg", b"page".as_slice()),
        ("ComicInfo.xml", &[0xff, 0xfe, 0x00, 0x80]),
    ]);
    let source = source_for("bad-meta.cbz", data);
    assert!(matches!(
        process(&source, &LibraryOptions::default()),
        Err(ProcessFileError::Utf8ConversionError)
    ));
}

#[test]
fn unparseable_metadata_is_absent_not_an_error() {
    let data = build_zip(&[
        ("001.jpg", b"page".as_slice()),
        ("ComicInfo.xml", b"just some text".as_slice()),
    ]);
    let source = source_for("odd-meta.cbz", data);
    let processed = process(&source, &LibraryOptions::default()).expect("should succeed");
    assert_eq!(processed.metadata, None);
    assert_eq!(processed.pages, 1);
}

#[test]
fn mime_guessing_and_content_types() {
    assert_eq!(guess_mime("a/b/comic.cbz").as_deref(), Some("application/vnd.comicbook+zip"));
    assert_eq!(guess_mime("comic.CBR").as_deref(), Some("application/vnd.comicbook-rar"));
    assert_eq!(guess_mime("book.epub").as_deref(), Some("application/epub+zip"));
    assert_eq!(guess_mime("noext"), None);
    assert_eq!(guess_mime("dir.d/noext"), None);
    assert_eq!(guess_content_type("x.opf"), "application/xml");
    assert_eq!(guess_content_type("x.weird"), "*/*");
    assert_eq!(get_content_type_from_mime("image/png"), "image/png");
    assert_eq!(get_content_type_from_mime("application/strange"), "*/*");
}

#[test]
fn nul_in_a_rar_path_is_an_unopenable_archive() {
    let source = source_for("bad\u{0}archive.cbr", Vec::new());
    assert!(matches!(
        process(&source, &LibraryOptions::default()),
        Err(ProcessFileError::ArchiveOpenError)
    ));
    assert!(matches!(
        get_page(&source, 1),
        Err(ProcessFileError::ArchiveOpenError)
    ));
}

#[test]
fn corrupt_archive_fails_to_open() {
    let mut data = b"PK\x03\x04".to_vec();
    data.extend_from_slice(&[0u8; 32]);
    let source = source_for("broken.cbz", data);
    assert!(matches!(
        process(&source, &LibraryOptions::default()),
        Err(ProcessFileError::ArchiveOpenError)
    ));
}
