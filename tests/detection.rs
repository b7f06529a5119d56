use std::io::{Cursor, Write};

use textractor::detection::ContentType;
use zip::write::SimpleFileOptions;
use zip::ZipWriter;

fn stored_zip(entries: &[(&str, &str)]) -> Vec<u8> {
    let mut writer = ZipWriter::new(Cursor::new(Vec::new()));
    let options = SimpleFileOptions::default().compression_method(zip::CompressionMethod::Stored);
    for (name, content) in entries {
        writer.start_file(*name, options).unwrap();
        writer.write_all(content.as_bytes()).unwrap();
    }
    writer.finish().unwrap().into_inner()
}

#[test]
fn empty_input_is_unknown() {
    assert_eq!(ContentType::detect(&[]), ContentType::Unknown);
}

#[test]
fn pdf_header_is_pdf() {
    let data = b"%PDF-1.4\n%\xe2\xe3\xcf\xd3\n1 0 obj\n<<>>\nendobj\n";
    assert_eq!(ContentType::detect(data), ContentType::Pdf);
}

#[test]
fn unsigned_bytes_are_plain_text() {
    assert_eq!(ContentType::detect(b"hello world"), ContentType::Txt);
    assert_eq!(ContentType::detect("plain \u{e9}t\u{e9}".as_bytes()), ContentType::Txt);
}

#[test]
fn recognised_but_unlisted_signature_is_unknown() {
    let png = [0x89u8, b'P', b'N', b'G', 0x0D, 0x0A, 0x1A, 0x0A, 0, 0, 0, 0x0D];
    assert_eq!(ContentType::detect(&png), ContentType::Unknown);
}

#[test]
fn markup_and_scripts_are_plain_text() {
    assert_eq!(ContentType::detect(b"<html> <body>hi</body></html>"), ContentType::Txt);
    assert_eq!(ContentType::detect(b"<?xml version=\"1.0\"?><a/>"), ContentType::Txt);
    assert_eq!(ContentType::detect(b"#!/bin/sh\necho hi\n"), ContentType::Txt);
}

#[test]
fn plain_zip_is_unknown() {
    let data = stored_zip(&[("notes/readme.txt", "hello")]);
    assert_eq!(ContentType::detect(&data), ContentType::Unknown);
}

#[test]
fn presentation_package_is_detected() {
    let data = stored_zip(&[("ppt/slides/slide1.xml", "<a:p xmlns:a=\"urn:a\"/>")]);
    assert_eq!(ContentType::detect(&data), ContentType::PowerPointPresentation);
}

#[test]
fn word_package_is_detected() {
    let data = stored_zip(&[("word/document.xml", "<w:document xmlns:w=\"urn:w\"/>")]);
    assert_eq!(ContentType::detect(&data), ContentType::WordDocument);
}

#[test]
fn mime_table_maps_each_family() {
    assert_eq!(ContentType::from_mime("application/pdf"), ContentType::Pdf);
    assert_eq!(ContentType::from_mime("application/msword"), ContentType::MsWord);
    assert_eq!(
        ContentType::from_mime("application/vnd.openxmlformats-officedocument.wordprocessingml.document"),
        ContentType::WordDocument
    );
    assert_eq!(
        ContentType::from_mime("application/vnd.ms-word.template.macroEnabled.12"),
        ContentType::WordTemplateMacroEnabled
    );
    assert_eq!(
        ContentType::from_mime("application/vnd.openxmlformats-officedocument.spreadsheetml.sheet"),
        ContentType::ExcelSheet
    );
    assert_eq!(
        ContentType::from_mime("application/vnd.ms-excel.sheet.binary.macroEnabled.12"),
        ContentType::ExcelBinarySheet
    );
    assert_eq!(ContentType::from_mime("application/vnd.ms-powerpoint"), ContentType::MsPowerPoint);
    assert_eq!(
        ContentType::from_mime("application/vnd.openxmlformats-officedocument.presentationml.slideshow"),
        ContentType::PowerPointSlideshow
    );
    assert_eq!(
        ContentType::from_mime("application/vnd.ms-powerpoint.slideshow.macroEnabled.12"),
        ContentType::PowerPointSlideshowMacroEnabled
    );
    assert_eq!(ContentType::from_mime("text/plain"), ContentType::Txt);
    assert_eq!(ContentType::from_mime("application/epub+zip"), ContentType::Epub);
    assert_eq!(ContentType::from_mime("application/x-mobipocket-ebook"), ContentType::Mobi);
}

#[test]
fn unlisted_mime_is_unknown() {
    assert_eq!(ContentType::from_mime("application/zip"), ContentType::Unknown);
    assert_eq!(ContentType::from_mime(""), ContentType::Unknown);
    assert_eq!(ContentType::from_mime("application/pdf "), ContentType::Unknown);
}

#[test]
fn lone_zip_signature_is_unknown() {
    assert_eq!(ContentType::detect(b"PK\x03\x04"), ContentType::Unknown);
    let empty_archive = stored_zip(&[]);
    assert_eq!(ContentType::detect(&empty_archive), ContentType::Unknown);
}

#[test]
fn text_with_an_ebook_marker_is_plain_text() {
    let mut data = vec![b'a'; 60];
    data.extend_from_slice(b"BOOKMOBI and more words");
    assert_eq!(ContentType::detect(&data), ContentType::Txt);
}
