use std::io::{Cursor, Write};

use textractor::detection::ContentType;
use textractor::extraction::{extract, ErrorKind, Extract, PptxExtractor};
use textractor::markup::XmlItem;
use textractor::presentation::{advance, slide_text_of, TextState};
use zip::write::SimpleFileOptions;
use zip::ZipWriter;

fn slide(text: &str) -> String {
    format!(
        "<?xml version=\"1.0\"?><p:sld xmlns:a=\"urn:a\" xmlns:p=\"urn:p\"><p:cSld><p:spTree><p:sp><p:txBody><a:p><a:r><a:t>{}</a:t></a:r></a:p></p:txBody></p:sp></p:spTree></p:cSld></p:sld>",
        text
    )
}

fn stored_zip(entries: &[(&str, &[u8])]) -> Vec<u8> {
    let mut writer = ZipWriter::new(Cursor::new(Vec::new()));
    let options = SimpleFileOptions::default().compression_method(zip::CompressionMethod::Stored);
    for (name, content) in entries {
        writer.start_file(*name, options).unwrap();
        writer.write_all(content).unwrap();
    }
    writer.finish().unwrap().into_inner()
}

fn item_start(n: &str) -> XmlItem {
    XmlItem::Start(n.to_string())
}

fn item_end(n: &str) -> XmlItem {
    XmlItem::End(n.to_string())
}

fn item_chars(s: &str) -> XmlItem {
    XmlItem::Characters(s.to_string())
}

#[test]
fn two_slides_in_archive_order() {
    let one = slide("A");
    let two = slide("B");
    let data = stored_zip(&[
        ("ppt/slides/slide1.xml", one.as_bytes()),
        ("ppt/slides/slide2.xml", two.as_bytes()),
    ]);
    assert_eq!(PptxExtractor::extract(&data).unwrap(), "A \nB \n");
    assert_eq!(extract(&data, &None).unwrap(), Some("A \nB \n".to_string()));
}

#[test]
fn archive_order_wins_over_slide_numbers() {
    let one = slide("first");
    let two = slide("second");
    let data = stored_zip(&[
        ("ppt/slides/slide2.xml", two.as_bytes()),
        ("ppt/slides/slide1.xml", one.as_bytes()),
    ]);
    assert_eq!(PptxExtractor::extract(&data).unwrap(), "second \nfirst \n");
}

#[test]
fn non_slide_entries_are_ignored() {
    let one = slide("A");
    let data = stored_zip(&[
        ("ppt/presentation.xml", slide("ignored").as_bytes()),
        ("ppt/slides/_rels/slide1.xml.rels", b"not xml at all <"),
        ("ppt/media/image1.png", &[0x89, 0x50, 0xff, 0xfe]),
        ("ppt/slides/slide1.xml", one.as_bytes()),
    ]);
    assert_eq!(PptxExtractor::extract(&data).unwrap(), "A \n");
}

#[test]
fn corrupt_slide_entry_is_malformed() {
    let one = slide("Alpha");
    let mut data = stored_zip(&[("ppt/slides/slide1.xml", one.as_bytes())]);
    let at = data.windows(5).position(|w| w == b"Alpha").unwrap();
    data[at] = b'X';
    let err = PptxExtractor::extract(&data).unwrap_err();
    assert_eq!(err.kind, ErrorKind::MalformedContainer);
    let failure = extract(&data, &None).unwrap_err();
    assert_eq!(failure.format, ContentType::PowerPointPresentation);
    assert_eq!(failure.error.kind, ErrorKind::MalformedContainer);
}

#[test]
fn truncated_archive_is_malformed() {
    let one = slide("A");
    let data = stored_zip(&[("ppt/slides/slide1.xml", one.as_bytes())]);
    let cut = &data[..data.len() / 2];
    let err = PptxExtractor::extract(cut).unwrap_err();
    assert_eq!(err.kind, ErrorKind::MalformedContainer);
}

#[test]
fn ill_formed_slide_xml_fails_whole_call() {
    let one = slide("A");
    let data = stored_zip(&[
        ("ppt/slides/slide1.xml", one.as_bytes()),
        ("ppt/slides/slide2.xml", b"<a:p xmlns:a=\"urn:a\"><a:t>B</a:p>"),
    ]);
    let err = PptxExtractor::extract(&data).unwrap_err();
    assert_eq!(err.kind, ErrorKind::MalformedContainer);
}

#[test]
fn slide_that_is_not_utf8_is_malformed() {
    let data = stored_zip(&[("ppt/slides/slide1.xml", &[b'<', b'a', 0xff, b'>'])]);
    let err = PptxExtractor::extract(&data).unwrap_err();
    assert_eq!(err.kind, ErrorKind::MalformedContainer);
}

#[test]
fn slide_reader_takes_text_after_t_only() {
    let items = vec![
        item_start("p"),
        item_chars("outside"),
        item_start("t"),
        item_chars("Hello"),
        item_chars("again"),
        item_end("t"),
        item_end("p"),
        XmlItem::Other,
    ];
    assert_eq!(slide_text_of(&items), "Hello \n");
}

#[test]
fn slide_reader_keeps_waiting_after_empty_text_element() {
    let items = vec![item_start("t"), item_end("t"), item_start("x"), item_chars("late"), item_end("p")];
    assert_eq!(slide_text_of(&items), "late \n");
}

#[test]
fn slide_reader_state_machine_steps() {
    let mut out = String::new();
    let s = advance(TextState::Outside, &item_start("t"), &mut out);
    assert_eq!(s, TextState::Inside);
    let s = advance(s, &item_chars("x"), &mut out);
    assert_eq!(s, TextState::Outside);
    assert_eq!(out, "x ");
    let s = advance(s, &item_end("p"), &mut out);
    assert_eq!(s, TextState::Outside);
    assert_eq!(out, "x \n");
    let s = advance(s, &item_chars("y"), &mut out);
    assert_eq!(s, TextState::Outside);
    assert_eq!(out, "x \n");
}

#[test]
fn empty_event_list_gives_empty_text() {
    assert_eq!(slide_text_of(&Vec::new()), "");
}
