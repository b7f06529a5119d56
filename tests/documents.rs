use std::io::Cursor;

use docx_rs::{
    BreakType, Delete, Docx, Document, DocumentChild, FromXML, Insert, InsertChild, Paragraph, ParagraphChild,
    Run, RunChild, Table, TableCell, TableRow,
};
use textractor::detection::ContentType;
use textractor::document::{document_text, BodyPart, InsertPart, ParagraphPart, RunPart};
use textractor::extraction::{extract, outside_work, Decoded, DocxExtractor, ErrorKind, ExtractError, OutsideWork};

fn run_parts(run: &Run) -> Vec<RunPart> {
    run.children
        .iter()
        .map(|c| match c {
            RunChild::Text(t) => RunPart::Text(t.text.clone()),
            RunChild::DeleteText(_) => RunPart::DeletedText,
            RunChild::Tab(_) => RunPart::Tab,
            RunChild::Break(_) => RunPart::Break,
            _ => RunPart::Field,
        })
        .collect()
}

fn tree(xml: &[u8]) -> Result<Vec<BodyPart>, String> {
    let document = Document::from_xml(xml).map_err(|e| e.to_string())?;
    Ok(document
        .children
        .iter()
        .map(|c| match c {
            DocumentChild::Paragraph(p) => BodyPart::Paragraph(
                p.children
                    .iter()
                    .map(|c| match c {
                        ParagraphChild::Run(run) => ParagraphPart::Run(run_parts(run)),
                        ParagraphChild::Insert(ins) => ParagraphPart::Insert(
                            ins.children
                                .iter()
                                .map(|c| match c {
                                    InsertChild::Run(run) => InsertPart::Run(run_parts(run)),
                                    _ => InsertPart::Comment,
                                })
                                .collect(),
                        ),
                        ParagraphChild::Delete(_) => ParagraphPart::Delete,
                        _ => ParagraphPart::Bookmark,
                    })
                    .collect(),
            ),
            _ => BodyPart::Table,
        })
        .collect())
}

/// Runs the word-processing path as a caller does: the main part from the
/// library, the parse here, the text from the library.
fn docx_text(data: &[u8]) -> Result<String, ExtractError> {
    let xml = DocxExtractor::main_part(data)?;
    DocxExtractor::extract(&tree(&xml))
}

fn decoded(data: &[u8]) -> Option<Decoded> {
    match outside_work(data) {
        Some(OutsideWork::ParseDocument(xml)) => Some(Decoded::Document(tree(&xml))),
        _ => None,
    }
}

fn pack(doc: Docx) -> Vec<u8> {
    let mut buf = Cursor::new(Vec::new());
    doc.build().pack(&mut buf).unwrap();
    buf.into_inner()
}

fn text(s: &str) -> RunPart {
    RunPart::Text(s.to_string())
}

#[test]
fn deletion_excluded_insertion_included() {
    let paragraph = Paragraph::new()
        .add_run(Run::new().add_text("Hello"))
        .add_run(Run::new().add_text(" "))
        .add_delete(Delete::new().add_run(Run::new().add_delete_text("XXX")))
        .add_insert(Insert::new(Run::new().add_text("World")));
    let data = pack(Docx::new().add_paragraph(paragraph));
    assert_eq!(docx_text(&data).unwrap(), "Hello World");
    assert_eq!(extract(&data, &decoded(&data)).unwrap(), Some("Hello World".to_string()));
}

#[test]
fn paragraphs_join_without_separator() {
    let doc = Docx::new()
        .add_paragraph(Paragraph::new().add_run(Run::new().add_text("one")))
        .add_paragraph(Paragraph::new().add_run(Run::new().add_text("two")));
    assert_eq!(docx_text(&pack(doc)).unwrap(), "onetwo");
}

#[test]
fn tables_are_skipped() {
    let cell = TableCell::new().add_paragraph(Paragraph::new().add_run(Run::new().add_text("cell")));
    let doc = Docx::new()
        .add_paragraph(Paragraph::new().add_run(Run::new().add_text("before")))
        .add_table(Table::new(vec![TableRow::new(vec![cell])]))
        .add_paragraph(Paragraph::new().add_run(Run::new().add_text("after")));
    assert_eq!(docx_text(&pack(doc)).unwrap(), "beforeafter");
}

#[test]
fn tab_and_break_markers_are_skipped() {
    let run = Run::new().add_text("a").add_tab().add_break(BreakType::TextWrapping).add_text("b");
    let doc = Docx::new().add_paragraph(Paragraph::new().add_run(run));
    assert_eq!(docx_text(&pack(doc)).unwrap(), "ab");
}

#[test]
fn bookmarks_are_skipped() {
    let paragraph = Paragraph::new()
        .add_bookmark_start(1, "mark")
        .add_run(Run::new().add_text("kept"))
        .add_bookmark_end(1);
    let doc = Docx::new().add_paragraph(paragraph);
    assert_eq!(docx_text(&pack(doc)).unwrap(), "kept");
}

#[test]
fn not_a_package_is_malformed() {
    let err = docx_text(b"this is not a zip archive").unwrap_err();
    assert_eq!(err.kind, ErrorKind::MalformedContainer);
}

#[test]
fn damaged_entry_is_malformed_not_a_panic() {
    let doc = Docx::new().add_paragraph(Paragraph::new().add_run(Run::new().add_text("Sentinel")));
    let mut data = pack(doc);
    let at = data.windows(8).position(|w| w == b"Sentinel").unwrap();
    data[at] = b'Z';
    let err = docx_text(&data).unwrap_err();
    assert_eq!(err.kind, ErrorKind::MalformedContainer);
    let failure = extract(&data, &decoded(&data)).unwrap_err();
    assert_eq!(failure.format, ContentType::WordDocument);
    assert_eq!(failure.error.kind, ErrorKind::MalformedContainer);
}

#[test]
fn walk_keeps_run_and_inserted_text_in_order() {
    let parts = vec![
        BodyPart::Paragraph(vec![
            ParagraphPart::Run(vec![text("Hello")]),
            ParagraphPart::Run(vec![text(" ")]),
            ParagraphPart::Delete,
            ParagraphPart::Insert(vec![InsertPart::Run(vec![text("World")]), InsertPart::Delete]),
        ]),
    ];
    assert_eq!(document_text(&parts), "Hello World");
}

#[test]
fn walk_skips_each_excluded_run_child() {
    let run = vec![
        text("a"),
        RunPart::DeletedText,
        RunPart::Symbol,
        RunPart::Tab,
        RunPart::Break,
        RunPart::Drawing,
        RunPart::Comment,
        RunPart::Field,
        RunPart::Reference,
        RunPart::Shading,
        text("b"),
    ];
    let parts = vec![BodyPart::Paragraph(vec![ParagraphPart::Run(run)])];
    assert_eq!(document_text(&parts), "ab");
}

#[test]
fn walk_skips_each_excluded_paragraph_child() {
    let parts = vec![BodyPart::Paragraph(vec![
        ParagraphPart::Delete,
        ParagraphPart::Move,
        ParagraphPart::Bookmark,
        ParagraphPart::Hyperlink,
        ParagraphPart::Comment,
        ParagraphPart::StructuredDataTag,
        ParagraphPart::PageField,
        ParagraphPart::Run(vec![text("only")]),
    ])];
    assert_eq!(document_text(&parts), "only");
}

#[test]
fn walk_skips_each_excluded_body_child() {
    let parts = vec![
        BodyPart::Table,
        BodyPart::Bookmark,
        BodyPart::Comment,
        BodyPart::StructuredDataTag,
        BodyPart::TableOfContents,
        BodyPart::Section,
        BodyPart::Paragraph(vec![ParagraphPart::Run(vec![text("x")])]),
        BodyPart::Paragraph(vec![]),
    ];
    assert_eq!(document_text(&parts), "x");
}

#[test]
fn empty_body_gives_empty_text() {
    assert_eq!(document_text(&Vec::new()), "");
}

#[test]
fn package_without_relationships_is_malformed() {
    let mut writer = zip::ZipWriter::new(Cursor::new(Vec::new()));
    let options = zip::write::SimpleFileOptions::default().compression_method(zip::CompressionMethod::Stored);
    writer.start_file("word/document.xml", options).unwrap();
    std::io::Write::write_all(&mut writer, b"<w:document xmlns:w=\"urn:w\"/>").unwrap();
    let data = writer.finish().unwrap().into_inner();
    let err = docx_text(&data).unwrap_err();
    assert_eq!(err.kind, ErrorKind::MalformedContainer);
}

fn package(document_xml: &str) -> Vec<u8> {
    let mut writer = zip::ZipWriter::new(Cursor::new(Vec::new()));
    let options = zip::write::SimpleFileOptions::default().compression_method(zip::CompressionMethod::Stored);
    writer.start_file("word/main.xml", options).unwrap();
    std::io::Write::write_all(&mut writer, document_xml.as_bytes()).unwrap();
    writer.start_file("_rels/.rels", options).unwrap();
    std::io::Write::write_all(
        &mut writer,
        b"<Relationships xmlns=\"http://schemas.openxmlformats.org/package/2006/relationships\"><Relationship Id=\"rId1\" Type=\"http://schemas.openxmlformats.org/officeDocument/2006/relationships/officeDocument\" Target=\"/word/main.xml\"/></Relationships>",
    )
    .unwrap();
    writer.finish().unwrap().into_inner()
}

#[test]
fn main_part_is_found_through_relationships() {
    let xml = "<w:document xmlns:w=\"urn:w\"><w:body><w:p><w:r><w:t>found</w:t></w:r></w:p></w:body></w:document>";
    let data = package(xml);
    assert_eq!(DocxExtractor::main_part(&data).unwrap(), xml.as_bytes());
    assert_eq!(docx_text(&data).unwrap(), "found");
}

#[test]
fn paragraph_property_without_attribute_fails_cleanly() {
    let xml = "<w:document xmlns:w=\"urn:w\"><w:body><w:p><w:pPr><w:jc/></w:pPr></w:p></w:body></w:document>";
    let data = package(xml);
    match outside_work(&data) {
        Some(OutsideWork::ParseDocument(part)) => assert_eq!(part, xml.as_bytes()),
        other => panic!("unexpected work: {:?}", other),
    }
    let gave_up = Some(Decoded::Document(Err("the document reader gave up on this part".to_string())));
    let failure = extract(&data, &gave_up).unwrap_err();
    assert_eq!(failure.error.kind, ErrorKind::MalformedContainer);
    assert_eq!(failure.error.detail, "failed to read document: the document reader gave up on this part");
}

#[test]
fn word_package_without_parse_outcome_fails() {
    let doc = Docx::new().add_paragraph(Paragraph::new().add_run(Run::new().add_text("x")));
    let failure = extract(&pack(doc), &None).unwrap_err();
    assert_eq!(failure.format, ContentType::WordDocument);
    assert_eq!(failure.error.kind, ErrorKind::ExtractorInternal);
}
