use vstd::prelude::*;
use vstd::string::StringExecFns;

use docx_rs::{FromXML, ReaderError, Rels};

use vstd::slice::{slice_subrange, slice_to_vec};
use vstd::string::StrSliceExecFns;

use crate::archive::{archive_of, content_named, find_entry, open_archive, read_entry, zip_error_text};
use crate::strings::{has_prefix, same_text};
use crate::extraction::{failure, ErrorKind, ExtractError};

verus! {

#[verifier::external_type_specification]
#[verifier::external_body]
pub struct ExReaderError(ReaderError);

/// A child of a run. Only `Text` carries text that is extracted; deleted
/// text, symbols, tabs, breaks, drawings and shapes, comment marks, field
/// characters and instructions, note references and shading are skipped.
#[derive(Debug)]
pub enum RunPart {
    Text(String),
    DeletedText,
    Symbol,
    Tab,
    Break,
    Drawing,
    Comment,
    Field,
    Reference,
    Shading,
}

/// A child of a tracked insertion. Its runs are extracted; deletions and
/// comment marks inside it are skipped.
#[derive(Debug)]
pub enum InsertPart {
    Run(Vec<RunPart>),
    Delete,
    Comment,
}

/// A child of a paragraph. Runs and the runs of tracked insertions are
/// extracted; tracked deletions, tracked moves, bookmarks, hyperlinks,
/// comment marks, structured tags and page-number fields are skipped.
#[derive(Debug)]
pub enum ParagraphPart {
    Run(Vec<RunPart>),
    Insert(Vec<InsertPart>),
    Delete,
    Move,
    Bookmark,
    Hyperlink,
    Comment,
    StructuredDataTag,
    PageField,
}

/// A child of the document body. Paragraphs are extracted; tables,
/// bookmarks, comment marks, structured tags, tables of contents and
/// section containers are skipped.
#[derive(Debug)]
pub enum BodyPart {
    Paragraph(Vec<ParagraphPart>),
    Table,
    Bookmark,
    Comment,
    StructuredDataTag,
    TableOfContents,
    Section,
}

pub open spec fn run_part_text(p: RunPart) -> Seq<char> {
    match p {
        RunPart::Text(t) => t@,
        _ => Seq::empty(),
    }
}

/// The text of a run: its text children, joined in order.
pub open spec fn run_text(ps: Seq<RunPart>) -> Seq<char>
    decreases ps.len(),
{
    if ps.len() == 0 {
        Seq::empty()
    } else {
        run_text(ps.drop_last()) + run_part_text(ps.last())
    }
}

pub open spec fn insert_part_text(p: InsertPart) -> Seq<char> {
    match p {
        InsertPart::Run(rs) => run_text(rs@),
        _ => Seq::empty(),
    }
}

/// The text of a tracked insertion: the text of its runs, joined in order.
pub open spec fn insert_text(ps: Seq<InsertPart>) -> Seq<char>
    decreases ps.len(),
{
    if ps.len() == 0 {
        Seq::empty()
    } else {
        insert_text(ps.drop_last()) + insert_part_text(ps.last())
    }
}

pub open spec fn paragraph_part_text(p: ParagraphPart) -> Seq<char> {
    match p {
        ParagraphPart::Run(rs) => run_text(rs@),
        ParagraphPart::Insert(is) => insert_text(is@),
        _ => Seq::empty(),
    }
}

/// The text of a paragraph: the text of its runs and insertions, joined in
/// order, with nothing added between them.
pub open spec fn paragraph_text(ps: Seq<ParagraphPart>) -> Seq<char>
    decreases ps.len(),
{
    if ps.len() == 0 {
        Seq::empty()
    } else {
        paragraph_text(ps.drop_last()) + paragraph_part_text(ps.last())
    }
}

pub open spec fn body_part_text(p: BodyPart) -> Seq<char> {
    match p {
        BodyPart::Paragraph(ps) => paragraph_text(ps@),
        _ => Seq::empty(),
    }
}

/// The text of a document body: the text of its paragraphs, joined in order
/// with no separator.
pub open spec fn body_text(ps: Seq<BodyPart>) -> Seq<char>
    decreases ps.len(),
{
    if ps.len() == 0 {
        Seq::empty()
    } else {
        body_text(ps.drop_last()) + body_part_text(ps.last())
    }
}

/// The walk keeps document order: the text of two runs of body children, one
/// after the other, is the text of the first followed by that of the second.
pub proof fn body_text_concat(first: Seq<BodyPart>, second: Seq<BodyPart>)
    ensures
        body_text(first + second) == body_text(first) + body_text(second),
    decreases second.len(),
{
    if second.len() == 0 {
        assert(first + second =~= first);
        assert(body_text(first) + Seq::<char>::empty() =~= body_text(first));
    } else {
        let whole = first + second;
        assert(whole.drop_last() =~= first + second.drop_last());
        assert(whole.last() == second.last());
        body_text_concat(first, second.drop_last());
        assert(body_text(first) + body_text(second.drop_last()) + body_part_text(second.last())
            =~= body_text(first) + (body_text(second.drop_last()) + body_part_text(second.last())));
    }
}

/// Runs keep their order within a paragraph: the text of two runs of
/// paragraph children is the text of the first followed by that of the
/// second.
pub proof fn paragraph_text_concat(first: Seq<ParagraphPart>, second: Seq<ParagraphPart>)
    ensures
        paragraph_text(first + second) == paragraph_text(first) + paragraph_text(second),
    decreases second.len(),
{
    if second.len() == 0 {
        assert(first + second =~= first);
        assert(paragraph_text(first) + Seq::<char>::empty() =~= paragraph_text(first));
    } else {
        let whole = first + second;
        assert(whole.drop_last() =~= first + second.drop_last());
        assert(whole.last() == second.last());
        paragraph_text_concat(first, second.drop_last());
        assert(paragraph_text(first) + paragraph_text(second.drop_last()) + paragraph_part_text(
            second.last(),
        ) =~= paragraph_text(first) + (paragraph_text(second.drop_last()) + paragraph_part_text(
            second.last(),
        )));
    }
}

/// Tracked changes: a deletion adds nothing to a paragraph, deleted text
/// adds nothing to a run, and an insertion adds exactly the text of its runs.
pub proof fn tracked_changes(ps: Seq<ParagraphPart>, rs: Seq<RunPart>, inserted: Vec<InsertPart>)
    ensures
        paragraph_text(ps.push(ParagraphPart::Delete)) == paragraph_text(ps),
        run_text(rs.push(RunPart::DeletedText)) == run_text(rs),
        paragraph_text(ps.push(ParagraphPart::Insert(inserted))) == paragraph_text(ps) + insert_text(
            inserted@,
        ),
{
    assert(ps.push(ParagraphPart::Delete).drop_last() =~= ps);
    assert(paragraph_text(ps) + Seq::<char>::empty() =~= paragraph_text(ps));
    assert(rs.push(RunPart::DeletedText).drop_last() =~= rs);
    assert(run_text(rs) + Seq::<char>::empty() =~= run_text(rs));
    assert(ps.push(ParagraphPart::Insert(inserted)).drop_last() =~= ps);
}

/// Appends the text of a run to `out`.
pub fn append_run_text(parts: &Vec<RunPart>, out: &mut String)
    ensures
        final(out)@ == old(out)@ + run_text(parts@),
{
    let ghost start = out@;
    let mut i: usize = 0;
    while i < parts.len()
        invariant
            i <= parts@.len(),
            out@ == start + run_text(parts@.take(i as int)),
        decreases parts@.len() - i,
    {
        let ghost before = out@;
        assert(parts@.take(i as int + 1).drop_last() =~= parts@.take(i as int));
        match &parts[i] {
            RunPart::Text(t) => out.append(t.as_str()),
            _ => {},
        }
        assert(out@ == before + run_part_text(parts@[i as int]));
        assert(out@ =~= start + run_text(parts@.take(i as int + 1)));
        i = i + 1;
    }
    assert(parts@.take(parts@.len() as int) =~= parts@);
}

/// Appends the text of a tracked insertion to `out`.
pub fn append_insert_text(parts: &Vec<InsertPart>, out: &mut String)
    ensures
        final(out)@ == old(out)@ + insert_text(parts@),
{
    let ghost start = out@;
    let mut i: usize = 0;
    while i < parts.len()
        invariant
            i <= parts@.len(),
            out@ == start + insert_text(parts@.take(i as int)),
        decreases parts@.len() - i,
    {
        let ghost before = out@;
        assert(parts@.take(i as int + 1).drop_last() =~= parts@.take(i as int));
        match &parts[i] {
            InsertPart::Run(runs) => append_run_text(runs, out),
            _ => {},
        }
        assert(out@ == before + insert_part_text(parts@[i as int]));
        assert(out@ =~= start + insert_text(parts@.take(i as int + 1)));
        i = i + 1;
    }
    assert(parts@.take(parts@.len() as int) =~= parts@);
}

/// Appends the text of a paragraph to `out`.
pub fn append_paragraph_text(parts: &Vec<ParagraphPart>, out: &mut String)
    ensures
        final(out)@ == old(out)@ + paragraph_text(parts@),
{
    let ghost start = out@;
    let mut i: usize = 0;
    while i < parts.len()
        invariant
            i <= parts@.len(),
            out@ == start + paragraph_text(parts@.take(i as int)),
        decreases parts@.len() - i,
    {
        let ghost before = out@;
        assert(parts@.take(i as int + 1).drop_last() =~= parts@.take(i as int));
        match &parts[i] {
            ParagraphPart::Run(runs) => append_run_text(runs, out),
            ParagraphPart::Insert(inserted) => append_insert_text(inserted, out),
            _ => {},
        }
        assert(out@ == before + paragraph_part_text(parts@[i as int]));
        assert(out@ =~= start + paragraph_text(parts@.take(i as int + 1)));
        i = i + 1;
    }
    assert(parts@.take(parts@.len() as int) =~= parts@);
}

/// The text of a document body: a depth-first walk that keeps the text of
/// runs, inserted runs included, in document order.
pub fn document_text(parts: &Vec<BodyPart>) -> (r: String)
    ensures
        r@ == body_text(parts@),
{
    let mut out = String::new();
    let mut i: usize = 0;
    while i < parts.len()
        invariant
            i <= parts@.len(),
            out@ == body_text(parts@.take(i as int)),
        decreases parts@.len() - i,
    {
        let ghost before = out@;
        assert(parts@.take(i as int + 1).drop_last() =~= parts@.take(i as int));
        match &parts[i] {
            BodyPart::Paragraph(children) => append_paragraph_text(children, &mut out),
            _ => {},
        }
        assert(out@ =~= before + body_part_text(parts@[i as int]));
        i = i + 1;
    }
    assert(parts@.take(parts@.len() as int) =~= parts@);
    out
}

/// What `docx_rs::Rels::from_xml` makes of a package relationship part:
/// `None` where it reports an error, else each relationship's type and
/// target, in order.
pub uninterp spec fn package_relationships(b: Seq<u8>) -> Option<Seq<(String, String)>>;

/// Relies on `docx_rs::Rels::from_xml`: the relationships of a part, in
/// document order, or an error for ill-formed XML. The outcome depends on the
/// bytes alone.
#[verifier::external_body]
fn read_relationships(xml: &[u8]) -> (r: Result<Vec<(String, String)>, ReaderError>)
    ensures
        r is Ok <==> package_relationships(xml@) is Some,
        r is Ok ==> r->Ok_0@ == package_relationships(xml@)->Some_0,
{
    let rels = Rels::from_xml(xml)?;
    Ok(rels.rels.into_iter().map(|(rel_type, _, target)| (rel_type, target)).collect())
}

/// The relationship type of a package's main document part.
pub open spec fn office_document_type() -> Seq<char> {
    "http://schemas.openxmlformats.org/officeDocument/2006/relationships/officeDocument"@
}

/// The target of the first relationship to the main document part, if any.
pub open spec fn main_target(rels: Seq<(String, String)>) -> Option<Seq<char>>
    decreases rels.len(),
{
    if rels.len() == 0 {
        None
    } else if rels[0].0@ == office_document_type() {
        Some(rels[0].1@)
    } else {
        main_target(rels.drop_first())
    }
}

/// A part path with its leading slashes taken off: archive entry names carry
/// none.
pub open spec fn entry_path(p: Seq<char>) -> Seq<char>
    decreases p.len(),
{
    if p.len() > 0 && p[0] == '/' {
        entry_path(p.drop_first())
    } else {
        p
    }
}

/// The content of a part with a leading UTF-8 byte-order mark taken off.
pub open spec fn without_bom(b: Seq<u8>) -> Seq<u8> {
    if b.len() >= 3 && b[0] == 0xefu8 && b[1] == 0xbbu8 && b[2] == 0xbfu8 {
        b.subrange(3, b.len() as int)
    } else {
        b
    }
}

/// Where the main document part lies, from the package relationships: the
/// target of the main-document relationship, or `word/document.xml` where
/// there is none.
pub open spec fn main_part_path(rels: Seq<(String, String)>) -> Seq<char> {
    match main_target(rels) {
        Some(t) => entry_path(t),
        None => "word/document.xml"@,
    }
}

/// The main document part of a word-processing package, with any leading
/// byte-order mark taken off; `None` where the package is malformed: not an
/// archive, without a readable, well-formed `_rels/.rels`, or without a
/// readable main document part.
pub open spec fn main_part_of(b: Seq<u8>) -> Option<Seq<u8>> {
    match archive_of(b) {
        None => None,
        Some(es) => match content_named(es, "_rels/.rels"@) {
            Some(Some(rels_xml)) => match package_relationships(without_bom(rels_xml)) {
                None => None,
                Some(rels) => match content_named(es, main_part_path(rels)) {
                    Some(Some(xml)) => Some(without_bom(xml)),
                    _ => None,
                },
            },
            _ => None,
        },
    }
}

/// Takes a leading byte-order mark off a part's content.
fn strip_bom(b: &Vec<u8>) -> (r: &[u8])
    ensures
        r@ == without_bom(b@),
{
    let all = b.as_slice();
    if b.len() >= 3 && b[0] == 0xef && b[1] == 0xbb && b[2] == 0xbf {
        slice_subrange(all, 3, b.len())
    } else {
        all
    }
}

/// Takes the leading slashes off a part path.
fn trim_path(p: &str) -> (r: String)
    ensures
        r@ == entry_path(p@),
    decreases p@.len(),
{
    proof {
        reveal_strlit("/");
    }
    if has_prefix(p, "/") {
        assert(p@.subrange(0, 1)[0] == p@[0]);
        let n = p.unicode_len();
        let rest = p.substring_char(1, n);
        assert(rest@ =~= p@.drop_first());
        trim_path(rest)
    } else {
        assert(p@.len() > 0 && p@[0] == '/' ==> p@.subrange(0, 1) =~= "/"@);
        p.to_owned()
    }
}

/// Finds the main document part among the package relationships.
fn find_main_part(rels: &Vec<(String, String)>) -> (r: String)
    ensures
        r@ == main_part_path(rels@),
{
    let ghost all = rels@;
    let mut i: usize = 0;
    assert(all.skip(0) =~= all);
    while i < rels.len()
        invariant
            all == rels@,
            i <= all.len(),
            main_target(all) == main_target(all.skip(i as int)),
        decreases all.len() - i,
    {
        proof {
            assert(all.skip(i as int).drop_first() =~= all.skip(i as int + 1));
            assert(all.skip(i as int)[0] == all[i as int]);
        }
        if same_text(
            rels[i].0.as_str(),
            "http://schemas.openxmlformats.org/officeDocument/2006/relationships/officeDocument",
        ) {
            return trim_path(rels[i].1.as_str());
        }
        i = i + 1;
    }
    proof {
        assert(all.skip(i as int).len() == 0);
    }
    "word/document.xml".to_owned()
}

/// Finds and reads the main document part of a word-processing package,
/// through the package relationships. A missing or damaged part is reported
/// as a malformed container.
pub fn main_document_part(data: &[u8]) -> (r: Result<Vec<u8>, ExtractError>)
    ensures
        r is Ok <==> main_part_of(data@) is Some,
        r is Ok ==> r->Ok_0@ == main_part_of(data@)->Some_0,
        r is Err ==> r->Err_0.kind == ErrorKind::MalformedContainer,
{
    let mut archive = match open_archive(data) {
        Ok(a) => a,
        Err(e) => {
            return Err(failure(ErrorKind::MalformedContainer, "failed to read ZIP archive", zip_error_text(&e)));
        },
    };
    let ghost es = archive_of(data@)->Some_0;
    let rels_index = match find_entry(&archive, "_rels/.rels") {
        Some(i) => i,
        None => {
            return Err(failure(ErrorKind::MalformedContainer, "failed to read package", "no _rels/.rels".to_owned()));
        },
    };
    let rels_xml = match read_entry(&mut archive, rels_index) {
        Ok(bytes) => bytes,
        Err(e) => {
            return Err(failure(ErrorKind::MalformedContainer, "failed to read _rels/.rels", zip_error_text(&e)));
        },
    };
    let rels = match read_relationships(strip_bom(&rels_xml)) {
        Ok(rels) => rels,
        Err(e) => {
            return Err(failure(ErrorKind::MalformedContainer, "failed to read _rels/.rels", e.to_string()));
        },
    };
    let path = find_main_part(&rels);
    let index = match find_entry(&archive, path.as_str()) {
        Some(i) => i,
        None => {
            return Err(failure(ErrorKind::MalformedContainer, "main document part is missing", path));
        },
    };
    let xml = match read_entry(&mut archive, index) {
        Ok(bytes) => bytes,
        Err(e) => {
            return Err(failure(ErrorKind::MalformedContainer, "failed to read document", zip_error_text(&e)));
        },
    };
    Ok(slice_to_vec(strip_bom(&xml)))
}

} // verus!
