use vstd::prelude::*;
use vstd::string::StringExecFns;
use vstd::utf8::{decode_utf8, decode_utf8_encode_utf8, encode_utf8, valid_utf8};

use crate::detection::{detected, ContentType};
use crate::document::{body_text, document_text, main_document_part, main_part_of, BodyPart};
use crate::presentation::{extract_presentation, presentation_text};

verus! {

/// Why an extractor failed.
#[derive(Debug, Clone, Copy, PartialEq, Eq, Structural)]
pub enum ErrorKind {
    /// The package is not a valid container: a ZIP archive that cannot be
    /// read, an entry that cannot be decompressed, text that is not UTF-8,
    /// XML that is not well formed, or a package without its document part.
    MalformedContainer,
    /// A delegated decoder reported an error of its own.
    ExtractorInternal,
    /// The bytes of an uploaded part could not be received.
    Unreadable,
}

/// The failure of one extractor: its kind, and a description for people.
#[derive(Debug)]
pub struct ExtractError {
    pub kind: ErrorKind,
    pub detail: String,
}

/// Builds an error of the given kind whose description is `context: cause`.
pub fn failure(kind: ErrorKind, context: &str, cause: String) -> (e: ExtractError)
    ensures
        e.kind == kind,
        e.detail@ == context@ + ": "@ + cause@,
{
    let detail = context.to_owned().concat(": ").concat(cause.as_str());
    ExtractError { kind, detail }
}

/// The failure of a dispatched extraction, tagged with the detected format.
#[derive(Debug)]
pub struct ExtractionFailure {
    pub format: ContentType,
    pub error: ExtractError,
}

/// The capability of turning the bytes of a document into its text.
pub trait Extract {
    fn extract(data: &[u8]) -> (r: Result<String, ExtractError>);
}

/// Extracts the text layer of a PDF document.
pub struct PdfExtractor;

/// Extracts the text of a word-processing package.
pub struct DocxExtractor;

/// Extracts the text of the slides of a presentation package.
pub struct PptxExtractor;

/// Decodes plain text.
pub struct TxtExtractor;

/// What `String::from_utf8_lossy` makes of a buffer: its text, with each
/// invalid sequence replaced by U+FFFD.
pub uninterp spec fn lossy_utf8(b: Seq<u8>) -> Seq<char>;

/// Relies on `String::from_utf8_lossy`: the result depends on the bytes
/// alone, and where they are valid UTF-8 it is exactly the text they encode.
#[verifier::external_body]
fn lossy_text(data: &[u8]) -> (r: String)
    ensures
        r@ == lossy_utf8(data@),
        valid_utf8(data@) ==> r@ == decode_utf8(data@),
{
    String::from_utf8_lossy(data).into_owned()
}

impl Extract for TxtExtractor {
    /// Never fails: bytes that are not valid UTF-8 are replaced. Valid UTF-8
    /// round-trips: the text is what the bytes encode, and encodes back to
    /// exactly those bytes.
    fn extract(data: &[u8]) -> (r: Result<String, ExtractError>)
        ensures
            r is Ok,
            r->Ok_0@ == lossy_utf8(data@),
            valid_utf8(data@) ==> r->Ok_0@ == decode_utf8(data@),
            valid_utf8(data@) ==> encode_utf8(r->Ok_0@) == data@,
    {
        let text = lossy_text(data);
        proof {
            if valid_utf8(data@) {
                decode_utf8_encode_utf8(data@);
            }
        }
        Ok(text)
    }
}

/// Work that an extraction waits on and that the caller does, since the
/// decoders involved may panic: running the PDF decoder on the document's
/// bytes, or parsing the main part of a word-processing package into a
/// document tree.
#[derive(Debug)]
pub enum OutsideWork {
    DecodePdf,
    ParseDocument(Vec<u8>),
}

/// What the caller got from that work: the PDF decoder's text or its error
/// message; the document tree or the parser's error message.
#[derive(Debug)]
pub enum Decoded {
    Pdf(Result<String, String>),
    Document(Result<Vec<BodyPart>, String>),
}

impl PdfExtractor {
    /// Hands the PDF decoder's outcome on unchanged; its errors are internal
    /// ones.
    pub fn extract(decoded: &Result<String, String>) -> (r: Result<String, ExtractError>)
        ensures
            decoded is Ok ==> r is Ok && r->Ok_0@ == decoded->Ok_0@,
            decoded is Err ==> r is Err && r->Err_0.kind == ErrorKind::ExtractorInternal
                && r->Err_0.detail@ == "failed to decode PDF"@ + ": "@ + decoded->Err_0@,
    {
        match decoded {
            Ok(text) => Ok(text.clone()),
            Err(message) => Err(failure(ErrorKind::ExtractorInternal, "failed to decode PDF", message.clone())),
        }
    }
}

impl DocxExtractor {
    /// The main document part of a package, which the caller parses.
    pub fn main_part(data: &[u8]) -> (r: Result<Vec<u8>, ExtractError>)
        ensures
            r is Ok <==> main_part_of(data@) is Some,
            r is Ok ==> r->Ok_0@ == main_part_of(data@)->Some_0,
            r is Err ==> r->Err_0.kind == ErrorKind::MalformedContainer,
    {
        main_document_part(data)
    }

    /// The text of a parsed document tree; a parser failure is a malformed
    /// container.
    pub fn extract(parsed: &Result<Vec<BodyPart>, String>) -> (r: Result<String, ExtractError>)
        ensures
            parsed is Ok ==> r is Ok && r->Ok_0@ == body_text(parsed->Ok_0@),
            parsed is Err ==> r is Err && r->Err_0.kind == ErrorKind::MalformedContainer
                && r->Err_0.detail@ == "failed to read document"@ + ": "@ + parsed->Err_0@,
    {
        match parsed {
            Ok(parts) => Ok(document_text(parts)),
            Err(message) => Err(failure(ErrorKind::MalformedContainer, "failed to read document", message.clone())),
        }
    }
}

impl Extract for PptxExtractor {
    fn extract(data: &[u8]) -> (r: Result<String, ExtractError>)
        ensures
            r is Ok <==> presentation_text(data@) is Some,
            r is Ok ==> r->Ok_0@ == presentation_text(data@)->Some_0,
            r is Err ==> r->Err_0.kind == ErrorKind::MalformedContainer,
    {
        extract_presentation(data)
    }
}

/// The extractors that a format can be bound to.
#[derive(Debug, Clone, Copy, PartialEq, Eq, Structural)]
pub enum Extractor {
    PlainText,
    Pdf,
    WordProcessing,
    Presentation,
}

/// The extractor bound to a format, if any. Spreadsheets, the legacy binary
/// word-processing and presentation formats, e-books and unrecognised input
/// have none.
pub open spec fn extractor_for(format: ContentType) -> Option<Extractor> {
    match format {
        ContentType::Pdf => Some(Extractor::Pdf),
        ContentType::WordDocument | ContentType::WordTemplate | ContentType::WordDocumentMacroEnabled
        | ContentType::WordTemplateMacroEnabled => Some(Extractor::WordProcessing),
        ContentType::PowerPointPresentation | ContentType::PowerPointTemplate
        | ContentType::PowerPointSlideshow | ContentType::PowerPointAddInMacroEnabled
        | ContentType::PowerPointPresentationMacroEnabled | ContentType::PowerPointTemplateMacroEnabled
        | ContentType::PowerPointSlideshowMacroEnabled => Some(Extractor::Presentation),
        ContentType::Txt => Some(Extractor::PlainText),
        _ => None,
    }
}

impl ContentType {
    /// The extractor bound to this format, if any.
    pub fn extractor(&self) -> (r: Option<Extractor>)
        ensures
            r == extractor_for(*self),
    {
        match self {
            ContentType::Pdf => Some(Extractor::Pdf),
            ContentType::WordDocument | ContentType::WordTemplate | ContentType::WordDocumentMacroEnabled
            | ContentType::WordTemplateMacroEnabled => Some(Extractor::WordProcessing),
            ContentType::PowerPointPresentation | ContentType::PowerPointTemplate
            | ContentType::PowerPointSlideshow | ContentType::PowerPointAddInMacroEnabled
            | ContentType::PowerPointPresentationMacroEnabled | ContentType::PowerPointTemplateMacroEnabled
            | ContentType::PowerPointSlideshowMacroEnabled => Some(Extractor::Presentation),
            ContentType::Txt => Some(Extractor::PlainText),
            _ => None,
        }
    }
}

/// The text that an extractor owes for a buffer, given what the caller
/// decoded, or the kind of its failure. The PDF extractor owes the decoder's
/// text; the word-processing extractor owes the text of the parsed tree of a
/// package whose main part can be read. Where the outcome of the outside
/// work is missing, the failure is internal.
pub open spec fn owed(e: Extractor, b: Seq<u8>, decoded: Option<Decoded>) -> Result<Seq<char>, ErrorKind> {
    match e {
        Extractor::PlainText => Ok(lossy_utf8(b)),
        Extractor::Presentation => match presentation_text(b) {
            Some(t) => Ok(t),
            None => Err(ErrorKind::MalformedContainer),
        },
        Extractor::Pdf => match decoded {
            Some(Decoded::Pdf(Ok(t))) => Ok(t@),
            _ => Err(ErrorKind::ExtractorInternal),
        },
        Extractor::WordProcessing => match main_part_of(b) {
            None => Err(ErrorKind::MalformedContainer),
            Some(_) => match decoded {
                Some(Decoded::Document(Ok(parts))) => Ok(body_text(parts@)),
                Some(Decoded::Document(Err(_))) => Err(ErrorKind::MalformedContainer),
                _ => Err(ErrorKind::ExtractorInternal),
            },
        },
    }
}

/// Whether `r` is the outcome of dispatching a buffer `b` detected as
/// `format`, with `decoded` from the caller: `Ok(None)` where no extractor is
/// bound; else exactly the text the extractor owes, or a failure of the kind
/// it owes, tagged with `format`.
pub open spec fn dispatched(
    format: ContentType,
    b: Seq<u8>,
    decoded: Option<Decoded>,
    r: Result<Option<String>, ExtractionFailure>,
) -> bool {
    match extractor_for(format) {
        None => r is Ok && r->Ok_0 is None,
        Some(e) => match owed(e, b, decoded) {
            Ok(t) => r is Ok && r->Ok_0 is Some && r->Ok_0->Some_0@ == t,
            Err(kind) => r is Err && r->Err_0.format == format && r->Err_0.error.kind == kind,
        },
    }
}

/// The outside work a buffer detected as `format` waits on.
pub open spec fn work_needed(format: ContentType, b: Seq<u8>, r: Option<OutsideWork>) -> bool {
    match extractor_for(format) {
        Some(Extractor::Pdf) => r == Some(OutsideWork::DecodePdf),
        Some(Extractor::WordProcessing) => match main_part_of(b) {
            Some(xml) => r is Some && r->Some_0 is ParseDocument && r->Some_0->ParseDocument_0@ == xml,
            None => r is None,
        },
        _ => r is None,
    }
}

fn tagged(format: ContentType, r: Result<String, ExtractError>) -> (out: Result<Option<String>, ExtractionFailure>)
    ensures
        r is Ok ==> out is Ok && out->Ok_0 == Some(r->Ok_0),
        r is Err ==> out is Err && out->Err_0.format == format && out->Err_0.error.kind == r->Err_0.kind,
{
    match r {
        Ok(text) => Ok(Some(text)),
        Err(error) => Err(ExtractionFailure { format, error }),
    }
}

fn missing(format: ContentType, what: &str) -> (out: Result<Option<String>, ExtractionFailure>)
    ensures
        out is Err && out->Err_0.format == format && out->Err_0.error.kind == ErrorKind::ExtractorInternal,
{
    Err(ExtractionFailure { format, error: failure(ErrorKind::ExtractorInternal, what, "not supplied".to_owned()) })
}

/// The outside work that extracting `data` waits on, if any: decoding a PDF,
/// or parsing the main part of a word-processing package.
pub fn outside_work(data: &[u8]) -> (r: Option<OutsideWork>)
    ensures
        work_needed(detected(data@), data@, r),
{
    let format = ContentType::detect(data);
    match format.extractor() {
        Some(Extractor::Pdf) => Some(OutsideWork::DecodePdf),
        Some(Extractor::WordProcessing) => match DocxExtractor::main_part(data) {
            Ok(xml) => Some(OutsideWork::ParseDocument(xml)),
            Err(_) => None,
        },
        _ => None,
    }
}

/// Runs the extractor bound to `format` on `data`, with what the caller
/// decoded. A format with no bound extractor gives `Ok(None)`; an extractor's
/// failure is tagged with the format.
pub fn dispatch(format: ContentType, data: &[u8], decoded: &Option<Decoded>) -> (r: Result<Option<String>, ExtractionFailure>)
    ensures
        dispatched(format, data@, *decoded, r),
{
    match format.extractor() {
        None => Ok(None),
        Some(Extractor::PlainText) => tagged(format, TxtExtractor::extract(data)),
        Some(Extractor::Presentation) => tagged(format, PptxExtractor::extract(data)),
        Some(Extractor::Pdf) => match decoded {
            Some(Decoded::Pdf(outcome)) => tagged(format, PdfExtractor::extract(outcome)),
            _ => missing(format, "PDF decoder outcome"),
        },
        Some(Extractor::WordProcessing) => match DocxExtractor::main_part(data) {
            Err(e) => tagged(format, Err(e)),
            Ok(_) => match decoded {
                Some(Decoded::Document(parsed)) => tagged(format, DocxExtractor::extract(parsed)),
                _ => missing(format, "document parse outcome"),
            },
        },
    }
}

/// Extracts the text of a document: detects its format from its bytes and
/// dispatches it, with what the caller decoded for the work that
/// `outside_work` names. `Ok(Some(text))` is extracted text, `Ok(None)` a
/// format with no extractor, and `Err` a failed extraction.
pub fn extract(data: &[u8], decoded: &Option<Decoded>) -> (r: Result<Option<String>, ExtractionFailure>)
    ensures
        dispatched(detected(data@), data@, *decoded, r),
{
    let format = ContentType::detect(data);
    dispatch(format, data, decoded)
}

} // verus!
