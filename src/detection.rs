use vstd::prelude::*;

use vstd::utf8::valid_utf8;

use crate::strings::{is_utf8, same_text};

verus! {

/// The format of a document, as told by the leading bytes of its content.
///
/// Every byte buffer maps to exactly one of these. `Unknown` stands for a
/// buffer that is empty, or that is not text and whose signature is
/// recognised but belongs to no document family listed here.
#[derive(Debug, Clone, Copy, PartialEq, Eq, Structural)]
pub enum ContentType {
    Pdf,
    MsWord,
    WordDocument,
    WordTemplate,
    WordDocumentMacroEnabled,
    WordTemplateMacroEnabled,
    MsExcel,
    ExcelSheet,
    ExcelTemplate,
    ExcelSheetMacroEnabled,
    ExcelTemplateMacroEnabled,
    ExcelAddInMacroEnabled,
    ExcelBinarySheet,
    MsPowerPoint,
    PowerPointPresentation,
    PowerPointTemplate,
    PowerPointSlideshow,
    PowerPointAddInMacroEnabled,
    PowerPointPresentationMacroEnabled,
    PowerPointTemplateMacroEnabled,
    PowerPointSlideshowMacroEnabled,
    Txt,
    Epub,
    Mobi,
    Unknown,
}

/// What `infer::get` makes of a buffer: the MIME type of the first signature
/// that matches, or `None` where no signature matches.
pub uninterp spec fn sniffed_mime(b: Seq<u8>) -> Option<Seq<char>>;

/// The format that a sniffed MIME type stands for.
pub open spec fn content_type_of_mime(m: Seq<char>) -> ContentType {
    if m == "application/pdf"@ {
        ContentType::Pdf
    } else if m == "application/msword"@ {
        ContentType::MsWord
    } else if m == "application/vnd.openxmlformats-officedocument.wordprocessingml.document"@ {
        ContentType::WordDocument
    } else if m == "application/vnd.openxmlformats-officedocument.wordprocessingml.template"@ {
        ContentType::WordTemplate
    } else if m == "application/vnd.ms-word.document.macroEnabled.12"@ {
        ContentType::WordDocumentMacroEnabled
    } else if m == "application/vnd.ms-word.template.macroEnabled.12"@ {
        ContentType::WordTemplateMacroEnabled
    } else if m == "application/vnd.ms-excel"@ {
        ContentType::MsExcel
    } else if m == "application/vnd.openxmlformats-officedocument.spreadsheetml.sheet"@ {
        ContentType::ExcelSheet
    } else if m == "application/vnd.openxmlformats-officedocument.spreadsheetml.template"@ {
        ContentType::ExcelTemplate
    } else if m == "application/vnd.ms-excel.sheet.macroEnabled.12"@ {
        ContentType::ExcelSheetMacroEnabled
    } else if m == "application/vnd.ms-excel.template.macroEnabled.12"@ {
        ContentType::ExcelTemplateMacroEnabled
    } else if m == "application/vnd.ms-excel.addin.macroEnabled.12"@ {
        ContentType::ExcelAddInMacroEnabled
    } else if m == "application/vnd.ms-excel.sheet.binary.macroEnabled.12"@ {
        ContentType::ExcelBinarySheet
    } else if m == "application/vnd.ms-powerpoint"@ {
        ContentType::MsPowerPoint
    } else if m == "application/vnd.openxmlformats-officedocument.presentationml.presentation"@ {
        ContentType::PowerPointPresentation
    } else if m == "application/vnd.openxmlformats-officedocument.presentationml.template"@ {
        ContentType::PowerPointTemplate
    } else if m == "application/vnd.openxmlformats-officedocument.presentationml.slideshow"@ {
        ContentType::PowerPointSlideshow
    } else if m == "application/vnd.ms-powerpoint.addin.macroEnabled.12"@ {
        ContentType::PowerPointAddInMacroEnabled
    } else if m == "application/vnd.ms-powerpoint.presentation.macroEnabled.12"@ {
        ContentType::PowerPointPresentationMacroEnabled
    } else if m == "application/vnd.ms-powerpoint.template.macroEnabled.12"@ {
        ContentType::PowerPointTemplateMacroEnabled
    } else if m == "application/vnd.ms-powerpoint.slideshow.macroEnabled.12"@ {
        ContentType::PowerPointSlideshowMacroEnabled
    } else if m == "text/plain"@ {
        ContentType::Txt
    } else if m == "application/epub+zip"@ {
        ContentType::Epub
    } else if m == "application/x-mobipocket-ebook"@ {
        ContentType::Mobi
    } else {
        ContentType::Unknown
    }
}

/// Whether a buffer begins with the signature of a ZIP container, of a
/// compound binary file, or of a PDF document: the families that the sniffed
/// signature decides.
pub open spec fn has_container_signature(b: Seq<u8>) -> bool {
    ||| b.len() >= 4 && b[0] == 0x50u8 && b[1] == 0x4bu8 && (
    (b[2] == 3u8 && b[3] == 4u8) || (b[2] == 5u8 && b[3] == 6u8) || (b[2] == 7u8 && b[3] == 8u8))
    ||| b.len() >= 8 && b[0] == 0xd0u8 && b[1] == 0xcfu8 && b[2] == 0x11u8 && b[3] == 0xe0u8 && b[4]
        == 0xa1u8 && b[5] == 0xb1u8 && b[6] == 0x1au8 && b[7] == 0xe1u8
    ||| b.len() >= 4 && b[0] == 0x25u8 && b[1] == 0x50u8 && b[2] == 0x44u8 && b[3] == 0x46u8
}

/// The format of a buffer. An empty one is left unrecognised. Valid UTF-8
/// without a container or PDF signature is plain text. Otherwise the sniffed
/// signature decides, a signature of no listed format leaves the buffer
/// unrecognised (a plain ZIP archive among them), and a buffer with no known
/// signature at all is taken as plain text.
pub open spec fn detected(b: Seq<u8>) -> ContentType {
    if b.len() == 0 {
        ContentType::Unknown
    } else if !has_container_signature(b) && valid_utf8(b) {
        ContentType::Txt
    } else {
        match sniffed_mime(b) {
            Some(m) => content_type_of_mime(m),
            None => if has_container_signature(b) {
                ContentType::Unknown
            } else {
                ContentType::Txt
            },
        }
    }
}

/// Tells the container and PDF signatures from the leading bytes.
pub fn container_signature(data: &[u8]) -> (r: bool)
    ensures
        r == has_container_signature(data@),
{
    let n = data.len();
    let zip = n >= 4 && data[0] == 0x50 && data[1] == 0x4b && ((data[2] == 3 && data[3] == 4) || (
    data[2] == 5 && data[3] == 6) || (data[2] == 7 && data[3] == 8));
    let compound = n >= 8 && data[0] == 0xd0 && data[1] == 0xcf && data[2] == 0x11 && data[3] == 0xe0
        && data[4] == 0xa1 && data[5] == 0xb1 && data[6] == 0x1a && data[7] == 0xe1;
    let pdf = n >= 4 && data[0] == 0x25 && data[1] == 0x50 && data[2] == 0x44 && data[3] == 0x46;
    zip || compound || pdf
}

/// Relies on `infer::get` and `infer::Type::mime_type`: the MIME type of the
/// first matching signature, which depends on the bytes alone.
#[verifier::external_body]
fn sniff_mime(data: &[u8]) -> (r: Option<String>)
    ensures
        r is Some <==> sniffed_mime(data@) is Some,
        r is Some ==> r->Some_0@ == sniffed_mime(data@)->Some_0,
{
    infer::get(data).map(|t| t.mime_type().to_string())
}

impl ContentType {
    /// Maps a MIME type to the format it names; any other type is `Unknown`.
    pub fn from_mime(mime: &str) -> (r: ContentType)
        ensures
            r == content_type_of_mime(mime@),
    {
        if same_text(mime, "application/pdf") {
            ContentType::Pdf
        } else if same_text(mime, "application/msword") {
            ContentType::MsWord
        } else if same_text(mime, "application/vnd.openxmlformats-officedocument.wordprocessingml.document") {
            ContentType::WordDocument
        } else if same_text(mime, "application/vnd.openxmlformats-officedocument.wordprocessingml.template") {
            ContentType::WordTemplate
        } else if same_text(mime, "application/vnd.ms-word.document.macroEnabled.12") {
            ContentType::WordDocumentMacroEnabled
        } else if same_text(mime, "application/vnd.ms-word.template.macroEnabled.12") {
            ContentType::WordTemplateMacroEnabled
        } else if same_text(mime, "application/vnd.ms-excel") {
            ContentType::MsExcel
        } else if same_text(mime, "application/vnd.openxmlformats-officedocument.spreadsheetml.sheet") {
            ContentType::ExcelSheet
        } else if same_text(mime, "application/vnd.openxmlformats-officedocument.spreadsheetml.template") {
            ContentType::ExcelTemplate
        } else if same_text(mime, "application/vnd.ms-excel.sheet.macroEnabled.12") {
            ContentType::ExcelSheetMacroEnabled
        } else if same_text(mime, "application/vnd.ms-excel.template.macroEnabled.12") {
            ContentType::ExcelTemplateMacroEnabled
        } else if same_text(mime, "application/vnd.ms-excel.addin.macroEnabled.12") {
            ContentType::ExcelAddInMacroEnabled
        } else if same_text(mime, "application/vnd.ms-excel.sheet.binary.macroEnabled.12") {
            ContentType::ExcelBinarySheet
        } else if same_text(mime, "application/vnd.ms-powerpoint") {
            ContentType::MsPowerPoint
        } else if same_text(mime, "application/vnd.openxmlformats-officedocument.presentationml.presentation") {
            ContentType::PowerPointPresentation
        } else if same_text(mime, "application/vnd.openxmlformats-officedocument.presentationml.template") {
            ContentType::PowerPointTemplate
        } else if same_text(mime, "application/vnd.openxmlformats-officedocument.presentationml.slideshow") {
            ContentType::PowerPointSlideshow
        } else if same_text(mime, "application/vnd.ms-powerpoint.addin.macroEnabled.12") {
            ContentType::PowerPointAddInMacroEnabled
        } else if same_text(mime, "application/vnd.ms-powerpoint.presentation.macroEnabled.12") {
            ContentType::PowerPointPresentationMacroEnabled
        } else if same_text(mime, "application/vnd.ms-powerpoint.template.macroEnabled.12") {
            ContentType::PowerPointTemplateMacroEnabled
        } else if same_text(mime, "application/vnd.ms-powerpoint.slideshow.macroEnabled.12") {
            ContentType::PowerPointSlideshowMacroEnabled
        } else if same_text(mime, "text/plain") {
            ContentType::Txt
        } else if same_text(mime, "application/epub+zip") {
            ContentType::Epub
        } else if same_text(mime, "application/x-mobipocket-ebook") {
            ContentType::Mobi
        } else {
            ContentType::Unknown
        }
    }

    /// Sniffs the format of a buffer from its bytes. Total: it returns for
    /// every buffer, an empty one included, and never fails.
    pub fn detect(data: &[u8]) -> (r: ContentType)
        ensures
            r == detected(data@),
            data@.len() == 0 ==> r == ContentType::Unknown,
    {
        if data.len() == 0 {
            return ContentType::Unknown;
        }
        let signed = container_signature(data);
        if !signed && is_utf8(data) {
            return ContentType::Txt;
        }
        match sniff_mime(data) {
            Some(mime) => ContentType::from_mime(mime.as_str()),
            None => if signed {
                ContentType::Unknown
            } else {
                ContentType::Txt
            },
        }
    }
}

impl<'a> From<&'a [u8]> for ContentType {
    /// Sniffs the format of a buffer, as `ContentType::detect` does.
    fn from(value: &'a [u8]) -> (r: ContentType)
        ensures
            r == detected(value@),
    {
        ContentType::detect(value)
    }
}

impl<'a> vstd::std_specs::convert::FromSpecImpl<&'a [u8]> for ContentType {
    open spec fn obeys_from_spec() -> bool {
        true
    }

    open spec fn from_spec(v: &'a [u8]) -> ContentType {
        detected(v@)
    }
}

} // verus!
