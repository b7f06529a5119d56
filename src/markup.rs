use vstd::prelude::*;

use xml::reader::{EventReader, XmlEvent};

verus! {

#[verifier::external_type_specification]
#[verifier::external_body]
pub struct ExXmlError(xml::reader::Error);

/// An event of a forward-only XML reader, cut down to what text extraction
/// reads: element starts and ends by local name, and character data.
/// Whitespace-only text, comments, CDATA, processing instructions and the
/// document's start and end are all `Other`.
#[derive(Debug)]
pub enum XmlItem {
    Start(String),
    End(String),
    Characters(String),
    Other,
}

/// What the `xml` crate's event reader yields for a document, in order, up to
/// and including the end of the document; `None` where it reports a
/// well-formedness error.
pub uninterp spec fn xml_items(s: Seq<char>) -> Option<Seq<XmlItem>>;

/// Relies on `xml::reader::EventReader` iterated to its end: the events of a
/// document in order, or the first error. The events depend on the text alone.
#[verifier::external_body]
pub(crate) fn parse_xml(text: &str) -> (r: Result<Vec<XmlItem>, xml::reader::Error>)
    ensures
        r is Ok <==> xml_items(text@) is Some,
        r is Ok ==> r->Ok_0@ == xml_items(text@)->Some_0,
{
    let reader = EventReader::new(text.as_bytes());
    reader.into_iter().map(|event| event.map(|e| match e {
        XmlEvent::StartElement { name, .. } => XmlItem::Start(name.local_name),
        XmlEvent::EndElement { name } => XmlItem::End(name.local_name),
        XmlEvent::Characters(chars) => XmlItem::Characters(chars),
        _ => XmlItem::Other,
    })).collect()
}

/// A description of an XML error, for diagnostics.
pub(crate) fn xml_error_text(e: &xml::reader::Error) -> String {
    e.to_string()
}

} // verus!
