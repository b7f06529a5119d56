use vstd::prelude::*;

use std::time::Instant;

use crate::detection::{detected, ContentType};
use crate::extraction::{dispatched, extract, Decoded, ErrorKind, ExtractError, ExtractionFailure};

verus! {

#[verifier::external_type_specification]
#[verifier::external_body]
pub struct ExInstant(Instant);

/// Relies on `std::time::Instant::now`: a reading of the monotonic clock.
#[verifier::external_body]
fn clock_now() -> (r: Instant) {
    Instant::now()
}

/// Relies on `std::time::Instant::elapsed` and `Duration::as_micros`: the
/// microseconds since `start`. Nothing is stated of the value.
#[verifier::external_body]
fn micros_since(start: &Instant) -> (r: u128) {
    start.elapsed().as_micros()
}

/// One uploaded part of a multi-file request: the form field's name, the
/// declared file name and content type, and its bytes, or the reason they
/// could not be received. Where its extraction waits on outside work (see
/// `outside_work`), `decoded` holds what the caller got from it, and
/// `decode_micros` the time that took.
#[derive(Debug)]
pub struct UploadedPart {
    pub name: String,
    pub file_name: String,
    pub content_type: String,
    pub data: Result<Vec<u8>, String>,
    pub decoded: Option<Decoded>,
    pub decode_micros: u64,
}

/// The entry of one part in a batch result. A failure with an elapsed time
/// of zero happened before extraction began.
#[derive(Debug)]
pub struct ExtractionResult {
    pub name: String,
    pub file_name: String,
    pub content_type: String,
    pub outcome: Result<Option<String>, ExtractionFailure>,
    pub elapsed_micros: u64,
}

/// Whether `r` is the entry for an extraction of `data` under the given
/// declared names: the names are kept and the outcome is that of detection
/// and dispatch, whatever the declared content type says.
pub open spec fn extracted_entry(
    data: Seq<u8>,
    decoded: Option<Decoded>,
    name: Seq<char>,
    file_name: Seq<char>,
    content_type: Seq<char>,
    r: ExtractionResult,
) -> bool {
    &&& r.name@ == name
    &&& r.file_name@ == file_name
    &&& r.content_type@ == content_type
    &&& dispatched(detected(data), data, decoded, r.outcome)
    &&& r.elapsed_micros > 0
}

/// Whether `r` is the entry for `part`: an extraction of its bytes, or, where
/// they could not be received, an `Unreadable` failure with no time spent.
pub open spec fn entry_for(part: UploadedPart, r: ExtractionResult) -> bool {
    match part.data {
        Ok(bytes) => extracted_entry(bytes@, part.decoded, part.name@, part.file_name@, part.content_type@, r),
        Err(reason) => {
            &&& r.name@ == part.name@
            &&& r.file_name@ == part.file_name@
            &&& r.content_type@ == part.content_type@
            &&& r.elapsed_micros == 0
            &&& r.outcome is Err
            &&& r.outcome->Err_0.error.kind == ErrorKind::Unreadable
            &&& r.outcome->Err_0.error.detail@ == reason@
        },
    }
}

/// Extracts the text of one received part and times the extraction, adding
/// the time the caller spent on its outside work. The time recorded is never
/// zero, which is kept for failures before extraction began.
pub fn process_extraction(
    data: &[u8],
    decoded: &Option<Decoded>,
    decode_micros: u64,
    name: String,
    file_name: String,
    content_type: String,
) -> (r: ExtractionResult)
    ensures
        extracted_entry(data@, *decoded, name@, file_name@, content_type@, r),
        r.elapsed_micros >= decode_micros,
{
    let start = clock_now();
    let outcome = extract(data, decoded);
    let micros = micros_since(&start);
    let spent: u64 = if micros > u64::MAX as u128 {
        u64::MAX
    } else {
        micros as u64
    };
    let total: u64 = decode_micros.saturating_add(spent);
    let elapsed_micros: u64 = if total == 0 {
        1
    } else {
        total
    };
    ExtractionResult { name, file_name, content_type, outcome, elapsed_micros }
}

/// The entry of one uploaded part.
pub fn process_part(part: &UploadedPart) -> (r: ExtractionResult)
    ensures
        entry_for(*part, r),
{
    match &part.data {
        Ok(bytes) => process_extraction(
            bytes.as_slice(),
            &part.decoded,
            part.decode_micros,
            part.name.clone(),
            part.file_name.clone(),
            part.content_type.clone(),
        ),
        Err(reason) => ExtractionResult {
            name: part.name.clone(),
            file_name: part.file_name.clone(),
            content_type: part.content_type.clone(),
            outcome: Err(
                ExtractionFailure {
                    format: ContentType::Unknown,
                    error: ExtractError { kind: ErrorKind::Unreadable, detail: reason.clone() },
                },
            ),
            elapsed_micros: 0,
        },
    }
}

/// Processes each part of a request on its own: one entry per part, in the
/// order of the parts, each depending on its own part alone, so that one
/// part's failure neither drops nor alters another's entry.
pub fn extract_batch(parts: &Vec<UploadedPart>) -> (r: Vec<ExtractionResult>)
    ensures
        r.len() == parts.len(),
        forall|i: int| 0 <= i < parts.len() ==> entry_for(#[trigger] parts[i], r[i]),
{
    let mut results: Vec<ExtractionResult> = Vec::new();
    let mut i: usize = 0;
    while i < parts.len()
        invariant
            i <= parts.len(),
            results.len() == i,
            forall|j: int| 0 <= j < i ==> entry_for(#[trigger] parts[j], results[j]),
        decreases parts.len() - i,
    {
        let entry = process_part(&parts[i]);
        results.push(entry);
        i = i + 1;
    }
    results
}

} // verus!
