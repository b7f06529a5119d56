use vstd::prelude::*;

use std::io::Cursor;
use zip::result::ZipError;
use zip::ZipArchive;

use crate::strings::same_text;

verus! {

#[verifier::external_type_specification]
#[verifier::external_body]
#[verifier::reject_recursive_types(T)]
pub struct ExCursor<T>(Cursor<T>);

#[verifier::external_type_specification]
#[verifier::external_body]
#[verifier::reject_recursive_types(R)]
pub struct ExZipArchive<R>(ZipArchive<R>);

#[verifier::external_type_specification]
#[verifier::external_body]
pub struct ExZipError(ZipError);

/// One entry of an archive: its name, and its content where it can be read
/// out in full (`None` where the entry cannot be opened or decompressed, or
/// fails its checksum).
pub type EntryView = (Seq<char>, Option<Seq<u8>>);

/// An archive held in memory, read through the `zip` crate.
pub type MemoryArchive = ZipArchive<Cursor<Vec<u8>>>;

/// What `zip::ZipArchive::new` makes of a buffer: `None` where it refuses the
/// buffer, else its entries in central-directory order.
pub uninterp spec fn archive_of(b: Seq<u8>) -> Option<Seq<EntryView>>;

/// The entries that an open archive holds, in central-directory order.
pub uninterp spec fn entries(a: MemoryArchive) -> Seq<EntryView>;

/// The entry of the given name, looked up from the front: `None` where no
/// entry has that name, else what can be read of its content.
pub open spec fn content_named(es: Seq<EntryView>, name: Seq<char>) -> Option<Option<Seq<u8>>>
    decreases es.len(),
{
    if es.len() == 0 {
        None
    } else if es[0].0 == name {
        Some(es[0].1)
    } else {
        content_named(es.drop_first(), name)
    }
}

/// Relies on `zip::ZipArchive::new`: it reads the central directory of the
/// buffer, and the outcome depends on the bytes alone.
#[verifier::external_body]
pub(crate) fn open_archive(data: &[u8]) -> (r: Result<MemoryArchive, ZipError>)
    ensures
        r is Ok <==> archive_of(data@) is Some,
        r is Ok ==> entries(r->Ok_0) == archive_of(data@)->Some_0,
{
    ZipArchive::new(Cursor::new(data.to_vec()))
}

/// Relies on `zip::ZipArchive::len`: the number of entries of the central
/// directory.
#[verifier::external_body]
pub(crate) fn entry_count(a: &MemoryArchive) -> (r: usize)
    ensures
        r == entries(*a).len(),
{
    a.len()
}

/// Relies on `zip::ZipArchive::name_for_index`: the name that the central
/// directory records for an entry, for every index below `len`.
#[verifier::external_body]
pub(crate) fn entry_name(a: &MemoryArchive, i: usize) -> (r: Option<String>)
    requires
        i < entries(*a).len(),
    ensures
        r is Some,
        r->Some_0@ == entries(*a)[i as int].0,
{
    a.name_for_index(i).map(|n| n.to_string())
}

/// Relies on `zip::ZipArchive::by_index` and on `read_to_end` of the entry it
/// opens: the entry's content, or an error where it cannot be opened or
/// decompressed or fails its checksum. Reading moves the cursor only; the
/// entries stay as they were.
#[verifier::external_body]
pub(crate) fn read_entry(a: &mut MemoryArchive, i: usize) -> (r: Result<Vec<u8>, ZipError>)
    requires
        i < entries(*old(a)).len(),
    ensures
        entries(*final(a)) == entries(*old(a)),
        r is Ok <==> entries(*old(a))[i as int].1 is Some,
        r is Ok ==> r->Ok_0@ == entries(*old(a))[i as int].1->Some_0,
{
    let mut file = a.by_index(i)?;
    let mut bytes = Vec::new();
    std::io::Read::read_to_end(&mut file, &mut bytes)?;
    Ok(bytes)
}

/// The index of the first entry of the given name, if any.
pub(crate) fn find_entry(a: &MemoryArchive, name: &str) -> (r: Option<usize>)
    ensures
        r is None <==> content_named(entries(*a), name@) is None,
        r is Some ==> r->Some_0 < entries(*a).len() && content_named(entries(*a), name@) == Some(
            entries(*a)[r->Some_0 as int].1,
        ),
{
    let ghost all = entries(*a);
    let n = entry_count(a);
    let mut i: usize = 0;
    assert(all.skip(0) =~= all);
    while i < n
        invariant
            all == entries(*a),
            n == all.len(),
            i <= n,
            content_named(all, name@) == content_named(all.skip(i as int), name@),
        decreases n - i,
    {
        proof {
            assert(all.skip(i as int).drop_first() =~= all.skip(i as int + 1));
            assert(all.skip(i as int)[0] == all[i as int]);
        }
        let entry = match entry_name(a, i) {
            Some(entry) => entry,
            None => return None,
        };
        if same_text(entry.as_str(), name) {
            return Some(i);
        }
        i = i + 1;
    }
    proof {
        assert(all.skip(n as int).len() == 0);
    }
    None
}

/// A description of an archive error, for diagnostics.
pub(crate) fn zip_error_text(e: &ZipError) -> String {
    e.to_string()
}

} // verus!
