use vstd::prelude::*;
use vstd::string::StringExecFns;

use vstd::utf8::{decode_utf8, valid_utf8};

use crate::archive::{archive_of, entries, entry_count, entry_name, open_archive, read_entry, zip_error_text, EntryView};
use crate::extraction::{failure, ErrorKind, ExtractError};
use crate::markup::{parse_xml, xml_error_text, xml_items, XmlItem};
use crate::strings::{ends_with, has_prefix, has_suffix, same_text, starts_with, utf8_text};

verus! {

/// Where the slide reader stands: inside a text element whose character data
/// has not been taken yet, or outside of one.
#[derive(Debug, Clone, Copy, PartialEq, Eq, Structural)]
pub enum TextState {
    Outside,
    Inside,
}

/// One event of the slide reader: the state it leaves, and the text it adds.
/// A `t` start enters a text element; the character data that follows is
/// taken with one trailing space and leaves it; a `p` end adds a line break.
/// Every other event changes nothing.
pub open spec fn step(state: TextState, item: XmlItem) -> (TextState, Seq<char>) {
    match item {
        XmlItem::Start(name) => if name@ == "t"@ {
            (TextState::Inside, Seq::empty())
        } else {
            (state, Seq::empty())
        },
        XmlItem::Characters(chars) => if state == TextState::Inside {
            (TextState::Outside, chars@.push(' '))
        } else {
            (state, Seq::empty())
        },
        XmlItem::End(name) => if name@ == "p"@ {
            (state, seq!['\n'])
        } else {
            (state, Seq::empty())
        },
        XmlItem::Other => (state, Seq::empty()),
    }
}

/// The reader run over a sequence of events from `Outside`: the final state
/// and all the text added on the way.
pub open spec fn scan(items: Seq<XmlItem>) -> (TextState, Seq<char>)
    decreases items.len(),
{
    if items.len() == 0 {
        (TextState::Outside, Seq::empty())
    } else {
        let (state, text) = scan(items.drop_last());
        let (next, added) = step(state, items.last());
        (next, text + added)
    }
}

/// The text of one slide, from the events of its XML part.
pub open spec fn slide_text(items: Seq<XmlItem>) -> Seq<char> {
    scan(items).1
}

/// The number of line breaks in a text.
pub open spec fn line_breaks(s: Seq<char>) -> nat
    decreases s.len(),
{
    if s.len() == 0 {
        0
    } else {
        line_breaks(s.drop_last()) + if s.last() == '\n' {
            1nat
        } else {
            0nat
        }
    }
}

/// The number of paragraph ends (`p` end tags) among a slide's events.
pub open spec fn paragraph_ends(items: Seq<XmlItem>) -> nat
    decreases items.len(),
{
    if items.len() == 0 {
        0
    } else {
        paragraph_ends(items.drop_last()) + match items.last() {
            XmlItem::End(name) => if name@ == "p"@ {
                1nat
            } else {
                0nat
            },
            _ => 0nat,
        }
    }
}

/// Whether no character data among the events holds a line break.
pub open spec fn no_breaks_in_text(items: Seq<XmlItem>) -> bool {
    forall|i: int, j: int|
        0 <= i < items.len() && #[trigger] items[i] is Characters && 0 <= j < items[i]->Characters_0@.len()
            ==> #[trigger] items[i]->Characters_0@[j] != '\n'
}

proof fn lemma_line_breaks_concat(a: Seq<char>, b: Seq<char>)
    ensures
        line_breaks(a + b) == line_breaks(a) + line_breaks(b),
    decreases b.len(),
{
    if b.len() == 0 {
        assert(a + b =~= a);
    } else {
        assert((a + b).drop_last() =~= a + b.drop_last());
        lemma_line_breaks_concat(a, b.drop_last());
    }
}

proof fn lemma_no_line_breaks(s: Seq<char>)
    requires
        forall|j: int| 0 <= j < s.len() ==> s[j] != '\n',
    ensures
        line_breaks(s) == 0,
    decreases s.len(),
{
    if s.len() > 0 {
        lemma_no_line_breaks(s.drop_last());
    }
}

/// Every paragraph end of a slide yields one line break, and nothing else
/// does where the slide's text holds none: the text of a slide has exactly as
/// many line breaks as the slide has paragraph ends.
pub proof fn slide_line_breaks(items: Seq<XmlItem>)
    requires
        no_breaks_in_text(items),
    ensures
        line_breaks(slide_text(items)) == paragraph_ends(items),
    decreases items.len(),
{
    reveal_strlit("p");
    if items.len() > 0 {
        let rest = items.drop_last();
        assert forall|i: int, j: int|
            0 <= i < rest.len() && #[trigger] rest[i] is Characters && 0 <= j < rest[i]->Characters_0@.len()
                implies #[trigger] rest[i]->Characters_0@[j] != '\n' by {
            assert(rest[i] == items[i]);
        }
        slide_line_breaks(rest);
        let (state, text) = scan(rest);
        let added = step(state, items.last());
        lemma_line_breaks_concat(text, added.1);
        assert(slide_text(items) == text + added.1);
        match items.last() {
            XmlItem::Characters(chars) => {
                if state == TextState::Inside {
                    assert(items[items.len() - 1] is Characters);
                    assert forall|j: int| 0 <= j < chars@.push(' ').len() implies chars@.push(' ')[j] != '\n' by {
                        if j < chars@.len() {
                            assert(items[items.len() - 1]->Characters_0@[j] != '\n');
                        }
                    }
                    lemma_no_line_breaks(chars@.push(' '));
                } else {
                    lemma_no_line_breaks(added.1);
                }
            },
            XmlItem::End(name) => {
                if name@ == "p"@ {
                    assert(added.1 =~= seq!['\n']);
                    assert(added.1.drop_last() =~= Seq::<char>::empty());
                    assert(added.1.last() == '\n');
                    assert(line_breaks(added.1.drop_last()) == 0);
                    assert(line_breaks(added.1) == 1);
                } else {
                    lemma_no_line_breaks(added.1);
                }
            },
            _ => {
                lemma_no_line_breaks(added.1);
            },
        }
    }
}

/// Performs one step of the slide reader, appending the text it adds to `out`.
pub fn advance(state: TextState, item: &XmlItem, out: &mut String) -> (next: TextState)
    ensures
        next == step(state, *item).0,
        final(out)@ == old(out)@ + step(state, *item).1,
{
    proof {
        reveal_strlit("t");
        reveal_strlit("p");
        reveal_strlit(" ");
        reveal_strlit("\n");
    }
    match item {
        XmlItem::Start(name) => {
            if same_text(name.as_str(), "t") {
                TextState::Inside
            } else {
                state
            }
        },
        XmlItem::Characters(chars) => {
            if state == TextState::Inside {
                out.append(chars.as_str());
                out.append(" ");
                TextState::Outside
            } else {
                state
            }
        },
        XmlItem::End(name) => {
            if same_text(name.as_str(), "p") {
                out.append("\n");
            }
            state
        },
        XmlItem::Other => state,
    }
}

/// Runs the slide reader over the events of one slide and appends the text
/// it finds to `out`.
pub fn append_slide_text(items: &Vec<XmlItem>, out: &mut String)
    ensures
        final(out)@ == old(out)@ + slide_text(items@),
{
    let ghost start = out@;
    let mut state = TextState::Outside;
    let mut i: usize = 0;
    while i < items.len()
        invariant
            i <= items@.len(),
            (state, out@) == (scan(items@.take(i as int)).0, start + scan(items@.take(i as int)).1),
        decreases items@.len() - i,
    {
        let ghost before = out@;
        state = advance(state, &items[i], out);
        proof {
            let prefix = items@.take(i as int + 1);
            assert(prefix.drop_last() =~= items@.take(i as int));
            assert(prefix.last() == items@[i as int]);
            assert(start + (scan(items@.take(i as int)).1 + step(scan(items@.take(i as int)).0, items@[i as int]).1)
                =~= before + step(scan(items@.take(i as int)).0, items@[i as int]).1);
        }
        i = i + 1;
    }
    assert(items@.take(items@.len() as int) =~= items@);
}

/// The text of one slide, from the events of its XML part.
pub fn slide_text_of(items: &Vec<XmlItem>) -> (r: String)
    ensures
        r@ == slide_text(items@),
{
    let mut out = String::new();
    append_slide_text(items, &mut out);
    assert(out@ =~= slide_text(items@));
    out
}

/// Whether an archive entry holds a slide: its path lies under `ppt/slides/`
/// and ends in `.xml`.
pub open spec fn is_slide_part(name: Seq<char>) -> bool {
    starts_with(name, "ppt/slides/"@) && ends_with(name, ".xml"@)
}

/// What one archive entry adds to the text of a presentation: nothing where it
/// is no slide; else the text of its XML part, or `None` where the entry
/// cannot be read, is not UTF-8, or is not well-formed XML.
pub open spec fn entry_text(e: EntryView) -> Option<Seq<char>> {
    if !is_slide_part(e.0) {
        Some(Seq::empty())
    } else {
        match e.1 {
            None => None,
            Some(bytes) => if !valid_utf8(bytes) {
                None
            } else {
                match xml_items(decode_utf8(bytes)) {
                    None => None,
                    Some(items) => Some(slide_text(items)),
                }
            },
        }
    }
}

/// The text of all slides of an archive, in the order of its entries; `None`
/// as soon as one slide fails.
pub open spec fn slides_text(es: Seq<EntryView>) -> Option<Seq<char>>
    decreases es.len(),
{
    if es.len() == 0 {
        Some(Seq::empty())
    } else {
        match (slides_text(es.drop_last()), entry_text(es.last())) {
            (Some(head), Some(tail)) => Some(head + tail),
            _ => None,
        }
    }
}

/// The text of a presentation package, or `None` where it is malformed.
pub open spec fn presentation_text(b: Seq<u8>) -> Option<Seq<char>> {
    match archive_of(b) {
        None => None,
        Some(es) => slides_text(es),
    }
}

/// Once a prefix of the entries fails, the whole archive fails.
proof fn lemma_failure_persists(es: Seq<EntryView>, k: int)
    requires
        0 <= k <= es.len(),
        slides_text(es.take(k)) is None,
    ensures
        slides_text(es) is None,
    decreases es.len() - k,
{
    if k < es.len() {
        let longer = es.take(k + 1);
        assert(longer.drop_last() =~= es.take(k));
        lemma_failure_persists(es, k + 1);
    } else {
        assert(es.take(k) =~= es);
    }
}

/// Slides keep archive order: the text of two runs of entries, one after the
/// other, is the text of the first followed by that of the second, and it
/// fails where either fails.
pub proof fn slides_text_concat(first: Seq<EntryView>, second: Seq<EntryView>)
    ensures
        slides_text(first + second) == match (slides_text(first), slides_text(second)) {
            (Some(a), Some(b)) => Some(a + b),
            _ => None::<Seq<char>>,
        },
    decreases second.len(),
{
    if second.len() == 0 {
        assert(first + second =~= first);
        assert(slides_text(second) == Some(Seq::<char>::empty()));
        if let Some(a) = slides_text(first) {
            assert(a + Seq::<char>::empty() =~= a);
        }
    } else {
        let whole = first + second;
        assert(whole.drop_last() =~= first + second.drop_last());
        assert(whole.last() == second.last());
        slides_text_concat(first, second.drop_last());
        match (slides_text(first), slides_text(second.drop_last()), entry_text(second.last())) {
            (Some(a), Some(b), Some(c)) => {
                assert(a + b + c =~= a + (b + c));
            },
            _ => {},
        }
    }
}

/// The paragraph ends of one archive entry: those of its XML part where it
/// is a slide that reads and parses, else none.
pub open spec fn entry_paragraph_ends(e: EntryView) -> nat {
    if is_slide_part(e.0) && e.1 is Some && valid_utf8(e.1->Some_0) && xml_items(decode_utf8(e.1->Some_0)) is Some {
        paragraph_ends(xml_items(decode_utf8(e.1->Some_0))->Some_0)
    } else {
        0
    }
}

/// The paragraph ends of all slides of an archive.
pub open spec fn archive_paragraph_ends(es: Seq<EntryView>) -> nat
    decreases es.len(),
{
    if es.len() == 0 {
        0
    } else {
        archive_paragraph_ends(es.drop_last()) + entry_paragraph_ends(es.last())
    }
}

/// Whether no slide of an archive holds a line break in its character data.
pub open spec fn slides_free_of_breaks(es: Seq<EntryView>) -> bool {
    forall|i: int|
        0 <= i < es.len() && is_slide_part(#[trigger] es[i].0) && es[i].1 is Some && valid_utf8(es[i].1->Some_0)
            && xml_items(decode_utf8(es[i].1->Some_0)) is Some ==> no_breaks_in_text(
            xml_items(decode_utf8(es[i].1->Some_0))->Some_0,
        )
}

/// Over a whole presentation whose slides read and whose text holds no line
/// break, the extracted text has exactly one line break per paragraph end of
/// its slides.
pub proof fn presentation_line_breaks(es: Seq<EntryView>)
    requires
        slides_text(es) is Some,
        slides_free_of_breaks(es),
    ensures
        line_breaks(slides_text(es)->Some_0) == archive_paragraph_ends(es),
    decreases es.len(),
{
    if es.len() > 0 {
        let rest = es.drop_last();
        let e = es.last();
        assert(e == es[es.len() - 1]);
        assert forall|i: int|
            0 <= i < rest.len() && is_slide_part(#[trigger] rest[i].0) && rest[i].1 is Some && valid_utf8(
                rest[i].1->Some_0,
            ) && xml_items(decode_utf8(rest[i].1->Some_0)) is Some implies no_breaks_in_text(
            xml_items(decode_utf8(rest[i].1->Some_0))->Some_0,
        ) by {
            assert(rest[i] == es[i]);
        }
        presentation_line_breaks(rest);
        let head = slides_text(rest)->Some_0;
        let tail = entry_text(e)->Some_0;
        lemma_line_breaks_concat(head, tail);
        if is_slide_part(e.0) {
            slide_line_breaks(xml_items(decode_utf8(e.1->Some_0))->Some_0);
        } else {
            assert(tail.len() == 0);
        }
    }
}

/// Extracts the text of a presentation package: opens it as a ZIP archive
/// and, for each slide entry in archive order, reads its XML part with the
/// slide reader. Any failure fails the whole call; no partial text is
/// returned.
pub fn extract_presentation(data: &[u8]) -> (r: Result<String, ExtractError>)
    ensures
        r is Ok <==> presentation_text(data@) is Some,
        r is Ok ==> r->Ok_0@ == presentation_text(data@)->Some_0,
        r is Err ==> r->Err_0.kind == ErrorKind::MalformedContainer,
{
    let mut archive = match open_archive(data) {
        Ok(a) => a,
        Err(e) => {
            return Err(failure(ErrorKind::MalformedContainer, "failed to read ZIP archive", zip_error_text(&e)));
        },
    };
    let ghost all = archive_of(data@)->Some_0;
    let n = entry_count(&archive);
    let mut out = String::new();
    let mut i: usize = 0;
    proof {
        reveal_strlit("ppt/slides/");
        reveal_strlit(".xml");
        assert(all.take(0) =~= Seq::<EntryView>::empty());
    }
    while i < n
        invariant
            archive_of(data@) == Some(all),
            entries(archive) == all,
            n == all.len(),
            i <= n,
            slides_text(all.take(i as int)) == Some(out@),
        decreases n - i,
    {
        let ghost before = out@;
        let ghost prefix = all.take(i as int + 1);
        proof {
            assert(prefix.drop_last() =~= all.take(i as int));
            assert(prefix.last() == all[i as int]);
        }
        let name = match entry_name(&archive, i) {
            Some(name) => name,
            None => {
                return Err(
                    failure(ErrorKind::MalformedContainer, "failed to access file in ZIP archive", "no such entry".to_owned()),
                );
            },
        };
        if has_prefix(name.as_str(), "ppt/slides/") && has_suffix(name.as_str(), ".xml") {
            let bytes = match read_entry(&mut archive, i) {
                Ok(bytes) => bytes,
                Err(e) => {
                    proof { lemma_failure_persists(all, i as int + 1); }
                    return Err(failure(ErrorKind::MalformedContainer, "failed to read slide content", zip_error_text(&e)));
                },
            };
            let text = match utf8_text(bytes) {
                Some(text) => text,
                None => {
                    proof { lemma_failure_persists(all, i as int + 1); }
                    return Err(
                        failure(ErrorKind::MalformedContainer, "failed to read slide content", "not valid UTF-8".to_owned()),
                    );
                },
            };
            let items = match parse_xml(text.as_str()) {
                Ok(items) => items,
                Err(e) => {
                    proof { lemma_failure_persists(all, i as int + 1); }
                    return Err(failure(ErrorKind::MalformedContainer, "failed to parse XML", xml_error_text(&e)));
                },
            };
            append_slide_text(&items, &mut out);
            assert(out@ =~= before + slide_text(items@));
        }
        i = i + 1;
    }
    proof {
        assert(all.take(n as int) =~= all);
    }
    Ok(out)
}

} // verus!
