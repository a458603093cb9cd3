//! Errors of serialization, the value trait, and writing events out.
use crate::events::{attr_name, attrs_view, events_view, Attribute, Event};
use crate::xml_out::{pairs_view, written_all, written_attrs, written_of, XmlOut};
use vstd::prelude::*;
use vstd::string::*;
use xml::common::XmlVersion;

verus! {

/// Error that can occur while serializing.
///
/// Output may have been written in part when it occurs.
#[derive(Debug)]
pub enum SerializeError {
    /// The XML writer failed.
    XmlWriteError(xml::writer::Error),
    /// The manifest is invalid.
    Invalid {
        /// Location of the invalid value from the manifest root.
        path: String,
        /// Why it is invalid, as a hint to fix it.
        detail: String,
    },
}

/// Serialization result.
pub type SerializeResult<R> = Result<R, SerializeError>;

/// Whether `e` reports an invalid value at `path`, for the reason `detail`.
pub open spec fn is_invalid_at(e: SerializeError, path: Seq<char>, detail: Seq<char>) -> bool {
    match e {
        SerializeError::Invalid { path: p, detail: d } => p@ == path && d@ == detail,
        _ => false,
    }
}

/// An atomic value with one canonical text.
pub trait SerializableValue {
    /// The canonical text of the value.
    spec fn value_text(&self) -> Seq<char>;

    /// Renders the canonical text of the value.
    fn serialize(&self) -> (r: String)
        ensures
            r@ == self.value_text(),
    ;
}

/// The attribute pairs handed to the writer for `a`.
fn attribute_pairs(a: &Vec<Attribute>) -> (r: Vec<(&'static str, &str)>)
    ensures
        pairs_view(r@) == written_attrs(attrs_view(a@)),
{
    let mut r: Vec<(&'static str, &str)> = Vec::new();
    let mut j: usize = 0;
    while j < a.len()
        invariant
            j <= a@.len(),
            pairs_view(r@) == written_attrs(attrs_view(a@.take(j as int))),
        decreases a@.len() - j,
    {
        let name = a[j].name.local_name();
        let value = a[j].value.as_str();
        let ghost prev = r@;
        r.push((name, value));
        assert(pairs_view(r@) =~= pairs_view(prev).push((name@, value@)));
        assert(a@.take(j as int + 1) =~= a@.take(j as int).push(a@[j as int]));
        assert(attrs_view(a@.take(j as int + 1)) =~= attrs_view(a@.take(j as int)).push(
            (a@[j as int].name, a@[j as int].value@),
        ));
        assert(written_attrs(attrs_view(a@.take(j as int + 1))) =~= written_attrs(
            attrs_view(a@.take(j as int)),
        ).push((attr_name(a@[j as int].name), a@[j as int].value@)));
        j = j + 1;
    }
    assert(a@.take(j as int) =~= a@);
    r
}

/// Writes one event through `out`.
fn write_event<W: std::io::Write>(out: &mut XmlOut<W>, e: &Event) -> (r: Result<(), xml::writer::Error>)
    ensures
        r is Ok ==> final(out).sent() == old(out).sent().push(written_of(e@)) && final(out).clean()
            == old(out).clean(),
        r is Err ==> final(out).sent() == old(out).sent(),
        final(out).config() == old(out).config(),
        final(out).from_empty() == old(out).from_empty(),
{
    match e {
        Event::StartDocument => {
            proof {
                reveal_strlit("UTF-8");
            }
            out.start_document(XmlVersion::Version10, "UTF-8", true)
        },
        Event::Start(tag, attributes) => {
            let attrs = attribute_pairs(attributes);
            let ns = tag.namespace_uri();
            let default_ns = if tag.declares_namespace() {
                Some(ns)
            } else {
                None
            };
            out.start_element(tag.local_name(), ns, None, &attrs, default_ns)
        },
        Event::End => out.end_element(),
    }
}

/// Writes `events` in order through `out`, stopping at the first failure,
/// whose error is handed back. On success every event was written; on failure
/// exactly those before the failing one were.
pub fn write_events<W: std::io::Write>(out: &mut XmlOut<W>, events: &Vec<Event>) -> (r: Result<
    (),
    xml::writer::Error,
>)
    ensures
        r is Ok ==> final(out).sent() == old(out).sent() + written_all(events_view(events@))
            && final(out).clean() == old(out).clean(),
        final(out).config() == old(out).config(),
        final(out).from_empty() == old(out).from_empty(),
        r is Err ==> exists|k: int|
            0 <= k < events@.len() && final(out).sent() == old(out).sent() + written_all(
                events_view(events@).take(k),
            ),
{
    let mut i: usize = 0;
    while i < events.len()
        invariant
            i <= events@.len(),
            out.sent() == old(out).sent() + written_all(events_view(events@).take(i as int)),
            out.clean() == old(out).clean(),
            out.config() == old(out).config(),
            out.from_empty() == old(out).from_empty(),
        decreases events@.len() - i,
    {
        let r = write_event(out, &events[i]);
        if let Err(e) = r {
            return Err(e);
        }
        assert(written_all(events_view(events@).take(i as int + 1)) =~= written_all(
            events_view(events@).take(i as int),
        ).push(written_of(events@[i as int]@)));
        i = i + 1;
    }
    assert(events_view(events@).take(i as int) =~= events_view(events@));
    Ok(())
}

} // verus!
