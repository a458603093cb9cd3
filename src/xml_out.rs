//! An XML writer that records what it has accepted.
use crate::events::{
    attr_name, declares_ns, in_compat_ns, tag_name, AttrName, EventView, Tag, NS_MS_ASM_V1, NS_MS_COMPAT_V1,
};
use crate::writer::{
    create_writer, into_sink, read_config, write_end_element, write_start_document, write_start_element,
};
use vstd::prelude::*;
use vstd::utf8::valid_utf8;
use xml::common::XmlVersion;
use xml::writer::{EmitterConfig, EventWriter};

verus! {

/// The settings of an xml-rs writer configuration.
pub struct ConfigModel {
    pub line_separator: String,
    pub indent_string: String,
    pub perform_indent: bool,
    pub perform_escaping: bool,
    pub write_document_declaration: bool,
    pub normalize_empty_elements: bool,
    pub cdata_to_characters: bool,
    pub keep_element_names_stack: bool,
    pub autopad_comments: bool,
    pub pad_self_closing: bool,
}

/// What one accepted write handed to the XML writer.
pub enum Written {
    /// The document declaration: XML version, encoding label, standalone flag.
    Declaration(XmlVersion, Seq<char>, bool),
    /// A start tag: local name; namespace URI of the element and of its
    /// attributes; name prefix of the element and of its attributes; the
    /// attributes (name, value) in order; the namespace declared as default,
    /// if any.
    Start(Seq<char>, Seq<char>, Option<Seq<char>>, Seq<(Seq<char>, Seq<char>)>, Option<Seq<char>>),
    /// An end tag for the innermost open element.
    End,
}

/// The bytes xml-rs writes into a sink that starts empty, configured by
/// `cfg`, for the writes `w`, all accepted.
pub uninterp spec fn xml_document(cfg: ConfigModel, w: Seq<Written>) -> Seq<u8>;

/// Namespace URI of an element and of its attributes.
pub open spec fn tag_ns(t: Tag) -> Seq<char> {
    if in_compat_ns(t) {
        NS_MS_COMPAT_V1@
    } else {
        NS_MS_ASM_V1@
    }
}

/// The attributes as handed to the writer: local names and values.
pub open spec fn written_attrs(a: Seq<(AttrName, Seq<char>)>) -> Seq<(Seq<char>, Seq<char>)> {
    a.map_values(|p: (AttrName, Seq<char>)| (attr_name(p.0), p.1))
}

/// What writing one event hands to the writer: XML 1.0 in UTF-8, standalone;
/// names without prefix.
pub open spec fn written_of(e: EventView) -> Written {
    match e {
        EventView::StartDocument => Written::Declaration(XmlVersion::Version10, "UTF-8"@, true),
        EventView::Start(t, a) => Written::Start(
            tag_name(t),
            tag_ns(t),
            None,
            written_attrs(a),
            if declares_ns(t) {
                Some(tag_ns(t))
            } else {
                None
            },
        ),
        EventView::End => Written::End,
    }
}

/// What writing the events of `s`, in order, hands to the writer.
pub open spec fn written_all(s: Seq<EventView>) -> Seq<Written> {
    s.map_values(|e: EventView| written_of(e))
}

/// View of attribute pairs as handed over.
pub open spec fn pairs_view(a: Seq<(&str, &str)>) -> Seq<(Seq<char>, Seq<char>)> {
    a.map_values(|p: (&str, &str)| (p.0@, p.1@))
}

/// View of an optional text.
pub open spec fn opt_view(o: Option<&str>) -> Option<Seq<char>> {
    match o {
        Some(u) => Some(u@),
        None => None,
    }
}

/// An xml-rs event writer over `W`, with the record of the writes it
/// accepted, in order, the settings it was made with, whether every write
/// was accepted, and whether its sink started as an empty buffer.
#[verifier::reject_recursive_types(W)]
pub struct XmlOut<W> {
    writer: EventWriter<W>,
    sent: Ghost<Seq<Written>>,
    config: Ghost<ConfigModel>,
    clean: Ghost<bool>,
    from_empty: Ghost<bool>,
}

impl<W> XmlOut<W> {
    /// The writes accepted so far, in order.
    pub closed spec fn sent(&self) -> Seq<Written> {
        self.sent@
    }

    /// The settings the writer was made with.
    pub closed spec fn config(&self) -> ConfigModel {
        self.config@
    }

    /// Whether no write has failed.
    pub closed spec fn clean(&self) -> bool {
        self.clean@
    }

    /// Whether the sink started as an empty buffer.
    pub closed spec fn from_empty(&self) -> bool {
        self.from_empty@
    }
}

impl XmlOut<Vec<u8>> {
    /// A writer into a new, empty buffer, configured by `config`.
    pub fn in_memory(config: EmitterConfig) -> (r: XmlOut<Vec<u8>>)
        ensures
            r.sent() == Seq::<Written>::empty(),
            r.clean(),
            r.from_empty(),
    {
        let model = read_config(&config);
        XmlOut {
            writer: create_writer(config, Vec::new()),
            sent: Ghost(Seq::empty()),
            config: Ghost(model),
            clean: Ghost(true),
            from_empty: Ghost(true),
        }
    }
}

/// Relies on xml-rs writing each accepted event into the sink from `str`
/// data, as its configuration says: the buffer of a writer that started empty
/// and had every write accepted holds the rendering of those writes, in UTF-8.
#[verifier::external_body]
pub(crate) fn buffer_bytes(out: XmlOut<Vec<u8>>) -> (r: Vec<u8>)
    requires
        out.clean(),
        out.from_empty(),
    ensures
        r@ == xml_document(out.config(), out.sent()),
        valid_utf8(r@),
{
    out.writer.into_inner()
}

impl<W: std::io::Write> XmlOut<W> {
    /// A writer over `sink`, configured by `config`, that has written nothing.
    pub fn new(config: EmitterConfig, sink: W) -> (r: XmlOut<W>)
        ensures
            r.sent() == Seq::<Written>::empty(),
            r.clean(),
    {
        let model = read_config(&config);
        XmlOut {
            writer: create_writer(config, sink),
            sent: Ghost(Seq::empty()),
            config: Ghost(model),
            clean: Ghost(true),
            from_empty: Ghost(false),
        }
    }

    /// Hands the sink back.
    pub fn into_inner(self) -> W {
        into_sink(self.writer)
    }

    /// Writes the document declaration. A failed write is not recorded.
    pub fn start_document(&mut self, version: XmlVersion, encoding: &str, standalone: bool) -> (r: Result<
        (),
        xml::writer::Error,
    >)
        ensures
            r is Ok ==> final(self).sent() == old(self).sent().push(
                Written::Declaration(version, encoding@, standalone),
            ) && final(self).clean() == old(self).clean(),
            r is Err ==> final(self).sent() == old(self).sent() && !final(self).clean(),
            final(self).config() == old(self).config(),
            final(self).from_empty() == old(self).from_empty(),
    {
        let r = write_start_document(&mut self.writer, version, encoding, standalone);
        if r.is_ok() {
            self.sent = Ghost(self.sent@.push(Written::Declaration(version, encoding@, standalone)));
        } else {
            self.clean = Ghost(false);
        }
        r
    }

    /// Writes a start tag. A failed write is not recorded.
    pub fn start_element(
        &mut self,
        local: &str,
        ns: &str,
        prefix: Option<&str>,
        attrs: &Vec<(&str, &str)>,
        default_ns: Option<&str>,
    ) -> (r: Result<(), xml::writer::Error>)
        ensures
            r is Ok ==> final(self).sent() == old(self).sent().push(
                Written::Start(local@, ns@, opt_view(prefix), pairs_view(attrs@), opt_view(default_ns)),
            ) && final(self).clean() == old(self).clean(),
            r is Err ==> final(self).sent() == old(self).sent() && !final(self).clean(),
            final(self).config() == old(self).config(),
            final(self).from_empty() == old(self).from_empty(),
    {
        let r = write_start_element(&mut self.writer, local, ns, prefix, attrs, default_ns);
        if r.is_ok() {
            self.sent = Ghost(
                self.sent@.push(
                    Written::Start(local@, ns@, opt_view(prefix), pairs_view(attrs@), opt_view(default_ns)),
                ),
            );
        } else {
            self.clean = Ghost(false);
        }
        r
    }

    /// Writes the end tag of the innermost open element. A failed write is
    /// not recorded.
    pub fn end_element(&mut self) -> (r: Result<(), xml::writer::Error>)
        ensures
            r is Ok ==> final(self).sent() == old(self).sent().push(Written::End) && final(self).clean()
                == old(self).clean(),
            r is Err ==> final(self).sent() == old(self).sent() && !final(self).clean(),
            final(self).config() == old(self).config(),
            final(self).from_empty() == old(self).from_empty(),
    {
        let r = write_end_element(&mut self.writer);
        if r.is_ok() {
            self.sent = Ghost(self.sent@.push(Written::End));
        } else {
            self.clean = Ghost(false);
        }
        r
    }
}

} // verus!
