//! The XML events that a manifest is turned into, and their mathematical view.
use vstd::prelude::*;

verus! {

/// Namespace of the manifest's own elements.
pub const NS_MS_ASM_V1: &'static str = "urn:schemas-microsoft-com:asm.v1";

/// Namespace of the compatibility block.
pub const NS_MS_COMPAT_V1: &'static str = "urn:schemas-microsoft-com:compatibility.v1";

/// The elements a manifest may hold.
#[derive(Debug, Copy, Clone, PartialEq, Eq)]
pub enum Tag {
    Assembly,
    Compatibility,
    Application,
    MaxVersionTested,
    SupportedOs,
    Dependency,
    DependentAssembly,
    AssemblyIdentity,
}

/// The attributes a manifest element may carry.
#[derive(Debug, Copy, Clone, PartialEq, Eq)]
pub enum AttrName {
    ManifestVersion,
    Id,
    Type,
    Name,
    Language,
    ProcessorArchitecture,
    Version,
    PublicKeyToken,
}

/// Whether the element belongs to the compatibility namespace.
pub open spec fn in_compat_ns(t: Tag) -> bool {
    t == Tag::Compatibility || t == Tag::Application || t == Tag::MaxVersionTested
}

/// Whether the element declares its namespace as the default one for its subtree.
pub open spec fn declares_ns(t: Tag) -> bool {
    t == Tag::Assembly || t == Tag::Compatibility
}

/// Local name of an element.
pub open spec fn tag_name(t: Tag) -> Seq<char> {
    match t {
        Tag::Assembly => "assembly"@,
        Tag::Compatibility => "compatibility"@,
        Tag::Application => "application"@,
        Tag::MaxVersionTested => "maxversiontested"@,
        Tag::SupportedOs => "supportedOS"@,
        Tag::Dependency => "dependency"@,
        Tag::DependentAssembly => "dependentAssembly"@,
        Tag::AssemblyIdentity => "assemblyIdentity"@,
    }
}

/// Local name of an attribute.
pub open spec fn attr_name(a: AttrName) -> Seq<char> {
    match a {
        AttrName::ManifestVersion => "manifestVersion"@,
        AttrName::Id => "Id"@,
        AttrName::Type => "type"@,
        AttrName::Name => "name"@,
        AttrName::Language => "language"@,
        AttrName::ProcessorArchitecture => "processorArchitecture"@,
        AttrName::Version => "version"@,
        AttrName::PublicKeyToken => "publicKeyToken"@,
    }
}

impl Tag {
    /// Local name of the element.
    pub fn local_name(&self) -> (r: &'static str)
        ensures
            r@ == tag_name(*self),
    {
        match self {
            Tag::Assembly => "assembly",
            Tag::Compatibility => "compatibility",
            Tag::Application => "application",
            Tag::MaxVersionTested => "maxversiontested",
            Tag::SupportedOs => "supportedOS",
            Tag::Dependency => "dependency",
            Tag::DependentAssembly => "dependentAssembly",
            Tag::AssemblyIdentity => "assemblyIdentity",
        }
    }

    /// Namespace URI of the element and of its attributes.
    pub fn namespace_uri(&self) -> (r: &'static str)
        ensures
            in_compat_ns(*self) ==> r == NS_MS_COMPAT_V1,
            !in_compat_ns(*self) ==> r == NS_MS_ASM_V1,
    {
        match self {
            Tag::Compatibility | Tag::Application | Tag::MaxVersionTested => NS_MS_COMPAT_V1,
            _ => NS_MS_ASM_V1,
        }
    }

    /// Whether the element declares its namespace as the default one.
    pub fn declares_namespace(&self) -> (r: bool)
        ensures
            r == declares_ns(*self),
    {
        match self {
            Tag::Assembly | Tag::Compatibility => true,
            _ => false,
        }
    }
}

impl AttrName {
    /// Local name of the attribute.
    pub fn local_name(&self) -> (r: &'static str)
        ensures
            r@ == attr_name(*self),
    {
        match self {
            AttrName::ManifestVersion => "manifestVersion",
            AttrName::Id => "Id",
            AttrName::Type => "type",
            AttrName::Name => "name",
            AttrName::Language => "language",
            AttrName::ProcessorArchitecture => "processorArchitecture",
            AttrName::Version => "version",
            AttrName::PublicKeyToken => "publicKeyToken",
        }
    }
}

/// One attribute of an element.
#[derive(Debug)]
pub struct Attribute {
    pub name: AttrName,
    pub value: String,
}

/// One XML event.
#[derive(Debug)]
pub enum Event {
    /// The document declaration.
    StartDocument,
    /// An element opens, with its attributes in order.
    Start(Tag, Vec<Attribute>),
    /// The innermost open element closes.
    End,
}

/// The mathematical view of an event: attributes as (name, text) pairs.
pub enum EventView {
    StartDocument,
    Start(Tag, Seq<(AttrName, Seq<char>)>),
    End,
}

/// View of a list of attributes.
pub open spec fn attrs_view(a: Seq<Attribute>) -> Seq<(AttrName, Seq<char>)> {
    a.map_values(|x: Attribute| (x.name, x.value@))
}

impl View for Event {
    type V = EventView;

    open spec fn view(&self) -> EventView {
        match self {
            Event::StartDocument => EventView::StartDocument,
            Event::Start(t, a) => EventView::Start(*t, attrs_view(a@)),
            Event::End => EventView::End,
        }
    }
}

/// View of a list of events.
pub open spec fn events_view(e: Seq<Event>) -> Seq<EventView> {
    e.map_values(|x: Event| x@)
}

/// An element with the given attributes and no content.
pub open spec fn leaf(t: Tag, a: Seq<(AttrName, Seq<char>)>) -> Seq<EventView> {
    seq![EventView::Start(t, a), EventView::End]
}

/// Appends `e` to `out`.
pub fn push_event(out: &mut Vec<Event>, e: Event)
    ensures
        events_view(final(out)@) == events_view(old(out)@).push(e@),
{
    out.push(e);
    assert(events_view(out@) =~= events_view(old(out)@).push(e@));
}

/// Appends `e` to `a`.
pub fn push_attr(a: &mut Vec<Attribute>, name: AttrName, value: String)
    ensures
        attrs_view(final(a)@) == attrs_view(old(a)@).push((name, value@)),
{
    a.push(Attribute { name, value });
    assert(attrs_view(a@) =~= attrs_view(old(a)@).push((name, value@)));
}

} // verus!
