//! The compatibility block: supported OS families and the newest version tested.
use super::common::AssemblyVersion;
use crate::debug::{lemma_path_text_push, path_text, Path, PathNode};
use crate::events::{events_view, leaf, push_attr, push_event, AttrName, Attribute, Event, EventView, Tag};
use crate::serialize::{is_invalid_at, SerializableValue, SerializeError, SerializeResult};
use vstd::prelude::*;
use vstd::string::*;

verus! {

/// A Windows release family.
///
/// See <https://docs.microsoft.com/en-us/windows/win32/sysinfo/targeting-your-application-at-windows-8-1>
#[derive(Debug, Hash, PartialEq, Eq, Copy, Clone)]
pub enum SupportedOS {
    /// Windows Server 2016, Windows Server 2019
    Windows10,
    /// Windows Server 2012 R2
    Windows8_1,
    /// Windows Server 2012
    Windows8,
    /// Windows Server 2008 R2
    Windows7,
    /// Windows Server 2008
    WindowsVista,
}

impl SerializableValue for SupportedOS {
    /// The GUID that stands for the family.
    open spec fn value_text(&self) -> Seq<char> {
        match self {
            SupportedOS::Windows10 => "{8e0f7a12-bfb3-4fe8-b9a5-48fd50a15a9a}"@,
            SupportedOS::Windows8_1 => "{1f676c76-80e1-4239-95bb-83d0f6d0da78}"@,
            SupportedOS::Windows8 => "{4a2f28e3-53b9-4441-ba9c-d69d4a4a6e38}"@,
            SupportedOS::Windows7 => "{35138b9a-5d96-4fbd-8e2d-a2440225f93a}"@,
            SupportedOS::WindowsVista => "{e2011457-1546-43c5-a5fe-008deee3d3f0}"@,
        }
    }

    fn serialize(&self) -> (r: String) {
        match self {
            SupportedOS::Windows10 => String::from_str("{8e0f7a12-bfb3-4fe8-b9a5-48fd50a15a9a}"),
            SupportedOS::Windows8_1 => String::from_str("{1f676c76-80e1-4239-95bb-83d0f6d0da78}"),
            SupportedOS::Windows8 => String::from_str("{4a2f28e3-53b9-4441-ba9c-d69d4a4a6e38}"),
            SupportedOS::Windows7 => String::from_str("{35138b9a-5d96-4fbd-8e2d-a2440225f93a}"),
            SupportedOS::WindowsVista => String::from_str("{e2011457-1546-43c5-a5fe-008deee3d3f0}"),
        }
    }
}

/// Every family, in the order in which the block lists them.
pub open spec fn all_os() -> Seq<SupportedOS> {
    seq![
        SupportedOS::Windows10,
        SupportedOS::Windows8_1,
        SupportedOS::Windows8,
        SupportedOS::Windows7,
        SupportedOS::WindowsVista,
    ]
}

/// A set of release families. Each family is in it at most once.
#[derive(Debug, PartialEq, Eq, Copy, Clone)]
pub struct SupportedOsSet {
    windows10: bool,
    windows8_1: bool,
    windows8: bool,
    windows7: bool,
    windows_vista: bool,
}

impl SupportedOsSet {
    /// Whether `o` is in the set.
    pub closed spec fn has(&self, o: SupportedOS) -> bool {
        match o {
            SupportedOS::Windows10 => self.windows10,
            SupportedOS::Windows8_1 => self.windows8_1,
            SupportedOS::Windows8 => self.windows8,
            SupportedOS::Windows7 => self.windows7,
            SupportedOS::WindowsVista => self.windows_vista,
        }
    }
}

impl View for SupportedOsSet {
    type V = Set<SupportedOS>;

    open spec fn view(&self) -> Set<SupportedOS> {
        Set::new(|o: SupportedOS| self.has(o))
    }
}

/// The members of `s` among `l`, in the order of `l`.
pub open spec fn members_in(s: Set<SupportedOS>, l: Seq<SupportedOS>) -> Seq<SupportedOS>
    decreases l.len(),
{
    if l.len() == 0 {
        Seq::empty()
    } else if s.contains(l.last()) {
        members_in(s, l.drop_last()).push(l.last())
    } else {
        members_in(s, l.drop_last())
    }
}

/// The members of `s` in the order in which the block lists them.
pub open spec fn os_list(s: Set<SupportedOS>) -> Seq<SupportedOS> {
    members_in(s, all_os())
}

proof fn lemma_push_contains(m: Seq<SupportedOS>, x: SupportedOS)
    ensures
        forall|o: SupportedOS| #[trigger] m.push(x).contains(o) <==> (m.contains(o) || o == x),
{
    assert forall|o: SupportedOS| #[trigger] m.push(x).contains(o) <==> (m.contains(o) || o == x) by {
        if m.push(x).contains(o) {
            let k = choose|k: int| 0 <= k < m.push(x).len() && m.push(x)[k] == o;
            if k < m.len() {
                assert(m[k] == o);
            }
        }
        if m.contains(o) {
            let k = choose|k: int| 0 <= k < m.len() && m[k] == o;
            assert(m.push(x)[k] == o);
        }
        if o == x {
            assert(m.push(x)[m.len() as int] == o);
        }
    }
}

proof fn lemma_members(s: Set<SupportedOS>, l: Seq<SupportedOS>)
    ensures
        forall|o: SupportedOS| members_in(s, l).contains(o) <==> (l.contains(o) && s.contains(o)),
        l.no_duplicates() ==> members_in(s, l).no_duplicates(),
    decreases l.len(),
{
    if l.len() > 0 {
        let p = l.drop_last();
        lemma_members(s, p);
        assert(l =~= p.push(l.last()));
        lemma_push_contains(p, l.last());
        lemma_push_contains(members_in(s, p), l.last());
        if l.no_duplicates() {
            assert(p.no_duplicates()) by {
                assert forall|i: int, j: int| 0 <= i < p.len() && 0 <= j < p.len() && i != j implies p[i] != p[j] by {
                    assert(p[i] == l[i] && p[j] == l[j]);
                }
            }
            assert(!p.contains(l.last())) by {
                if p.contains(l.last()) {
                    let k = choose|k: int| 0 <= k < p.len() && p[k] == l.last();
                    assert(l[k] == l[l.len() - 1]);
                }
            }
        }
    }
}

/// The listed members of a set are its members, each once.
pub proof fn lemma_os_list(s: Set<SupportedOS>)
    ensures
        os_list(s).no_duplicates(),
        forall|o: SupportedOS| os_list(s).contains(o) <==> s.contains(o),
        s.finite(),
        os_list(s).len() == s.len(),
{
    lemma_members(s, all_os());
    assert forall|o: SupportedOS| all_os().contains(o) by {
        match o {
            SupportedOS::Windows10 => assert(all_os()[0] == o),
            SupportedOS::Windows8_1 => assert(all_os()[1] == o),
            SupportedOS::Windows8 => assert(all_os()[2] == o),
            SupportedOS::Windows7 => assert(all_os()[3] == o),
            SupportedOS::WindowsVista => assert(all_os()[4] == o),
        }
    }
    assert(all_os().no_duplicates());
    assert(os_list(s).to_set() =~= s);
    os_list(s).unique_seq_to_set();
}

impl SupportedOsSet {
    /// The empty set.
    pub fn new() -> (r: SupportedOsSet)
        ensures
            r@ == Set::<SupportedOS>::empty(),
    {
        let r = SupportedOsSet {
            windows10: false,
            windows8_1: false,
            windows8: false,
            windows7: false,
            windows_vista: false,
        };
        assert(r@ =~= Set::<SupportedOS>::empty());
        r
    }

    /// Whether `o` is in the set.
    pub fn contains(&self, o: SupportedOS) -> (r: bool)
        ensures
            r == self@.contains(o),
    {
        match o {
            SupportedOS::Windows10 => self.windows10,
            SupportedOS::Windows8_1 => self.windows8_1,
            SupportedOS::Windows8 => self.windows8,
            SupportedOS::Windows7 => self.windows7,
            SupportedOS::WindowsVista => self.windows_vista,
        }
    }

    /// Adds `o`; true where it was not in the set before.
    pub fn insert(&mut self, o: SupportedOS) -> (r: bool)
        ensures
            final(self)@ == old(self)@.insert(o),
            r == !old(self)@.contains(o),
    {
        let r = !self.contains(o);
        match o {
            SupportedOS::Windows10 => self.windows10 = true,
            SupportedOS::Windows8_1 => self.windows8_1 = true,
            SupportedOS::Windows8 => self.windows8 = true,
            SupportedOS::Windows7 => self.windows7 = true,
            SupportedOS::WindowsVista => self.windows_vista = true,
        }
        assert(self@ =~= old(self)@.insert(o));
        r
    }

    /// Takes `o` out; true where it was in the set.
    pub fn remove(&mut self, o: SupportedOS) -> (r: bool)
        ensures
            final(self)@ == old(self)@.remove(o),
            r == old(self)@.contains(o),
    {
        let r = self.contains(o);
        match o {
            SupportedOS::Windows10 => self.windows10 = false,
            SupportedOS::Windows8_1 => self.windows8_1 = false,
            SupportedOS::Windows8 => self.windows8 = false,
            SupportedOS::Windows7 => self.windows7 = false,
            SupportedOS::WindowsVista => self.windows_vista = false,
        }
        assert(self@ =~= old(self)@.remove(o));
        r
    }

    /// The members, in the order in which the block lists them.
    pub fn members(&self) -> (r: Vec<SupportedOS>)
        ensures
            r@ == os_list(self@),
    {
        let all: [SupportedOS; 5] = [
            SupportedOS::Windows10,
            SupportedOS::Windows8_1,
            SupportedOS::Windows8,
            SupportedOS::Windows7,
            SupportedOS::WindowsVista,
        ];
        assert(all@ =~= all_os());
        let mut r: Vec<SupportedOS> = Vec::new();
        let mut i: usize = 0;
        while i < 5
            invariant
                i <= 5,
                all@ == all_os(),
                r@ == members_in(self@, all_os().take(i as int)),
            decreases 5 - i,
        {
            assert(all_os().take(i as int + 1).drop_last() =~= all_os().take(i as int));
            if self.contains(all[i]) {
                r.push(all[i]);
            }
            i = i + 1;
        }
        assert(all_os().take(5) =~= all_os());
        r
    }

    /// The number of members.
    pub fn len(&self) -> (r: usize)
        ensures
            r == self@.len(),
    {
        proof {
            lemma_os_list(self@);
        }
        self.members().len()
    }

    /// Whether the set has no member.
    pub fn is_empty(&self) -> (r: bool)
        ensures
            r == (self@ == Set::<SupportedOS>::empty()),
    {
        let r = !self.windows10 && !self.windows8_1 && !self.windows8 && !self.windows7
            && !self.windows_vista;
        if r {
            assert(self@ =~= Set::<SupportedOS>::empty());
        } else {
            assert(self@.contains(SupportedOS::Windows10) || self@.contains(SupportedOS::Windows8_1)
                || self@.contains(SupportedOS::Windows8) || self@.contains(SupportedOS::Windows7)
                || self@.contains(SupportedOS::WindowsVista));
        }
        r
    }
}

impl Default for SupportedOsSet {
    fn default() -> (r: SupportedOsSet)
        ensures
            r@ == Set::<SupportedOS>::empty(),
    {
        SupportedOsSet::new()
    }
}

/// Compatibility of an assembly with Windows releases.
#[derive(Debug, Clone, PartialEq)]
pub struct Compatibility {
    /// Supported release families.
    pub supported_os: SupportedOsSet,
    /// The newest Windows version the application was tested against.
    /// It may be set only together with at least one supported family.
    pub max_version_tested: Option<AssemblyVersion>,
}

impl Default for Compatibility {
    fn default() -> (r: Compatibility)
        ensures
            r.supported_os@ == Set::<SupportedOS>::empty(),
            r.max_version_tested is None,
    {
        Compatibility { supported_os: SupportedOsSet::new(), max_version_tested: None }
    }
}

/// Whether the block can be written: a tested version needs a supported family.
pub open spec fn compat_valid(c: Compatibility) -> bool {
    !(c.supported_os@ == Set::<SupportedOS>::empty() && c.max_version_tested is Some)
}

/// The OS elements for the families of `l`, in order.
pub open spec fn os_elements(l: Seq<SupportedOS>) -> Seq<EventView>
    decreases l.len(),
{
    if l.len() == 0 {
        Seq::empty()
    } else {
        os_elements(l.drop_last()) + leaf(Tag::SupportedOs, seq![(AttrName::Id, l.last().value_text())])
    }
}

/// The tested-version element, where a version is set.
pub open spec fn max_version_events(c: Compatibility) -> Seq<EventView> {
    match c.max_version_tested {
        Some(v) => leaf(Tag::MaxVersionTested, seq![(AttrName::Id, v.value_text())]),
        None => Seq::empty(),
    }
}

/// The events of a valid block: nothing without a supported family; else the
/// compatibility and application elements around the tested version, if any,
/// and one element per supported family.
pub open spec fn compat_events(c: Compatibility) -> Seq<EventView> {
    if c.supported_os@ == Set::<SupportedOS>::empty() {
        Seq::empty()
    } else {
        seq![EventView::Start(Tag::Compatibility, Seq::empty()), EventView::Start(Tag::Application, Seq::empty())]
            + max_version_events(c) + os_elements(os_list(c.supported_os@)) + seq![EventView::End, EventView::End]
    }
}

/// Name of the tested-version field in locations.
pub open spec fn max_version_field() -> Seq<char> {
    "maxversion_tested"@
}

/// Why a tested version without a supported family is refused.
pub open spec fn max_version_detail() -> Seq<char> {
    "maxversion_tested requires at least one supported_os"@
}

impl Compatibility {
    /// Appends the block's events to `out`, or reports a tested version set
    /// without a supported family; `path` is the block's location.
    pub fn serialize(&self, out: &mut Vec<Event>, path: &Path) -> (r: SerializeResult<()>)
        ensures
            compat_valid(*self) ==> r is Ok && events_view(final(out)@) == events_view(old(out)@)
                + compat_events(*self),
            !compat_valid(*self) ==> r is Err && is_invalid_at(
                r->Err_0,
                path_text(path@) + seq!['.'] + max_version_field(),
                max_version_detail(),
            ) && final(out)@ == old(out)@,
    {
        if self.supported_os.is_empty() {
            if self.max_version_tested.is_some() {
                let at = path.appended(PathNode::Named("maxversion_tested"));
                proof {
                    lemma_path_text_push(path@, PathNode::Named("maxversion_tested"));
                }
                return Err(
                    SerializeError::Invalid {
                        path: at.render(),
                        detail: String::from_str("maxversion_tested requires at least one supported_os"),
                    },
                );
            } else {
                assert(events_view(out@) =~= events_view(out@) + compat_events(*self));
                return Ok(());
            }
        }
        let ghost start = events_view(out@);
        push_event(out, Event::Start(Tag::Compatibility, Vec::new()));
        push_event(out, Event::Start(Tag::Application, Vec::new()));
        assert(events_view(out@) =~= start + seq![EventView::Start(Tag::Compatibility, Seq::empty()), EventView::Start(Tag::Application, Seq::empty())]) by {
            assert(crate::events::attrs_view(Seq::<Attribute>::empty()) =~= Seq::empty());
        }
        match &self.max_version_tested {
            Some(v) => {
                let mut attributes: Vec<Attribute> = Vec::new();
                push_attr(&mut attributes, AttrName::Id, v.serialize());
                assert(crate::events::attrs_view(attributes@) =~= seq![(AttrName::Id, v.value_text())]);
                push_event(out, Event::Start(Tag::MaxVersionTested, attributes));
                push_event(out, Event::End);
            },
            None => {},
        }
        let ghost head = events_view(out@);
        assert(head =~= start + seq![EventView::Start(Tag::Compatibility, Seq::empty()), EventView::Start(Tag::Application, Seq::empty())] + max_version_events(*self));
        let all: [SupportedOS; 5] = [
            SupportedOS::Windows10,
            SupportedOS::Windows8_1,
            SupportedOS::Windows8,
            SupportedOS::Windows7,
            SupportedOS::WindowsVista,
        ];
        assert(all@ =~= all_os());
        let mut i: usize = 0;
        while i < 5
            invariant
                i <= 5,
                all@ == all_os(),
                events_view(out@) == head + os_elements(members_in(self.supported_os@, all_os().take(i as int))),
            decreases 5 - i,
        {
            let o = all[i];
            assert(all_os().take(i as int + 1).drop_last() =~= all_os().take(i as int));
            if self.supported_os.contains(o) {
                let mut attributes: Vec<Attribute> = Vec::new();
                push_attr(&mut attributes, AttrName::Id, o.serialize());
                assert(crate::events::attrs_view(attributes@) =~= seq![(AttrName::Id, o.value_text())]);
                let ghost before = events_view(out@);
                push_event(out, Event::Start(Tag::SupportedOs, attributes));
                push_event(out, Event::End);
                let ghost l = members_in(self.supported_os@, all_os().take(i as int + 1));
                assert(l.drop_last() =~= members_in(self.supported_os@, all_os().take(i as int)));
                assert(events_view(out@) =~= before + leaf(Tag::SupportedOs, seq![(AttrName::Id, o.value_text())]));
            }
            i = i + 1;
        }
        assert(all_os().take(5) =~= all_os());
        push_event(out, Event::End);
        push_event(out, Event::End);
        assert(events_view(out@) =~= start + compat_events(*self));
        Ok(())
    }
}

} // verus!
