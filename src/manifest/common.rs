//! Types shared by the manifest's blocks: identity of an assembly and its parts.
use crate::debug::Path;
use crate::events::{attrs_view, events_view, push_attr, push_event, AttrName, Attribute, Event, EventView, Tag};
use crate::serialize::{SerializableValue, SerializeResult};
use crate::text::{decimal, decimal_string, hex_bytes, hex_string};
use vstd::prelude::*;
use vstd::string::*;

verus! {

/// Type of assembly. Only win32 exists.
#[derive(Debug, PartialEq, Eq, Copy, Clone)]
pub enum AssemblyType {
    Win32,
}

impl SerializableValue for AssemblyType {
    open spec fn value_text(&self) -> Seq<char> {
        "win32"@
    }

    fn serialize(&self) -> (r: String) {
        String::from_str("win32")
    }
}

/// Supported process architecture.
#[derive(Debug, PartialEq, Eq, Copy, Clone)]
pub enum ProcessArchitecture {
    /// x86
    X86,
    /// x86_64 / ia64 / amd64
    X86_64,
}

impl SerializableValue for ProcessArchitecture {
    /// The 64-bit form keeps the legacy token the schema knows.
    open spec fn value_text(&self) -> Seq<char> {
        match self {
            ProcessArchitecture::X86 => "x86"@,
            ProcessArchitecture::X86_64 => "ia64"@,
        }
    }

    fn serialize(&self) -> (r: String) {
        match self {
            ProcessArchitecture::X86 => String::from_str("x86"),
            ProcessArchitecture::X86_64 => String::from_str("ia64"),
        }
    }
}

/// Specific version of an assembly.
#[derive(Debug, PartialEq, Eq, Copy, Clone)]
pub struct AssemblyVersion {
    pub major: u32,
    pub minor: u32,
    pub build: u32,
    pub revision: Option<u32>,
}

/// The revision as rendered: zero where it is absent.
pub open spec fn revision_or_zero(v: AssemblyVersion) -> nat {
    match v.revision {
        Some(r) => r as nat,
        None => 0,
    }
}

/// `major.minor.build.revision`, each part in decimal.
pub open spec fn version_text(v: AssemblyVersion) -> Seq<char> {
    decimal(v.major as nat) + seq!['.'] + decimal(v.minor as nat) + seq!['.'] + decimal(
        v.build as nat,
    ) + seq!['.'] + decimal(revision_or_zero(v))
}

impl AssemblyVersion {
    pub fn new(major: u32, minor: u32, build: u32, revision: Option<u32>) -> (r: AssemblyVersion)
        ensures
            r == (AssemblyVersion { major, minor, build, revision }),
    {
        AssemblyVersion { major, minor, build, revision }
    }
}

impl SerializableValue for AssemblyVersion {
    open spec fn value_text(&self) -> Seq<char> {
        version_text(*self)
    }

    fn serialize(&self) -> (r: String) {
        let revision: u32 = match self.revision {
            Some(r) => r,
            None => 0,
        };
        proof {
            reveal_strlit(".");
        }
        let mut s = decimal_string(self.major as u64);
        s.append(".");
        s.append(decimal_string(self.minor as u64).as_str());
        s.append(".");
        s.append(decimal_string(self.build as u64).as_str());
        s.append(".");
        s.append(decimal_string(revision as u64).as_str());
        s
    }
}

/// The last 8 bytes of the SHA-1 hash of the public key that signs the assembly.
#[derive(Debug, PartialEq, Eq, Copy, Clone)]
pub struct PublicKeyToken(pub [u8; 8]);

impl SerializableValue for PublicKeyToken {
    /// Sixteen upper-case hexadecimal digits.
    open spec fn value_text(&self) -> Seq<char> {
        hex_bytes(self.0@)
    }

    fn serialize(&self) -> (r: String) {
        hex_string(&self.0)
    }
}

/// Identity of an assembly: the manifest's own subject or one it depends on.
#[derive(Debug, PartialEq, Eq, Clone)]
pub struct AssemblyIdentity {
    pub assembly_type: AssemblyType,
    pub name: String,
    /// Language, where the assembly is language-specific.
    pub language: Option<String>,
    pub process_architecture: Option<ProcessArchitecture>,
    pub version: Option<AssemblyVersion>,
    pub public_key_token: Option<PublicKeyToken>,
}

/// The language attribute, where a language is set.
pub open spec fn language_attr(id: AssemblyIdentity) -> Seq<(AttrName, Seq<char>)> {
    match id.language {
        Some(l) => seq![(AttrName::Language, l@)],
        None => Seq::empty(),
    }
}

/// The architecture attribute, where an architecture is set.
pub open spec fn architecture_attr(id: AssemblyIdentity) -> Seq<(AttrName, Seq<char>)> {
    match id.process_architecture {
        Some(a) => seq![(AttrName::ProcessorArchitecture, a.value_text())],
        None => Seq::empty(),
    }
}

/// The version attribute, where a version is set.
pub open spec fn version_attr(id: AssemblyIdentity) -> Seq<(AttrName, Seq<char>)> {
    match id.version {
        Some(v) => seq![(AttrName::Version, v.value_text())],
        None => Seq::empty(),
    }
}

/// The key token attribute, where a token is set.
pub open spec fn token_attr(id: AssemblyIdentity) -> Seq<(AttrName, Seq<char>)> {
    match id.public_key_token {
        Some(k) => seq![(AttrName::PublicKeyToken, k.value_text())],
        None => Seq::empty(),
    }
}

/// The attributes of an identity element, in order: type, name, then those of
/// language, architecture, version and key token that are present.
pub open spec fn identity_attrs(id: AssemblyIdentity) -> Seq<(AttrName, Seq<char>)> {
    seq![(AttrName::Type, id.assembly_type.value_text()), (AttrName::Name, id.name@)]
        + language_attr(id) + architecture_attr(id) + version_attr(id) + token_attr(id)
}

/// The events of an identity: one element without content.
pub open spec fn identity_events(id: AssemblyIdentity) -> Seq<EventView> {
    seq![EventView::Start(Tag::AssemblyIdentity, identity_attrs(id)), EventView::End]
}

impl AssemblyIdentity {
    /// A win32 identity with the given name and no optional part.
    pub fn new(name: &str) -> (r: AssemblyIdentity)
        ensures
            r.assembly_type == AssemblyType::Win32,
            r.name@ == name@,
            r.language is None,
            r.process_architecture is None,
            r.version is None,
            r.public_key_token is None,
    {
        AssemblyIdentity {
            assembly_type: AssemblyType::Win32,
            name: String::from_str(name),
            language: None,
            process_architecture: None,
            version: None,
            public_key_token: None,
        }
    }

    /// Appends the identity's element to `out`. It never fails; `path` is its
    /// location, for reports.
    pub fn serialize(&self, out: &mut Vec<Event>, path: &Path) -> (r: SerializeResult<()>)
        ensures
            r is Ok,
            events_view(final(out)@) == events_view(old(out)@) + identity_events(*self),
    {
        let mut attributes: Vec<Attribute> = Vec::new();
        push_attr(&mut attributes, AttrName::Type, self.assembly_type.serialize());
        push_attr(&mut attributes, AttrName::Name, self.name.clone());
        let ghost base = attrs_view(attributes@);
        assert(base =~= seq![(AttrName::Type, self.assembly_type.value_text()), (AttrName::Name, self.name@)]);
        match &self.language {
            Some(l) => push_attr(&mut attributes, AttrName::Language, l.clone()),
            None => {},
        }
        let ghost a1 = attrs_view(attributes@);
        assert(a1 =~= base + language_attr(*self));
        match &self.process_architecture {
            Some(a) => push_attr(&mut attributes, AttrName::ProcessorArchitecture, a.serialize()),
            None => {},
        }
        let ghost a2 = attrs_view(attributes@);
        assert(a2 =~= a1 + architecture_attr(*self));
        match &self.version {
            Some(v) => push_attr(&mut attributes, AttrName::Version, v.serialize()),
            None => {},
        }
        let ghost a3 = attrs_view(attributes@);
        assert(a3 =~= a2 + version_attr(*self));
        match &self.public_key_token {
            Some(k) => push_attr(&mut attributes, AttrName::PublicKeyToken, k.serialize()),
            None => {},
        }
        assert(attrs_view(attributes@) =~= identity_attrs(*self));
        let ghost before = events_view(out@);
        push_event(out, Event::Start(Tag::AssemblyIdentity, attributes));
        push_event(out, Event::End);
        assert(events_view(out@) =~= before + identity_events(*self));
        Ok(())
    }
}

} // verus!
