//! The manifest and its blocks.
use crate::debug::{Path, PathNode};
use crate::events::{events_view, push_attr, push_event, AttrName, Attribute, Event, EventView, Tag};
use crate::serialize::{is_invalid_at, write_events, SerializableValue, SerializeError, SerializeResult};
use crate::xml_out::{written_all, XmlOut};
use vstd::prelude::*;
use vstd::string::*;
use xml::writer::EmitterConfig;

pub mod common;
pub mod compatibility;
pub mod dependency;

pub use common::{AssemblyIdentity, AssemblyType, AssemblyVersion, ProcessArchitecture, PublicKeyToken};
pub use compatibility::{Compatibility, SupportedOS, SupportedOsSet};
pub use dependency::Dependency;

verus! {

use self::compatibility::{compat_events, compat_valid, max_version_detail};
use self::dependency::dependency_events;

/// Version of the manifest schema. Only 1.0 exists.
#[derive(Debug, PartialEq, Eq, Copy, Clone)]
pub enum ManifestVersion {
    /// 1.0
    V1_0,
}

impl SerializableValue for ManifestVersion {
    open spec fn value_text(&self) -> Seq<char> {
        "1.0"@
    }

    fn serialize(&self) -> (r: String) {
        String::from_str("1.0")
    }
}

/// An assembly manifest.
#[derive(Debug, Clone, PartialEq)]
pub struct AssemblyManifest {
    /// Version of the manifest schema.
    pub manifest_version: ManifestVersion,
    /// Compatibility block.
    pub compatibility: Compatibility,
    /// Side-by-side dependencies.
    pub dependency: Dependency,
}

impl Default for AssemblyManifest {
    fn default() -> (r: AssemblyManifest)
        ensures
            r.manifest_version == ManifestVersion::V1_0,
            r.compatibility.supported_os@ == Set::<SupportedOS>::empty(),
            r.compatibility.max_version_tested is None,
            r.dependency.dependent_assemblies@.len() == 0,
    {
        AssemblyManifest {
            manifest_version: ManifestVersion::V1_0,
            compatibility: Compatibility::default(),
            dependency: Dependency::default(),
        }
    }
}

/// Whether the manifest can be written.
pub open spec fn manifest_valid(m: AssemblyManifest) -> bool {
    compat_valid(m.compatibility)
}

/// Location reported for a tested version set without a supported family.
pub open spec fn max_version_location() -> Seq<char> {
    "compatibility.maxversion_tested"@
}

/// The events of a valid manifest: the declaration, then the assembly
/// element around the compatibility block and the dependency blocks.
pub open spec fn manifest_events(m: AssemblyManifest) -> Seq<EventView> {
    seq![
        EventView::StartDocument,
        EventView::Start(Tag::Assembly, seq![(AttrName::ManifestVersion, m.manifest_version.value_text())]),
    ] + compat_events(m.compatibility) + dependency_events(m.dependency.dependent_assemblies@)
        + seq![EventView::End]
}

impl AssemblyManifest {
    /// The events of the manifest, or the error of its first invalid part.
    pub fn serialize_events(&self) -> (r: SerializeResult<Vec<Event>>)
        ensures
            r is Ok <==> manifest_valid(*self),
            r is Ok ==> events_view(r->Ok_0@) == manifest_events(*self),
            r is Err ==> is_invalid_at(r->Err_0, max_version_location(), max_version_detail()),
    {
        let mut out: Vec<Event> = Vec::new();
        let mut attributes: Vec<Attribute> = Vec::new();
        push_attr(&mut attributes, AttrName::ManifestVersion, self.manifest_version.serialize());
        assert(crate::events::attrs_view(attributes@) =~= seq![(AttrName::ManifestVersion, self.manifest_version.value_text())]);
        push_event(&mut out, Event::StartDocument);
        push_event(&mut out, Event::Start(Tag::Assembly, attributes));
        let compat_path = Path::new(PathNode::Named("compatibility"));
        match self.compatibility.serialize(&mut out, &compat_path) {
            Ok(()) => {},
            Err(e) => {
                proof {
                    reveal_strlit("compatibility");
                    reveal_strlit("maxversion_tested");
                    reveal_strlit("compatibility.maxversion_tested");
                    assert(crate::debug::path_text(compat_path@) == "compatibility"@);
                    assert(crate::debug::path_text(compat_path@) + seq!['.'] + compatibility::max_version_field()
                        =~= max_version_location());
                }
                return Err(e);
            },
        }
        let _ = self.dependency.serialize(&mut out, &Path::new(PathNode::Named("dependency")));
        push_event(&mut out, Event::End);
        assert(events_view(out@) =~= manifest_events(*self));
        Ok(out)
    }

    /// Writes the manifest through an XML writer made from `config` over
    /// `writer` (see `write_manifest` for what is written), and hands
    /// `writer` back. An invalid manifest is reported before anything is
    /// written; else only the XML writer can fail.
    pub fn serialize_with_config<W: std::io::Write>(
        &self,
        config: EmitterConfig,
        writer: W,
    ) -> (r: SerializeResult<W>)
        ensures
            !manifest_valid(*self) ==> r is Err && is_invalid_at(
                r->Err_0,
                max_version_location(),
                max_version_detail(),
            ),
            manifest_valid(*self) && r is Err ==> r->Err_0 is XmlWriteError,
    {
        let mut out = XmlOut::new(config, writer);
        match self.write_manifest(&mut out) {
            Ok(()) => Ok(out.into_inner()),
            Err(e) => Err(e),
        }
    }

    /// Writes the manifest through `out`. An invalid manifest is reported
    /// before anything is written. Else every event of the manifest is
    /// written in order, or, where the XML writer fails, those before the
    /// failing one, and its error is handed on.
    pub fn write_manifest<W: std::io::Write>(&self, out: &mut XmlOut<W>) -> (r: SerializeResult<()>)
        ensures
            !manifest_valid(*self) ==> r is Err && is_invalid_at(
                r->Err_0,
                max_version_location(),
                max_version_detail(),
            ) && final(out).sent() == old(out).sent(),
            manifest_valid(*self) && r is Ok ==> final(out).sent() == old(out).sent() + written_all(
                manifest_events(*self),
            ),
            r is Ok ==> final(out).clean() == old(out).clean(),
            final(out).config() == old(out).config(),
            final(out).from_empty() == old(out).from_empty(),
            manifest_valid(*self) && r is Err ==> r->Err_0 is XmlWriteError && exists|k: int|
                0 <= k < manifest_events(*self).len() && final(out).sent() == old(out).sent()
                    + written_all(manifest_events(*self).take(k)),
    {
        let events = match self.serialize_events() {
            Ok(events) => events,
            Err(e) => return Err(e),
        };
        match write_events(out, &events) {
            Ok(()) => Ok(()),
            Err(e) => Err(SerializeError::XmlWriteError(e)),
        }
    }
}

} // verus!
