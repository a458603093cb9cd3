//! Generator for side-by-side assembly manifests.
//!
//! A manifest is built as typed data ([`AssemblyManifest`]) and turned into a
//! sequence of XML events whose shape is stated, per manifest, by spec
//! functions. The events are then written out by xml-rs.
use vstd::prelude::*;

pub mod debug;
pub mod error;
pub mod events;
pub mod laws;
pub mod manifest;
pub mod serialize;
pub mod text;
mod writer;
pub mod xml_out;

pub use manifest::AssemblyManifest;
pub use xml::writer::EmitterConfig;

verus! {

use crate::manifest::compatibility::max_version_detail;
use crate::manifest::{manifest_events, manifest_valid, max_version_location};
use crate::serialize::{is_invalid_at, SerializeResult};
use crate::writer::{default_config, utf8_text};
use crate::xml_out::{buffer_bytes, written_all, xml_document, ConfigModel, XmlOut};
use vstd::utf8::decode_utf8;

/// Serialization helpers.
impl AssemblyManifest {
    /// Writes the manifest to `writer` with the default writer configuration.
    pub fn serialize<W: std::io::Write>(&self, writer: W) -> (r: SerializeResult<W>)
        ensures
            !manifest_valid(*self) ==> r is Err && is_invalid_at(
                r->Err_0,
                max_version_location(),
                max_version_detail(),
            ),
            manifest_valid(*self) && r is Err ==> r->Err_0 is XmlWriteError,
    {
        self.serialize_with_config(default_config(), writer)
    }

    /// The manifest as text, written with `config` into a buffer: the
    /// UTF-8 text xml-rs renders for the manifest's writes. Nothing is handed
    /// out unless the whole document was written.
    pub fn serialize_to_string_with_config(&self, config: EmitterConfig) -> (r: SerializeResult<String>)
        ensures
            !manifest_valid(*self) ==> r is Err && is_invalid_at(
                r->Err_0,
                max_version_location(),
                max_version_detail(),
            ),
            manifest_valid(*self) && r is Err ==> r->Err_0 is XmlWriteError,
            manifest_valid(*self) && r is Ok ==> exists|cfg: ConfigModel|
                r->Ok_0@ == decode_utf8(xml_document(cfg, written_all(manifest_events(*self)))),
    {
        let mut out = XmlOut::in_memory(config);
        match self.write_manifest(&mut out) {
            Ok(()) => {
                let ghost cfg = out.config();
                let ghost sent = out.sent();
                let bytes = buffer_bytes(out);
                let text = utf8_text(bytes);
                assert(text@ == decode_utf8(xml_document(cfg, sent)));
                Ok(text)
            },
            Err(e) => Err(e),
        }
    }

    /// The manifest as text, written with the default writer configuration.
    pub fn serialize_to_string(&self) -> (r: SerializeResult<String>)
        ensures
            !manifest_valid(*self) ==> r is Err && is_invalid_at(
                r->Err_0,
                max_version_location(),
                max_version_detail(),
            ),
            manifest_valid(*self) && r is Err ==> r->Err_0 is XmlWriteError,
            manifest_valid(*self) && r is Ok ==> exists|cfg: ConfigModel|
                r->Ok_0@ == decode_utf8(xml_document(cfg, written_all(manifest_events(*self)))),
    {
        self.serialize_to_string_with_config(default_config())
    }
}

} // verus!
