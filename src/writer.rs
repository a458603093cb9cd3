//! The xml-rs event writer, as this library uses it.
use std::borrow::Cow;
use vstd::prelude::*;
use vstd::utf8::{decode_utf8, valid_utf8};
use xml::attribute::Attribute as XmlAttribute;
use xml::common::XmlVersion;
use xml::name::Name as XmlName;
use xml::namespace::{Namespace as XmlNamespace, NS_NO_PREFIX};
use crate::xml_out::ConfigModel;
use xml::writer::{EmitterConfig, EventWriter, XmlEvent};

verus! {

#[verifier::external_type_specification]
#[verifier::external_body]
pub struct ExEmitterConfig(EmitterConfig);

#[verifier::external_type_specification]
#[verifier::external_body]
pub struct ExEmitterError(xml::writer::Error);

#[verifier::external_type_specification]
#[verifier::external_body]
#[verifier::reject_recursive_types(W)]
pub struct ExEventWriter<W>(EventWriter<W>);

#[verifier::external_type_specification]
pub struct ExXmlVersion(XmlVersion);

/// Relies on the public fields of EmitterConfig: copies each setting.
#[verifier::external_body]
pub(crate) fn read_config(c: &EmitterConfig) -> ConfigModel {
    ConfigModel {
        line_separator: c.line_separator.to_string(),
        indent_string: c.indent_string.to_string(),
        perform_indent: c.perform_indent,
        perform_escaping: c.perform_escaping,
        write_document_declaration: c.write_document_declaration,
        normalize_empty_elements: c.normalize_empty_elements,
        cdata_to_characters: c.cdata_to_characters,
        keep_element_names_stack: c.keep_element_names_stack,
        autopad_comments: c.autopad_comments,
        pad_self_closing: c.pad_self_closing,
    }
}

/// Relies on EmitterConfig::new: the writer's default configuration.
#[verifier::external_body]
pub(crate) fn default_config() -> EmitterConfig {
    EmitterConfig::new()
}

/// Relies on EmitterConfig::create_writer: an event writer over `sink`.
#[verifier::external_body]
pub(crate) fn create_writer<W: std::io::Write>(config: EmitterConfig, sink: W) -> EventWriter<W> {
    config.create_writer(sink)
}

/// Relies on EventWriter::into_inner: hands the sink back.
#[verifier::external_body]
pub(crate) fn into_sink<W: std::io::Write>(w: EventWriter<W>) -> W {
    w.into_inner()
}

/// Relies on EventWriter::write of a StartDocument event: the declaration
/// with the given XML version, encoding label and standalone flag.
#[verifier::external_body]
pub(crate) fn write_start_document<W: std::io::Write>(
    w: &mut EventWriter<W>,
    version: XmlVersion,
    encoding: &str,
    standalone: bool,
) -> Result<(), xml::writer::Error> {
    w.write(XmlEvent::StartDocument {
        version,
        encoding: Some(encoding),
        standalone: Some(standalone),
    })
}

/// Relies on EventWriter::write of a StartElement event: element `local` and
/// its attributes (name, value), all in namespace `ns` and with name prefix
/// `prefix`, declaring `default_ns`, if given, as the namespace without prefix.
#[verifier::external_body]
pub(crate) fn write_start_element<W: std::io::Write>(
    w: &mut EventWriter<W>,
    local: &str,
    ns: &str,
    prefix: Option<&str>,
    attrs: &Vec<(&str, &str)>,
    default_ns: Option<&str>,
) -> Result<(), xml::writer::Error> {
    let name = XmlName { local_name: local, namespace: Some(ns), prefix };
    let attributes: Vec<XmlAttribute> = attrs.iter().map(|&(n, v)| XmlAttribute {
        name: XmlName { local_name: n, namespace: Some(ns), prefix },
        value: v,
    }).collect();
    let namespace = XmlNamespace(
        default_ns.into_iter().map(|u| (NS_NO_PREFIX.to_string(), u.to_string())).collect(),
    );
    w.write(XmlEvent::StartElement { name, attributes: Cow::Owned(attributes), namespace: Cow::Owned(namespace) })
}

/// Relies on EventWriter::write of an EndElement event: closes the innermost
/// open element.
#[verifier::external_body]
pub(crate) fn write_end_element<W: std::io::Write>(w: &mut EventWriter<W>) -> Result<
    (),
    xml::writer::Error,
> {
    w.write(XmlEvent::EndElement { name: None })
}

/// Relies on String::from_utf8_lossy: valid UTF-8 is decoded unchanged.
#[verifier::external_body]
pub(crate) fn utf8_text(b: Vec<u8>) -> (r: String)
    ensures
        valid_utf8(b@) ==> r@ == decode_utf8(b@),
{
    String::from_utf8_lossy(&b).into_owned()
}

} // verus!
