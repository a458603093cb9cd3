use sxs_manifest::manifest::{
    AssemblyIdentity, AssemblyVersion, ProcessArchitecture, PublicKeyToken, SupportedOS,
};
use sxs_manifest::AssemblyManifest;
use sxs_manifest::xml_out::XmlOut;
use sxs_manifest::EmitterConfig;

const DECL: &str = "<?xml version=\"1.0\" encoding=\"UTF-8\" standalone=\"yes\"?>";
const W10: &str = "{8e0f7a12-bfb3-4fe8-b9a5-48fd50a15a9a}";

fn flat_config() -> EmitterConfig {
    let mut config = EmitterConfig::new();
    config.indent_string = "".into();
    config.line_separator = "".into();
    config
}

#[test]
fn test_empty_manifest() {
    let manifest = AssemblyManifest::default();
    let serialized = manifest.serialize_to_string_with_config(flat_config()).unwrap();

    assert_eq!(
        serialized,
        format!(
            "{}<assembly xmlns=\"urn:schemas-microsoft-com:asm.v1\" manifestVersion=\"1.0\" />",
            DECL
        )
    );
}

#[test]
fn test_supported_os_single() {
    let mut manifest = AssemblyManifest::default();
    manifest
        .compatibility
        .supported_os
        .insert(SupportedOS::Windows10);
    let serialized = manifest.serialize_to_string_with_config(flat_config()).unwrap();

    assert_eq!(
        serialized,
        format!(
            "{}<assembly xmlns=\"urn:schemas-microsoft-com:asm.v1\" manifestVersion=\"1.0\">\
             <compatibility xmlns=\"urn:schemas-microsoft-com:compatibility.v1\"><application>\
             <supportedOS Id=\"{}\" /></application></compatibility></assembly>",
            DECL, W10
        )
    );
}

#[test]
fn test_max_version_tested() {
    let mut manifest = AssemblyManifest::default();
    manifest.compatibility.max_version_tested = Some(AssemblyVersion {
        major: 10,
        minor: 0,
        build: 18358,
        revision: Some(0),
    });
    let config = flat_config();
    assert!(manifest
        .serialize_to_string_with_config(config.clone())
        .is_err());
    manifest
        .compatibility
        .supported_os
        .insert(SupportedOS::Windows10);
    let serialized = manifest.serialize_to_string_with_config(config).unwrap();

    assert_eq!(
        serialized,
        format!(
            "{}<assembly xmlns=\"urn:schemas-microsoft-com:asm.v1\" manifestVersion=\"1.0\">\
             <compatibility xmlns=\"urn:schemas-microsoft-com:compatibility.v1\"><application>\
             <maxversiontested Id=\"10.0.18358.0\" /><supportedOS Id=\"{}\" /></application>\
             </compatibility></assembly>",
            DECL, W10
        )
    );
}

#[test]
fn dependencies_are_written_in_order() {
    let mut manifest = AssemblyManifest::default();
    let mut first = AssemblyIdentity::new("First.Lib");
    first.language = Some("*".to_string());
    first.process_architecture = Some(ProcessArchitecture::X86_64);
    first.version = Some(AssemblyVersion::new(6, 0, 0, None));
    first.public_key_token = Some(PublicKeyToken([0x65, 0x95, 0xb6, 0x41, 0x44, 0xcc, 0xf1, 0xdf]));
    manifest.dependency.dependent_assemblies.push(first);
    manifest
        .dependency
        .dependent_assemblies
        .push(AssemblyIdentity::new("Second"));
    let serialized = manifest.serialize_to_string_with_config(flat_config()).unwrap();

    assert_eq!(
        serialized,
        format!(
            "{}<assembly xmlns=\"urn:schemas-microsoft-com:asm.v1\" manifestVersion=\"1.0\">\
             <dependency><dependentAssembly><assemblyIdentity type=\"win32\" name=\"First.Lib\" \
             language=\"*\" processorArchitecture=\"ia64\" version=\"6.0.0.0\" \
             publicKeyToken=\"6595B64144CCF1DF\" /></dependentAssembly></dependency>\
             <dependency><dependentAssembly><assemblyIdentity type=\"win32\" name=\"Second\" />\
             </dependentAssembly></dependency></assembly>",
            DECL
        )
    );
}

#[test]
fn serialize_hands_the_sink_back() {
    let mut manifest = AssemblyManifest::default();
    manifest.compatibility.supported_os.insert(SupportedOS::Windows7);
    let bytes = manifest.serialize(Vec::new()).unwrap();
    let text = String::from_utf8(bytes).unwrap();
    assert!(text.starts_with("<?xml version=\"1.0\" encoding=\"UTF-8\" standalone=\"yes\"?>"));
    assert!(text.contains("<supportedOS Id=\"{35138b9a-5d96-4fbd-8e2d-a2440225f93a}\" />"));
    assert!(text.ends_with("</assembly>"));
}

#[test]
fn default_config_string_holds_the_root() {
    let manifest = AssemblyManifest::default();
    let text = manifest.serialize_to_string().unwrap();
    assert!(text.contains("<assembly xmlns=\"urn:schemas-microsoft-com:asm.v1\" manifestVersion=\"1.0\" />"));
}

#[test]
fn write_manifest_through_recording_writer() {
    let mut manifest = AssemblyManifest::default();
    manifest.compatibility.supported_os.insert(SupportedOS::Windows10);
    manifest
        .dependency
        .dependent_assemblies
        .push(AssemblyIdentity::new("Dep"));
    let mut out = XmlOut::new(flat_config(), Vec::new());
    manifest.write_manifest(&mut out).unwrap();
    let text = String::from_utf8(out.into_inner()).unwrap();
    assert_eq!(
        text,
        format!(
            "{}<assembly xmlns=\"urn:schemas-microsoft-com:asm.v1\" manifestVersion=\"1.0\">\
             <compatibility xmlns=\"urn:schemas-microsoft-com:compatibility.v1\"><application>\
             <supportedOS Id=\"{}\" /></application></compatibility>\
             <dependency><dependentAssembly><assemblyIdentity type=\"win32\" name=\"Dep\" />\
             </dependentAssembly></dependency></assembly>",
            DECL, W10
        )
    );
}

#[test]
fn invalid_manifest_writes_nothing() {
    let mut manifest = AssemblyManifest::default();
    manifest.compatibility.max_version_tested = Some(AssemblyVersion::new(10, 0, 1, None));
    let mut out = XmlOut::new(flat_config(), Vec::new());
    assert!(manifest.write_manifest(&mut out).is_err());
    assert!(out.into_inner().is_empty());
}
