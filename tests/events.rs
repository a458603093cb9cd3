use sxs_manifest::events::{AttrName, Event, Tag};
use sxs_manifest::manifest::{AssemblyIdentity, AssemblyVersion, SupportedOS};
use sxs_manifest::serialize::SerializeError;
use sxs_manifest::AssemblyManifest;

fn opened(events: &[Event]) -> Vec<Tag> {
    events
        .iter()
        .filter_map(|e| match e {
            Event::Start(t, _) => Some(*t),
            _ => None,
        })
        .collect()
}

fn ids_of(events: &[Event], tag: Tag) -> Vec<String> {
    events
        .iter()
        .filter_map(|e| match e {
            Event::Start(t, attrs) if *t == tag => Some(attrs[0].value.clone()),
            _ => None,
        })
        .collect()
}

#[test]
fn no_dependency_elements_without_dependencies() {
    let mut manifest = AssemblyManifest::default();
    manifest.compatibility.supported_os.insert(SupportedOS::Windows8);
    let events = manifest.serialize_events().unwrap();
    let tags = opened(&events);
    assert!(!tags.contains(&Tag::Dependency));
    assert!(!tags.contains(&Tag::DependentAssembly));
    assert!(!tags.contains(&Tag::AssemblyIdentity));
}

#[test]
fn default_manifest_is_declaration_and_empty_root() {
    let events = AssemblyManifest::default().serialize_events().unwrap();
    assert_eq!(events.len(), 3);
    assert!(matches!(events[0], Event::StartDocument));
    match &events[1] {
        Event::Start(Tag::Assembly, attrs) => {
            assert_eq!(attrs.len(), 1);
            assert_eq!(attrs[0].name, AttrName::ManifestVersion);
            assert_eq!(attrs[0].value, "1.0");
        }
        _ => panic!("root element expected"),
    }
    assert!(matches!(events[2], Event::End));
}

#[test]
fn tested_version_without_family_is_invalid() {
    let mut manifest = AssemblyManifest::default();
    manifest.compatibility.max_version_tested = Some(AssemblyVersion::new(10, 0, 18358, None));
    match manifest.serialize_events() {
        Err(SerializeError::Invalid { path, detail }) => {
            assert_eq!(path, "compatibility.maxversion_tested");
            assert_eq!(detail, "maxversion_tested requires at least one supported_os");
        }
        _ => panic!("invalid manifest expected"),
    }
    match manifest.serialize_to_string() {
        Err(SerializeError::Invalid { path, .. }) => assert!(path.contains("maxversion_tested")),
        _ => panic!("invalid manifest expected"),
    }
}

#[test]
fn one_os_element_per_family() {
    let mut manifest = AssemblyManifest::default();
    let all = [
        SupportedOS::Windows10,
        SupportedOS::Windows8_1,
        SupportedOS::Windows8,
        SupportedOS::Windows7,
        SupportedOS::WindowsVista,
    ];
    for os in all {
        manifest.compatibility.supported_os.insert(os);
    }
    assert!(!manifest.compatibility.supported_os.insert(SupportedOS::Windows8));
    let events = manifest.serialize_events().unwrap();
    let ids = ids_of(&events, Tag::SupportedOs);
    assert_eq!(
        ids,
        vec![
            "{8e0f7a12-bfb3-4fe8-b9a5-48fd50a15a9a}",
            "{1f676c76-80e1-4239-95bb-83d0f6d0da78}",
            "{4a2f28e3-53b9-4441-ba9c-d69d4a4a6e38}",
            "{35138b9a-5d96-4fbd-8e2d-a2440225f93a}",
            "{e2011457-1546-43c5-a5fe-008deee3d3f0}",
        ]
    );
}

#[test]
fn two_families_give_two_elements() {
    let mut manifest = AssemblyManifest::default();
    manifest.compatibility.supported_os.insert(SupportedOS::WindowsVista);
    manifest.compatibility.supported_os.insert(SupportedOS::Windows8_1);
    let events = manifest.serialize_events().unwrap();
    let mut ids = ids_of(&events, Tag::SupportedOs);
    ids.sort();
    assert_eq!(
        ids,
        vec![
            "{1f676c76-80e1-4239-95bb-83d0f6d0da78}",
            "{e2011457-1546-43c5-a5fe-008deee3d3f0}",
        ]
    );
    assert!(opened(&events).contains(&Tag::Compatibility));
    assert!(!opened(&events).contains(&Tag::MaxVersionTested));
}

#[test]
fn empty_compatibility_gives_no_block() {
    let mut manifest = AssemblyManifest::default();
    manifest
        .dependency
        .dependent_assemblies
        .push(AssemblyIdentity::new("Lib"));
    let tags = opened(&manifest.serialize_events().unwrap());
    assert_eq!(
        tags,
        vec![Tag::Assembly, Tag::Dependency, Tag::DependentAssembly, Tag::AssemblyIdentity]
    );
}

#[test]
fn three_dependencies_three_blocks_in_order() {
    let mut manifest = AssemblyManifest::default();
    for name in ["a", "b", "c"] {
        manifest
            .dependency
            .dependent_assemblies
            .push(AssemblyIdentity::new(name));
    }
    let events = manifest.serialize_events().unwrap();
    assert_eq!(events.len(), 3 + 3 * 6);
    let names: Vec<String> = events
        .iter()
        .filter_map(|e| match e {
            Event::Start(Tag::AssemblyIdentity, attrs) => Some(attrs[1].value.clone()),
            _ => None,
        })
        .collect();
    assert_eq!(names, vec!["a", "b", "c"]);
    for k in 0..3 {
        let block = &events[2 + 6 * k..2 + 6 * k + 6];
        assert!(matches!(block[0], Event::Start(Tag::Dependency, _)));
        assert!(matches!(block[1], Event::Start(Tag::DependentAssembly, _)));
        assert!(matches!(block[2], Event::Start(Tag::AssemblyIdentity, _)));
        assert!(matches!(block[3], Event::End));
        assert!(matches!(block[4], Event::End));
        assert!(matches!(block[5], Event::End));
    }
}

#[test]
fn error_module_names_the_error() {
    let mut manifest = AssemblyManifest::default();
    manifest.compatibility.max_version_tested = Some(AssemblyVersion::new(1, 2, 3, Some(4)));
    let r: sxs_manifest::error::SerializeResult<String> = manifest.serialize_to_string();
    assert!(matches!(r, Err(sxs_manifest::error::SerializeError::Invalid { .. })));
}
