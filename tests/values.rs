use sxs_manifest::debug::{Path, PathNode};
use sxs_manifest::manifest::{
    AssemblyType, AssemblyVersion, ManifestVersion, ProcessArchitecture, PublicKeyToken,
    SupportedOS, SupportedOsSet,
};
use sxs_manifest::serialize::SerializableValue;
use sxs_manifest::text::{decimal_string, hex_string};

#[test]
fn version_without_revision_renders_zero() {
    let v = AssemblyVersion::new(10, 0, 18358, None);
    assert_eq!(v.serialize(), "10.0.18358.0");
}

#[test]
fn version_with_revision() {
    let v = AssemblyVersion::new(4294967295, 7, 100, Some(42));
    assert_eq!(v.serialize(), "4294967295.7.100.42");
}

#[test]
fn key_token_renders_upper_hex() {
    let t = PublicKeyToken([0xDE, 0xAD, 0xBE, 0xEF, 0x00, 0x11, 0x22, 0x33]);
    assert_eq!(t.serialize(), "DEADBEEF00112233");
}

#[test]
fn fixed_tokens() {
    assert_eq!(AssemblyType::Win32.serialize(), "win32");
    assert_eq!(ProcessArchitecture::X86.serialize(), "x86");
    assert_eq!(ProcessArchitecture::X86_64.serialize(), "ia64");
    assert_eq!(ManifestVersion::V1_0.serialize(), "1.0");
    assert_eq!(SupportedOS::Windows10.serialize(), "{8e0f7a12-bfb3-4fe8-b9a5-48fd50a15a9a}");
    assert_eq!(SupportedOS::Windows8_1.serialize(), "{1f676c76-80e1-4239-95bb-83d0f6d0da78}");
    assert_eq!(SupportedOS::Windows8.serialize(), "{4a2f28e3-53b9-4441-ba9c-d69d4a4a6e38}");
    assert_eq!(SupportedOS::Windows7.serialize(), "{35138b9a-5d96-4fbd-8e2d-a2440225f93a}");
    assert_eq!(SupportedOS::WindowsVista.serialize(), "{e2011457-1546-43c5-a5fe-008deee3d3f0}");
}

#[test]
fn decimal_and_hex_text() {
    assert_eq!(decimal_string(0), "0");
    assert_eq!(decimal_string(9), "9");
    assert_eq!(decimal_string(10), "10");
    assert_eq!(decimal_string(u64::MAX), "18446744073709551615");
    assert_eq!(hex_string(&[]), "");
    assert_eq!(hex_string(&[0x0a, 0xff]), "0AFF");
}

#[test]
fn path_is_dot_joined_root_first() {
    let root = Path::new(PathNode::Named("dependency"));
    let child = root.appended(PathNode::Indexed(12));
    let leaf = child.appended(PathNode::Named("version"));
    assert_eq!(root.render(), "dependency");
    assert_eq!(child.render(), "dependency.12");
    assert_eq!(leaf.render(), "dependency.12.version");
    assert_eq!(PathNode::Indexed(305).render(), "305");
}

#[test]
fn os_set_operations() {
    let mut s = SupportedOsSet::new();
    assert!(s.is_empty());
    assert!(s.insert(SupportedOS::Windows7));
    assert!(!s.insert(SupportedOS::Windows7));
    assert!(s.contains(SupportedOS::Windows7));
    assert!(!s.contains(SupportedOS::Windows10));
    assert!(!s.is_empty());
    assert!(s.remove(SupportedOS::Windows7));
    assert!(!s.remove(SupportedOS::Windows7));
    assert!(s.is_empty());
    assert_eq!(SupportedOsSet::default(), SupportedOsSet::new());
}

#[test]
fn os_set_len_and_members() {
    let mut s = SupportedOsSet::new();
    assert_eq!(s.len(), 0);
    assert!(s.members().is_empty());
    s.insert(SupportedOS::WindowsVista);
    s.insert(SupportedOS::Windows10);
    s.insert(SupportedOS::Windows8);
    s.insert(SupportedOS::Windows10);
    assert_eq!(s.len(), 3);
    assert_eq!(
        s.members(),
        vec![SupportedOS::Windows10, SupportedOS::Windows8, SupportedOS::WindowsVista]
    );
}
