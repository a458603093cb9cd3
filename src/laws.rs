//! Properties of the events that manifests are turned into.
use crate::events::{attr_name, leaf, tag_name, AttrName, EventView, Tag, NS_MS_ASM_V1};
use crate::manifest::common::identity_events;
use crate::manifest::compatibility::{
    compat_events, lemma_os_list, max_version_events, os_elements, os_list,
};
use crate::manifest::dependency::{dependency_block, dependency_events};
use crate::manifest::{manifest_events, manifest_valid, max_version_location, AssemblyManifest, Compatibility, SupportedOS};
use crate::serialize::SerializableValue;
use crate::xml_out::{written_all, written_of, Written};
use vstd::prelude::*;
use xml::common::XmlVersion;
use vstd::string::*;

verus! {

/// Elements of the dependency block.
pub open spec fn is_dependency_tag(t: Tag) -> bool {
    t == Tag::Dependency || t == Tag::DependentAssembly || t == Tag::AssemblyIdentity
}

/// Elements of the compatibility block.
pub open spec fn is_compat_tag(t: Tag) -> bool {
    t == Tag::Compatibility || t == Tag::Application || t == Tag::MaxVersionTested || t == Tag::SupportedOs
}

/// Whether `e` opens an element for which `f` holds.
pub open spec fn opens_where(e: EventView, f: spec_fn(Tag) -> bool) -> bool {
    match e {
        EventView::Start(t, _) => f(t),
        _ => false,
    }
}

/// Every event of `s` closes an element or opens one for which `f` holds.
pub open spec fn only_opens(s: Seq<EventView>, f: spec_fn(Tag) -> bool) -> bool {
    forall|i: int| 0 <= i < s.len() ==> s[i] is End || opens_where(#[trigger] s[i], f)
}

proof fn lemma_os_elements_tags(l: Seq<SupportedOS>)
    ensures
        only_opens(os_elements(l), |t: Tag| is_compat_tag(t)),
    decreases l.len(),
{
    if l.len() > 0 {
        lemma_os_elements_tags(l.drop_last());
        let a = os_elements(l.drop_last());
        let b = leaf(Tag::SupportedOs, seq![(AttrName::Id, l.last().value_text())]);
        assert forall|i: int| 0 <= i < os_elements(l).len() implies os_elements(l)[i] is End
            || opens_where(#[trigger] os_elements(l)[i], |t: Tag| is_compat_tag(t)) by {
            if i >= a.len() {
                assert(os_elements(l)[i] == b[i - a.len()]);
            } else {
                assert(os_elements(l)[i] == a[i]);
            }
        }
    }
}

proof fn lemma_compat_tags(c: Compatibility)
    ensures
        only_opens(compat_events(c), |t: Tag| is_compat_tag(t)),
{
    lemma_os_elements_tags(os_list(c.supported_os@));
}

proof fn lemma_dependency_tags(l: Seq<crate::manifest::AssemblyIdentity>)
    ensures
        only_opens(dependency_events(l), |t: Tag| is_dependency_tag(t)),
    decreases l.len(),
{
    if l.len() > 0 {
        lemma_dependency_tags(l.drop_last());
        let a = dependency_events(l.drop_last());
        let b = dependency_block(l.last());
        assert forall|i: int| 0 <= i < dependency_events(l).len() implies dependency_events(l)[i] is End
            || opens_where(#[trigger] dependency_events(l)[i], |t: Tag| is_dependency_tag(t)) by {
            if i >= a.len() {
                assert(dependency_events(l)[i] == b[i - a.len()]);
            } else {
                assert(dependency_events(l)[i] == a[i]);
            }
        }
    }
}

/// A manifest without dependent assemblies holds no element of the
/// dependency block.
pub proof fn no_dependency_elements_without_dependencies(m: AssemblyManifest)
    requires
        m.dependency.dependent_assemblies@.len() == 0,
    ensures
        forall|i: int|
            0 <= i < manifest_events(m).len() ==> !opens_where(
                #[trigger] manifest_events(m)[i],
                |t: Tag| is_dependency_tag(t),
            ),
{
    lemma_compat_tags(m.compatibility);
    let c = compat_events(m.compatibility);
    assert(dependency_events(m.dependency.dependent_assemblies@) =~= Seq::empty());
    let e = manifest_events(m);
    assert forall|i: int| 0 <= i < e.len() implies !opens_where(#[trigger] e[i], |t: Tag| is_dependency_tag(t)) by {
        if 2 <= i < 2 + c.len() {
            assert(e[i] == c[i - 2]);
        }
    }
}

/// A manifest with no supported family and no tested version holds no
/// element of the compatibility block.
pub proof fn no_compat_elements_without_families(m: AssemblyManifest)
    requires
        m.compatibility.supported_os@ == Set::<SupportedOS>::empty(),
        m.compatibility.max_version_tested is None,
    ensures
        manifest_valid(m),
        compat_events(m.compatibility).len() == 0,
        forall|i: int|
            0 <= i < manifest_events(m).len() ==> !opens_where(
                #[trigger] manifest_events(m)[i],
                |t: Tag| is_compat_tag(t),
            ),
{
    let d = dependency_events(m.dependency.dependent_assemblies@);
    lemma_dependency_tags(m.dependency.dependent_assemblies@);
    let e = manifest_events(m);
    assert forall|i: int| 0 <= i < e.len() implies !opens_where(#[trigger] e[i], |t: Tag| is_compat_tag(t)) by {
        if 2 <= i < 2 + d.len() {
            assert(e[i] == d[i - 2]);
        }
    }
}

/// A tested version without a supported family makes the manifest invalid;
/// the location it is reported at ends with the tested-version field of the
/// compatibility block.
pub proof fn tested_version_needs_a_family(m: AssemblyManifest)
    requires
        m.compatibility.supported_os@ == Set::<SupportedOS>::empty(),
        m.compatibility.max_version_tested is Some,
    ensures
        !manifest_valid(m),
        max_version_location() == "compatibility"@ + seq!['.'] + "maxversion_tested"@,
{
    reveal_strlit("compatibility");
    reveal_strlit("maxversion_tested");
    reveal_strlit("compatibility.maxversion_tested");
    assert(max_version_location() =~= "compatibility"@ + seq!['.'] + "maxversion_tested"@);
}

proof fn lemma_tokens_differ(a: SupportedOS, b: SupportedOS)
    requires
        a != b,
    ensures
        a.value_text() != b.value_text(),
{
    reveal_strlit("{8e0f7a12-bfb3-4fe8-b9a5-48fd50a15a9a}");
    reveal_strlit("{1f676c76-80e1-4239-95bb-83d0f6d0da78}");
    reveal_strlit("{4a2f28e3-53b9-4441-ba9c-d69d4a4a6e38}");
    reveal_strlit("{35138b9a-5d96-4fbd-8e2d-a2440225f93a}");
    reveal_strlit("{e2011457-1546-43c5-a5fe-008deee3d3f0}");
    assert(a.value_text()[1] != b.value_text()[1]);
}

proof fn lemma_os_elements_shape(l: Seq<SupportedOS>)
    ensures
        os_elements(l).len() == 2 * l.len(),
        forall|i: int|
            0 <= i < l.len() ==> #[trigger] os_elements(l)[2 * i] == EventView::Start(
                Tag::SupportedOs,
                seq![(AttrName::Id, l[i].value_text())],
            ) && os_elements(l)[2 * i + 1] is End,
    decreases l.len(),
{
    if l.len() > 0 {
        let p = l.drop_last();
        lemma_os_elements_shape(p);
        assert forall|i: int| 0 <= i < l.len() implies #[trigger] os_elements(l)[2 * i] == EventView::Start(
            Tag::SupportedOs,
            seq![(AttrName::Id, l[i].value_text())],
        ) && os_elements(l)[2 * i + 1] is End by {
            if i < p.len() {
                assert(os_elements(l)[2 * i] == os_elements(p)[2 * i]);
                assert(os_elements(l)[2 * i + 1] == os_elements(p)[2 * i + 1]);
                assert(p[i] == l[i]);
            }
        }
    }
}

/// For a non-empty set of families, the block holds, after the tested
/// version if any, one OS element per family of the set and no other: as
/// many as the set has members, each with the token of its family as Id,
/// no two with the same Id.
pub proof fn one_os_element_per_family(c: Compatibility)
    requires
        c.supported_os@ != Set::<SupportedOS>::empty(),
    ensures
        ({
            let l = os_list(c.supported_os@);
            &&& compat_events(c) == seq![
                EventView::Start(Tag::Compatibility, Seq::empty()),
                EventView::Start(Tag::Application, Seq::empty()),
            ] + max_version_events(c) + os_elements(l) + seq![EventView::End, EventView::End]
            &&& os_elements(l).len() == 2 * l.len()
            &&& forall|i: int|
                0 <= i < l.len() ==> #[trigger] os_elements(l)[2 * i] == EventView::Start(
                    Tag::SupportedOs,
                    seq![(AttrName::Id, l[i].value_text())],
                ) && os_elements(l)[2 * i + 1] is End
            &&& l.len() == c.supported_os@.len()
            &&& forall|o: SupportedOS| l.contains(o) <==> c.supported_os@.contains(o)
            &&& forall|i: int, j: int|
                0 <= i < l.len() && 0 <= j < l.len() && i != j ==> l[i].value_text() != l[j].value_text()
        }),
{
    let s = c.supported_os@;
    let l = os_list(s);
    lemma_os_list(s);
    lemma_os_elements_shape(l);
    assert forall|i: int, j: int| 0 <= i < l.len() && 0 <= j < l.len() && i != j implies l[i].value_text()
        != l[j].value_text() by {
        lemma_tokens_differ(l[i], l[j]);
    }
}

/// Each dependent assembly gets one block of six events, in the order of the
/// list: a dependency element around a dependentAssembly element around the
/// assembly's identity.
pub proof fn one_block_per_dependency(l: Seq<crate::manifest::AssemblyIdentity>)
    ensures
        dependency_events(l).len() == 6 * l.len(),
        forall|i: int|
            0 <= i < l.len() ==> #[trigger] dependency_events(l).subrange(6 * i, 6 * i + 6)
                == dependency_block(l[i]),
        forall|i: int| 0 <= i < l.len() ==> dependency_block(l[i]) == seq![
            EventView::Start(Tag::Dependency, Seq::empty()),
            EventView::Start(Tag::DependentAssembly, Seq::empty()),
        ] + identity_events(#[trigger] l[i]) + seq![EventView::End, EventView::End],
    decreases l.len(),
{
    if l.len() > 0 {
        let p = l.drop_last();
        one_block_per_dependency(p);
        let e = dependency_events(l);
        assert forall|i: int| 0 <= i < l.len() implies #[trigger] e.subrange(6 * i, 6 * i + 6)
            == dependency_block(l[i]) by {
            if i < p.len() {
                assert(p[i] == l[i]);
                assert(e.subrange(6 * i, 6 * i + 6) =~= dependency_events(p).subrange(6 * i, 6 * i + 6));
            } else {
                assert(e.subrange(6 * i, 6 * i + 6) =~= dependency_block(l.last()));
            }
        }
    }
}

/// Whether `w` writes a start tag with local name `name`.
pub open spec fn writes_start_named(w: Written, name: Seq<char>) -> bool {
    match w {
        Written::Start(l, _, _, _, _) => l == name,
        _ => false,
    }
}

proof fn lemma_tag_names_differ(a: Tag, b: Tag)
    requires
        a != b,
    ensures
        tag_name(a) != tag_name(b),
{
    reveal_strlit("assembly");
    reveal_strlit("compatibility");
    reveal_strlit("application");
    reveal_strlit("maxversiontested");
    reveal_strlit("supportedOS");
    reveal_strlit("dependency");
    reveal_strlit("dependentAssembly");
    reveal_strlit("assemblyIdentity");
    assert(tag_name(a).len() != tag_name(b).len() || tag_name(a)[0] != tag_name(b)[0]);
}

proof fn lemma_written_names(s: Seq<EventView>, f: spec_fn(Tag) -> bool, t: Tag)
    requires
        forall|i: int| 0 <= i < s.len() ==> !opens_where(#[trigger] s[i], f),
        f(t),
    ensures
        forall|i: int|
            0 <= i < written_all(s).len() ==> !writes_start_named(#[trigger] written_all(s)[i], tag_name(t)),
{
    assert forall|i: int| 0 <= i < written_all(s).len() implies !writes_start_named(
        #[trigger] written_all(s)[i],
        tag_name(t),
    ) by {
        assert(written_all(s)[i] == written_of(s[i]));
        assert(!opens_where(s[i], f));
        match s[i] {
            EventView::Start(u, _) => {
                lemma_tag_names_differ(u, t);
            },
            _ => {},
        }
    }
}

/// A manifest without dependent assemblies writes no dependency,
/// dependentAssembly or assemblyIdentity start tag.
pub proof fn no_dependency_tags_written_without_dependencies(m: AssemblyManifest)
    requires
        m.dependency.dependent_assemblies@.len() == 0,
    ensures
        forall|i: int|
            0 <= i < written_all(manifest_events(m)).len() ==> {
                let w = #[trigger] written_all(manifest_events(m))[i];
                &&& !writes_start_named(w, tag_name(Tag::Dependency))
                &&& !writes_start_named(w, tag_name(Tag::DependentAssembly))
                &&& !writes_start_named(w, tag_name(Tag::AssemblyIdentity))
            },
{
    no_dependency_elements_without_dependencies(m);
    let f = |t: Tag| is_dependency_tag(t);
    lemma_written_names(manifest_events(m), f, Tag::Dependency);
    lemma_written_names(manifest_events(m), f, Tag::DependentAssembly);
    lemma_written_names(manifest_events(m), f, Tag::AssemblyIdentity);
}

/// A manifest with no supported family and no tested version is written
/// without any compatibility, application, maxversiontested or supportedOS
/// start tag.
pub proof fn no_compat_tags_written_without_families(m: AssemblyManifest)
    requires
        m.compatibility.supported_os@ == Set::<SupportedOS>::empty(),
        m.compatibility.max_version_tested is None,
    ensures
        manifest_valid(m),
        forall|i: int|
            0 <= i < written_all(manifest_events(m)).len() ==> {
                let w = #[trigger] written_all(manifest_events(m))[i];
                &&& !writes_start_named(w, tag_name(Tag::Compatibility))
                &&& !writes_start_named(w, tag_name(Tag::Application))
                &&& !writes_start_named(w, tag_name(Tag::MaxVersionTested))
                &&& !writes_start_named(w, tag_name(Tag::SupportedOs))
            },
{
    no_compat_elements_without_families(m);
    let f = |t: Tag| is_compat_tag(t);
    lemma_written_names(manifest_events(m), f, Tag::Compatibility);
    lemma_written_names(manifest_events(m), f, Tag::Application);
    lemma_written_names(manifest_events(m), f, Tag::MaxVersionTested);
    lemma_written_names(manifest_events(m), f, Tag::SupportedOs);
}

/// A valid manifest is written as the XML 1.0 declaration (UTF-8,
/// standalone), the assembly start tag without prefix, with manifestVersion
/// and the manifest namespace as default, the blocks,
/// and the assembly end tag: 3 writes, plus 4 for a compatibility block with
/// 2 per family and 2 for a tested version, plus 6 per dependent assembly.
pub proof fn document_frame(m: AssemblyManifest)
    requires
        manifest_valid(m),
    ensures
        ({
            let w = written_all(manifest_events(m));
            let n = m.compatibility.supported_os@.len();
            let t: nat = if m.compatibility.max_version_tested is Some { 2 } else { 0 };
            &&& w[0] == Written::Declaration(XmlVersion::Version10, "UTF-8"@, true)
            &&& w[1] == Written::Start(
                tag_name(Tag::Assembly),
                NS_MS_ASM_V1@,
                None,
                seq![(attr_name(AttrName::ManifestVersion), "1.0"@)],
                Some(NS_MS_ASM_V1@),
            )
            &&& w.last() == Written::End
            &&& w.len() == 3 + (if m.compatibility.supported_os@ == Set::<SupportedOS>::empty() { 0 } else { 4 + 2 * n + t }) + 6
                * m.dependency.dependent_assemblies@.len()
        }),
{
    let c = m.compatibility;
    one_block_per_dependency(m.dependency.dependent_assemblies@);
    if c.supported_os@ != Set::<SupportedOS>::empty() {
        one_os_element_per_family(c);
    } else {
        assert(c.supported_os@.len() == 0);
    }
    let e = manifest_events(m);
    let w = written_all(e);
    assert(w[0] == written_of(e[0]));
    assert(w[1] == written_of(e[1]));
    assert(w.last() == written_of(e.last()));
    assert(max_version_events(c).len() == if c.max_version_tested is Some { 2nat } else { 0nat });
    assert(compat_events(c).len() == if c.supported_os@ == Set::<SupportedOS>::empty() { 0 } else { 4 + 2 * c.supported_os@.len() + max_version_events(c).len() });
    assert(w.len() == e.len());
    assert(crate::xml_out::written_attrs(seq![(AttrName::ManifestVersion, "1.0"@)]) =~= seq![
        (attr_name(AttrName::ManifestVersion), "1.0"@),
    ]);
}

} // verus!
