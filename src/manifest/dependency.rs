//! The dependency block: the assemblies this one needs, in order.
use super::common::{identity_events, AssemblyIdentity};
use crate::debug::{Path, PathNode};
use crate::events::{events_view, push_event, Event, EventView, Tag};
use crate::serialize::SerializeResult;
use vstd::prelude::*;

verus! {

/// Dependencies of an assembly.
#[derive(Debug, PartialEq, Eq, Clone)]
pub struct Dependency {
    /// Dependent assemblies, in the order they are written.
    pub dependent_assemblies: Vec<AssemblyIdentity>,
}

impl Default for Dependency {
    fn default() -> (r: Dependency)
        ensures
            r.dependent_assemblies@.len() == 0,
    {
        Dependency { dependent_assemblies: Vec::new() }
    }
}

/// The block for one dependent assembly: its identity inside a
/// dependentAssembly element inside a dependency element.
pub open spec fn dependency_block(id: AssemblyIdentity) -> Seq<EventView> {
    seq![EventView::Start(Tag::Dependency, Seq::empty()), EventView::Start(Tag::DependentAssembly, Seq::empty())]
        + identity_events(id) + seq![EventView::End, EventView::End]
}

/// One block per dependent assembly, in the order of `l`.
pub open spec fn dependency_events(l: Seq<AssemblyIdentity>) -> Seq<EventView>
    decreases l.len(),
{
    if l.len() == 0 {
        Seq::empty()
    } else {
        dependency_events(l.drop_last()) + dependency_block(l.last())
    }
}

impl Dependency {
    /// Appends one block per dependent assembly to `out`, in order. It never
    /// fails; each assembly's location is `path` with its index.
    pub fn serialize(&self, out: &mut Vec<Event>, path: &Path) -> (r: SerializeResult<()>)
        ensures
            r is Ok,
            events_view(final(out)@) == events_view(old(out)@) + dependency_events(
                self.dependent_assemblies@,
            ),
    {
        let ghost start = events_view(out@);
        let mut idx: usize = 0;
        while idx < self.dependent_assemblies.len()
            invariant
                idx <= self.dependent_assemblies@.len(),
                events_view(out@) == start + dependency_events(self.dependent_assemblies@.take(idx as int)),
            decreases self.dependent_assemblies@.len() - idx,
        {
            let assembly = &self.dependent_assemblies[idx];
            let ghost before = events_view(out@);
            push_event(out, Event::Start(Tag::Dependency, Vec::new()));
            push_event(out, Event::Start(Tag::DependentAssembly, Vec::new()));
            assert(crate::events::attrs_view(Seq::<crate::events::Attribute>::empty()) =~= Seq::empty());
            let _ = assembly.serialize(out, &path.appended(PathNode::Indexed(idx)));
            push_event(out, Event::End);
            push_event(out, Event::End);
            assert(events_view(out@) =~= before + dependency_block(*assembly));
            assert(self.dependent_assemblies@.take(idx as int + 1).drop_last() =~= self.dependent_assemblies@.take(idx as int));
            idx = idx + 1;
        }
        assert(self.dependent_assemblies@.take(idx as int) =~= self.dependent_assemblies@);
        Ok(())
    }
}

} // verus!
