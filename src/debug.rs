//! Location of a value inside a manifest, for error reports.
use crate::text::{decimal, decimal_string};
use vstd::prelude::*;
use vstd::string::*;

verus! {

/// One step of a location: a field name or a list index.
#[derive(Debug, Copy, Clone, PartialEq, Eq)]
pub enum PathNode {
    Named(&'static str),
    Indexed(usize),
}

/// Text of one step.
pub open spec fn node_text(n: PathNode) -> Seq<char> {
    match n {
        PathNode::Named(s) => s@,
        PathNode::Indexed(i) => decimal(i as nat),
    }
}

/// Steps joined by dots, root first.
pub open spec fn path_text(p: Seq<PathNode>) -> Seq<char>
    decreases p.len(),
{
    if p.len() == 0 {
        Seq::empty()
    } else if p.len() == 1 {
        node_text(p[0])
    } else {
        path_text(p.drop_last()) + seq!['.'] + node_text(p.last())
    }
}

/// Extending a location by a step adds a dot and the step's text.
pub proof fn lemma_path_text_push(p: Seq<PathNode>, n: PathNode)
    requires
        p.len() > 0,
    ensures
        path_text(p.push(n)) == path_text(p) + seq!['.'] + node_text(n),
{
    assert(p.push(n).drop_last() =~= p);
}

impl PathNode {
    /// Text of this step.
    pub fn render(&self) -> (r: String)
        ensures
            r@ == node_text(*self),
    {
        match self {
            PathNode::Named(s) => String::from_str(s),
            PathNode::Indexed(i) => decimal_string(*i as u64),
        }
    }
}

/// A location: the steps from the root of the manifest to a value.
#[derive(Debug)]
pub struct Path {
    nodes: Vec<PathNode>,
}

impl View for Path {
    type V = Seq<PathNode>;

    closed spec fn view(&self) -> Seq<PathNode> {
        self.nodes@
    }
}

impl Path {
    /// A location has at least one step.
    #[verifier::type_invariant]
    spec fn has_step(&self) -> bool {
        self.nodes@.len() > 0
    }

    /// The location made of the single step `node`.
    pub fn new(node: PathNode) -> (r: Path)
        ensures
            r@ == seq![node],
    {
        let mut nodes = Vec::new();
        nodes.push(node);
        Path { nodes }
    }

    /// This location extended by `node`; `self` is left as it is.
    pub fn appended(&self, node: PathNode) -> (r: Path)
        ensures
            r@ == self@.push(node),
            self@.len() > 0,
    {
        proof {
            use_type_invariant(self);
        }
        let mut nodes: Vec<PathNode> = Vec::new();
        let mut i: usize = 0;
        while i < self.nodes.len()
            invariant
                i <= self@.len(),
                nodes@ == self@.take(i as int),
            decreases self@.len() - i,
        {
            nodes.push(self.nodes[i]);
            assert(self@.take(i as int + 1) =~= self@.take(i as int).push(self@[i as int]));
            i = i + 1;
        }
        assert(self@.take(i as int) =~= self@);
        nodes.push(node);
        Path { nodes }
    }

    /// The steps joined by dots, root first.
    pub fn render(&self) -> (r: String)
        ensures
            r@ == path_text(self@),
    {
        let mut s = String::new();
        let mut i: usize = 0;
        while i < self.nodes.len()
            invariant
                i <= self@.len(),
                s@ == path_text(self@.take(i as int)),
            decreases self@.len() - i,
        {
            let node_str = self.nodes[i].render();
            assert(self@.take(i as int + 1).drop_last() =~= self@.take(i as int));
            if i > 0 {
                s.append(".");
                proof {
                    reveal_strlit(".");
                }
            }
            s.append(node_str.as_str());
            i = i + 1;
        }
        assert(self@.take(i as int) =~= self@);
        s
    }
}

} // verus!
