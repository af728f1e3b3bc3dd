use vstd::prelude::*;

verus! {

/// A certification hash tree: the recursive structure whose root digest a
/// certificate's signature covers.
#[derive(Debug)]
pub enum HashTree {
    /// A subtree with no data.
    Empty,
    /// Two sibling subtrees.
    Fork(Box<HashTree>, Box<HashTree>),
    /// A subtree reachable under a byte-string label.
    Labeled(Vec<u8>, Box<HashTree>),
    /// A terminal certified value.
    Leaf(Vec<u8>),
    /// A redacted subtree of which only the digest is kept.
    Pruned(Vec<u8>),
}

/// The mathematical shape of a `HashTree`: byte vectors become sequences.
pub enum TreeV {
    Empty,
    Fork(Box<TreeV>, Box<TreeV>),
    Labeled(Seq<u8>, Box<TreeV>),
    Leaf(Seq<u8>),
    Pruned(Seq<u8>),
}

pub open spec fn tree_view(t: HashTree) -> TreeV
    decreases t,
{
    match t {
        HashTree::Empty => TreeV::Empty,
        HashTree::Fork(a, b) => TreeV::Fork(Box::new(tree_view(*a)), Box::new(tree_view(*b))),
        HashTree::Labeled(l, t) => TreeV::Labeled(l@, Box::new(tree_view(*t))),
        HashTree::Leaf(v) => TreeV::Leaf(v@),
        HashTree::Pruned(d) => TreeV::Pruned(d@),
    }
}

impl View for HashTree {
    type V = TreeV;

    open spec fn view(&self) -> TreeV {
        tree_view(*self)
    }
}

} // verus!
