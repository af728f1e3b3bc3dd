use vstd::prelude::*;

use crate::tree::HashTree;
use crate::tree::TreeV;

verus! {

/// The four-way outcome of a path lookup: a certified value, a proven
/// absence, a redacted region, or a tree shape that cannot be a valid
/// certification tree for this path.
#[derive(Debug, PartialEq, Eq)]
pub enum LookupResult {
    Found(Vec<u8>),
    Absent,
    Unknown,
    Malformed,
}

/// The mathematical shape of a `LookupResult`.
pub enum LookupResultV {
    Found(Seq<u8>),
    Absent,
    Unknown,
    Malformed,
}

impl View for LookupResult {
    type V = LookupResultV;

    open spec fn view(&self) -> LookupResultV {
        match self {
            LookupResult::Found(v) => LookupResultV::Found(v@),
            LookupResult::Absent => LookupResultV::Absent,
            LookupResult::Unknown => LookupResultV::Unknown,
            LookupResult::Malformed => LookupResultV::Malformed,
        }
    }
}

/// A path as a sequence of label byte strings.
pub open spec fn labels_view(p: Seq<Vec<u8>>) -> Seq<Seq<u8>> {
    p.map_values(|l: Vec<u8>| l@)
}

/// Path lookup: labels are consumed left to right; a terminal path must land
/// exactly on a leaf; a `Pruned` node reached with labels still to consume
/// hides the answer; under a `Fork` the left subtree is searched first and
/// the right one only on a proven absence in the left.
pub open spec fn lookup_spec(t: TreeV, p: Seq<Seq<u8>>) -> LookupResultV
    decreases t,
{
    if p.len() == 0 {
        match t {
            TreeV::Leaf(v) => LookupResultV::Found(v),
            _ => LookupResultV::Malformed,
        }
    } else {
        match t {
            TreeV::Pruned(_) => LookupResultV::Unknown,
            TreeV::Empty => LookupResultV::Absent,
            TreeV::Leaf(_) => LookupResultV::Malformed,
            TreeV::Labeled(l, sub) => if l == p[0] {
                lookup_spec(*sub, p.skip(1))
            } else {
                LookupResultV::Absent
            },
            TreeV::Fork(a, b) => {
                let ra = lookup_spec(*a, p);
                if ra is Absent {
                    lookup_spec(*b, p)
                } else {
                    ra
                }
            },
        }
    }
}

/// Byte-string equality.
pub(crate) fn bytes_eq(a: &[u8], b: &[u8]) -> (r: bool)
    ensures
        r == (a@ == b@),
{
    if a.len() != b.len() {
        return false;
    }
    let mut i: usize = 0;
    while i < a.len()
        invariant
            i <= a.len(),
            a.len() == b.len(),
            a@.len() == b@.len(),
            forall|j: int| 0 <= j < i ==> a@[j] == b@[j],
        decreases a.len() - i,
    {
        if *vstd::slice::slice_index_get(a, i) != *vstd::slice::slice_index_get(b, i) {
            return false;
        }
        i = i + 1;
    }
    proof {
        assert(a@ =~= b@);
    }
    true
}

fn lookup_at(t: &HashTree, path: &Vec<Vec<u8>>, i: usize) -> (r: LookupResult)
    requires
        i <= path@.len(),
    ensures
        r@ == lookup_spec(t@, labels_view(path@).skip(i as int)),
    decreases t,
{
    let ghost p = labels_view(path@).skip(i as int);
    if i == path.len() {
        match t {
            HashTree::Leaf(v) => LookupResult::Found(vstd::slice::slice_to_vec(v.as_slice())),
            _ => LookupResult::Malformed,
        }
    } else {
        match t {
            HashTree::Pruned(_) => LookupResult::Unknown,
            HashTree::Empty => LookupResult::Absent,
            HashTree::Leaf(_) => LookupResult::Malformed,
            HashTree::Labeled(l, sub) => {
                proof {
                    assert(p[0] == labels_view(path@)[i as int]);
                }
                if bytes_eq(l.as_slice(), path[i].as_slice()) {
                    let r = lookup_at(sub, path, i + 1);
                    proof {
                        assert(p.skip(1) =~= labels_view(path@).skip(i as int + 1));
                    }
                    r
                } else {
                    LookupResult::Absent
                }
            },
            HashTree::Fork(a, b) => {
                let ra = lookup_at(a, path, i);
                match ra {
                    LookupResult::Absent => lookup_at(b, path, i),
                    _ => ra,
                }
            },
        }
    }
}

impl HashTree {
    /// Looks up the value reachable by following the labels of `path`.
    pub fn lookup(&self, path: &Vec<Vec<u8>>) -> (r: LookupResult)
        ensures
            r@ == lookup_spec(self@, labels_view(path@)),
    {
        let r = lookup_at(self, path, 0);
        proof {
            assert(labels_view(path@).skip(0) =~= labels_view(path@));
        }
        r
    }
}


/// A `Leaf(v)` stands in `t` at the end of the label path `p`: labels are
/// consumed at matching `Labeled` nodes, `Fork` nodes may be crossed on either
/// side, no `Pruned` node is crossed, and the emptied path lands exactly on
/// the leaf.
pub open spec fn found_in(t: TreeV, p: Seq<Seq<u8>>, v: Seq<u8>) -> bool
    decreases t,
{
    if p.len() == 0 {
        t == TreeV::Leaf(v)
    } else {
        match t {
            TreeV::Labeled(l, sub) => l == p[0] && found_in(*sub, p.skip(1), v),
            TreeV::Fork(a, b) => found_in(*a, p, v) || found_in(*b, p, v),
            _ => false,
        }
    }
}

/// The labels under which subtrees of `t` hang, crossing only `Fork` nodes.
pub open spec fn top_labels(t: TreeV) -> Set<Seq<u8>>
    decreases t,
{
    match t {
        TreeV::Labeled(l, _) => Set::empty().insert(l),
        TreeV::Fork(a, b) => top_labels(*a).union(top_labels(*b)),
        _ => Set::empty(),
    }
}

/// `t` holds no `Pruned` node.
pub open spec fn no_pruned(t: TreeV) -> bool
    decreases t,
{
    match t {
        TreeV::Pruned(_) => false,
        TreeV::Fork(a, b) => no_pruned(*a) && no_pruned(*b),
        TreeV::Labeled(_, sub) => no_pruned(*sub),
        _ => true,
    }
}

/// The shape a well-formed certification tree is assumed to have, as far as
/// the lookup search relies on it: no leaf hangs directly under a fork, and
/// the two sides of a fork carry disjoint label sets.
pub open spec fn search_wf(t: TreeV) -> bool
    decreases t,
{
    match t {
        TreeV::Fork(a, b) => !(*a is Leaf) && !(*b is Leaf) && top_labels(*a).disjoint(
            top_labels(*b),
        ) && search_wf(*a) && search_wf(*b),
        TreeV::Labeled(_, sub) => search_wf(*sub),
        _ => true,
    }
}

/// The lookup traversal runs into a `Pruned` node while labels remain to be
/// consumed.
pub open spec fn pruned_on_route(t: TreeV, p: Seq<Seq<u8>>) -> bool
    decreases t,
{
    p.len() > 0 && match t {
        TreeV::Pruned(_) => true,
        TreeV::Labeled(l, sub) => l == p[0] && pruned_on_route(*sub, p.skip(1)),
        TreeV::Fork(a, b) => pruned_on_route(*a, p) || (lookup_spec(*a, p) is Absent
            && pruned_on_route(*b, p)),
        _ => false,
    }
}

/// A lookup that answers `Found(v)` has really walked to a `Leaf(v)` along
/// the labels of `p`, with no `Pruned` node in the way.
pub proof fn lemma_lookup_found_sound(t: TreeV, p: Seq<Seq<u8>>, v: Seq<u8>)
    requires
        lookup_spec(t, p) == LookupResultV::Found(v),
    ensures
        found_in(t, p, v),
    decreases t,
{
    if p.len() == 0 {
    } else {
        match t {
            TreeV::Labeled(l, sub) => {
                lemma_lookup_found_sound(*sub, p.skip(1), v);
            },
            TreeV::Fork(a, b) => {
                if lookup_spec(*a, p) is Absent {
                    lemma_lookup_found_sound(*b, p, v);
                } else {
                    lemma_lookup_found_sound(*a, p, v);
                }
            },
            _ => {},
        }
    }
}

/// Without `Pruned` nodes a lookup never answers `Unknown`.
proof fn lemma_no_pruned_not_unknown(t: TreeV, p: Seq<Seq<u8>>)
    requires
        no_pruned(t),
    ensures
        !(lookup_spec(t, p) is Unknown),
    decreases t,
{
    if p.len() > 0 {
        match t {
            TreeV::Labeled(l, sub) => {
                lemma_no_pruned_not_unknown(*sub, p.skip(1));
            },
            TreeV::Fork(a, b) => {
                lemma_no_pruned_not_unknown(*a, p);
                lemma_no_pruned_not_unknown(*b, p);
            },
            _ => {},
        }
    }
}

/// A nonempty path that reaches a leaf starts with one of the tree's top
/// labels.
proof fn lemma_found_top_label(t: TreeV, p: Seq<Seq<u8>>, v: Seq<u8>)
    requires
        found_in(t, p, v),
        p.len() > 0,
    ensures
        top_labels(t).contains(p[0]),
    decreases t,
{
    match t {
        TreeV::Fork(a, b) => {
            if found_in(*a, p, v) {
                lemma_found_top_label(*a, p, v);
            } else {
                lemma_found_top_label(*b, p, v);
            }
        },
        _ => {},
    }
}

/// In a search-well-formed, unpruned tree that is not a bare leaf, a path
/// whose first label hangs nowhere at the top is proven absent.
proof fn lemma_missing_label_absent(t: TreeV, p: Seq<Seq<u8>>)
    requires
        search_wf(t),
        no_pruned(t),
        !(t is Leaf),
        p.len() > 0,
        !top_labels(t).contains(p[0]),
    ensures
        lookup_spec(t, p) == LookupResultV::Absent,
    decreases t,
{
    match t {
        TreeV::Fork(a, b) => {
            lemma_missing_label_absent(*a, p);
            lemma_missing_label_absent(*b, p);
        },
        _ => {},
    }
}

/// In a search-well-formed tree without `Pruned` nodes, a leaf that stands at
/// the end of the label path is found by the lookup.
pub proof fn lemma_lookup_found_complete(t: TreeV, p: Seq<Seq<u8>>, v: Seq<u8>)
    requires
        search_wf(t),
        no_pruned(t),
        found_in(t, p, v),
    ensures
        lookup_spec(t, p) == LookupResultV::Found(v),
    decreases t,
{
    if p.len() == 0 {
    } else {
        match t {
            TreeV::Labeled(l, sub) => {
                lemma_lookup_found_complete(*sub, p.skip(1), v);
            },
            TreeV::Fork(a, b) => {
                if found_in(*a, p, v) {
                    lemma_lookup_found_complete(*a, p, v);
                } else {
                    lemma_found_top_label(*b, p, v);
                    lemma_missing_label_absent(*a, p);
                    lemma_lookup_found_complete(*b, p, v);
                }
            },
            _ => {},
        }
    }
}

/// A lookup answers `Unknown` exactly when its traversal runs into a
/// `Pruned` node, and then never `Found` or `Absent`.
pub proof fn lemma_unknown_iff_pruned_on_route(t: TreeV, p: Seq<Seq<u8>>)
    ensures
        lookup_spec(t, p) is Unknown <==> pruned_on_route(t, p),
    decreases t,
{
    if p.len() > 0 {
        match t {
            TreeV::Labeled(l, sub) => {
                lemma_unknown_iff_pruned_on_route(*sub, p.skip(1));
            },
            TreeV::Fork(a, b) => {
                lemma_unknown_iff_pruned_on_route(*a, p);
                lemma_unknown_iff_pruned_on_route(*b, p);
            },
            _ => {},
        }
    }
}

} // verus!

