use vstd::prelude::*;

use crate::tree::TreeV;
use crate::tree::HashTree;

verus! {

// Domain-separation prefixes: a one-byte length followed by the ASCII tag.

/// `sep("ic-hashtree-empty")`
pub open spec fn sep_empty() -> Seq<u8> {
    seq![
        0x11u8, 0x69, 0x63, 0x2d, 0x68, 0x61, 0x73, 0x68, 0x74, 0x72, 0x65, 0x65, 0x2d, 0x65,
        0x6d, 0x70, 0x74, 0x79,
    ]
}

/// `sep("ic-hashtree-fork")`
pub open spec fn sep_fork() -> Seq<u8> {
    seq![
        0x10u8, 0x69, 0x63, 0x2d, 0x68, 0x61, 0x73, 0x68, 0x74, 0x72, 0x65, 0x65, 0x2d, 0x66,
        0x6f, 0x72, 0x6b,
    ]
}

/// `sep("ic-hashtree-labeled")`
pub open spec fn sep_labeled() -> Seq<u8> {
    seq![
        0x13u8, 0x69, 0x63, 0x2d, 0x68, 0x61, 0x73, 0x68, 0x74, 0x72, 0x65, 0x65, 0x2d, 0x6c,
        0x61, 0x62, 0x65, 0x6c, 0x65, 0x64,
    ]
}

/// `sep("ic-hashtree-leaf")`
pub open spec fn sep_leaf() -> Seq<u8> {
    seq![
        0x10u8, 0x69, 0x63, 0x2d, 0x68, 0x61, 0x73, 0x68, 0x74, 0x72, 0x65, 0x65, 0x2d, 0x6c,
        0x65, 0x61, 0x66,
    ]
}

/// `sep("ic-state-root")`: the tag a subnet signature covers together with the root hash.
pub open spec fn sep_state_root() -> Seq<u8> {
    seq![0x0du8, 0x69, 0x63, 0x2d, 0x73, 0x74, 0x61, 0x74, 0x65, 0x2d, 0x72, 0x6f, 0x6f, 0x74]
}

/// What SHA-256 returns on a given byte string; fixed by the hash function alone.
pub uninterp spec fn sha256_of(b: Seq<u8>) -> Seq<u8>;

/// Relies on sha2::Sha256: a 32-byte digest determined by the input bytes alone.
#[verifier::external_body]
fn sha256(input: &Vec<u8>) -> (r: Vec<u8>)
    ensures
        r@ == sha256_of(input@),
        r@.len() == 32,
{
    <sha2::Sha256 as sha2::Digest>::digest(input.as_slice()).to_vec()
}

/// The root hash of a tree: `Pruned` nodes stand in for their subtree by the
/// digest stored in them, every other node hashes a domain-separated encoding
/// of its children.
pub open spec fn digest_spec(t: TreeV) -> Seq<u8>
    decreases t,
{
    match t {
        TreeV::Empty => sha256_of(sep_empty()),
        TreeV::Fork(a, b) => sha256_of(sep_fork() + digest_spec(*a) + digest_spec(*b)),
        TreeV::Labeled(l, sub) => sha256_of(sep_labeled() + l + digest_spec(*sub)),
        TreeV::Leaf(v) => sha256_of(sep_leaf() + v),
        TreeV::Pruned(d) => d,
    }
}

/// Appends `src` to `dst`: afterwards `dst` is the old contents followed by `src`.
pub fn append_bytes(dst: &mut Vec<u8>, src: &[u8])
    ensures
        final(dst)@ == old(dst)@ + src@,
{
    dst.extend_from_slice(src);
    proof {
        assert(dst@ =~= old(dst)@ + src@);
    }
}

fn sep_empty_bytes() -> (r: Vec<u8>)
    ensures
        r@ == sep_empty(),
{
    let r: Vec<u8> = vec![
        0x11u8, 0x69, 0x63, 0x2d, 0x68, 0x61, 0x73, 0x68, 0x74, 0x72, 0x65, 0x65, 0x2d, 0x65,
        0x6d, 0x70, 0x74, 0x79,
    ];
    r
}

fn sep_fork_bytes() -> (r: Vec<u8>)
    ensures
        r@ == sep_fork(),
{
    let r: Vec<u8> = vec![
        0x10u8, 0x69, 0x63, 0x2d, 0x68, 0x61, 0x73, 0x68, 0x74, 0x72, 0x65, 0x65, 0x2d, 0x66,
        0x6f, 0x72, 0x6b,
    ];
    r
}

fn sep_labeled_bytes() -> (r: Vec<u8>)
    ensures
        r@ == sep_labeled(),
{
    let r: Vec<u8> = vec![
        0x13u8, 0x69, 0x63, 0x2d, 0x68, 0x61, 0x73, 0x68, 0x74, 0x72, 0x65, 0x65, 0x2d, 0x6c,
        0x61, 0x62, 0x65, 0x6c, 0x65, 0x64,
    ];
    r
}

fn sep_leaf_bytes() -> (r: Vec<u8>)
    ensures
        r@ == sep_leaf(),
{
    let r: Vec<u8> = vec![
        0x10u8, 0x69, 0x63, 0x2d, 0x68, 0x61, 0x73, 0x68, 0x74, 0x72, 0x65, 0x65, 0x2d, 0x6c,
        0x65, 0x61, 0x66,
    ];
    r
}

/// The domain-separated message that a subnet signs: `sep("ic-state-root") ++ root_hash`.
pub fn state_root_message(root_hash: &Vec<u8>) -> (r: Vec<u8>)
    ensures
        r@ == sep_state_root() + root_hash@,
{
    let mut r: Vec<u8> = vec![
        0x0du8, 0x69, 0x63, 0x2d, 0x73, 0x74, 0x61, 0x74, 0x65, 0x2d, 0x72, 0x6f, 0x6f, 0x74,
    ];
    append_bytes(&mut r, root_hash.as_slice());
    r
}

impl HashTree {
    /// Computes the root hash of this tree, per `digest_spec`.
    pub fn digest(&self) -> (r: Vec<u8>)
        ensures
            r@ == digest_spec(self@),
        decreases self,
    {
        match self {
            HashTree::Empty => sha256(&sep_empty_bytes()),
            HashTree::Fork(a, b) => {
                let mut msg = sep_fork_bytes();
                let da = a.digest();
                let db = b.digest();
                append_bytes(&mut msg, da.as_slice());
                append_bytes(&mut msg, db.as_slice());
                sha256(&msg)
            },
            HashTree::Labeled(l, sub) => {
                let mut msg = sep_labeled_bytes();
                append_bytes(&mut msg, l.as_slice());
                let d = sub.digest();
                append_bytes(&mut msg, d.as_slice());
                sha256(&msg)
            },
            HashTree::Leaf(v) => {
                let mut msg = sep_leaf_bytes();
                append_bytes(&mut msg, v.as_slice());
                sha256(&msg)
            },
            HashTree::Pruned(d) => vstd::slice::slice_to_vec(d.as_slice()),
        }
    }
}

/// The digest of a tree depends on its shape alone: structurally equal trees
/// have equal digests.
pub proof fn lemma_digest_deterministic(t1: TreeV, t2: TreeV)
    requires
        t1 == t2,
    ensures
        digest_spec(t1) == digest_spec(t2),
{
}

/// The digest of a `Pruned` node is exactly the stored digest, whatever was
/// pruned away.
pub proof fn lemma_digest_pruned(d: Seq<u8>)
    ensures
        digest_spec(TreeV::Pruned(d)) == d,
{
}

} // verus!
