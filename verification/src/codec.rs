use vstd::prelude::*;

use ic_certification::HashTreeNode as IcNode;

verus! {

/// Carries one ic-certification tree node through the conversion below;
/// Verus sees nothing inside it.
#[verifier::external_body]
struct NodeBox {
    inner: IcNode,
}

/// What the wire decoder yields on a given byte string: the certificate it
/// encodes, or nothing where the bytes are not a well-formed encoding; fixed
/// by the wire format alone.
pub uninterp spec fn decoded_cert(b: Seq<u8>) -> Option<crate::cert::CertificateV>;

/// What the wire decoder yields on a byte string that should encode a list
/// of resource-identifier ranges; fixed by the wire format alone.
pub uninterp spec fn decoded_ranges(b: Seq<u8>) -> Option<Seq<(Seq<u8>, Seq<u8>)>>;

/// A range list as sequences of byte strings.
pub open spec fn ranges_view(s: Seq<(Vec<u8>, Vec<u8>)>) -> Seq<(Seq<u8>, Seq<u8>)> {
    s.map_values(|p: (Vec<u8>, Vec<u8>)| (p.0@, p.1@))
}

/// Relies on ic-certification's `HashTreeNode`: rebuilds the same tree,
/// variant for variant, moving the bytes over.
#[verifier::external_body]
fn convert_node(n: NodeBox) -> crate::tree::HashTree {
    let wrap = |x: IcNode| Box::new(convert_node(NodeBox { inner: x }));
    match n.inner {
        IcNode::Empty() => crate::tree::HashTree::Empty,
        IcNode::Fork(pair) => {
            let (a, b) = *pair;
            crate::tree::HashTree::Fork(wrap(a), wrap(b))
        },
        IcNode::Labeled(l, t) => crate::tree::HashTree::Labeled(l.as_bytes().to_vec(), wrap(*t)),
        IcNode::Leaf(v) => crate::tree::HashTree::Leaf(v),
        IcNode::Pruned(h) => crate::tree::HashTree::Pruned(h.to_vec()),
    }
}

/// Relies on serde_cbor::from_slice with ic-certification's certificate
/// decoding: yields the certificate that `b` encodes, or nothing on
/// malformed bytes; deterministic in `b`.
#[verifier::external_body]
pub(crate) fn decode_certificate(b: &[u8]) -> (r: Option<crate::cert::Certificate>)
    ensures
        r is Some <==> decoded_cert(b@) is Some,
        r is Some ==> r.unwrap()@ == decoded_cert(b@).unwrap(),
{
    match serde_cbor::from_slice::<ic_certification::certificate::Certificate<Vec<u8>>>(b) {
        Ok(c) => Some(crate::cert::Certificate {
            tree: convert_node(NodeBox { inner: c.tree.into() }),
            signature: c.signature,
            delegation: c.delegation.map(
                |d| crate::cert::Delegation { subnet_id: d.subnet_id, certificate: d.certificate },
            ),
        }),
        Err(_) => None,
    }
}

/// Relies on serde_cbor::from_slice: yields the list of byte-string pairs
/// that `b` encodes, or nothing on malformed bytes; deterministic in `b`.
#[verifier::external_body]
pub(crate) fn decode_ranges(b: &[u8]) -> (r: Option<Vec<(Vec<u8>, Vec<u8>)>>)
    ensures
        r is Some <==> decoded_ranges(b@) is Some,
        r matches Some(v) ==> ranges_view(v@) == decoded_ranges(b@).unwrap(),
{
    match serde_cbor::from_slice::<Vec<(serde_bytes::ByteBuf, serde_bytes::ByteBuf)>>(b) {
        Ok(v) => Some(v.into_iter().map(|p| (p.0.into_vec(), p.1.into_vec())).collect()),
        Err(_) => None,
    }
}

} // verus!
