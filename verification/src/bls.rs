use vstd::prelude::*;

verus! {

/// Whether the threshold-signature primitive accepts `sig` as a signature
/// over `msg` under `key`; fixed by the three byte strings alone.
pub uninterp spec fn bls_verify_ok(sig: Seq<u8>, msg: Seq<u8>, key: Seq<u8>) -> bool;

/// Relies on miracl_core_bls12381's `bls12381::bls::core_verify`: a
/// deterministic pairing check of a compressed 48-byte signature over `msg`
/// against a compressed 96-byte public key. The length and leading-bit
/// bounds keep its point decoding inside the two slices.
#[verifier::external_body]
pub(crate) fn bls_verify(sig: &[u8], msg: &Vec<u8>, key: &[u8]) -> (r: bool)
    requires
        sig@.len() == 48,
        sig@[0] >= 128,
        key@.len() == 96,
        key@[0] >= 128,
    ensures
        r == bls_verify_ok(sig@, msg@, key@),
{
    miracl_core_bls12381::bls12381::bls::core_verify(sig, msg.as_slice(), key)
        == miracl_core_bls12381::bls12381::bls::BLS_OK
}

} // verus!
