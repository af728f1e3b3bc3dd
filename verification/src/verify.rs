use vstd::prelude::*;

use crate::bls::bls_verify;
use crate::bls::bls_verify_ok;
use crate::cert::CertError;
use crate::cert::Certificate;
use crate::cert::CertificateV;
use crate::cert::Delegation;
use crate::cert::DelegationV;
use crate::codec::decode_certificate;
use crate::codec::decode_ranges;
use crate::codec::decoded_cert;
use crate::codec::decoded_ranges;
use crate::codec::ranges_view;
use crate::digest::digest_spec;
use crate::digest::sep_state_root;
use crate::digest::state_root_message;
use crate::lookup::LookupResult;
use crate::lookup::LookupResultV;
use crate::lookup::bytes_eq;
use crate::lookup::labels_view;
use crate::lookup::lookup_spec;
use crate::tree::TreeV;

verus! {

/// The bound on delegation-chain recursion.
pub const MAX_DELEGATION_DEPTH: u64 = 3;

// The DER wrapping of a 96-byte public key: a fixed 37-byte prefix.

/// The DER prefix under which a subnet public key is wrapped.
pub open spec fn der_prefix() -> Seq<u8> {
    seq![
        0x30u8, 0x81, 0x82, 0x30, 0x1d, 0x06, 0x0d, 0x2b, 0x06, 0x01, 0x04, 0x01, 0x82, 0xdc,
        0x7c, 0x05, 0x03, 0x01, 0x02, 0x01, 0x06, 0x0c, 0x2b, 0x06, 0x01, 0x04, 0x01, 0x82, 0xdc,
        0x7c, 0x05, 0x03, 0x02, 0x01, 0x03, 0x61, 0x00,
    ]
}

/// The raw 96-byte key inside a 133-byte DER wrapping, or nothing where the
/// bytes are not such a wrapping.
pub open spec fn der_unwrap_spec(b: Seq<u8>) -> Option<Seq<u8>> {
    if b.len() == 133 && b.subrange(0, 37) == der_prefix() {
        Option::Some(b.skip(37))
    } else {
        Option::None
    }
}

fn der_prefix_bytes() -> (r: Vec<u8>)
    ensures
        r@ == der_prefix(),
{
    let r: Vec<u8> = vec![
        0x30u8, 0x81, 0x82, 0x30, 0x1d, 0x06, 0x0d, 0x2b, 0x06, 0x01, 0x04, 0x01, 0x82, 0xdc,
        0x7c, 0x05, 0x03, 0x01, 0x02, 0x01, 0x06, 0x0c, 0x2b, 0x06, 0x01, 0x04, 0x01, 0x82, 0xdc,
        0x7c, 0x05, 0x03, 0x02, 0x01, 0x03, 0x61, 0x00,
    ];
    r
}

/// Strips the DER wrapping from an encoded public key.
pub fn der_unwrap(b: &[u8]) -> (r: Option<Vec<u8>>)
    ensures
        r is Some <==> der_unwrap_spec(b@) is Some,
        r matches Some(k) ==> k@ == der_unwrap_spec(b@).unwrap(),
{
    if b.len() != 133 {
        return Option::None;
    }
    let prefix = der_prefix_bytes();
    let head = vstd::slice::slice_subrange(b, 0, 37);
    if !bytes_eq(head, prefix.as_slice()) {
        return Option::None;
    }
    let tail = vstd::slice::slice_subrange(b, 37, 133);
    let r = vstd::slice::slice_to_vec(tail);
    proof {
        assert(r@ =~= b@.skip(37));
    }
    Option::Some(r)
}

// The resource-identifier order: a shorter identifier comes first; equal
// lengths compare bytewise from the left.

pub open spec fn bytes_le_from(a: Seq<u8>, b: Seq<u8>, i: int) -> bool
    recommends
        a.len() == b.len(),
        0 <= i <= a.len(),
    decreases a.len() - i,
{
    if i < 0 || i >= a.len() {
        true
    } else if a[i] < b[i] {
        true
    } else if a[i] > b[i] {
        false
    } else {
        bytes_le_from(a, b, i + 1)
    }
}

/// `a` comes no later than `b` in the resource-identifier order.
pub open spec fn principal_le(a: Seq<u8>, b: Seq<u8>) -> bool {
    a.len() < b.len() || (a.len() == b.len() && bytes_le_from(a, b, 0))
}

fn principal_le_check(a: &[u8], b: &[u8]) -> (r: bool)
    ensures
        r == principal_le(a@, b@),
{
    if a.len() < b.len() {
        return true;
    }
    if a.len() > b.len() {
        return false;
    }
    let mut i: usize = 0;
    while i < a.len()
        invariant
            a@.len() == b@.len(),
            0 <= i <= a@.len(),
            bytes_le_from(a@, b@, 0) == bytes_le_from(a@, b@, i as int),
        decreases a@.len() - i,
    {
        let x = *vstd::slice::slice_index_get(a, i);
        let y = *vstd::slice::slice_index_get(b, i);
        if x < y {
            return true;
        }
        if x > y {
            return false;
        }
        i = i + 1;
    }
    true
}

/// `target` lies inside one of the closed ranges.
pub open spec fn in_scope(target: Seq<u8>, ranges: Seq<(Seq<u8>, Seq<u8>)>) -> bool {
    exists|i: int|
        #![auto]
        0 <= i < ranges.len() && principal_le(ranges[i].0, target) && principal_le(
            target,
            ranges[i].1,
        )
}

fn in_scope_check(target: &Vec<u8>, ranges: &Vec<(Vec<u8>, Vec<u8>)>) -> (r: bool)
    ensures
        r == in_scope(target@, ranges_view(ranges@)),
{
    let ghost rv = ranges_view(ranges@);
    let mut k: usize = 0;
    while k < ranges.len()
        invariant
            0 <= k <= ranges@.len(),
            rv == ranges_view(ranges@),
            rv.len() == ranges@.len(),
            forall|i: int|
                #![auto]
                0 <= i < k ==> !(principal_le(rv[i].0, target@) && principal_le(
                    target@,
                    rv[i].1,
                )),
        decreases ranges@.len() - k,
    {
        let lo_ok = principal_le_check(ranges[k].0.as_slice(), target.as_slice());
        let hi_ok = principal_le_check(target.as_slice(), ranges[k].1.as_slice());
        proof {
            assert(rv[k as int] == (ranges@[k as int].0@, ranges@[k as int].1@));
        }
        if lo_ok && hi_ok {
            return true;
        }
        k = k + 1;
    }
    false
}

// The certified paths under which a delegation's nested certificate carries
// the subordinate key and the authorized ranges.

/// `"subnet"`
pub open spec fn subnet_label() -> Seq<u8> {
    seq![0x73u8, 0x75, 0x62, 0x6e, 0x65, 0x74]
}

/// `"public_key"`
pub open spec fn public_key_label() -> Seq<u8> {
    seq![0x70u8, 0x75, 0x62, 0x6c, 0x69, 0x63, 0x5f, 0x6b, 0x65, 0x79]
}

/// `"canister_ranges"`
pub open spec fn canister_ranges_label() -> Seq<u8> {
    seq![0x63u8, 0x61, 0x6e, 0x69, 0x73, 0x74, 0x65, 0x72, 0x5f, 0x72, 0x61, 0x6e, 0x67, 0x65, 0x73]
}

/// The path `["subnet", subnet_id, "public_key"]`.
pub open spec fn key_lookup_path(subnet_id: Seq<u8>) -> Seq<Seq<u8>> {
    seq![subnet_label(), subnet_id, public_key_label()]
}

/// The path `["subnet", subnet_id, "canister_ranges"]`.
pub open spec fn ranges_lookup_path(subnet_id: Seq<u8>) -> Seq<Seq<u8>> {
    seq![subnet_label(), subnet_id, canister_ranges_label()]
}

fn subnet_label_bytes() -> (r: Vec<u8>)
    ensures
        r@ == subnet_label(),
{
    let r: Vec<u8> = vec![0x73u8, 0x75, 0x62, 0x6e, 0x65, 0x74];
    r
}

fn public_key_label_bytes() -> (r: Vec<u8>)
    ensures
        r@ == public_key_label(),
{
    let r: Vec<u8> = vec![0x70u8, 0x75, 0x62, 0x6c, 0x69, 0x63, 0x5f, 0x6b, 0x65, 0x79];
    r
}

fn canister_ranges_label_bytes() -> (r: Vec<u8>)
    ensures
        r@ == canister_ranges_label(),
{
    let r: Vec<u8> = vec![
        0x63u8, 0x61, 0x6e, 0x69, 0x73, 0x74, 0x65, 0x72, 0x5f, 0x72, 0x61, 0x6e, 0x67, 0x65,
        0x73,
    ];
    r
}

// The verification rules, stated first as one spec-level decision procedure
// and then mirrored by the executable functions.

/// The signature step: the DER key must unwrap, the signature and key must
/// be the primitive's compressed point encodings, and the primitive must
/// accept the signature over `sep("ic-state-root") ++ root_hash`. Every
/// failure collapses into `SignatureInvalid`.
pub open spec fn sig_check_spec(sig: Seq<u8>, root_hash: Seq<u8>, der_key: Seq<u8>) -> Result<
    (),
    CertError,
> {
    match der_unwrap_spec(der_key) {
        Option::None => Result::Err(CertError::SignatureInvalid),
        Option::Some(raw) => if sig.len() == 48 && sig[0] >= 128 && raw[0] >= 128
            && bls_verify_ok(sig, sep_state_root() + root_hash, raw) {
            Result::Ok(())
        } else {
            Result::Err(CertError::SignatureInvalid)
        },
    }
}

/// The scope step on a delegation's nested tree: where a range list is
/// certified it must decode and hold `target`; where none is certified the
/// scope is unrestricted.
pub open spec fn scope_check_spec(nested_tree: TreeV, subnet_id: Seq<u8>, target: Seq<u8>) -> Result<
    (),
    CertError,
> {
    match lookup_spec(nested_tree, ranges_lookup_path(subnet_id)) {
        LookupResultV::Found(rb) => match decoded_ranges(rb) {
            Option::None => Result::Err(CertError::DecodeError),
            Option::Some(rs) => if in_scope(target, rs) {
                Result::Ok(())
            } else {
                Result::Err(CertError::ResourceNotAuthorized)
            },
        },
        _ => Result::Ok(()),
    }
}

/// Resolves the chain of trust to the effective DER-encoded key: no
/// delegation leaves the root key in force; a delegation must decode, its
/// nested certificate must itself verify against the root key, the
/// subordinate key must be certified under
/// `["subnet", subnet_id, "public_key"]`, and the target must lie in the
/// delegation's scope.
pub open spec fn resolve_key_spec(
    del: Option<DelegationV>,
    target: Seq<u8>,
    root_der: Seq<u8>,
    depth: nat,
) -> Result<Seq<u8>, CertError>
    decreases depth, 0nat,
{
    match del {
        Option::None => Result::Ok(root_der),
        Option::Some(d) => if depth == 0 {
            Result::Err(CertError::DelegationTooDeep)
        } else {
            match decoded_cert(d.certificate) {
                Option::None => Result::Err(CertError::DecodeError),
                Option::Some(nested) => match verify_spec(
                    nested,
                    target,
                    root_der,
                    (depth - 1) as nat,
                ) {
                    Result::Err(e) => Result::Err(e),
                    Result::Ok(_) => match lookup_spec(nested.tree, key_lookup_path(d.subnet_id)) {
                        LookupResultV::Found(der) => match scope_check_spec(
                            nested.tree,
                            d.subnet_id,
                            target,
                        ) {
                            Result::Err(e) => Result::Err(e),
                            Result::Ok(_) => Result::Ok(der),
                        },
                        _ => Result::Err(CertError::KeyNotCertified),
                    },
                },
            }
        },
    }
}

/// Whether a certificate is accepted against a trusted root key: the chain
/// of trust resolves to an effective key and the signature covers the
/// domain-separated root digest of exactly this certificate's tree.
pub open spec fn verify_spec(
    c: CertificateV,
    target: Seq<u8>,
    root_der: Seq<u8>,
    depth: nat,
) -> Result<(), CertError>
    decreases depth, 1nat,
{
    match resolve_key_spec(c.delegation, target, root_der, depth) {
        Result::Err(e) => Result::Err(e),
        Result::Ok(der_key) => sig_check_spec(c.signature, digest_spec(c.tree), der_key),
    }
}

fn check_delegation(
    del: &Option<Delegation>,
    target: &Vec<u8>,
    root_der: &Vec<u8>,
    depth: u64,
) -> (r: Result<Vec<u8>, CertError>)
    ensures
        ({
            let s = resolve_key_spec(
                crate::cert::opt_delegation_view(*del),
                target@,
                root_der@,
                depth as nat,
            );
            &&& r is Ok <==> s is Ok
            &&& r matches Result::Ok(k) ==> k@ == s->Ok_0
            &&& r matches Result::Err(e) ==> e == s->Err_0
        }),
    decreases depth, 0nat,
{
    match del {
        Option::None => Result::Ok(vstd::slice::slice_to_vec(root_der.as_slice())),
        Option::Some(d) => {
            if depth == 0 {
                return Result::Err(CertError::DelegationTooDeep);
            }
            let nested = match decode_certificate(d.certificate.as_slice()) {
                Option::Some(c) => c,
                Option::None => {
                    return Result::Err(CertError::DecodeError);
                },
            };
            match verify_depth(&nested, target, root_der, depth - 1) {
                Result::Ok(_) => {},
                Result::Err(e) => {
                    return Result::Err(e);
                },
            }
            let mut kpath: Vec<Vec<u8>> = Vec::new();
            kpath.push(subnet_label_bytes());
            kpath.push(vstd::slice::slice_to_vec(d.subnet_id.as_slice()));
            kpath.push(public_key_label_bytes());
            proof {
                assert(labels_view(kpath@) =~= key_lookup_path(d.subnet_id@));
            }
            let der = match nested.tree.lookup(&kpath) {
                LookupResult::Found(der) => der,
                _ => {
                    return Result::Err(CertError::KeyNotCertified);
                },
            };
            let mut rpath: Vec<Vec<u8>> = Vec::new();
            rpath.push(subnet_label_bytes());
            rpath.push(vstd::slice::slice_to_vec(d.subnet_id.as_slice()));
            rpath.push(canister_ranges_label_bytes());
            proof {
                assert(labels_view(rpath@) =~= ranges_lookup_path(d.subnet_id@));
            }
            match nested.tree.lookup(&rpath) {
                LookupResult::Found(rb) => {
                    match decode_ranges(rb.as_slice()) {
                        Option::None => {
                            return Result::Err(CertError::DecodeError);
                        },
                        Option::Some(ranges) => {
                            if !in_scope_check(target, &ranges) {
                                return Result::Err(CertError::ResourceNotAuthorized);
                            }
                        },
                    }
                },
                _ => {},
            }
            Result::Ok(der)
        },
    }
}

fn verify_depth(cert: &Certificate, target: &Vec<u8>, root_der: &Vec<u8>, depth: u64) -> (r: Result<
    (),
    CertError,
>)
    ensures
        r == verify_spec(cert@, target@, root_der@, depth as nat),
    decreases depth, 1nat,
{
    let root_hash = cert.tree.digest();
    let der_key = match check_delegation(&cert.delegation, target, root_der, depth) {
        Result::Ok(k) => k,
        Result::Err(e) => {
            return Result::Err(e);
        },
    };
    let raw = match der_unwrap(der_key.as_slice()) {
        Option::Some(k) => k,
        Option::None => {
            return Result::Err(CertError::SignatureInvalid);
        },
    };
    proof {
        assert(raw@.len() == 96);
    }
    if cert.signature.len() != 48 {
        return Result::Err(CertError::SignatureInvalid);
    }
    if cert.signature[0] < 128 {
        return Result::Err(CertError::SignatureInvalid);
    }
    if raw[0] < 128 {
        return Result::Err(CertError::SignatureInvalid);
    }
    let msg = state_root_message(&root_hash);
    if bls_verify(cert.signature.as_slice(), &msg, raw.as_slice()) {
        Result::Ok(())
    } else {
        Result::Err(CertError::SignatureInvalid)
    }
}

/// Verifies a certificate against a caller-supplied DER-encoded root key,
/// with the delegation bound `MAX_DELEGATION_DEPTH`.
pub fn verify_with_key(
    cert: &Certificate,
    effective_canister_id: &Vec<u8>,
    root_der_key: &Vec<u8>,
) -> (r: Result<(), CertError>)
    ensures
        r == verify_spec(
            cert@,
            effective_canister_id@,
            root_der_key@,
            MAX_DELEGATION_DEPTH as nat,
        ),
{
    verify_depth(cert, effective_canister_id, root_der_key, MAX_DELEGATION_DEPTH)
}

/// Verifies a certificate, checking its delegation if present, against the
/// process-wide root key. Only passes if the chain of trust also has
/// authority over the target resource.
pub fn verify(cert: &Certificate, effective_canister_id: &Vec<u8>) -> (r: Result<(), CertError>)
    ensures
        r == verify_spec(
            cert@,
            effective_canister_id@,
            ic_root_key_spec(),
            MAX_DELEGATION_DEPTH as nat,
        ),
{
    let root = ic_root_key();
    verify_depth(cert, effective_canister_id, &root, MAX_DELEGATION_DEPTH)
}

/// The process-wide root public key, DER-encoded: 37 prefix bytes and a
/// 96-byte key.
pub open spec fn ic_root_key_spec() -> Seq<u8> {
    der_prefix() + seq![
        0x81u8, 0x4c, 0x0e, 0x6e, 0xc7, 0x1f, 0xab, 0x58, 0x3b, 0x08, 0xbd, 0x81, 0x37, 0x3c,
        0x25, 0x5c, 0x3c, 0x37, 0x1b, 0x2e, 0x84, 0x86, 0x3c, 0x98, 0xa4, 0xf1, 0xe0, 0x8b, 0x74,
        0x23, 0x5d, 0x14, 0xfb, 0x5d, 0x9c, 0x0c, 0xd5, 0x46, 0xd9, 0x68, 0x5f, 0x91, 0x3a, 0x0c,
        0x0b, 0x2c, 0xc5, 0x34, 0x15, 0x83, 0xbf, 0x4b, 0x43, 0x92, 0xe4, 0x67, 0xdb, 0x96, 0xd6,
        0x5b, 0x9b, 0xb4, 0xcb, 0x71, 0x71, 0x12, 0xf8, 0x47, 0x2e, 0x0d, 0x5a, 0x4d, 0x14, 0x50,
        0x5f, 0xfd, 0x74, 0x84, 0xb0, 0x12, 0x91, 0x09, 0x1c, 0x5f, 0x87, 0xb9, 0x88, 0x83, 0x46,
        0x3f, 0x98, 0x09, 0x1a, 0x0b, 0xaa, 0xae,
    ]
}

/// The process-wide root public key as bytes.
pub fn ic_root_key() -> (r: Vec<u8>)
    ensures
        r@ == ic_root_key_spec(),
{
    let mut r = der_prefix_bytes();
    let key: Vec<u8> = vec![
        0x81u8, 0x4c, 0x0e, 0x6e, 0xc7, 0x1f, 0xab, 0x58, 0x3b, 0x08, 0xbd, 0x81, 0x37, 0x3c,
        0x25, 0x5c, 0x3c, 0x37, 0x1b, 0x2e, 0x84, 0x86, 0x3c, 0x98, 0xa4, 0xf1, 0xe0, 0x8b, 0x74,
        0x23, 0x5d, 0x14, 0xfb, 0x5d, 0x9c, 0x0c, 0xd5, 0x46, 0xd9, 0x68, 0x5f, 0x91, 0x3a, 0x0c,
        0x0b, 0x2c, 0xc5, 0x34, 0x15, 0x83, 0xbf, 0x4b, 0x43, 0x92, 0xe4, 0x67, 0xdb, 0x96, 0xd6,
        0x5b, 0x9b, 0xb4, 0xcb, 0x71, 0x71, 0x12, 0xf8, 0x47, 0x2e, 0x0d, 0x5a, 0x4d, 0x14, 0x50,
        0x5f, 0xfd, 0x74, 0x84, 0xb0, 0x12, 0x91, 0x09, 0x1c, 0x5f, 0x87, 0xb9, 0x88, 0x83, 0x46,
        0x3f, 0x98, 0x09, 0x1a, 0x0b, 0xaa, 0xae,
    ];
    crate::digest::append_bytes(&mut r, key.as_slice());
    r
}

// What acceptance means, stated once and proved from the definitions above.

/// An accepted certificate's signature was checked over the domain-separated
/// root digest of exactly this certificate's tree, under the key the chain
/// of trust resolved to: substituting a tree with a different digest changes
/// the message the primitive must accept.
pub proof fn lemma_ok_implies_signature_over_digest(
    c: CertificateV,
    target: Seq<u8>,
    root_der: Seq<u8>,
    depth: nat,
)
    requires
        verify_spec(c, target, root_der, depth) is Ok,
    ensures
        resolve_key_spec(c.delegation, target, root_der, depth) is Ok,
        der_unwrap_spec(resolve_key_spec(c.delegation, target, root_der, depth)->Ok_0) is Some,
        bls_verify_ok(
            c.signature,
            sep_state_root() + digest_spec(c.tree),
            der_unwrap_spec(resolve_key_spec(c.delegation, target, root_der, depth)->Ok_0)->0,
        ),
{
}

/// A certificate with a delegation is only accepted if the delegation's
/// nested certificate itself passed the same verification against the root
/// key: an outer signature, however valid over the extracted key, cannot
/// rescue a failed nested check.
pub proof fn lemma_ok_implies_nested_ok(
    c: CertificateV,
    target: Seq<u8>,
    root_der: Seq<u8>,
    depth: nat,
)
    requires
        verify_spec(c, target, root_der, depth) is Ok,
        c.delegation is Some,
    ensures
        depth >= 1,
        decoded_cert(c.delegation->0.certificate) is Some,
        verify_spec(
            decoded_cert(c.delegation->0.certificate)->0,
            target,
            root_der,
            (depth - 1) as nat,
        ) is Ok,
{
}

/// A target resource outside the delegation's certified range list is
/// rejected as `ResourceNotAuthorized`, however valid the signature chain.
pub proof fn lemma_out_of_scope_rejected(
    c: CertificateV,
    target: Seq<u8>,
    root_der: Seq<u8>,
    depth: nat,
    rb: Seq<u8>,
    rs: Seq<(Seq<u8>, Seq<u8>)>,
)
    requires
        c.delegation matches Some(d) && decoded_cert(d.certificate) matches Some(nested)
            && lookup_spec(nested.tree, key_lookup_path(d.subnet_id)) is Found && lookup_spec(
            nested.tree,
            ranges_lookup_path(d.subnet_id),
        ) == LookupResultV::Found(rb),
        depth >= 1,
        verify_spec(
            decoded_cert(c.delegation->0.certificate)->0,
            target,
            root_der,
            (depth - 1) as nat,
        ) is Ok,
        decoded_ranges(rb) == Option::Some(rs),
        !in_scope(target, rs),
    ensures
        verify_spec(c, target, root_der, depth) == Result::<(), CertError>::Err(
            CertError::ResourceNotAuthorized,
        ),
{
}

} // verus!
