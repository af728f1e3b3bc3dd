use ic_cert::CertError;
use ic_cert::Certificate;
use ic_cert::Delegation;
use ic_cert::HashTree;
use ic_cert::LookupResult;
use ic_cert::state_root_message;
use ic_cert::verify_with_key;

use miracl_core_bls12381::bls12381::bls;
use serde_bytes::ByteBuf;
use sha2::Digest;

const DER_PREFIX: [u8; 37] = [
    0x30, 0x81, 0x82, 0x30, 0x1d, 0x06, 0x0d, 0x2b, 0x06, 0x01, 0x04, 0x01, 0x82, 0xdc, 0x7c,
    0x05, 0x03, 0x01, 0x02, 0x01, 0x06, 0x0c, 0x2b, 0x06, 0x01, 0x04, 0x01, 0x82, 0xdc, 0x7c,
    0x05, 0x03, 0x02, 0x01, 0x03, 0x61, 0x00,
];

fn keypair(seed: u8) -> (Vec<u8>, Vec<u8>) {
    let ikm = [seed; 32];
    let mut s = [0u8; 48];
    let mut w = [0u8; 96];
    let rc = bls::key_pair_generate(&ikm, &mut s, &mut w);
    assert_eq!(rc, bls::BLS_OK);
    (s.to_vec(), w.to_vec())
}

fn sign(msg: &[u8], secret: &[u8]) -> Vec<u8> {
    let mut sig = [0u8; 48];
    let rc = bls::core_sign(&mut sig, msg, secret);
    assert_eq!(rc, bls::BLS_OK);
    sig.to_vec()
}

fn der_wrap(raw: &[u8]) -> Vec<u8> {
    let mut v = DER_PREFIX.to_vec();
    v.extend_from_slice(raw);
    v
}

fn labeled(l: &[u8], t: HashTree) -> HashTree {
    HashTree::Labeled(l.to_vec(), Box::new(t))
}

fn fork(a: HashTree, b: HashTree) -> HashTree {
    HashTree::Fork(Box::new(a), Box::new(b))
}

fn leaf(v: &[u8]) -> HashTree {
    HashTree::Leaf(v.to_vec())
}

fn path(labels: &[&[u8]]) -> Vec<Vec<u8>> {
    labels.iter().map(|l| l.to_vec()).collect()
}

fn sha(bytes: &[u8]) -> Vec<u8> {
    sha2::Sha256::digest(bytes).to_vec()
}

/// A delegation certificate certifying `subnet_der_key` (and optionally a
/// range list) for `subnet_id`, signed by `root_secret`, CBOR-encoded.
fn encode_delegation_cert(
    subnet_id: &[u8],
    subnet_der_key: &[u8],
    ranges: Option<Vec<(Vec<u8>, Vec<u8>)>>,
    root_secret: &[u8],
    break_signature: bool,
) -> Vec<u8> {
    let key_node = ic_certification::labeled("public_key", ic_certification::leaf(
        subnet_der_key.to_vec(),
    ));
    let subtree = match ranges {
        None => key_node,
        Some(rs) => {
            let pairs: Vec<(ByteBuf, ByteBuf)> = rs
                .into_iter()
                .map(|(lo, hi)| (ByteBuf::from(lo), ByteBuf::from(hi)))
                .collect();
            let ranges_cbor = serde_cbor::to_vec(&pairs).unwrap();
            ic_certification::fork(
                ic_certification::labeled("canister_ranges", ic_certification::leaf(ranges_cbor)),
                key_node,
            )
        },
    };
    let tree = ic_certification::labeled(
        "subnet",
        ic_certification::labeled(subnet_id.to_vec(), subtree),
    );
    let digest = tree.digest();
    let msg = state_root_message(&digest.to_vec());
    let mut signature = sign(&msg, root_secret);
    if break_signature {
        signature[5] ^= 0x01;
    }
    let cert = ic_certification::Certificate { tree, signature, delegation: None };
    serde_cbor::to_vec(&cert).unwrap()
}

#[test]
fn digest_matches_hash_of_leaf_encoding() {
    let t = leaf(&[1, 2, 3, 4]);
    let mut enc = vec![16u8];
    enc.extend_from_slice(b"ic-hashtree-leaf");
    enc.extend_from_slice(&[1, 2, 3, 4]);
    assert_eq!(t.digest(), sha(&enc));
}

#[test]
fn digest_matches_hash_of_empty_encoding() {
    let mut enc = vec![17u8];
    enc.extend_from_slice(b"ic-hashtree-empty");
    assert_eq!(HashTree::Empty.digest(), sha(&enc));
}

#[test]
fn digest_of_labeled_tree_composes() {
    let t = labeled(b"time", leaf(&[1, 2, 3, 4]));
    let mut leaf_enc = vec![16u8];
    leaf_enc.extend_from_slice(b"ic-hashtree-leaf");
    leaf_enc.extend_from_slice(&[1, 2, 3, 4]);
    let mut enc = vec![19u8];
    enc.extend_from_slice(b"ic-hashtree-labeled");
    enc.extend_from_slice(b"time");
    enc.extend_from_slice(&sha(&leaf_enc));
    assert_eq!(t.digest(), sha(&enc));
}

#[test]
fn digest_agrees_with_reference_implementation() {
    let ours = fork(
        labeled(b"a", leaf(b"x")),
        fork(labeled(b"b", leaf(b"y")), HashTree::Empty),
    );
    let reference = ic_certification::fork(
        ic_certification::labeled("a", ic_certification::leaf(b"x".to_vec())),
        ic_certification::fork(
            ic_certification::labeled("b", ic_certification::leaf(b"y".to_vec())),
            ic_certification::empty(),
        ),
    );
    assert_eq!(ours.digest(), reference.digest().to_vec());
}

#[test]
fn digest_is_deterministic_on_equal_trees() {
    let t1 = fork(labeled(b"a", leaf(b"x")), labeled(b"b", leaf(b"y")));
    let t2 = fork(labeled(b"a", leaf(b"x")), labeled(b"b", leaf(b"y")));
    assert_eq!(t1.digest(), t1.digest());
    assert_eq!(t1.digest(), t2.digest());
}

#[test]
fn digest_of_pruned_returns_stored_digest() {
    let d: Vec<u8> = (0u8..32).collect();
    let t = HashTree::Pruned(d.clone());
    assert_eq!(t.digest(), d);
    let inside = fork(HashTree::Pruned(d.clone()), labeled(b"a", leaf(b"x")));
    let mut enc = vec![16u8];
    enc.extend_from_slice(b"ic-hashtree-fork");
    enc.extend_from_slice(&d);
    enc.extend_from_slice(&labeled(b"a", leaf(b"x")).digest());
    assert_eq!(inside.digest(), sha(&enc));
}

#[test]
fn lookup_finds_leaf_through_labels_and_forks() {
    let t = fork(
        labeled(b"a", labeled(b"b", leaf(&[9]))),
        labeled(b"c", leaf(&[7])),
    );
    assert_eq!(t.lookup(&path(&[b"a", b"b"])), LookupResult::Found(vec![9]));
    assert_eq!(t.lookup(&path(&[b"c"])), LookupResult::Found(vec![7]));
}

#[test]
fn lookup_reports_absence_for_missing_label() {
    let t = labeled(b"time", leaf(&[1, 2, 3, 4]));
    assert_eq!(t.lookup(&path(&[b"other"])), LookupResult::Absent);
    assert_eq!(HashTree::Empty.lookup(&path(&[b"x"])), LookupResult::Absent);
}

#[test]
fn lookup_reports_unknown_behind_pruned() {
    let d = [0u8; 32].to_vec();
    let t = fork(HashTree::Pruned(d), labeled(b"b", leaf(&[1])));
    assert_eq!(t.lookup(&path(&[b"a"])), LookupResult::Unknown);
    assert_eq!(t.lookup(&path(&[b"b"])), LookupResult::Unknown);
    let t2 = fork(labeled(b"b", leaf(&[1])), HashTree::Pruned([0u8; 32].to_vec()));
    assert_eq!(t2.lookup(&path(&[b"b"])), LookupResult::Found(vec![1]));
}

#[test]
fn lookup_reports_malformed_shapes() {
    let t = labeled(b"a", leaf(&[1]));
    assert_eq!(t.lookup(&path(&[b"a", b"b"])), LookupResult::Malformed);
    assert_eq!(t.lookup(&path(&[])), LookupResult::Malformed);
    assert_eq!(leaf(&[1]).lookup(&path(&[])), LookupResult::Found(vec![1]));
}

#[test]
fn verify_accepts_root_signed_certificate() {
    let (s, w) = keypair(1);
    let root_der = der_wrap(&w);
    let tree = labeled(b"time", leaf(&[0x01, 0x02, 0x03, 0x04]));
    let digest = tree.digest();
    let msg = state_root_message(&digest);
    let signature = sign(&msg, &s);
    let cert = Certificate { tree, signature, delegation: None };
    let target = vec![0x00, 0x01];
    assert_eq!(verify_with_key(&cert, &target, &root_der), Ok(()));
    assert_eq!(
        cert.tree.lookup(&path(&[b"time"])),
        LookupResult::Found(vec![0x01, 0x02, 0x03, 0x04])
    );
    assert_eq!(cert.tree.lookup(&path(&[b"other"])), LookupResult::Absent);
}

#[test]
fn verify_rejects_tampered_tree() {
    let (s, w) = keypair(2);
    let root_der = der_wrap(&w);
    let tree = labeled(b"time", leaf(&[0x01, 0x02, 0x03, 0x04]));
    let msg = state_root_message(&tree.digest());
    let signature = sign(&msg, &s);
    let tampered = labeled(b"time", leaf(&[0x01, 0x02, 0x03, 0x05]));
    let cert = Certificate { tree: tampered, signature, delegation: None };
    let target = vec![0x00, 0x01];
    assert_eq!(
        verify_with_key(&cert, &target, &root_der),
        Err(CertError::SignatureInvalid)
    );
}

#[test]
fn verify_rejects_corrupted_signature() {
    let (s, w) = keypair(3);
    let root_der = der_wrap(&w);
    let tree = labeled(b"time", leaf(&[1]));
    let msg = state_root_message(&tree.digest());
    let mut signature = sign(&msg, &s);
    signature[7] ^= 0x10;
    let cert = Certificate { tree, signature, delegation: None };
    assert_eq!(
        verify_with_key(&cert, &vec![0u8], &root_der),
        Err(CertError::SignatureInvalid)
    );
}

fn delegated_cert(
    ranges: Option<Vec<(Vec<u8>, Vec<u8>)>>,
    break_nested_signature: bool,
    omit_key: bool,
) -> (Certificate, Vec<u8>) {
    let (root_s, root_w) = keypair(4);
    let root_der = der_wrap(&root_w);
    let (sub_s, sub_w) = keypair(5);
    let sub_der = der_wrap(&sub_w);
    let subnet_id = vec![0xAA, 0xBB];
    let nested_cbor = if omit_key {
        let tree = ic_certification::labeled(
            "subnet",
            ic_certification::labeled(subnet_id.clone(), ic_certification::labeled(
                "other",
                ic_certification::leaf(vec![0]),
            )),
        );
        let msg = state_root_message(&tree.digest().to_vec());
        let signature = sign(&msg, &root_s);
        serde_cbor::to_vec(&ic_certification::Certificate { tree, signature, delegation: None })
            .unwrap()
    } else {
        encode_delegation_cert(&subnet_id, &sub_der, ranges, &root_s, break_nested_signature)
    };
    let tree = labeled(b"time", leaf(&[0x01, 0x02, 0x03, 0x04]));
    let msg = state_root_message(&tree.digest());
    let signature = sign(&msg, &sub_s);
    let cert = Certificate {
        tree,
        signature,
        delegation: Some(Delegation { subnet_id, certificate: nested_cbor }),
    };
    (cert, root_der)
}

#[test]
fn verify_accepts_delegated_certificate_in_scope() {
    let ranges = vec![(vec![0x00, 0x01], vec![0x00, 0xFF])];
    let (cert, root_der) = delegated_cert(Some(ranges), false, false);
    let target = vec![0x00, 0x10];
    assert_eq!(verify_with_key(&cert, &target, &root_der), Ok(()));
}

#[test]
fn verify_accepts_delegation_without_range_list() {
    let (cert, root_der) = delegated_cert(None, false, false);
    let target = vec![0x09, 0x10];
    assert_eq!(verify_with_key(&cert, &target, &root_der), Ok(()));
}

#[test]
fn verify_rejects_delegation_with_bad_nested_signature() {
    let ranges = vec![(vec![0x00, 0x01], vec![0x00, 0xFF])];
    let (cert, root_der) = delegated_cert(Some(ranges), true, false);
    let target = vec![0x00, 0x10];
    assert_eq!(
        verify_with_key(&cert, &target, &root_der),
        Err(CertError::SignatureInvalid)
    );
}

#[test]
fn verify_rejects_target_outside_delegation_scope() {
    let ranges = vec![(vec![0x00, 0x01], vec![0x00, 0xFF])];
    let (cert, root_der) = delegated_cert(Some(ranges.clone()), false, false);
    let outside_lex = vec![0x09, 0x10];
    assert_eq!(
        verify_with_key(&cert, &outside_lex, &root_der),
        Err(CertError::ResourceNotAuthorized)
    );
    let (cert2, root_der2) = delegated_cert(Some(ranges), false, false);
    let outside_len = vec![0x00, 0x01, 0x02];
    assert_eq!(
        verify_with_key(&cert2, &outside_len, &root_der2),
        Err(CertError::ResourceNotAuthorized)
    );
}

#[test]
fn verify_rejects_delegation_without_certified_key() {
    let (cert, root_der) = delegated_cert(None, false, true);
    let target = vec![0x00, 0x10];
    assert_eq!(
        verify_with_key(&cert, &target, &root_der),
        Err(CertError::KeyNotCertified)
    );
}

#[test]
fn verify_rejects_malformed_delegation_bytes() {
    let (s, w) = keypair(6);
    let root_der = der_wrap(&w);
    let tree = labeled(b"time", leaf(&[1]));
    let msg = state_root_message(&tree.digest());
    let signature = sign(&msg, &s);
    let cert = Certificate {
        tree,
        signature,
        delegation: Some(Delegation {
            subnet_id: vec![1],
            certificate: vec![0xFF, 0x00, 0x13],
        }),
    };
    assert_eq!(
        verify_with_key(&cert, &vec![0u8], &root_der),
        Err(CertError::DecodeError)
    );
}

#[test]
fn verify_rejects_overlong_delegation_chain() {
    let (_, w) = keypair(7);
    let root_der = der_wrap(&w);
    let dummy_sig = {
        let mut v = vec![0x80u8];
        v.extend_from_slice(&[0u8; 47]);
        v
    };
    let mut inner = ic_certification::Certificate {
        tree: ic_certification::leaf(vec![1]),
        signature: dummy_sig.clone(),
        delegation: Some(ic_certification::Delegation {
            subnet_id: vec![9],
            certificate: vec![0xFF],
        }),
    };
    for _ in 0..3 {
        let bytes = serde_cbor::to_vec(&inner).unwrap();
        inner = ic_certification::Certificate {
            tree: ic_certification::leaf(vec![1]),
            signature: dummy_sig.clone(),
            delegation: Some(ic_certification::Delegation {
                subnet_id: vec![9],
                certificate: bytes,
            }),
        };
    }
    let bytes = serde_cbor::to_vec(&inner).unwrap();
    let cert = Certificate {
        tree: leaf(&[1]),
        signature: dummy_sig,
        delegation: Some(Delegation { subnet_id: vec![9], certificate: bytes }),
    };
    assert_eq!(
        verify_with_key(&cert, &vec![0u8], &root_der),
        Err(CertError::DelegationTooDeep)
    );
}

#[test]
fn verify_with_process_root_key_rejects_forged_signature() {
    let tree = labeled(b"time", leaf(&[1]));
    let mut signature = vec![0x80u8];
    signature.extend_from_slice(&[0u8; 47]);
    let cert = Certificate { tree, signature, delegation: None };
    assert_eq!(
        ic_cert::verify(&cert, &vec![0u8, 1u8]),
        Err(CertError::SignatureInvalid)
    );
}

#[test]
fn der_unwrap_strips_exactly_the_prefix() {
    let root = ic_cert::ic_root_key();
    let raw = ic_cert::der_unwrap(root.as_slice()).unwrap();
    assert_eq!(raw.len(), 96);
    assert_eq!(raw[..], root[37..]);
    assert_eq!(ic_cert::der_unwrap(&root[1..]), None);
    let mut wrong = root.clone();
    wrong[0] ^= 0xFF;
    assert_eq!(ic_cert::der_unwrap(wrong.as_slice()), None);
}

#[test]
fn scope_range_boundaries_are_inclusive() {
    let ranges = vec![(vec![0x10, 0x00], vec![0x10, 0x20])];
    let (lo_cert, lo_der) = delegated_cert(Some(ranges.clone()), false, false);
    assert_eq!(verify_with_key(&lo_cert, &vec![0x10, 0x00], &lo_der), Ok(()));
    let (hi_cert, hi_der) = delegated_cert(Some(ranges.clone()), false, false);
    assert_eq!(verify_with_key(&hi_cert, &vec![0x10, 0x20], &hi_der), Ok(()));
    let (out_cert, out_der) = delegated_cert(Some(ranges), false, false);
    assert_eq!(
        verify_with_key(&out_cert, &vec![0x10, 0x21], &out_der),
        Err(CertError::ResourceNotAuthorized)
    );
}

#[test]
fn empty_range_list_authorizes_nothing() {
    let (cert, root_der) = delegated_cert(Some(vec![]), false, false);
    assert_eq!(
        verify_with_key(&cert, &vec![0x00], &root_der),
        Err(CertError::ResourceNotAuthorized)
    );
}
