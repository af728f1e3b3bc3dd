//! Verification of cryptographically authenticated state certificates: a
//! Merkle hash-tree model with its root-digest algorithm, a typed path
//! lookup with explicit proven-absent and redacted outcomes, resolution of
//! delegation chains to an effective signing key, and the orchestration of
//! the domain-separated threshold-signature check.

mod bls;
mod cert;
mod codec;
mod digest;
mod lookup;
mod tree;
mod verify;

pub use bls::bls_verify_ok;
pub use cert::CertError;
pub use cert::Certificate;
pub use cert::CertificateV;
pub use cert::Delegation;
pub use cert::DelegationV;
pub use codec::decoded_cert;
pub use codec::decoded_ranges;
pub use codec::ranges_view;
pub use digest::append_bytes;
pub use digest::digest_spec;
pub use digest::sep_empty;
pub use digest::sep_fork;
pub use digest::sep_labeled;
pub use digest::sep_leaf;
pub use digest::sep_state_root;
pub use digest::lemma_digest_deterministic;
pub use digest::lemma_digest_pruned;
pub use digest::sha256_of;
pub use digest::state_root_message;
pub use lookup::LookupResult;
pub use lookup::LookupResultV;
pub use lookup::found_in;
pub use lookup::labels_view;
pub use lookup::lemma_lookup_found_complete;
pub use lookup::lemma_lookup_found_sound;
pub use lookup::lemma_unknown_iff_pruned_on_route;
pub use lookup::no_pruned;
pub use lookup::pruned_on_route;
pub use lookup::search_wf;
pub use lookup::top_labels;
pub use lookup::lookup_spec;
pub use verify::MAX_DELEGATION_DEPTH;
pub use verify::der_prefix;
pub use verify::der_unwrap;
pub use verify::der_unwrap_spec;
pub use verify::ic_root_key;
pub use verify::ic_root_key_spec;
pub use verify::in_scope;
pub use verify::key_lookup_path;
pub use verify::lemma_ok_implies_nested_ok;
pub use verify::lemma_ok_implies_signature_over_digest;
pub use verify::lemma_out_of_scope_rejected;
pub use verify::principal_le;
pub use verify::public_key_label;
pub use verify::subnet_label;
pub use verify::canister_ranges_label;
pub use verify::ranges_lookup_path;
pub use verify::resolve_key_spec;
pub use verify::scope_check_spec;
pub use verify::sig_check_spec;
pub use verify::verify;
pub use verify::verify_spec;
pub use verify::verify_with_key;
pub use tree::HashTree;
pub use tree::TreeV;
