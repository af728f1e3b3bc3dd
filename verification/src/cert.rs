use vstd::prelude::*;

use crate::tree::HashTree;
use crate::tree::TreeV;
use crate::tree::tree_view;

verus! {

/// A delegation link: a subnet identifier together with the serialized
/// certificate that is claimed to certify that subnet's signing key.
pub struct Delegation {
    pub subnet_id: Vec<u8>,
    pub certificate: Vec<u8>,
}

/// A state certificate: a hash tree, a signature over the tree's root
/// digest, and an optional delegation from the root authority to the signer.
pub struct Certificate {
    pub tree: HashTree,
    pub signature: Vec<u8>,
    pub delegation: Option<Delegation>,
}

/// The mathematical shape of a `Delegation`.
pub struct DelegationV {
    pub subnet_id: Seq<u8>,
    pub certificate: Seq<u8>,
}

/// The mathematical shape of a `Certificate`.
pub struct CertificateV {
    pub tree: TreeV,
    pub signature: Seq<u8>,
    pub delegation: Option<DelegationV>,
}

impl View for Delegation {
    type V = DelegationV;

    open spec fn view(&self) -> DelegationV {
        DelegationV { subnet_id: self.subnet_id@, certificate: self.certificate@ }
    }
}

/// The mathematical shape of an optional delegation.
pub open spec fn opt_delegation_view(d: Option<Delegation>) -> Option<DelegationV> {
    match d {
        Option::None => Option::None,
        Option::Some(x) => Option::Some(x@),
    }
}

impl View for Certificate {
    type V = CertificateV;

    open spec fn view(&self) -> CertificateV {
        CertificateV {
            tree: tree_view(self.tree),
            signature: self.signature@,
            delegation: opt_delegation_view(self.delegation),
        }
    }
}

/// Why a certificate was rejected.
#[derive(Clone, Copy, Debug, PartialEq, Eq, Structural)]
pub enum CertError {
    /// Malformed wire bytes for a certificate or for a range list.
    DecodeError,
    /// The nested certificate does not certify a usable subordinate key.
    KeyNotCertified,
    /// The delegation chain is longer than the recursion bound.
    DelegationTooDeep,
    /// The cryptographic check failed, or the signature or key were
    /// malformed.
    SignatureInvalid,
    /// The signer's authorized scope excludes the target resource.
    ResourceNotAuthorized,
}

} // verus!
