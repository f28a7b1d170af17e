//! Signing keys: what is asked of the device, and what it hands back.

use vstd::prelude::*;
use crate::text::same_text;
use vstd::string::StringExecFns;

verus! {

/// Which of the two signing keys a request is for.
#[derive(Clone, Copy, Debug, PartialEq, Eq, Structural)]
pub enum KeyRole {
    Root,
    Targets,
}

/// The algorithm of a signing key.
#[derive(Clone, Copy, Debug, PartialEq, Eq, Structural)]
pub enum KeyAlgorithm {
    P256,
    P384,
    Ed25519,
}

/// The algorithm a name on the command line stands for.
pub open spec fn algorithm_named(name: Seq<char>) -> Option<KeyAlgorithm> {
    if name == "p256"@ {
        Some(KeyAlgorithm::P256)
    } else if name == "p384"@ {
        Some(KeyAlgorithm::P384)
    } else if name == "ed25519"@ {
        Some(KeyAlgorithm::Ed25519)
    } else {
        None
    }
}

impl KeyAlgorithm {
    /// The algorithm of a name, if it is one.
    pub fn from_name(name: &str) -> (algorithm: Option<KeyAlgorithm>)
        ensures
            algorithm == algorithm_named(name@),
    {
        if same_text(name, "p256") {
            Some(KeyAlgorithm::P256)
        } else if same_text(name, "p384") {
            Some(KeyAlgorithm::P384)
        } else if same_text(name, "ed25519") {
            Some(KeyAlgorithm::Ed25519)
        } else {
            None
        }
    }
}

/// A request for one keypair. It cannot be changed once made.
#[derive(Clone, Debug, PartialEq, Eq)]
pub struct KeyMaterialRequest {
    role: KeyRole,
    algorithm: KeyAlgorithm,
    label: String,
}

/// A request as a value of the model.
pub struct RequestView {
    pub role: KeyRole,
    pub algorithm: KeyAlgorithm,
    pub label: Seq<char>,
}

impl View for KeyMaterialRequest {
    type V = RequestView;

    closed spec fn view(&self) -> RequestView {
        RequestView { role: self.role, algorithm: self.algorithm, label: self.label@ }
    }
}

impl KeyMaterialRequest {
    /// A request for a key of the given role and algorithm under a label.
    pub fn new(role: KeyRole, algorithm: KeyAlgorithm, label: &str) -> (request: KeyMaterialRequest)
        ensures
            request@ == (RequestView { role, algorithm, label: label@ }),
    {
        KeyMaterialRequest { role, algorithm, label: String::from_str(label) }
    }

    /// The key the request is for.
    pub fn role(&self) -> (role: KeyRole)
        ensures
            role == self@.role,
    {
        self.role
    }

    /// The algorithm asked for.
    pub fn algorithm(&self) -> (algorithm: KeyAlgorithm)
        ensures
            algorithm == self@.algorithm,
    {
        self.algorithm
    }

    /// The label the key is to carry.
    pub fn label(&self) -> (label: &str)
        ensures
            label@ == self@.label,
    {
        self.label.as_str()
    }
}

/// What a device returns for a generated keypair: the public key and, where
/// there is one, the certificate that attests to where the key was made.
#[derive(Clone, Debug, PartialEq, Eq)]
pub struct ProvisioningArtifact {
    pub public_key: Vec<u8>,
    pub attestation: Option<Vec<u8>>,
}

/// An artifact as a value of the model.
pub struct ArtifactView {
    pub public_key: Seq<u8>,
    pub attestation: Option<Seq<u8>>,
}

impl View for ProvisioningArtifact {
    type V = ArtifactView;

    open spec fn view(&self) -> ArtifactView {
        ArtifactView {
            public_key: self.public_key@,
            attestation: match self.attestation {
                Some(bytes) => Some(bytes@),
                None => None,
            },
        }
    }
}

} // verus!
