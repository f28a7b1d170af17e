//! The two families of device and what a run has to know of each.

use crate::keys::KeyAlgorithm;
use crate::output::Suffix;
use vstd::prelude::*;
use vstd::string::StringExecFns;

verus! {

/// The family a device belongs to.
#[derive(Clone, Copy, Debug, PartialEq, Eq, Structural)]
pub enum BackendKind {
    /// A smartcard-style token with two fixed roles, each with one credential.
    Token,
    /// A USB module with authentication keys that carry capabilities.
    UsbHsm,
}

/// Whether devices of a family sign attestation certificates.
pub open spec fn attests(kind: BackendKind) -> bool {
    kind == BackendKind::UsbHsm
}

/// Whether devices of a family have a user credential beside the administrative one.
pub open spec fn has_user_role(kind: BackendKind) -> bool {
    kind == BackendKind::Token
}

/// The seconds a device of a family needs after a reset before it answers again.
pub open spec fn settle_seconds(kind: BackendKind) -> u64 {
    match kind {
        BackendKind::Token => 0,
        BackendKind::UsbHsm => 10,
    }
}

/// The files a run on a device of a family leaves behind, in the order they
/// are written.
pub open spec fn suffixes(kind: BackendKind) -> Seq<Suffix> {
    if attests(kind) {
        seq![
            Suffix::DeviceCertificate,
            Suffix::RootAttestation,
            Suffix::RootPubkey,
            Suffix::TargetsAttestation,
            Suffix::TargetsPubkey,
        ]
    } else {
        seq![Suffix::RootPubkey, Suffix::TargetsPubkey]
    }
}

impl BackendKind {
    /// Whether devices of this family sign attestation certificates.
    pub fn attests(self) -> (b: bool)
        ensures
            b == attests(self),
    {
        match self {
            BackendKind::Token => false,
            BackendKind::UsbHsm => true,
        }
    }

    /// Whether devices of this family have a user credential.
    pub fn has_user_role(self) -> (b: bool)
        ensures
            b == has_user_role(self),
    {
        match self {
            BackendKind::Token => true,
            BackendKind::UsbHsm => false,
        }
    }

    /// The seconds to wait after a reset.
    pub fn settle_seconds(self) -> (seconds: u64)
        ensures
            seconds == settle_seconds(self),
    {
        match self {
            BackendKind::Token => 0,
            BackendKind::UsbHsm => 10,
        }
    }

    /// The files a run leaves behind, in the order they are written.
    pub fn suffixes(self) -> (list: Vec<Suffix>)
        ensures
            list@ == suffixes(self),
    {
        let mut list: Vec<Suffix> = Vec::new();
        if self.attests() {
            list.push(Suffix::DeviceCertificate);
            list.push(Suffix::RootAttestation);
            list.push(Suffix::RootPubkey);
            list.push(Suffix::TargetsAttestation);
            list.push(Suffix::TargetsPubkey);
        } else {
            list.push(Suffix::RootPubkey);
            list.push(Suffix::TargetsPubkey);
        }
        list
    }
}

/// What a run is told of the device it is to provision.
#[derive(Clone, Debug, PartialEq, Eq)]
pub struct Profile {
    /// The family of the device.
    pub kind: BackendKind,
    /// The identity the device has to declare.
    pub identity: String,
    /// The algorithm of the two signing keys.
    pub algorithm: KeyAlgorithm,
    /// The label the device is given at its reset.
    pub reset_label: String,
    /// The label of the root key.
    pub root_label: String,
    /// The label of the targets key.
    pub targets_label: String,
}

/// A profile as a value of the model.
pub struct ProfileView {
    pub kind: BackendKind,
    pub identity: Seq<char>,
    pub algorithm: KeyAlgorithm,
    pub reset_label: Seq<char>,
    pub root_label: Seq<char>,
    pub targets_label: Seq<char>,
}

impl View for Profile {
    type V = ProfileView;

    open spec fn view(&self) -> ProfileView {
        ProfileView {
            kind: self.kind,
            identity: self.identity@,
            algorithm: self.algorithm,
            reset_label: self.reset_label@,
            root_label: self.root_label@,
            targets_label: self.targets_label@,
        }
    }
}

impl Profile {
    /// A profile from its parts.
    pub fn new(
        kind: BackendKind,
        identity: &str,
        algorithm: KeyAlgorithm,
        reset_label: &str,
        root_label: &str,
        targets_label: &str,
    ) -> (profile: Profile)
        ensures
            profile@ == (ProfileView {
                kind,
                identity: identity@,
                algorithm,
                reset_label: reset_label@,
                root_label: root_label@,
                targets_label: targets_label@,
            }),
    {
        Profile {
            kind,
            identity: String::from_str(identity),
            algorithm,
            reset_label: String::from_str(reset_label),
            root_label: String::from_str(root_label),
            targets_label: String::from_str(targets_label),
        }
    }
}

} // verus!
