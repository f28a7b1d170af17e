//! The ways a provisioning run ends badly, and the words it is reported in.

use crate::output::{suffix_name, Suffix};
use crate::secret::Role;
use vstd::prelude::*;
use vstd::string::StringExecFns;

verus! {

/// The stages of a run, in the order they are passed through. `Aborted` is
/// where a run rests after a failure.
#[derive(Clone, Copy, Debug, PartialEq, Eq, Structural)]
pub enum Stage {
    Discovering,
    Assessing,
    Resetting,
    RotatingAdminCredential,
    RotatingUserCredential,
    GeneratingKeys,
    PersistingOutputs,
    Complete,
    Aborted,
}

/// What kind of fault a device, a driver or the operator's terminal reported.
#[derive(Clone, Copy, Debug, PartialEq, Eq, Structural)]
pub enum FaultKind {
    Discovery,
    Connection,
    Communication,
    Auth,
    Device,
    KeyGen,
    Attestation,
    Prompt,
    Io,
}

/// A failed request: its kind and the cause in the reporter's own words.
#[derive(Clone, Debug, PartialEq, Eq)]
pub struct Fault {
    pub kind: FaultKind,
    pub cause: String,
}

/// A fault as a value of the model.
pub struct FaultView {
    pub kind: FaultKind,
    pub cause: Seq<char>,
}

impl View for Fault {
    type V = FaultView;

    open spec fn view(&self) -> FaultView {
        FaultView { kind: self.kind, cause: self.cause@ }
    }
}

/// Why a run did not complete.
#[derive(Clone, Debug, PartialEq, Eq)]
pub enum ProvisionError {
    /// Discovery found no device.
    NoDeviceFound,
    /// Discovery found more than one device.
    AmbiguousDevice,
    /// The one device found declares another identity than the expected one.
    UnexpectedDevice { identity: String },
    /// The device is locked, one failed attempt from locking, or failed its self-test.
    DeviceRequiresManualIntervention,
    /// The operator declined a confirmation.
    UserAborted,
    /// A file the run would write exists already.
    OutputConflict { path: String },
    /// The operator's retyped credential differs from the one shown.
    CredentialMismatch { role: Role },
    /// A current administrative PIN of a token is not sixteen hexadecimal digits.
    InvalidSoPin,
    /// A generated credential does not follow the policy of its role.
    InvalidCredential { role: Role },
    /// A request to the device, the driver or the terminal failed at a stage.
    Backend { stage: Stage, kind: FaultKind, cause: String },
    /// Writing one output file failed.
    Io { suffix: Suffix, cause: String },
    /// An event arrived that does not answer the pending request.
    OutOfTurn,
}

/// An error as a value of the model.
pub enum ErrorView {
    NoDeviceFound,
    AmbiguousDevice,
    UnexpectedDevice { identity: Seq<char> },
    DeviceRequiresManualIntervention,
    UserAborted,
    OutputConflict { path: Seq<char> },
    CredentialMismatch { role: Role },
    InvalidSoPin,
    InvalidCredential { role: Role },
    Backend { stage: Stage, kind: FaultKind, cause: Seq<char> },
    Io { suffix: Suffix, cause: Seq<char> },
    OutOfTurn,
}

impl View for ProvisionError {
    type V = ErrorView;

    open spec fn view(&self) -> ErrorView {
        match *self {
            ProvisionError::NoDeviceFound => ErrorView::NoDeviceFound,
            ProvisionError::AmbiguousDevice => ErrorView::AmbiguousDevice,
            ProvisionError::UnexpectedDevice { identity } => ErrorView::UnexpectedDevice {
                identity: identity@,
            },
            ProvisionError::DeviceRequiresManualIntervention => ErrorView::DeviceRequiresManualIntervention,
            ProvisionError::UserAborted => ErrorView::UserAborted,
            ProvisionError::OutputConflict { path } => ErrorView::OutputConflict { path: path@ },
            ProvisionError::CredentialMismatch { role } => ErrorView::CredentialMismatch { role },
            ProvisionError::InvalidSoPin => ErrorView::InvalidSoPin,
            ProvisionError::InvalidCredential { role } => ErrorView::InvalidCredential { role },
            ProvisionError::Backend { stage, kind, cause } => ErrorView::Backend {
                stage,
                kind,
                cause: cause@,
            },
            ProvisionError::Io { suffix, cause } => ErrorView::Io { suffix, cause: cause@ },
            ProvisionError::OutOfTurn => ErrorView::OutOfTurn,
        }
    }
}

/// A stage at which the device has been changed or is being changed, so that
/// a failure leaves it in a state only the operator can mend.
pub open spec fn is_destructive(stage: Stage) -> bool {
    stage == Stage::Resetting || stage == Stage::RotatingAdminCredential || stage
        == Stage::RotatingUserCredential || stage == Stage::GeneratingKeys
}

/// The position of a stage in the order of a run.
pub open spec fn stage_rank(stage: Stage) -> nat {
    match stage {
        Stage::Discovering => 0,
        Stage::Assessing => 1,
        Stage::Resetting => 2,
        Stage::RotatingAdminCredential => 3,
        Stage::RotatingUserCredential => 4,
        Stage::GeneratingKeys => 5,
        Stage::PersistingOutputs => 6,
        Stage::Complete => 7,
        Stage::Aborted => 7,
    }
}

/// The name a stage is reported under.
pub open spec fn stage_name(stage: Stage) -> Seq<char> {
    match stage {
        Stage::Discovering => "device discovery"@,
        Stage::Assessing => "device assessment"@,
        Stage::Resetting => "factory reset"@,
        Stage::RotatingAdminCredential => "administrative credential rotation"@,
        Stage::RotatingUserCredential => "user credential rotation"@,
        Stage::GeneratingKeys => "key generation"@,
        Stage::PersistingOutputs => "output persistence"@,
        Stage::Complete => "completion"@,
        Stage::Aborted => "abort"@,
    }
}

/// The name a kind of fault is reported under.
pub open spec fn kind_name(kind: FaultKind) -> Seq<char> {
    match kind {
        FaultKind::Discovery => "discovery error"@,
        FaultKind::Connection => "connection error"@,
        FaultKind::Communication => "communication error"@,
        FaultKind::Auth => "authentication error"@,
        FaultKind::Device => "device error"@,
        FaultKind::KeyGen => "key generation error"@,
        FaultKind::Attestation => "attestation error"@,
        FaultKind::Prompt => "prompt error"@,
        FaultKind::Io => "I/O error"@,
    }
}

/// The name a role's credential is reported under.
pub open spec fn role_name(role: Role) -> Seq<char> {
    match role {
        Role::Administrative => "administrative"@,
        Role::User => "user"@,
    }
}

/// What follows the cause of a failed request in its report: for a stage that
/// changes the device, the advice to recover by hand.
pub open spec fn recovery_advice(stage: Stage) -> Seq<char> {
    if is_destructive(stage) {
        "; the device needs manual recovery, do not run this again blindly"@
    } else {
        Seq::<char>::empty()
    }
}

/// What follows the report of a mismatch: how the device is left, which is
/// in order and can be provisioned again.
pub open spec fn mismatch_advice(role: Role) -> Seq<char> {
    match role {
        Role::Administrative => "; the device keeps the credential it was reset under"@,
        Role::User => "; the device keeps its new administrative credential and has no user credential"@,
    }
}

/// The report of an error: it names the step that failed and repeats the
/// cause as it was given.
pub open spec fn message_of(e: ErrorView) -> Seq<char> {
    match e {
        ErrorView::NoDeviceFound => "no HSMs detected"@,
        ErrorView::AmbiguousDevice => "more than one HSM or token detected; refusing to continue"@,
        ErrorView::UnexpectedDevice { identity } => "unknown HSM: "@ + identity,
        ErrorView::DeviceRequiresManualIntervention => "HSM is either locked or one step away from locking; requires manual intervention"@,
        ErrorView::UserAborted => "user interrupted provisioning"@,
        ErrorView::OutputConflict { path } => "output file already exists: "@ + path + "; aborting"@,
        ErrorView::CredentialMismatch { role } => role_name(role) + " credential does not match!"@
            + mismatch_advice(role),
        ErrorView::InvalidSoPin => "invalid SO pin (expected 16 hex digits)"@,
        ErrorView::InvalidCredential { role } => "generated "@ + role_name(role)
            + " credential does not follow its policy"@,
        ErrorView::Backend { stage, kind, cause } => stage_name(stage) + " failed: "@ + kind_name(
            kind,
        ) + ": "@ + cause + recovery_advice(stage),
        ErrorView::Io { suffix, cause } => "output file I/O failed: "@ + suffix_name(suffix) + ": "@
            + cause,
        ErrorView::OutOfTurn => "an event arrived that answers no pending request"@,
    }
}

/// Whether an error leaves the device in a state that only the operator can
/// mend: a deadly status, or a failed request at a stage that changes the device.
pub open spec fn calls_for_manual_recovery(e: ErrorView) -> bool {
    match e {
        ErrorView::DeviceRequiresManualIntervention => true,
        ErrorView::Backend { stage, .. } => is_destructive(stage),
        _ => false,
    }
}

impl Stage {
    /// The name the stage is reported under.
    pub fn name(self) -> (s: &'static str)
        ensures
            s@ == stage_name(self),
    {
        match self {
            Stage::Discovering => "device discovery",
            Stage::Assessing => "device assessment",
            Stage::Resetting => "factory reset",
            Stage::RotatingAdminCredential => "administrative credential rotation",
            Stage::RotatingUserCredential => "user credential rotation",
            Stage::GeneratingKeys => "key generation",
            Stage::PersistingOutputs => "output persistence",
            Stage::Complete => "completion",
            Stage::Aborted => "abort",
        }
    }

    /// Whether a failure at this stage leaves the device changed.
    pub fn destructive(self) -> (b: bool)
        ensures
            b == is_destructive(self),
    {
        match self {
            Stage::Resetting | Stage::RotatingAdminCredential | Stage::RotatingUserCredential
            | Stage::GeneratingKeys => true,
            _ => false,
        }
    }
}

impl FaultKind {
    /// The name the kind is reported under.
    pub fn name(self) -> (s: &'static str)
        ensures
            s@ == kind_name(self),
    {
        match self {
            FaultKind::Discovery => "discovery error",
            FaultKind::Connection => "connection error",
            FaultKind::Communication => "communication error",
            FaultKind::Auth => "authentication error",
            FaultKind::Device => "device error",
            FaultKind::KeyGen => "key generation error",
            FaultKind::Attestation => "attestation error",
            FaultKind::Prompt => "prompt error",
            FaultKind::Io => "I/O error",
        }
    }
}

impl Role {
    /// The name the role's credential is reported under.
    pub fn name(self) -> (s: &'static str)
        ensures
            s@ == role_name(self),
    {
        match self {
            Role::Administrative => "administrative",
            Role::User => "user",
        }
    }
}

impl ProvisionError {
    /// A second value of the same error.
    pub fn copy(&self) -> (c: ProvisionError)
        ensures
            c@ == self@,
    {
        match self {
            ProvisionError::NoDeviceFound => ProvisionError::NoDeviceFound,
            ProvisionError::AmbiguousDevice => ProvisionError::AmbiguousDevice,
            ProvisionError::UnexpectedDevice { identity } => ProvisionError::UnexpectedDevice {
                identity: identity.clone(),
            },
            ProvisionError::DeviceRequiresManualIntervention => ProvisionError::DeviceRequiresManualIntervention,
            ProvisionError::UserAborted => ProvisionError::UserAborted,
            ProvisionError::OutputConflict { path } => ProvisionError::OutputConflict {
                path: path.clone(),
            },
            ProvisionError::CredentialMismatch { role } => ProvisionError::CredentialMismatch {
                role: *role,
            },
            ProvisionError::InvalidSoPin => ProvisionError::InvalidSoPin,
            ProvisionError::InvalidCredential { role } => ProvisionError::InvalidCredential {
                role: *role,
            },
            ProvisionError::Backend { stage, kind, cause } => ProvisionError::Backend {
                stage: *stage,
                kind: *kind,
                cause: cause.clone(),
            },
            ProvisionError::Io { suffix, cause } => ProvisionError::Io {
                suffix: *suffix,
                cause: cause.clone(),
            },
            ProvisionError::OutOfTurn => ProvisionError::OutOfTurn,
        }
    }

    /// The report of the error, for the operator.
    pub fn message(&self) -> (m: String)
        ensures
            m@ == message_of(self@),
    {
        match self {
            ProvisionError::NoDeviceFound => String::from_str("no HSMs detected"),
            ProvisionError::AmbiguousDevice => String::from_str(
                "more than one HSM or token detected; refusing to continue",
            ),
            ProvisionError::UnexpectedDevice { identity } => {
                let mut m = String::from_str("unknown HSM: ");
                m.append(identity.as_str());
                m
            },
            ProvisionError::DeviceRequiresManualIntervention => String::from_str(
                "HSM is either locked or one step away from locking; requires manual intervention",
            ),
            ProvisionError::UserAborted => String::from_str("user interrupted provisioning"),
            ProvisionError::OutputConflict { path } => {
                let mut m = String::from_str("output file already exists: ");
                m.append(path.as_str());
                m.append("; aborting");
                m
            },
            ProvisionError::CredentialMismatch { role } => {
                let mut m = String::from_str(role.name());
                m.append(" credential does not match!");
                match role {
                    Role::Administrative => m.append(
                        "; the device keeps the credential it was reset under",
                    ),
                    Role::User => m.append(
                        "; the device keeps its new administrative credential and has no user credential",
                    ),
                }
                m
            },
            ProvisionError::InvalidSoPin => String::from_str(
                "invalid SO pin (expected 16 hex digits)",
            ),
            ProvisionError::InvalidCredential { role } => {
                let mut m = String::from_str("generated ");
                m.append(role.name());
                m.append(" credential does not follow its policy");
                m
            },
            ProvisionError::Backend { stage, kind, cause } => {
                let mut m = String::from_str(stage.name());
                m.append(" failed: ");
                m.append(kind.name());
                m.append(": ");
                m.append(cause.as_str());
                if stage.destructive() {
                    m.append("; the device needs manual recovery, do not run this again blindly");
                } else {
                    assert(m@ + Seq::<char>::empty() == m@);
                }
                m
            },
            ProvisionError::Io { suffix, cause } => {
                let mut m = String::from_str("output file I/O failed: ");
                m.append(suffix.name());
                m.append(": ");
                m.append(cause.as_str());
                m
            },
            ProvisionError::OutOfTurn => String::from_str(
                "an event arrived that answers no pending request",
            ),
        }
    }

    /// Whether the error leaves the device in a state only the operator can mend.
    pub fn needs_manual_recovery(&self) -> (b: bool)
        ensures
            b == calls_for_manual_recovery(self@),
    {
        match self {
            ProvisionError::DeviceRequiresManualIntervention => true,
            ProvisionError::Backend { stage, .. } => stage.destructive(),
            _ => false,
        }
    }
}

} // verus!
