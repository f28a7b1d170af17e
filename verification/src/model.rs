//! The provisioning run as a mathematical state machine: what it holds, what
//! it is told, what it asks for, and how one event moves it on.
//!
//! The machine does nothing itself. It asks for one thing at a time (a
//! prompt, a request to the device, a file to write) and is handed the answer
//! as an event. Everything it decides is in `advance`.

use crate::device::{is_deadly, single_device, DescriptorView, DeviceStatus};
use crate::error::{ErrorView, FaultView, Stage};
use crate::keys::{ArtifactView, KeyRole, RequestView};
use crate::output::{assembled, guard_outputs, path_of, paths_of, OutputSetView, Suffix};
use crate::profile::{attests, has_user_role, settle_seconds, suffixes, ProfileView};
use crate::secret::{admitted, Role};
use vstd::prelude::*;

verus! {

/// What the operator is asked to confirm.
#[derive(Clone, Copy, Debug, PartialEq, Eq, Structural)]
pub enum Prompt {
    /// The warning shown before anything is done.
    Banner,
    /// The warning before the reset, which cannot be undone.
    Reset,
}

/// Where a run stands: each step but the last is named after the answer it
/// waits for.
#[derive(Clone, Copy, Debug, PartialEq, Eq, Structural)]
pub enum Step {
    /// The operator reads the opening warning.
    Banner,
    /// The devices are looked for.
    Discovery,
    /// The device is being connected to.
    Opening,
    /// The disk is asked about the files the run would write.
    OutputCheck,
    /// The status is read for the first time.
    FirstStatus,
    /// The operator reads the warning before the reset.
    ResetConsent,
    /// The status is read again, right before the reset.
    ResetStatus,
    /// The device is being reset.
    Reset,
    /// The device is coming back after its reset.
    Settling,
    /// A new administrative credential is being generated.
    AdminSecret,
    /// The operator types the new administrative credential again.
    AdminRetype,
    /// The status is read before the administrative rotation.
    AdminStatus,
    /// The administrative credential is being rotated.
    AdminRotation,
    /// A new user credential is being generated.
    UserSecret,
    /// The operator types the new user credential again.
    UserRetype,
    /// The status is read before the user rotation.
    UserStatus,
    /// The user credential is being rotated.
    UserRotation,
    /// The operator gives the credential for the key generation.
    OperationalSecret,
    /// The status is read before the root key is generated.
    RootStatus,
    /// The root key is being generated.
    RootKey,
    /// The status is read before the targets key is generated.
    TargetsStatus,
    /// The targets key is being generated.
    TargetsKey,
    /// The device's own certificate is being fetched.
    DeviceCertificate,
    /// The root key is being attested to.
    RootAttestation,
    /// The targets key is being attested to.
    TargetsAttestation,
    /// A file is being written.
    Writing,
    /// The run is over.
    Finished,
}

/// The state of a run.
pub struct MachineView {
    /// What the run was told of the device.
    pub profile: ProfileView,
    /// Where the run stands.
    pub step: Step,
    /// The device that discovery picked.
    pub device: DescriptorView,
    /// The credential the device accepts now, as long as a later request needs it.
    pub held: Seq<char>,
    /// A generated credential that the device does not have yet.
    pub fresh: Seq<char>,
    /// The root key as far as the device has returned it.
    pub root: ArtifactView,
    /// The targets key as far as the device has returned it.
    pub targets: ArtifactView,
    /// The device's own attestation certificate.
    pub certificate: Option<Seq<u8>>,
    /// The files to write.
    pub outputs: OutputSetView,
    /// How many of the files are written.
    pub written: nat,
    /// Why the run failed, if it did.
    pub failure: Option<ErrorView>,
}

/// An answer from outside.
pub enum EventView {
    /// The operator answered a confirmation.
    Confirmed(bool),
    /// Discovery found these devices.
    Devices(Seq<DescriptorView>),
    /// For each path asked about, whether a file is there.
    Presence(Seq<bool>),
    /// The device reported its status.
    Status(DeviceStatus),
    /// A secret: one that was generated, or one that the operator typed.
    Secret(Seq<char>),
    /// A request without a result was carried out.
    Done,
    /// The device generated a keypair.
    Artifact(ArtifactView),
    /// The device returned a certificate.
    Bytes(Seq<u8>),
    /// The request failed.
    Failed(FaultView),
}

/// What the machine asks for next.
pub enum ActionView {
    /// Ask the operator to confirm.
    Confirm(Prompt),
    /// Look for devices.
    Discover,
    /// Connect to the device.
    Open(DescriptorView),
    /// Look whether files of these names exist.
    CheckOutputs(Seq<Seq<char>>),
    /// Read the device's status flags.
    ReadStatus,
    /// Reset the device: everything on it is lost.
    Reset { credential: Seq<char>, label: Seq<char> },
    /// Wait for the device to come back.
    Settle { seconds: u64 },
    /// Generate a credential for a role.
    GenerateSecret(Role),
    /// Show the operator a new credential and have it typed again.
    ShowAndConfirm { role: Role, secret: Seq<char> },
    /// Replace a role's credential on the device.
    Rotate { role: Role, current: Seq<char>, replacement: Seq<char> },
    /// Ask the operator for the credential that authorises key generation.
    ReadSecret,
    /// Generate a keypair on the device.
    GenerateKeypair { request: RequestView, credential: Seq<char> },
    /// Fetch the device's own attestation certificate.
    DeviceCertificate { credential: Seq<char> },
    /// Have the device attest to a generated key.
    Attest { key: KeyRole, credential: Seq<char> },
    /// Write one output file.
    Write { suffix: Suffix, path: Seq<char>, content: Seq<u8> },
    /// Nothing more: the run is over.
    Finish(Result<(), ErrorView>),
}

/// The stage a step belongs to.
pub open spec fn stage_of(step: Step, failed: bool) -> Stage {
    match step {
        Step::Banner | Step::Discovery | Step::Opening => Stage::Discovering,
        Step::OutputCheck | Step::FirstStatus | Step::ResetConsent | Step::ResetStatus => Stage::Assessing,
        Step::Reset | Step::Settling => Stage::Resetting,
        Step::AdminSecret | Step::AdminRetype | Step::AdminStatus | Step::AdminRotation => Stage::RotatingAdminCredential,
        Step::UserSecret | Step::UserRetype | Step::UserStatus | Step::UserRotation => Stage::RotatingUserCredential,
        Step::OperationalSecret | Step::RootStatus | Step::RootKey | Step::TargetsStatus
        | Step::TargetsKey | Step::DeviceCertificate | Step::RootAttestation
        | Step::TargetsAttestation => Stage::GeneratingKeys,
        Step::Writing => Stage::PersistingOutputs,
        Step::Finished => if failed {
            Stage::Aborted
        } else {
            Stage::Complete
        },
    }
}

/// The stage a run is in.
pub open spec fn stage(s: MachineView) -> Stage {
    stage_of(s.step, s.failure is Some)
}

/// An action that changes what is on the device.
pub open spec fn is_mutation(a: ActionView) -> bool {
    a is Reset || a is Rotate || a is GenerateKeypair
}

/// The credential under which a request is made of the device; nothing for
/// a request that is not made of the device.
pub open spec fn authorising(action: ActionView) -> Seq<char> {
    match action {
        ActionView::Reset { credential, .. } => credential,
        ActionView::Rotate { current, .. } => current,
        ActionView::GenerateKeypair { credential, .. } => credential,
        ActionView::DeviceCertificate { credential } => credential,
        ActionView::Attest { credential, .. } => credential,
        _ => Seq::empty(),
    }
}

/// The request for one of the two keys.
pub open spec fn request_for(profile: ProfileView, role: KeyRole) -> RequestView {
    RequestView {
        role,
        algorithm: profile.algorithm,
        label: match role {
            KeyRole::Root => profile.root_label,
            KeyRole::Targets => profile.targets_label,
        },
    }
}

/// The request to write the file at a place of a set.
pub open spec fn write_of(outputs: OutputSetView, i: int) -> ActionView {
    ActionView::Write {
        suffix: outputs.files[i].0,
        path: path_of(outputs.serial_number, outputs.files[i].0),
        content: outputs.files[i].1,
    }
}

/// The state and the first request of a run.
pub open spec fn initial(profile: ProfileView, admin: Seq<char>) -> (MachineView, ActionView) {
    (
        MachineView {
            profile,
            step: Step::Banner,
            device: DescriptorView {
                serial_number: Seq::empty(),
                identity: Seq::empty(),
                location: Seq::empty(),
            },
            held: admin,
            fresh: Seq::empty(),
            root: ArtifactView { public_key: Seq::empty(), attestation: None },
            targets: ArtifactView { public_key: Seq::empty(), attestation: None },
            certificate: None,
            outputs: OutputSetView { serial_number: Seq::empty(), files: Seq::empty() },
            written: 0,
            failure: None,
        },
        ActionView::Confirm(Prompt::Banner),
    )
}

/// Moves to a step with a request.
pub open spec fn go(s: MachineView, step: Step, action: ActionView) -> (MachineView, ActionView) {
    (MachineView { step, ..s }, action)
}

/// Ends the run with an error. No credential is kept.
pub open spec fn abort(s: MachineView, error: ErrorView) -> (MachineView, ActionView) {
    (
        MachineView {
            step: Step::Finished,
            held: Seq::empty(),
            fresh: Seq::empty(),
            failure: Some(error),
            ..s
        },
        ActionView::Finish(Err(error)),
    )
}

/// Ends the run with success. No credential is kept.
pub open spec fn complete(s: MachineView) -> (MachineView, ActionView) {
    (
        MachineView {
            step: Step::Finished,
            held: Seq::empty(),
            fresh: Seq::empty(),
            failure: None,
            ..s
        },
        ActionView::Finish(Ok(())),
    )
}

/// Ends the run on an event that does not carry what the step waits for: a
/// failed request is reported with the stage it failed at, anything else is
/// out of turn.
pub open spec fn refuse(s: MachineView, e: EventView) -> (MachineView, ActionView) {
    match e {
        EventView::Failed(fault) => abort(
            s,
            ErrorView::Backend { stage: stage(s), kind: fault.kind, cause: fault.cause },
        ),
        _ => abort(s, ErrorView::OutOfTurn),
    }
}

/// After a confirmation: a refusal ends the run, a consent moves it on.
pub open spec fn on_consent(s: MachineView, e: EventView) -> (MachineView, ActionView) {
    match e {
        EventView::Confirmed(yes) => if !yes {
            abort(s, ErrorView::UserAborted)
        } else if s.step == Step::Banner {
            go(s, Step::Discovery, ActionView::Discover)
        } else {
            go(s, Step::ResetStatus, ActionView::ReadStatus)
        },
        _ => refuse(s, e),
    }
}

/// After discovery: exactly one device of the expected identity is opened.
pub open spec fn on_devices(s: MachineView, e: EventView) -> (MachineView, ActionView) {
    match e {
        EventView::Devices(candidates) => match single_device(candidates, s.profile.identity) {
            Ok(device) => (
                MachineView { step: Step::Opening, device, ..s },
                ActionView::Open(device),
            ),
            Err(error) => abort(s, error),
        },
        _ => refuse(s, e),
    }
}

/// After the device is opened: the names of the files the run will write are
/// looked for.
pub open spec fn on_opened(s: MachineView, e: EventView) -> (MachineView, ActionView) {
    match e {
        EventView::Done => go(
            s,
            Step::OutputCheck,
            ActionView::CheckOutputs(paths_of(s.device.serial_number, suffixes(s.profile.kind))),
        ),
        _ => refuse(s, e),
    }
}

/// After the look for files: one that exists ends the run.
pub open spec fn on_presence(s: MachineView, e: EventView) -> (MachineView, ActionView) {
    match e {
        EventView::Presence(presence) => match guard_outputs(
            paths_of(s.device.serial_number, suffixes(s.profile.kind)),
            presence,
        ) {
            Ok(_) => go(s, Step::FirstStatus, ActionView::ReadStatus),
            Err(error) => abort(s, error),
        },
        _ => refuse(s, e),
    }
}

/// What a safe status lets the run do next. Every request that changes the
/// device is made here and nowhere else.
pub open spec fn after_safe_status(s: MachineView) -> (MachineView, ActionView) {
    match s.step {
        Step::FirstStatus => go(s, Step::ResetConsent, ActionView::Confirm(Prompt::Reset)),
        Step::ResetStatus => go(
            s,
            Step::Reset,
            ActionView::Reset { credential: s.held, label: s.profile.reset_label },
        ),
        Step::AdminStatus => (
            MachineView {
                step: Step::AdminRotation,
                held: if has_user_role(s.profile.kind) {
                    s.fresh
                } else {
                    Seq::empty()
                },
                fresh: Seq::empty(),
                ..s
            },
            ActionView::Rotate { role: Role::Administrative, current: s.held, replacement: s.fresh },
        ),
        Step::UserStatus => (
            MachineView {
                step: Step::UserRotation,
                held: Seq::empty(),
                fresh: Seq::empty(),
                ..s
            },
            ActionView::Rotate { role: Role::User, current: s.held, replacement: s.fresh },
        ),
        Step::RootStatus => go(
            s,
            Step::RootKey,
            ActionView::GenerateKeypair {
                request: request_for(s.profile, KeyRole::Root),
                credential: s.held,
            },
        ),
        _ => go(
            s,
            Step::TargetsKey,
            ActionView::GenerateKeypair {
                request: request_for(s.profile, KeyRole::Targets),
                credential: s.held,
            },
        ),
    }
}

/// After a status read: a deadly status ends the run.
pub open spec fn on_status(s: MachineView, e: EventView) -> (MachineView, ActionView) {
    match e {
        EventView::Status(status) => if is_deadly(status) {
            abort(s, ErrorView::DeviceRequiresManualIntervention)
        } else {
            after_safe_status(s)
        },
        _ => refuse(s, e),
    }
}

/// The request for a new administrative credential.
pub open spec fn to_admin_secret(s: MachineView) -> (MachineView, ActionView) {
    go(s, Step::AdminSecret, ActionView::GenerateSecret(Role::Administrative))
}

/// After a request to the device that returns nothing.
pub open spec fn on_completed(s: MachineView, e: EventView) -> (MachineView, ActionView) {
    match e {
        EventView::Done => match s.step {
            Step::Reset => if settle_seconds(s.profile.kind) > 0 {
                go(s, Step::Settling, ActionView::Settle { seconds: settle_seconds(s.profile.kind) })
            } else {
                to_admin_secret(s)
            },
            Step::Settling => to_admin_secret(s),
            Step::AdminRotation => if has_user_role(s.profile.kind) {
                go(s, Step::UserSecret, ActionView::GenerateSecret(Role::User))
            } else {
                go(s, Step::OperationalSecret, ActionView::ReadSecret)
            },
            _ => go(s, Step::OperationalSecret, ActionView::ReadSecret),
        },
        _ => refuse(s, e),
    }
}

/// The role whose credential a step is about.
pub open spec fn role_at(step: Step) -> Role {
    match step {
        Step::UserSecret | Step::UserRetype | Step::UserStatus | Step::UserRotation => Role::User,
        _ => Role::Administrative,
    }
}

/// After a credential is generated: one that follows the role's policy is
/// shown to the operator.
pub open spec fn on_generated(s: MachineView, e: EventView) -> (MachineView, ActionView) {
    match e {
        EventView::Secret(secret) => if admitted(role_at(s.step), secret) {
            (
                MachineView {
                    step: if s.step == Step::AdminSecret {
                        Step::AdminRetype
                    } else {
                        Step::UserRetype
                    },
                    fresh: secret,
                    ..s
                },
                ActionView::ShowAndConfirm { role: role_at(s.step), secret },
            )
        } else {
            abort(s, ErrorView::InvalidCredential { role: role_at(s.step) })
        },
        _ => refuse(s, e),
    }
}

/// After the operator typed the new credential again: a difference ends the run.
pub open spec fn on_retyped(s: MachineView, e: EventView) -> (MachineView, ActionView) {
    match e {
        EventView::Secret(typed) => if typed == s.fresh {
            go(
                s,
                if s.step == Step::AdminRetype {
                    Step::AdminStatus
                } else {
                    Step::UserStatus
                },
                ActionView::ReadStatus,
            )
        } else {
            abort(s, ErrorView::CredentialMismatch { role: role_at(s.step) })
        },
        _ => refuse(s, e),
    }
}

/// After the operator gave the credential for key generation.
pub open spec fn on_operational(s: MachineView, e: EventView) -> (MachineView, ActionView) {
    match e {
        EventView::Secret(secret) => (
            MachineView { step: Step::RootStatus, held: secret, ..s },
            ActionView::ReadStatus,
        ),
        _ => refuse(s, e),
    }
}

/// The files are assembled and the first is written.
pub open spec fn persist(s: MachineView) -> (MachineView, ActionView) {
    let outputs = assembled(s.device.serial_number, s.root, s.targets, s.certificate);
    (
        MachineView { step: Step::Writing, held: Seq::empty(), outputs, written: 0, ..s },
        write_of(outputs, 0),
    )
}

/// After a keypair is generated: its public key is kept.
pub open spec fn on_key(s: MachineView, e: EventView) -> (MachineView, ActionView) {
    match e {
        EventView::Artifact(artifact) => {
            let key = ArtifactView { public_key: artifact.public_key, attestation: None };
            if s.step == Step::RootKey {
                (MachineView { step: Step::TargetsStatus, root: key, ..s }, ActionView::ReadStatus)
            } else if attests(s.profile.kind) {
                (
                    MachineView { step: Step::DeviceCertificate, targets: key, ..s },
                    ActionView::DeviceCertificate { credential: s.held },
                )
            } else {
                persist(MachineView { targets: key, ..s })
            }
        },
        _ => refuse(s, e),
    }
}

/// After the device returned a certificate: it is bound to what it attests.
pub open spec fn on_certificate(s: MachineView, e: EventView) -> (MachineView, ActionView) {
    match e {
        EventView::Bytes(bytes) => match s.step {
            Step::DeviceCertificate => (
                MachineView { step: Step::RootAttestation, certificate: Some(bytes), ..s },
                ActionView::Attest { key: KeyRole::Root, credential: s.held },
            ),
            Step::RootAttestation => (
                MachineView {
                    step: Step::TargetsAttestation,
                    root: ArtifactView { attestation: Some(bytes), ..s.root },
                    ..s
                },
                ActionView::Attest { key: KeyRole::Targets, credential: s.held },
            ),
            _ => persist(
                MachineView { targets: ArtifactView { attestation: Some(bytes), ..s.targets }, ..s },
            ),
        },
        _ => refuse(s, e),
    }
}

/// After a file is written: the next one, or the end. A failed write is
/// reported with the file's suffix.
pub open spec fn on_written(s: MachineView, e: EventView) -> (MachineView, ActionView) {
    match e {
        EventView::Done => if s.written + 1 < s.outputs.files.len() {
            (MachineView { written: s.written + 1, ..s }, write_of(s.outputs, s.written + 1 as int))
        } else {
            complete(s)
        },
        EventView::Failed(fault) => if s.written < s.outputs.files.len() {
            abort(
                s,
                ErrorView::Io { suffix: s.outputs.files[s.written as int].0, cause: fault.cause },
            )
        } else {
            refuse(s, e)
        },
        _ => refuse(s, e),
    }
}

/// The result of a run that is over.
pub open spec fn outcome(s: MachineView) -> Result<(), ErrorView> {
    match s.failure {
        Some(error) => Err(error),
        None => Ok(()),
    }
}

/// One move of the machine: the state after an event, and the next request.
pub open spec fn advance(s: MachineView, e: EventView) -> (MachineView, ActionView) {
    match s.step {
        Step::Banner | Step::ResetConsent => on_consent(s, e),
        Step::Discovery => on_devices(s, e),
        Step::Opening => on_opened(s, e),
        Step::OutputCheck => on_presence(s, e),
        Step::FirstStatus | Step::ResetStatus | Step::AdminStatus | Step::UserStatus
        | Step::RootStatus | Step::TargetsStatus => on_status(s, e),
        Step::Reset | Step::Settling | Step::AdminRotation | Step::UserRotation => on_completed(s, e),
        Step::AdminSecret | Step::UserSecret => on_generated(s, e),
        Step::AdminRetype | Step::UserRetype => on_retyped(s, e),
        Step::OperationalSecret => on_operational(s, e),
        Step::RootKey | Step::TargetsKey => on_key(s, e),
        Step::DeviceCertificate | Step::RootAttestation | Step::TargetsAttestation => on_certificate(
            s,
            e,
        ),
        Step::Writing => on_written(s, e),
        Step::Finished => (s, ActionView::Finish(outcome(s))),
    }
}

} // verus!
