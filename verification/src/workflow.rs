//! The provisioning run as it is driven: the caller performs each request the
//! machine makes and hands back what came of it.

use crate::device::{assess, descriptors, discover_single_device, Classification, DeviceDescriptor, DeviceStatus};
use crate::error::{Fault, ProvisionError, Stage};
use crate::keys::{KeyMaterialRequest, KeyRole, ProvisioningArtifact};
use crate::model;
use crate::model::{ActionView, EventView, MachineView, Prompt, Step};
use crate::output::{assemble, check_presence, output_paths, OutputSet, Suffix};
use crate::profile::Profile;
use crate::secret::{conforms, Credential, Role};
use crate::text::{copy_bytes, texts};
use vstd::prelude::*;

verus! {

/// An answer from outside, handed to the machine.
pub enum Event {
    /// The operator answered a confirmation.
    Confirmed(bool),
    /// Discovery found these devices.
    Devices(Vec<DeviceDescriptor>),
    /// For each path asked about, whether a file is there.
    Presence(Vec<bool>),
    /// The device reported its status.
    Status(DeviceStatus),
    /// A secret: one that was generated, or one that the operator typed.
    Secret(Credential),
    /// A request without a result was carried out.
    Done,
    /// The device generated a keypair.
    Artifact(ProvisioningArtifact),
    /// The device returned a certificate.
    Bytes(Vec<u8>),
    /// The request failed.
    Failed(Fault),
}

impl View for Event {
    type V = EventView;

    open spec fn view(&self) -> EventView {
        match *self {
            Event::Confirmed(yes) => EventView::Confirmed(yes),
            Event::Devices(candidates) => EventView::Devices(descriptors(candidates@)),
            Event::Presence(presence) => EventView::Presence(presence@),
            Event::Status(status) => EventView::Status(status),
            Event::Secret(secret) => EventView::Secret(secret@),
            Event::Done => EventView::Done,
            Event::Artifact(artifact) => EventView::Artifact(artifact@),
            Event::Bytes(bytes) => EventView::Bytes(bytes@),
            Event::Failed(fault) => EventView::Failed(fault@),
        }
    }
}

/// What the machine asks its caller to do next.
pub enum Action {
    /// Ask the operator to confirm; answer with `Confirmed`.
    Confirm(Prompt),
    /// Look for devices; answer with `Devices`.
    Discover,
    /// Connect to the device; answer with `Done`.
    Open(DeviceDescriptor),
    /// Look whether files of these names exist; answer with `Presence`.
    CheckOutputs(Vec<String>),
    /// Read the device's status flags; answer with `Status`.
    ReadStatus,
    /// Reset the device; answer with `Done`.
    Reset { credential: Credential, label: String },
    /// Wait for the device to come back; answer with `Done`.
    Settle { seconds: u64 },
    /// Generate a credential for a role; answer with `Secret`.
    GenerateSecret(Role),
    /// Show the operator a new credential and have it typed again; answer with `Secret`.
    ShowAndConfirm { role: Role, secret: Credential },
    /// Replace a role's credential on the device; answer with `Done`.
    Rotate { role: Role, current: Credential, replacement: Credential },
    /// Ask the operator for the credential that authorises key generation;
    /// answer with `Secret`.
    ReadSecret,
    /// Generate a keypair on the device; answer with `Artifact`.
    GenerateKeypair { request: KeyMaterialRequest, credential: Credential },
    /// Fetch the device's own attestation certificate; answer with `Bytes`.
    DeviceCertificate { credential: Credential },
    /// Have the device attest to a generated key; answer with `Bytes`.
    Attest { key: KeyRole, credential: Credential },
    /// Write one output file; answer with `Done`.
    Write { suffix: Suffix, path: String, content: Vec<u8> },
    /// Nothing more: the run is over.
    Finish(Result<(), ProvisionError>),
}

impl View for Action {
    type V = ActionView;

    open spec fn view(&self) -> ActionView {
        match *self {
            Action::Confirm(prompt) => ActionView::Confirm(prompt),
            Action::Discover => ActionView::Discover,
            Action::Open(device) => ActionView::Open(device@),
            Action::CheckOutputs(paths) => ActionView::CheckOutputs(texts(paths@)),
            Action::ReadStatus => ActionView::ReadStatus,
            Action::Reset { credential, label } => ActionView::Reset {
                credential: credential@,
                label: label@,
            },
            Action::Settle { seconds } => ActionView::Settle { seconds },
            Action::GenerateSecret(role) => ActionView::GenerateSecret(role),
            Action::ShowAndConfirm { role, secret } => ActionView::ShowAndConfirm {
                role,
                secret: secret@,
            },
            Action::Rotate { role, current, replacement } => ActionView::Rotate {
                role,
                current: current@,
                replacement: replacement@,
            },
            Action::ReadSecret => ActionView::ReadSecret,
            Action::GenerateKeypair { request, credential } => ActionView::GenerateKeypair {
                request: request@,
                credential: credential@,
            },
            Action::DeviceCertificate { credential } => ActionView::DeviceCertificate {
                credential: credential@,
            },
            Action::Attest { key, credential } => ActionView::Attest { key, credential: credential@ },
            Action::Write { suffix, path, content } => ActionView::Write {
                suffix,
                path: path@,
                content: content@,
            },
            Action::Finish(result) => ActionView::Finish(
                match result {
                    Ok(_) => Ok(()),
                    Err(error) => Err(error@),
                },
            ),
        }
    }
}

/// One provisioning run.
pub struct Workflow {
    profile: Profile,
    step: Step,
    device: DeviceDescriptor,
    held: Credential,
    fresh: Credential,
    root: ProvisioningArtifact,
    targets: ProvisioningArtifact,
    certificate: Option<Vec<u8>>,
    outputs: OutputSet,
    written: usize,
    failure: Option<ProvisionError>,
}

impl View for Workflow {
    type V = MachineView;

    closed spec fn view(&self) -> MachineView {
        MachineView {
            profile: self.profile@,
            step: self.step,
            device: self.device@,
            held: self.held@,
            fresh: self.fresh@,
            root: self.root@,
            targets: self.targets@,
            certificate: match self.certificate {
                Some(bytes) => Some(bytes@),
                None => None,
            },
            outputs: self.outputs@,
            written: self.written as nat,
            failure: match self.failure {
                Some(error) => Some(error@),
                None => None,
            },
        }
    }
}

impl Workflow {
    /// Begins a run on a device of the given profile. `admin` is the
    /// administrative credential that the device accepts now. The first
    /// request comes with the run.
    pub fn begin(profile: Profile, admin: Credential) -> (r: (Workflow, Action))
        ensures
            (r.0@, r.1@) == model::initial(profile@, admin@),
    {
        let workflow = Workflow {
            profile,
            step: Step::Banner,
            device: DeviceDescriptor {
                serial_number: String::new(),
                identity: String::new(),
                location: String::new(),
            },
            held: admin,
            fresh: Credential::empty(),
            root: ProvisioningArtifact { public_key: Vec::new(), attestation: None },
            targets: ProvisioningArtifact { public_key: Vec::new(), attestation: None },
            certificate: None,
            outputs: OutputSet::empty(""),
            written: 0,
            failure: None,
        };
        proof {
            reveal_strlit("");
            assert(""@ =~= Seq::<char>::empty());
        }
        (workflow, Action::Confirm(Prompt::Banner))
    }

    /// Where the run stands.
    pub fn step(&self) -> (step: Step)
        ensures
            step == self@.step,
    {
        self.step
    }

    /// The stage the run is in.
    pub fn stage(&self) -> (stage: Stage)
        ensures
            stage == model::stage(self@),
    {
        match self.step {
            Step::Banner | Step::Discovery | Step::Opening => Stage::Discovering,
            Step::OutputCheck | Step::FirstStatus | Step::ResetConsent | Step::ResetStatus => Stage::Assessing,
            Step::Reset | Step::Settling => Stage::Resetting,
            Step::AdminSecret | Step::AdminRetype | Step::AdminStatus | Step::AdminRotation => Stage::RotatingAdminCredential,
            Step::UserSecret | Step::UserRetype | Step::UserStatus | Step::UserRotation => Stage::RotatingUserCredential,
            Step::OperationalSecret | Step::RootStatus | Step::RootKey | Step::TargetsStatus
            | Step::TargetsKey | Step::DeviceCertificate | Step::RootAttestation
            | Step::TargetsAttestation => Stage::GeneratingKeys,
            Step::Writing => Stage::PersistingOutputs,
            Step::Finished => if self.failure.is_some() {
                Stage::Aborted
            } else {
                Stage::Complete
            },
        }
    }

    /// Whether the run is over.
    pub fn is_finished(&self) -> (over: bool)
        ensures
            over == (self@.step == Step::Finished),
    {
        match self.step {
            Step::Finished => true,
            _ => false,
        }
    }

    /// The device that discovery picked.
    pub fn device(&self) -> (device: &DeviceDescriptor)
        ensures
            device@ == self@.device,
    {
        &self.device
    }

    /// The files of the run, once they are assembled.
    pub fn outputs(&self) -> (outputs: &OutputSet)
        ensures
            outputs@ == self@.outputs,
    {
        &self.outputs
    }

    /// Why the run failed, if it did.
    pub fn failure(&self) -> (failure: &Option<ProvisionError>)
        ensures
            match self@.failure {
                Some(error) => *failure matches Some(e) && e@ == error,
                None => *failure is None,
            },
    {
        &self.failure
    }

    fn go(self, step: Step, action: Action) -> (r: (Workflow, Action))
        ensures
            (r.0@, r.1@) == model::go(self@, step, action@),
    {
        let mut next = self;
        next.step = step;
        (next, action)
    }

    fn abort(self, error: ProvisionError) -> (r: (Workflow, Action))
        ensures
            (r.0@, r.1@) == model::abort(self@, error@),
    {
        let mut next = self;
        next.step = Step::Finished;
        next.held.forget();
        next.fresh.forget();
        next.failure = Some(error.copy());
        (next, Action::Finish(Err(error)))
    }

    fn complete(self) -> (r: (Workflow, Action))
        ensures
            (r.0@, r.1@) == model::complete(self@),
    {
        let mut next = self;
        next.step = Step::Finished;
        next.held.forget();
        next.fresh.forget();
        next.failure = None;
        (next, Action::Finish(Ok(())))
    }

    fn refuse(self, event: Event) -> (r: (Workflow, Action))
        ensures
            (r.0@, r.1@) == model::refuse(self@, event@),
    {
        match event {
            Event::Failed(fault) => {
                let stage = self.stage();
                self.abort(ProvisionError::Backend { stage, kind: fault.kind, cause: fault.cause })
            },
            _ => self.abort(ProvisionError::OutOfTurn),
        }
    }

    fn on_consent(self, event: Event) -> (r: (Workflow, Action))
        ensures
            (r.0@, r.1@) == model::on_consent(self@, event@),
    {
        match event {
            Event::Confirmed(yes) => {
                if !yes {
                    self.abort(ProvisionError::UserAborted)
                } else {
                    match self.step {
                        Step::Banner => self.go(Step::Discovery, Action::Discover),
                        _ => self.go(Step::ResetStatus, Action::ReadStatus),
                    }
                }
            },
            other => self.refuse(other),
        }
    }

    fn on_devices(self, event: Event) -> (r: (Workflow, Action))
        ensures
            (r.0@, r.1@) == model::on_devices(self@, event@),
    {
        match event {
            Event::Devices(candidates) => {
                match discover_single_device(candidates, self.profile.identity.as_str()) {
                    Ok(device) => {
                        let mut next = self;
                        next.step = Step::Opening;
                        next.device = device.copy();
                        (next, Action::Open(device))
                    },
                    Err(error) => self.abort(error),
                }
            },
            other => self.refuse(other),
        }
    }

    fn on_opened(self, event: Event) -> (r: (Workflow, Action))
        ensures
            (r.0@, r.1@) == model::on_opened(self@, event@),
    {
        match event {
            Event::Done => {
                let paths = output_paths(
                    self.device.serial_number.as_str(),
                    &self.profile.kind.suffixes(),
                );
                self.go(Step::OutputCheck, Action::CheckOutputs(paths))
            },
            other => self.refuse(other),
        }
    }

    fn on_presence(self, event: Event) -> (r: (Workflow, Action))
        ensures
            (r.0@, r.1@) == model::on_presence(self@, event@),
    {
        match event {
            Event::Presence(presence) => {
                let paths = output_paths(
                    self.device.serial_number.as_str(),
                    &self.profile.kind.suffixes(),
                );
                match check_presence(&paths, &presence) {
                    Ok(_) => self.go(Step::FirstStatus, Action::ReadStatus),
                    Err(error) => self.abort(error),
                }
            },
            other => self.refuse(other),
        }
    }

    fn request(&self, role: KeyRole) -> (request: KeyMaterialRequest)
        ensures
            request@ == model::request_for(self@.profile, role),
    {
        match role {
            KeyRole::Root => KeyMaterialRequest::new(
                role,
                self.profile.algorithm,
                self.profile.root_label.as_str(),
            ),
            KeyRole::Targets => KeyMaterialRequest::new(
                role,
                self.profile.algorithm,
                self.profile.targets_label.as_str(),
            ),
        }
    }

    fn after_safe_status(self) -> (r: (Workflow, Action))
        ensures
            (r.0@, r.1@) == model::after_safe_status(self@),
    {
        match self.step {
            Step::FirstStatus => self.go(Step::ResetConsent, Action::Confirm(Prompt::Reset)),
            Step::ResetStatus => {
                let action = Action::Reset {
                    credential: self.held.duplicate(),
                    label: self.profile.reset_label.clone(),
                };
                self.go(Step::Reset, action)
            },
            Step::AdminStatus => {
                let keep = self.profile.kind.has_user_role();
                let mut next = self;
                let action = Action::Rotate {
                    role: Role::Administrative,
                    current: next.held.duplicate(),
                    replacement: next.fresh.duplicate(),
                };
                next.step = Step::AdminRotation;
                next.held = if keep {
                    next.fresh.duplicate()
                } else {
                    Credential::empty()
                };
                next.fresh = Credential::empty();
                (next, action)
            },
            Step::UserStatus => {
                let mut next = self;
                let action = Action::Rotate {
                    role: Role::User,
                    current: next.held.duplicate(),
                    replacement: next.fresh.duplicate(),
                };
                next.step = Step::UserRotation;
                next.held.forget();
                next.fresh.forget();
                (next, action)
            },
            Step::RootStatus => {
                let action = Action::GenerateKeypair {
                    request: self.request(KeyRole::Root),
                    credential: self.held.duplicate(),
                };
                self.go(Step::RootKey, action)
            },
            _ => {
                let action = Action::GenerateKeypair {
                    request: self.request(KeyRole::Targets),
                    credential: self.held.duplicate(),
                };
                self.go(Step::TargetsKey, action)
            },
        }
    }

    fn on_status(self, event: Event) -> (r: (Workflow, Action))
        ensures
            (r.0@, r.1@) == model::on_status(self@, event@),
    {
        match event {
            Event::Status(status) => {
                match assess(status) {
                    Classification::Deadly => self.abort(
                        ProvisionError::DeviceRequiresManualIntervention,
                    ),
                    Classification::Safe => self.after_safe_status(),
                }
            },
            other => self.refuse(other),
        }
    }

    fn on_completed(self, event: Event) -> (r: (Workflow, Action))
        ensures
            (r.0@, r.1@) == model::on_completed(self@, event@),
    {
        match event {
            Event::Done => {
                match self.step {
                    Step::Reset => {
                        let seconds = self.profile.kind.settle_seconds();
                        if seconds > 0 {
                            self.go(Step::Settling, Action::Settle { seconds })
                        } else {
                            self.go(Step::AdminSecret, Action::GenerateSecret(Role::Administrative))
                        }
                    },
                    Step::Settling => self.go(
                        Step::AdminSecret,
                        Action::GenerateSecret(Role::Administrative),
                    ),
                    Step::AdminRotation => {
                        if self.profile.kind.has_user_role() {
                            self.go(Step::UserSecret, Action::GenerateSecret(Role::User))
                        } else {
                            self.go(Step::OperationalSecret, Action::ReadSecret)
                        }
                    },
                    _ => self.go(Step::OperationalSecret, Action::ReadSecret),
                }
            },
            other => self.refuse(other),
        }
    }

    fn role_at(&self) -> (role: Role)
        ensures
            role == model::role_at(self@.step),
    {
        match self.step {
            Step::UserSecret | Step::UserRetype | Step::UserStatus | Step::UserRotation => Role::User,
            _ => Role::Administrative,
        }
    }

    fn on_generated(self, event: Event) -> (r: (Workflow, Action))
        ensures
            (r.0@, r.1@) == model::on_generated(self@, event@),
    {
        match event {
            Event::Secret(secret) => {
                let role = self.role_at();
                if conforms(role, &secret) {
                    let mut next = self;
                    next.step = match next.step {
                        Step::AdminSecret => Step::AdminRetype,
                        _ => Step::UserRetype,
                    };
                    next.fresh = secret.duplicate();
                    (next, Action::ShowAndConfirm { role, secret })
                } else {
                    self.abort(ProvisionError::InvalidCredential { role })
                }
            },
            other => self.refuse(other),
        }
    }

    fn on_retyped(self, event: Event) -> (r: (Workflow, Action))
        ensures
            (r.0@, r.1@) == model::on_retyped(self@, event@),
    {
        match event {
            Event::Secret(typed) => {
                let mut typed = typed;
                let same = typed.matches(&self.fresh);
                typed.forget();
                if same {
                    match self.step {
                        Step::AdminRetype => self.go(Step::AdminStatus, Action::ReadStatus),
                        _ => self.go(Step::UserStatus, Action::ReadStatus),
                    }
                } else {
                    let role = self.role_at();
                    self.abort(ProvisionError::CredentialMismatch { role })
                }
            },
            other => self.refuse(other),
        }
    }

    fn on_operational(self, event: Event) -> (r: (Workflow, Action))
        ensures
            (r.0@, r.1@) == model::on_operational(self@, event@),
    {
        match event {
            Event::Secret(secret) => {
                let mut next = self;
                next.step = Step::RootStatus;
                next.held = secret;
                (next, Action::ReadStatus)
            },
            other => self.refuse(other),
        }
    }

    fn write_action(&self, i: usize) -> (action: Action)
        requires
            i < self@.outputs.files.len(),
        ensures
            action@ == model::write_of(self@.outputs, i as int),
    {
        Action::Write {
            suffix: self.outputs.suffix(i),
            path: self.outputs.path(i),
            content: copy_bytes(self.outputs.content(i)),
        }
    }

    fn persist(self) -> (r: (Workflow, Action))
        ensures
            (r.0@, r.1@) == model::persist(self@),
    {
        let mut next = self;
        next.outputs = assemble(
            next.device.serial_number.as_str(),
            &next.root,
            &next.targets,
            &next.certificate,
        );
        next.step = Step::Writing;
        next.held.forget();
        next.written = 0;
        let action = next.write_action(0);
        (next, action)
    }

    fn on_key(self, event: Event) -> (r: (Workflow, Action))
        ensures
            (r.0@, r.1@) == model::on_key(self@, event@),
    {
        match event {
            Event::Artifact(artifact) => {
                let key = ProvisioningArtifact { public_key: artifact.public_key, attestation: None };
                let mut next = self;
                match next.step {
                    Step::RootKey => {
                        next.step = Step::TargetsStatus;
                        next.root = key;
                        (next, Action::ReadStatus)
                    },
                    _ => {
                        next.targets = key;
                        if next.profile.kind.attests() {
                            next.step = Step::DeviceCertificate;
                            let action = Action::DeviceCertificate {
                                credential: next.held.duplicate(),
                            };
                            (next, action)
                        } else {
                            next.persist()
                        }
                    },
                }
            },
            other => self.refuse(other),
        }
    }

    fn on_certificate(self, event: Event) -> (r: (Workflow, Action))
        ensures
            (r.0@, r.1@) == model::on_certificate(self@, event@),
    {
        match event {
            Event::Bytes(bytes) => {
                let mut next = self;
                match next.step {
                    Step::DeviceCertificate => {
                        next.step = Step::RootAttestation;
                        next.certificate = Some(bytes);
                        let action = Action::Attest {
                            key: KeyRole::Root,
                            credential: next.held.duplicate(),
                        };
                        (next, action)
                    },
                    Step::RootAttestation => {
                        next.step = Step::TargetsAttestation;
                        next.root.attestation = Some(bytes);
                        let action = Action::Attest {
                            key: KeyRole::Targets,
                            credential: next.held.duplicate(),
                        };
                        (next, action)
                    },
                    _ => {
                        next.targets.attestation = Some(bytes);
                        next.persist()
                    },
                }
            },
            other => self.refuse(other),
        }
    }

    fn on_written(self, event: Event) -> (r: (Workflow, Action))
        ensures
            (r.0@, r.1@) == model::on_written(self@, event@),
    {
        match event {
            Event::Done => {
                if self.outputs.len() > 0 && self.written < self.outputs.len() - 1 {
                    let mut next = self;
                    next.written = next.written + 1;
                    let action = next.write_action(next.written);
                    (next, action)
                } else {
                    self.complete()
                }
            },
            Event::Failed(fault) => {
                if self.written < self.outputs.len() {
                    let suffix = self.outputs.suffix(self.written);
                    self.abort(ProvisionError::Io { suffix, cause: fault.cause })
                } else {
                    self.refuse(Event::Failed(fault))
                }
            },
            other => self.refuse(other),
        }
    }

    /// Takes the answer to the last request, and returns the run after it
    /// with the next request.
    pub fn advance(self, event: Event) -> (r: (Workflow, Action))
        ensures
            (r.0@, r.1@) == model::advance(self@, event@),
    {
        match self.step {
            Step::Banner | Step::ResetConsent => self.on_consent(event),
            Step::Discovery => self.on_devices(event),
            Step::Opening => self.on_opened(event),
            Step::OutputCheck => self.on_presence(event),
            Step::FirstStatus | Step::ResetStatus | Step::AdminStatus | Step::UserStatus
            | Step::RootStatus | Step::TargetsStatus => self.on_status(event),
            Step::Reset | Step::Settling | Step::AdminRotation | Step::UserRotation => self.on_completed(
                event,
            ),
            Step::AdminSecret | Step::UserSecret => self.on_generated(event),
            Step::AdminRetype | Step::UserRetype => self.on_retyped(event),
            Step::OperationalSecret => self.on_operational(event),
            Step::RootKey | Step::TargetsKey => self.on_key(event),
            Step::DeviceCertificate | Step::RootAttestation | Step::TargetsAttestation => self.on_certificate(
                event,
            ),
            Step::Writing => self.on_written(event),
            Step::Finished => {
                let result = match &self.failure {
                    Some(error) => Err(error.copy()),
                    None => Ok(()),
                };
                (self, Action::Finish(result))
            },
        }
    }
}

} // verus!
