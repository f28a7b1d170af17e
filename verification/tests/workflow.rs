use hsm_provision::device::{DeviceDescriptor, DeviceStatus};
use hsm_provision::error::{Fault, FaultKind, ProvisionError, Stage};
use hsm_provision::keys::{KeyAlgorithm, KeyRole, ProvisioningArtifact};
use hsm_provision::model::{Prompt, Step};
use hsm_provision::output::Suffix;
use hsm_provision::profile::{BackendKind, Profile};
use hsm_provision::secret::{Credential, Role};
use hsm_provision::token::nitrokey_profile;
use hsm_provision::usb_hsm::{factory_credential, yubihsm_profile};
use hsm_provision::workflow::{Action, Event, Workflow};

const SAFE: DeviceStatus = DeviceStatus {
    one_attempt_from_admin_lockout: false,
    admin_locked: false,
    one_attempt_from_user_lockout: false,
    user_locked: false,
    self_test_failed: false,
};

const ADMIN_LOCKED: DeviceStatus = DeviceStatus {
    one_attempt_from_admin_lockout: false,
    admin_locked: true,
    one_attempt_from_user_lockout: false,
    user_locked: false,
    self_test_failed: false,
};

/// A device, an operator and a disk that answer as they are told to, and
/// keep a record of what was asked of them.
struct Fake {
    devices: Vec<DeviceDescriptor>,
    statuses: Vec<DeviceStatus>,
    status_reads: usize,
    existing: Vec<String>,
    declines: Option<Prompt>,
    mistypes: Option<Role>,
    fails: Option<&'static str>,
    admin_secret: &'static str,
    user_secret: &'static str,
    operational: &'static str,
    calls: Vec<String>,
    shown: Vec<(Role, String)>,
    rotations: Vec<(Role, String, String)>,
    resets: Vec<(String, String)>,
    key_requests: Vec<(KeyRole, KeyAlgorithm, String, String)>,
    written: Vec<(Suffix, String, Vec<u8>)>,
    settled: Vec<u64>,
}

fn device(serial: &str, identity: &str) -> DeviceDescriptor {
    DeviceDescriptor {
        serial_number: String::from(serial),
        identity: String::from(identity),
        location: String::from("slot 0"),
    }
}

fn acme() -> Profile {
    Profile::new(BackendKind::Token, "Acme/TokenX", KeyAlgorithm::P256, "Acme token", "root", "targets")
}

impl Fake {
    fn new(devices: Vec<DeviceDescriptor>) -> Fake {
        Fake {
            devices,
            statuses: vec![SAFE],
            status_reads: 0,
            existing: vec![],
            declines: None,
            mistypes: None,
            fails: None,
            admin_secret: "0123456789abcdef",
            user_secret: "k3y5et",
            operational: "k3y5et",
            calls: vec![],
            shown: vec![],
            rotations: vec![],
            resets: vec![],
            key_requests: vec![],
            written: vec![],
            settled: vec![],
        }
    }

    fn failing(&self, call: &str) -> Option<Event> {
        if self.fails == Some(call) {
            let kind = match call {
                "discover" => FaultKind::Discovery,
                "open" => FaultKind::Connection,
                "status" => FaultKind::Communication,
                "reset" | "rotate" => FaultKind::Auth,
                "generate" => FaultKind::KeyGen,
                "certificate" | "attest" => FaultKind::Attestation,
                "confirm" | "retype" | "secret" => FaultKind::Prompt,
                _ => FaultKind::Io,
            };
            Some(Event::Failed(Fault { kind, cause: format!("{call} broke") }))
        } else {
            None
        }
    }

    fn public_key(role: KeyRole) -> Vec<u8> {
        match role {
            KeyRole::Root => vec![0x04, 0xaa, 0xbb, 0x00, 0xff],
            KeyRole::Targets => vec![0x04, 0x11, 0x22, 0x33],
        }
    }

    fn attestation(role: KeyRole) -> Vec<u8> {
        match role {
            KeyRole::Root => vec![0x30, 0x82, 0x01],
            KeyRole::Targets => vec![0x30, 0x82, 0x02],
        }
    }

    fn name(action: &Action) -> &'static str {
        match action {
            Action::Confirm(_) => "confirm",
            Action::Discover => "discover",
            Action::Open(_) => "open",
            Action::CheckOutputs(_) => "check",
            Action::ReadStatus => "status",
            Action::Reset { .. } => "reset",
            Action::Settle { .. } => "settle",
            Action::GenerateSecret(_) => "secret",
            Action::ShowAndConfirm { .. } => "retype",
            Action::Rotate { .. } => "rotate",
            Action::ReadSecret => "secret",
            Action::GenerateKeypair { .. } => "generate",
            Action::DeviceCertificate { .. } => "certificate",
            Action::Attest { .. } => "attest",
            Action::Write { .. } => "write",
            Action::Finish(_) => "finish",
        }
    }

    fn perform(&mut self, action: &Action) -> Event {
        let name = Fake::name(action);
        self.calls.push(String::from(name));
        if let Some(event) = self.failing(name) {
            return event;
        }
        match action {
            Action::Confirm(prompt) => Event::Confirmed(self.declines != Some(*prompt)),
            Action::Discover => Event::Devices(self.devices.clone()),
            Action::Open(_) => Event::Done,
            Action::CheckOutputs(paths) => {
                Event::Presence(paths.iter().map(|p| self.existing.contains(p)).collect())
            }
            Action::ReadStatus => {
                let at = self.status_reads.min(self.statuses.len() - 1);
                self.status_reads += 1;
                Event::Status(self.statuses[at])
            }
            Action::Reset { credential, label } => {
                self.resets.push((String::from(credential.expose()), label.clone()));
                Event::Done
            }
            Action::Settle { seconds } => {
                self.settled.push(*seconds);
                Event::Done
            }
            Action::GenerateSecret(role) => Event::Secret(Credential::new(String::from(match role {
                Role::Administrative => self.admin_secret,
                Role::User => self.user_secret,
            }))),
            Action::ShowAndConfirm { role, secret } => {
                self.shown.push((*role, String::from(secret.expose())));
                if self.mistypes == Some(*role) {
                    Event::Secret(Credential::new(String::from("not what was shown")))
                } else {
                    Event::Secret(secret.duplicate())
                }
            }
            Action::Rotate { role, current, replacement } => {
                self.rotations.push((
                    *role,
                    String::from(current.expose()),
                    String::from(replacement.expose()),
                ));
                Event::Done
            }
            Action::ReadSecret => Event::Secret(Credential::new(String::from(self.operational))),
            Action::GenerateKeypair { request, credential } => {
                self.key_requests.push((
                    request.role(),
                    request.algorithm(),
                    String::from(request.label()),
                    String::from(credential.expose()),
                ));
                Event::Artifact(ProvisioningArtifact {
                    public_key: Fake::public_key(request.role()),
                    attestation: None,
                })
            }
            Action::DeviceCertificate { .. } => Event::Bytes(vec![0xde, 0x71, 0xce]),
            Action::Attest { key, .. } => Event::Bytes(Fake::attestation(*key)),
            Action::Write { suffix, path, content } => {
                self.written.push((*suffix, path.clone(), content.clone()));
                Event::Done
            }
            Action::Finish(_) => Event::Done,
        }
    }

    fn count(&self, call: &str) -> usize {
        self.calls.iter().filter(|c| c.as_str() == call).count()
    }

    fn touched(&self) -> usize {
        self.count("reset") + self.count("rotate") + self.count("generate")
    }
}

fn run(profile: Profile, admin: &str, fake: &mut Fake) -> (Workflow, Result<(), ProvisionError>) {
    let (mut workflow, mut action) = Workflow::begin(profile, Credential::new(String::from(admin)));
    let mut rounds = 0;
    loop {
        if let Action::Finish(result) = action {
            return (workflow, result);
        }
        let event = fake.perform(&action);
        let next = workflow.advance(event);
        workflow = next.0;
        action = next.1;
        rounds += 1;
        assert!(rounds < 100, "the run does not end");
    }
}

#[test]
fn token_run_end_to_end() {
    let mut fake = Fake::new(vec![device("DENK0100123", "Acme/TokenX")]);
    let (workflow, result) = run(acme(), "3537363231383830", &mut fake);
    assert_eq!(result, Ok(()));
    assert_eq!(workflow.stage(), Stage::Complete);
    assert_eq!(workflow.step(), Step::Finished);
    assert!(workflow.is_finished());
    assert_eq!(*workflow.failure(), None);
    assert_eq!(*workflow.device(), device("DENK0100123", "Acme/TokenX"));
    assert_eq!(
        fake.calls,
        vec![
            "confirm", "discover", "open", "check", "status", "confirm", "status", "reset",
            "secret", "retype", "status", "rotate", "secret", "retype", "status", "rotate",
            "secret", "status", "generate", "status", "generate", "write", "write",
        ]
    );
    assert_eq!(
        fake.resets,
        vec![(String::from("3537363231383830"), String::from("Acme token"))]
    );
    assert_eq!(
        fake.rotations,
        vec![
            (Role::Administrative, String::from("3537363231383830"), String::from("0123456789abcdef")),
            (Role::User, String::from("0123456789abcdef"), String::from("k3y5et")),
        ]
    );
    assert_eq!(
        fake.shown,
        vec![
            (Role::Administrative, String::from("0123456789abcdef")),
            (Role::User, String::from("k3y5et")),
        ]
    );
    assert_eq!(
        fake.key_requests,
        vec![
            (KeyRole::Root, KeyAlgorithm::P256, String::from("root"), String::from("k3y5et")),
            (KeyRole::Targets, KeyAlgorithm::P256, String::from("targets"), String::from("k3y5et")),
        ]
    );
    assert_eq!(
        fake.written,
        vec![
            (Suffix::RootPubkey, String::from("DENK0100123_root_pubkey.pub"), vec![0x04, 0xaa, 0xbb, 0x00, 0xff]),
            (Suffix::TargetsPubkey, String::from("DENK0100123_targets_pubkey.pub"), vec![0x04, 0x11, 0x22, 0x33]),
        ]
    );
    assert!(fake.settled.is_empty());
    let outputs = workflow.outputs();
    assert_eq!(outputs.len(), 2);
    assert_eq!(outputs.serial_number(), "DENK0100123");
    assert_eq!(outputs.path(0), "DENK0100123_root_pubkey.pub");
    assert_eq!(outputs.path(1), "DENK0100123_targets_pubkey.pub");
    assert_eq!(*outputs.content(0), Fake::public_key(KeyRole::Root));
    assert_eq!(*outputs.content(1), Fake::public_key(KeyRole::Targets));
}

#[test]
fn usb_run_end_to_end() {
    let mut fake = Fake::new(vec![device("0007550123", "Yubico YubiHSM")]);
    fake.operational = "0123456789abcdef";
    let (workflow, action) = Workflow::begin(yubihsm_profile(), factory_credential());
    assert!(matches!(action, Action::Confirm(Prompt::Banner)));
    assert_eq!(workflow.stage(), Stage::Discovering);
    let (workflow, result) = run(yubihsm_profile(), "password", &mut fake);
    assert_eq!(result, Ok(()));
    assert_eq!(workflow.stage(), Stage::Complete);
    assert_eq!(
        fake.calls,
        vec![
            "confirm", "discover", "open", "check", "status", "confirm", "status", "reset",
            "settle", "secret", "retype", "status", "rotate", "secret", "status", "generate",
            "status", "generate", "certificate", "attest", "attest", "write", "write", "write",
            "write", "write",
        ]
    );
    assert_eq!(fake.settled, vec![10]);
    assert_eq!(fake.resets, vec![(String::from("password"), String::new())]);
    assert_eq!(
        fake.rotations,
        vec![(Role::Administrative, String::from("password"), String::from("0123456789abcdef"))]
    );
    assert_eq!(
        fake.key_requests,
        vec![
            (KeyRole::Root, KeyAlgorithm::P384, String::from("tuf-root"), String::from("0123456789abcdef")),
            (KeyRole::Targets, KeyAlgorithm::P384, String::from("tuf-targets"), String::from("0123456789abcdef")),
        ]
    );
    assert_eq!(
        fake.written,
        vec![
            (Suffix::DeviceCertificate, String::from("0007550123_cert.der"), vec![0xde, 0x71, 0xce]),
            (Suffix::RootAttestation, String::from("0007550123_root_attestation.der"), vec![0x30, 0x82, 0x01]),
            (Suffix::RootPubkey, String::from("0007550123_root_pubkey.pub"), vec![0x04, 0xaa, 0xbb, 0x00, 0xff]),
            (Suffix::TargetsAttestation, String::from("0007550123_targets_attestation.der"), vec![0x30, 0x82, 0x02]),
            (Suffix::TargetsPubkey, String::from("0007550123_targets_pubkey.pub"), vec![0x04, 0x11, 0x22, 0x33]),
        ]
    );
}

#[test]
fn declined_banner_ends_before_discovery() {
    let mut fake = Fake::new(vec![device("1", "Acme/TokenX")]);
    fake.declines = Some(Prompt::Banner);
    let (workflow, result) = run(acme(), "3537363231383830", &mut fake);
    assert_eq!(result, Err(ProvisionError::UserAborted));
    assert_eq!(fake.calls, vec!["confirm"]);
    assert_eq!(workflow.stage(), Stage::Aborted);
    assert_eq!(*workflow.failure(), Some(ProvisionError::UserAborted));
}

#[test]
fn declined_reset_touches_nothing() {
    let mut fake = Fake::new(vec![device("1", "Acme/TokenX")]);
    fake.declines = Some(Prompt::Reset);
    let (workflow, result) = run(acme(), "3537363231383830", &mut fake);
    assert_eq!(result, Err(ProvisionError::UserAborted));
    assert_eq!(fake.count("reset"), 0);
    assert_eq!(fake.count("rotate"), 0);
    assert_eq!(fake.count("generate"), 0);
    assert_eq!(fake.calls, vec!["confirm", "discover", "open", "check", "status", "confirm"]);
    assert!(fake.written.is_empty());
    assert_eq!(workflow.stage(), Stage::Aborted);
}

#[test]
fn status_that_turns_deadly_before_the_reset_forbids_it() {
    let mut fake = Fake::new(vec![device("1", "Acme/TokenX")]);
    fake.statuses = vec![SAFE, ADMIN_LOCKED];
    let (_, result) = run(acme(), "3537363231383830", &mut fake);
    assert_eq!(result, Err(ProvisionError::DeviceRequiresManualIntervention));
    assert_eq!(fake.calls, vec!["confirm", "discover", "open", "check", "status", "confirm", "status"]);
    assert_eq!(fake.count("reset"), 0);
    assert_eq!(fake.touched(), 0);
}

#[test]
fn deadly_status_at_first_read_asks_for_no_consent() {
    let mut fake = Fake::new(vec![device("1", "Acme/TokenX")]);
    fake.statuses = vec![ADMIN_LOCKED];
    let (_, result) = run(acme(), "3537363231383830", &mut fake);
    assert_eq!(result, Err(ProvisionError::DeviceRequiresManualIntervention));
    assert_eq!(fake.calls, vec!["confirm", "discover", "open", "check", "status"]);
    assert_eq!(fake.touched(), 0);
}

#[test]
fn each_deadly_flag_forbids_the_reset() {
    for bit in 0..5 {
        let mut fake = Fake::new(vec![device("1", "Acme/TokenX")]);
        fake.statuses = vec![
            SAFE,
            DeviceStatus {
                one_attempt_from_admin_lockout: bit == 0,
                admin_locked: bit == 1,
                one_attempt_from_user_lockout: bit == 2,
                user_locked: bit == 3,
                self_test_failed: bit == 4,
            },
        ];
        let (_, result) = run(acme(), "3537363231383830", &mut fake);
        assert_eq!(result, Err(ProvisionError::DeviceRequiresManualIntervention));
        assert_eq!(fake.touched(), 0);
    }
}

#[test]
fn status_that_turns_deadly_after_the_reset_forbids_the_rotation() {
    let mut fake = Fake::new(vec![device("1", "Acme/TokenX")]);
    fake.statuses = vec![SAFE, SAFE, ADMIN_LOCKED];
    let (workflow, result) = run(acme(), "3537363231383830", &mut fake);
    assert_eq!(result, Err(ProvisionError::DeviceRequiresManualIntervention));
    assert_eq!(fake.count("reset"), 1);
    assert_eq!(fake.count("rotate"), 0);
    assert_eq!(fake.count("generate"), 0);
    assert!(workflow.failure().as_ref().unwrap().needs_manual_recovery());
}

#[test]
fn existing_output_forbids_the_reset() {
    let mut fake = Fake::new(vec![device("DENK0100123", "Acme/TokenX")]);
    fake.existing = vec![String::from("DENK0100123_targets_pubkey.pub")];
    let (_, result) = run(acme(), "3537363231383830", &mut fake);
    assert_eq!(
        result,
        Err(ProvisionError::OutputConflict { path: String::from("DENK0100123_targets_pubkey.pub") })
    );
    assert_eq!(fake.calls, vec!["confirm", "discover", "open", "check"]);
    assert_eq!(fake.count("reset"), 0);
    assert_eq!(fake.touched(), 0);
}

#[test]
fn existing_outputs_report_the_first() {
    let mut fake = Fake::new(vec![device("42", "Yubico YubiHSM")]);
    fake.existing = vec![String::from("42_targets_pubkey.pub"), String::from("42_root_attestation.der")];
    let (_, result) = run(yubihsm_profile(), "password", &mut fake);
    assert_eq!(
        result,
        Err(ProvisionError::OutputConflict { path: String::from("42_root_attestation.der") })
    );
    assert_eq!(fake.touched(), 0);
}

#[test]
fn output_of_another_device_is_no_conflict() {
    let mut fake = Fake::new(vec![device("DENK0100123", "Acme/TokenX")]);
    fake.existing = vec![
        String::from("DENK0100124_root_pubkey.pub"),
        String::from("DENK0100123_cert.der"),
        String::from("root_pubkey.pub"),
    ];
    let (_, result) = run(acme(), "3537363231383830", &mut fake);
    assert_eq!(result, Ok(()));
}

#[test]
fn the_check_for_outputs_comes_before_the_reset() {
    let mut fake = Fake::new(vec![device("DENK0100123", "Acme/TokenX")]);
    let (_, result) = run(acme(), "3537363231383830", &mut fake);
    assert_eq!(result, Ok(()));
    let check = fake.calls.iter().position(|c| c == "check").unwrap();
    let reset = fake.calls.iter().position(|c| c == "reset").unwrap();
    assert!(check < reset);
    assert_eq!(fake.count("check"), 1);
}

#[test]
fn administrative_mismatch_rotates_nothing() {
    let mut fake = Fake::new(vec![device("1", "Acme/TokenX")]);
    fake.mistypes = Some(Role::Administrative);
    let (workflow, result) = run(acme(), "3537363231383830", &mut fake);
    assert_eq!(result, Err(ProvisionError::CredentialMismatch { role: Role::Administrative }));
    assert_eq!(fake.count("reset"), 1);
    assert_eq!(fake.count("rotate"), 0);
    assert!(fake.rotations.is_empty());
    assert_eq!(fake.count("generate"), 0);
    assert_eq!(workflow.stage(), Stage::Aborted);
    assert!(!workflow.failure().as_ref().unwrap().needs_manual_recovery());
}

#[test]
fn user_mismatch_rotates_no_user_credential() {
    let mut fake = Fake::new(vec![device("1", "Acme/TokenX")]);
    fake.mistypes = Some(Role::User);
    let (_, result) = run(acme(), "3537363231383830", &mut fake);
    assert_eq!(result, Err(ProvisionError::CredentialMismatch { role: Role::User }));
    assert_eq!(fake.count("rotate"), 1);
    assert_eq!(fake.rotations.len(), 1);
    assert_eq!(fake.rotations[0].0, Role::Administrative);
    assert!(fake.rotations.iter().all(|r| r.2 != "not what was shown"));
    assert_eq!(fake.count("generate"), 0);
}

#[test]
fn generated_credential_outside_the_policy_is_refused() {
    let mut fake = Fake::new(vec![device("1", "Acme/TokenX")]);
    fake.admin_secret = "0123456789ABCDEF";
    let (_, result) = run(acme(), "3537363231383830", &mut fake);
    assert_eq!(result, Err(ProvisionError::InvalidCredential { role: Role::Administrative }));
    assert_eq!(fake.count("retype"), 0);
    assert_eq!(fake.count("rotate"), 0);

    let mut fake = Fake::new(vec![device("1", "Acme/TokenX")]);
    fake.user_secret = "short";
    let (_, result) = run(acme(), "3537363231383830", &mut fake);
    assert_eq!(result, Err(ProvisionError::InvalidCredential { role: Role::User }));
    assert_eq!(fake.count("rotate"), 1);
}

#[test]
fn discovery_failures_end_the_run() {
    let mut fake = Fake::new(vec![]);
    assert_eq!(run(acme(), "x", &mut fake).1, Err(ProvisionError::NoDeviceFound));
    assert_eq!(fake.calls, vec!["confirm", "discover"]);

    let mut fake = Fake::new(vec![device("1", "Acme/TokenX"), device("2", "Acme/TokenX")]);
    assert_eq!(run(acme(), "x", &mut fake).1, Err(ProvisionError::AmbiguousDevice));
    assert_eq!(fake.calls, vec!["confirm", "discover"]);

    let mut fake = Fake::new(vec![device("1", "Nitrokey")]);
    assert_eq!(
        run(acme(), "x", &mut fake).1,
        Err(ProvisionError::UnexpectedDevice { identity: String::from("Nitrokey") })
    );
    assert_eq!(fake.calls, vec!["confirm", "discover"]);

    let mut fake = Fake::new(vec![device("1", "Nitrokey")]);
    assert_eq!(run(nitrokey_profile(KeyAlgorithm::P384), "x", &mut fake).1, Ok(()));
    assert_eq!(fake.key_requests[0].1, KeyAlgorithm::P384);
    assert_eq!(fake.key_requests[0].2, "tuf-root");
    assert_eq!(fake.resets[0].1, "Nitrokey HSM - TUF");
}

#[test]
fn failed_requests_are_reported_with_their_stage() {
    let cases = [
        ("discover", Stage::Discovering, FaultKind::Discovery, 0),
        ("open", Stage::Discovering, FaultKind::Connection, 0),
        ("status", Stage::Assessing, FaultKind::Communication, 0),
        ("reset", Stage::Resetting, FaultKind::Auth, 1),
        ("rotate", Stage::RotatingAdminCredential, FaultKind::Auth, 2),
        ("generate", Stage::GeneratingKeys, FaultKind::KeyGen, 4),
    ];
    for (call, stage, kind, touched) in cases {
        let mut fake = Fake::new(vec![device("1", "Acme/TokenX")]);
        fake.fails = Some(call);
        let (workflow, result) = run(acme(), "3537363231383830", &mut fake);
        assert_eq!(
            result,
            Err(ProvisionError::Backend { stage, kind, cause: format!("{call} broke") })
        );
        assert_eq!(fake.touched(), touched);
        assert_eq!(fake.count(call), 1, "{call} is not tried again");
        assert_eq!(workflow.stage(), Stage::Aborted);
    }
}

#[test]
fn failed_attestation_ends_the_run() {
    for call in ["certificate", "attest"] {
        let mut fake = Fake::new(vec![device("1", "Yubico YubiHSM")]);
        fake.fails = Some(call);
        let (_, result) = run(yubihsm_profile(), "password", &mut fake);
        assert_eq!(
            result,
            Err(ProvisionError::Backend {
                stage: Stage::GeneratingKeys,
                kind: FaultKind::Attestation,
                cause: format!("{call} broke"),
            })
        );
        assert!(fake.written.is_empty());
    }
}

#[test]
fn failed_write_names_the_suffix() {
    let mut fake = Fake::new(vec![device("1", "Acme/TokenX")]);
    fake.fails = Some("write");
    let (workflow, result) = run(acme(), "3537363231383830", &mut fake);
    assert_eq!(
        result,
        Err(ProvisionError::Io { suffix: Suffix::RootPubkey, cause: String::from("write broke") })
    );
    assert_eq!(fake.count("write"), 1);
    assert_eq!(fake.touched(), 5);
    assert!(!workflow.failure().as_ref().unwrap().needs_manual_recovery());
}

#[test]
fn failed_prompt_ends_the_run() {
    let mut fake = Fake::new(vec![device("1", "Acme/TokenX")]);
    fake.fails = Some("confirm");
    let (_, result) = run(acme(), "3537363231383830", &mut fake);
    assert_eq!(
        result,
        Err(ProvisionError::Backend {
            stage: Stage::Discovering,
            kind: FaultKind::Prompt,
            cause: String::from("confirm broke"),
        })
    );
}

#[test]
fn an_event_out_of_turn_ends_the_run() {
    let (workflow, _) = Workflow::begin(acme(), Credential::new(String::from("x")));
    let (workflow, action) = workflow.advance(Event::Done);
    assert!(matches!(action, Action::Finish(Err(ProvisionError::OutOfTurn))));
    assert!(workflow.is_finished());
    assert_eq!(workflow.stage(), Stage::Aborted);
}

#[test]
fn a_presence_answer_of_the_wrong_length_is_out_of_turn() {
    let (workflow, _) = Workflow::begin(acme(), Credential::new(String::from("x")));
    let (workflow, _) = workflow.advance(Event::Confirmed(true));
    let (workflow, _) = workflow.advance(Event::Devices(vec![device("1", "Acme/TokenX")]));
    let (workflow, action) = workflow.advance(Event::Done);
    if let Action::CheckOutputs(paths) = &action {
        assert_eq!(paths, &vec![String::from("1_root_pubkey.pub"), String::from("1_targets_pubkey.pub")]);
    } else {
        panic!("no check for outputs");
    }
    assert_eq!(workflow.step(), Step::OutputCheck);
    let (_, action) = workflow.advance(Event::Presence(vec![false]));
    assert!(matches!(action, Action::Finish(Err(ProvisionError::OutOfTurn))));
}

#[test]
fn a_finished_run_repeats_its_result() {
    let mut fake = Fake::new(vec![device("1", "Acme/TokenX")]);
    fake.declines = Some(Prompt::Reset);
    let (workflow, _) = run(acme(), "3537363231383830", &mut fake);
    let (workflow, action) = workflow.advance(Event::Confirmed(true));
    assert!(matches!(action, Action::Finish(Err(ProvisionError::UserAborted))));
    let (workflow, action) = workflow.advance(Event::Status(SAFE));
    assert!(matches!(action, Action::Finish(Err(ProvisionError::UserAborted))));
    assert!(workflow.is_finished());

    let mut fake = Fake::new(vec![device("1", "Acme/TokenX")]);
    let (workflow, _) = run(acme(), "3537363231383830", &mut fake);
    let (_, action) = workflow.advance(Event::Done);
    assert!(matches!(action, Action::Finish(Ok(()))));
}

#[test]
fn stages_follow_each_other() {
    let mut fake = Fake::new(vec![device("1", "Acme/TokenX")]);
    let (mut workflow, mut action) = Workflow::begin(acme(), Credential::new(String::from("x")));
    let mut stages = vec![workflow.stage()];
    while !matches!(action, Action::Finish(_)) {
        let event = fake.perform(&action);
        let next = workflow.advance(event);
        workflow = next.0;
        action = next.1;
        if *stages.last().unwrap() != workflow.stage() {
            stages.push(workflow.stage());
        }
    }
    assert_eq!(
        stages,
        vec![
            Stage::Discovering,
            Stage::Assessing,
            Stage::Resetting,
            Stage::RotatingAdminCredential,
            Stage::RotatingUserCredential,
            Stage::GeneratingKeys,
            Stage::PersistingOutputs,
            Stage::Complete,
        ]
    );
}

#[test]
fn every_change_of_the_device_follows_a_status_read() {
    let mut fake = Fake::new(vec![device("1", "Yubico YubiHSM")]);
    fake.operational = "0123456789abcdef";
    let (_, result) = run(yubihsm_profile(), "password", &mut fake);
    assert_eq!(result, Ok(()));
    for (i, call) in fake.calls.iter().enumerate() {
        if call == "reset" || call == "rotate" || call == "generate" {
            assert_eq!(fake.calls[i - 1], "status");
        }
    }
}
