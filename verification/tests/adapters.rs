use hsm_provision::error::{Fault, FaultKind};
use hsm_provision::keys::{KeyAlgorithm, KeyMaterialRequest, KeyRole};
use hsm_provision::model::Prompt;
use hsm_provision::script::{after_call, begin_script, ScriptStep};
use hsm_provision::secret::{Credential, Role};
use hsm_provision::token::{
    after_token_call, curve_parameters, must_close_session, token_calls, token_fault, TokenCall,
    TokenUser,
};
use hsm_provision::usb_hsm::{
    after_usb_call, public_key_file, replacement_auth_key, signing_key, usb_calls,
    usb_calls_under, usb_fault, UsbCall, DEVICE_CERTIFICATE_ID,
};
use hsm_provision::workflow::Action;

fn secret(text: &str) -> Credential {
    Credential::new(String::from(text))
}

fn token_line(call: &TokenCall) -> String {
    match call {
        TokenCall::InitToken { pin, label } => format!("init_token({}, {label})", pin.expose()),
        TokenCall::OpenSession => String::from("open_session"),
        TokenCall::Login { user: TokenUser::SecurityOfficer, pin } => format!("login(so, {})", pin.expose()),
        TokenCall::Login { user: TokenUser::User, pin } => format!("login(user, {})", pin.expose()),
        TokenCall::SetPin { old, new } => format!("set_pin({}, {})", old.expose(), new.expose()),
        TokenCall::InitPin { pin } => format!("init_pin({})", pin.expose()),
        TokenCall::Logout => String::from("logout"),
        TokenCall::GenerateKeyPair { curve, label } => format!("generate({curve:02x?}, {label})"),
        TokenCall::ReadPublicKey => String::from("read_public_key"),
        TokenCall::CloseSession => String::from("close_session"),
    }
}

fn token_lines(action: &Action) -> Option<Vec<String>> {
    token_calls(action).map(|calls| calls.iter().map(token_line).collect())
}

fn usb_line(call: &UsbCall) -> String {
    match call {
        UsbCall::Connect { key_id, key } => format!("connect({key_id}, {key:?})"),
        UsbCall::ResetDevice => String::from("reset"),
        UsbCall::PutAuthenticationKey { plan, label, new_key } => format!(
            "put_auth_key({}, {label}, {}, {:#x}, {:#x}, {new_key:?})",
            plan.id, plan.domains, plan.capabilities, plan.delegated
        ),
        UsbCall::DeleteAuthenticationKey { id } => format!("delete_auth_key({id})"),
        UsbCall::GenerateAsymmetricKey { key_plan: key, label, algorithm } => format!(
            "generate({}, {label}, {}, {:#x}, {algorithm:?})",
            key.id, key.domains, key.capabilities
        ),
        UsbCall::GetPublicKey { id } => format!("get_public_key({id})"),
        UsbCall::GetOpaque { id } => format!("get_opaque({id})"),
        UsbCall::SignAttestationCertificate { key_id } => format!("attest({key_id})"),
    }
}

fn usb_lines(action: &Action, algorithm: KeyAlgorithm) -> Option<Vec<String>> {
    usb_calls_under(action, algorithm, vec![1, 1], vec![2, 2])
        .map(|calls| calls.iter().map(usb_line).collect())
}

fn key_of(password: &str) -> Vec<u8> {
    yubihsm::authentication::Key::derive_from_password(password.as_bytes()).as_secret_slice().to_vec()
}

fn strings(items: &[&str]) -> Option<Vec<String>> {
    Some(items.iter().map(|s| String::from(*s)).collect())
}

fn reset() -> Action {
    Action::Reset { credential: secret("3537363231383830"), label: String::from("Nitrokey HSM - TUF") }
}

fn rotate(role: Role) -> Action {
    Action::Rotate { role, current: secret("old"), replacement: secret("new") }
}

fn generate(role: KeyRole, algorithm: KeyAlgorithm, label: &str) -> Action {
    Action::GenerateKeypair {
        request: KeyMaterialRequest::new(role, algorithm, label),
        credential: secret("pin"),
    }
}

#[test]
fn token_reset_initialises_the_token() {
    assert_eq!(
        token_lines(&reset()),
        strings(&["init_token(3537363231383830, Nitrokey HSM - TUF)"])
    );
}

#[test]
fn token_administrative_rotation() {
    assert_eq!(
        token_lines(&rotate(Role::Administrative)),
        strings(&["open_session", "login(so, old)", "set_pin(old, new)", "logout", "close_session"])
    );
}

#[test]
fn token_user_rotation() {
    assert_eq!(
        token_lines(&rotate(Role::User)),
        strings(&["open_session", "login(so, old)", "init_pin(new)", "close_session"])
    );
}

#[test]
fn token_key_generation() {
    assert_eq!(
        token_lines(&generate(KeyRole::Root, KeyAlgorithm::P256, "tuf-root")),
        strings(&[
            "open_session",
            "login(user, pin)",
            "generate([06, 08, 2a, 86, 48, ce, 3d, 03, 01, 07], tuf-root)",
            "read_public_key",
            "logout",
            "close_session",
        ])
    );
    assert_eq!(
        token_lines(&generate(KeyRole::Targets, KeyAlgorithm::P384, "tuf-targets")).unwrap()[2],
        "generate([06, 05, 2b, 81, 04, 00, 22], tuf-targets)"
    );
    assert_eq!(token_lines(&generate(KeyRole::Root, KeyAlgorithm::Ed25519, "tuf-root")), None);
}

#[test]
fn token_has_no_script_for_other_requests() {
    let others = vec![
        Action::Confirm(Prompt::Banner),
        Action::Discover,
        Action::ReadStatus,
        Action::Settle { seconds: 10 },
        Action::GenerateSecret(Role::User),
        Action::ReadSecret,
        Action::DeviceCertificate { credential: secret("x") },
        Action::Attest { key: KeyRole::Root, credential: secret("x") },
        Action::Finish(Ok(())),
    ];
    for action in others {
        assert!(token_calls(&action).is_none());
    }
}

#[test]
fn curve_parameters_are_the_encoded_names() {
    assert_eq!(
        curve_parameters(KeyAlgorithm::P256),
        Some(vec![0x06, 0x08, 0x2a, 0x86, 0x48, 0xce, 0x3d, 0x03, 0x01, 0x07])
    );
    assert_eq!(
        curve_parameters(KeyAlgorithm::P384),
        Some(vec![0x06, 0x05, 0x2b, 0x81, 0x04, 0x00, 0x22])
    );
    assert_eq!(curve_parameters(KeyAlgorithm::Ed25519), None);
}

#[test]
fn token_session_is_closed_after_a_failure_inside_it() {
    let script = token_calls(&rotate(Role::Administrative)).unwrap();
    assert!(!must_close_session(&script, 0));
    assert!(must_close_session(&script, 1));
    assert!(must_close_session(&script, 2));
    assert!(must_close_session(&script, 3));
    assert!(!must_close_session(&script, 4));
    assert!(!must_close_session(&script, 5));
    let script = token_calls(&reset()).unwrap();
    assert!(!must_close_session(&script, 0));
    assert!(!must_close_session(&vec![], 0));
}

#[test]
fn token_faults_follow_the_call() {
    let login = TokenCall::Login { user: TokenUser::SecurityOfficer, pin: secret("x") };
    assert_eq!(
        token_fault(&login, Some(pkcs11::types::CKR_PIN_INCORRECT as u64), "PKCS#11: CKR_PIN_INCORRECT (0xa0)"),
        Fault {
            kind: FaultKind::Auth,
            cause: String::from("failed to login as Security Officer: PKCS#11: CKR_PIN_INCORRECT (0xa0)"),
        }
    );
    assert_eq!(
        token_fault(&TokenCall::OpenSession, Some(pkcs11::types::CKR_DEVICE_ERROR as u64), "e"),
        Fault { kind: FaultKind::Connection, cause: String::from("failed to open session with HSM: e") }
    );
    assert_eq!(
        token_fault(&TokenCall::ReadPublicKey, None, "Attribute value is unavailable").kind,
        FaultKind::KeyGen
    );
    assert_eq!(token_fault(&TokenCall::Logout, None, "e").kind, FaultKind::Communication);
    assert_eq!(token_fault(&TokenCall::CloseSession, None, "e").kind, FaultKind::Communication);
    assert_eq!(
        token_fault(&TokenCall::InitPin { pin: secret("x") }, None, "e"),
        Fault { kind: FaultKind::Device, cause: String::from("failed to set new user PIN: e") }
    );
}

#[test]
fn token_faults_about_a_pin_are_faults_of_authentication() {
    let init = TokenCall::InitToken { pin: secret("x"), label: String::from("l") };
    let codes = [
        pkcs11::types::CKR_PIN_INCORRECT,
        pkcs11::types::CKR_PIN_INVALID,
        pkcs11::types::CKR_PIN_LEN_RANGE,
        pkcs11::types::CKR_PIN_EXPIRED,
        pkcs11::types::CKR_PIN_LOCKED,
        pkcs11::types::CKR_USER_NOT_LOGGED_IN,
        pkcs11::types::CKR_USER_PIN_NOT_INITIALIZED,
        pkcs11::types::CKR_PIN_TOO_WEAK,
    ];
    for code in codes {
        assert_eq!(token_fault(&init, Some(code as u64), "e").kind, FaultKind::Auth);
    }
    let others = [
        pkcs11::types::CKR_OK,
        pkcs11::types::CKR_DEVICE_ERROR,
        pkcs11::types::CKR_DEVICE_REMOVED,
        pkcs11::types::CKR_SESSION_CLOSED,
        pkcs11::types::CKR_USER_ALREADY_LOGGED_IN,
        pkcs11::types::CKR_TOKEN_NOT_PRESENT,
    ];
    for code in others {
        assert_eq!(token_fault(&init, Some(code as u64), "e").kind, FaultKind::Device);
    }
    assert_eq!(token_fault(&init, None, "e").kind, FaultKind::Device);
    assert_eq!(
        token_fault(&init, None, "e").cause,
        "failed to (re)initialize HSM: e"
    );
}

#[test]
fn usb_reset_is_made_under_the_factory_key() {
    let action = Action::Reset { credential: secret("password"), label: String::new() };
    assert_eq!(usb_lines(&action, KeyAlgorithm::P384), strings(&["connect(1, [1, 1])", "reset"]));
}

#[test]
fn usb_rotation_replaces_the_factory_key() {
    assert_eq!(
        usb_lines(&rotate(Role::Administrative), KeyAlgorithm::P384),
        strings(&[
            "connect(1, [1, 1])",
            "put_auth_key(2, tuf-authkey, 1, 0x10400000091, 0x80, [2, 2])",
            "connect(2, [2, 2])",
            "delete_auth_key(1)",
        ])
    );
    assert_eq!(
        usb_lines(&rotate(Role::Administrative), KeyAlgorithm::Ed25519).unwrap()[1],
        "put_auth_key(2, tuf-authkey, 1, 0x10400000111, 0x100, [2, 2])"
    );
    assert_eq!(usb_lines(&rotate(Role::User), KeyAlgorithm::P384), None);
    if let UsbCall::PutAuthenticationKey { plan, .. } =
        &usb_calls(&rotate(Role::Administrative), KeyAlgorithm::P256).unwrap()[1]
    {
        assert_eq!(*plan, replacement_auth_key(KeyAlgorithm::P256));
    } else {
        panic!("no new authentication key");
    }
}

#[test]
fn usb_credentials_reach_the_driver_as_derived_keys() {
    let calls = usb_calls(&rotate(Role::Administrative), KeyAlgorithm::P384).unwrap();
    assert_eq!(calls.len(), 4);
    match &calls[0] {
        UsbCall::Connect { key_id, key } => {
            assert_eq!(*key_id, 1);
            assert_eq!(*key, key_of("old"));
            assert_eq!(key.len(), 32);
            assert_ne!(key.as_slice(), "old".as_bytes());
        }
        _ => panic!("no session under the factory key"),
    }
    match &calls[1] {
        UsbCall::PutAuthenticationKey { new_key, .. } => assert_eq!(*new_key, key_of("new")),
        _ => panic!("no new authentication key"),
    }
    match &calls[2] {
        UsbCall::Connect { key_id, key } => {
            assert_eq!(*key_id, 2);
            assert_eq!(*key, key_of("new"));
        }
        _ => panic!("no session under the new key"),
    }
    let reset = Action::Reset { credential: secret("password"), label: String::new() };
    match &usb_calls(&reset, KeyAlgorithm::P384).unwrap()[0] {
        UsbCall::Connect { key, .. } => {
            assert_eq!(key.as_slice(), yubihsm::authentication::Key::default().as_secret_slice());
        }
        _ => panic!("no session under the factory key"),
    }
    let generate = generate(KeyRole::Root, KeyAlgorithm::P384, "tuf-root");
    match &usb_calls(&generate, KeyAlgorithm::P384).unwrap()[0] {
        UsbCall::Connect { key_id, key } => {
            assert_eq!(*key_id, 2);
            assert_eq!(*key, key_of("pin"));
        }
        _ => panic!("no session under the new key"),
    }
    assert!(usb_calls(&rotate(Role::User), KeyAlgorithm::P384).is_none());
    assert!(usb_calls(&Action::ReadStatus, KeyAlgorithm::P384).is_none());
}

#[test]
fn usb_public_key_of_a_curve_is_encoded_as_a_point() {
    let raw: Vec<u8> = (0..96).collect();
    let mut point = vec![4u8];
    point.extend_from_slice(&raw);
    assert_eq!(public_key_file(KeyAlgorithm::P384, KeyAlgorithm::P384, &raw), Some(point));
    let raw: Vec<u8> = (100..164).collect();
    let mut point = vec![4u8];
    point.extend_from_slice(&raw);
    assert_eq!(public_key_file(KeyAlgorithm::P256, KeyAlgorithm::P256, &raw), Some(point));
}

#[test]
fn usb_public_key_of_another_length_has_no_file() {
    for length in [0usize, 1, 32, 64, 95, 97, 128] {
        assert_eq!(public_key_file(KeyAlgorithm::P384, KeyAlgorithm::P384, &vec![7; length]), None);
    }
    for length in [0usize, 32, 63, 65, 96] {
        assert_eq!(public_key_file(KeyAlgorithm::P256, KeyAlgorithm::P256, &vec![7; length]), None);
    }
    for length in [0usize, 31, 33, 64] {
        assert_eq!(public_key_file(KeyAlgorithm::Ed25519, KeyAlgorithm::Ed25519, &vec![7; length]), None);
    }
}

#[test]
fn usb_public_key_of_another_algorithm_has_no_file() {
    assert_eq!(public_key_file(KeyAlgorithm::P384, KeyAlgorithm::P256, &vec![7; 96]), None);
    assert_eq!(public_key_file(KeyAlgorithm::P384, KeyAlgorithm::P256, &vec![7; 64]), None);
    assert_eq!(public_key_file(KeyAlgorithm::P256, KeyAlgorithm::Ed25519, &vec![7; 64]), None);
    assert_eq!(public_key_file(KeyAlgorithm::Ed25519, KeyAlgorithm::P256, &vec![7; 32]), None);
}

#[test]
fn usb_public_key_of_ed25519_is_kept_as_it_is() {
    let raw: Vec<u8> = (0..32).collect();
    assert_eq!(public_key_file(KeyAlgorithm::Ed25519, KeyAlgorithm::Ed25519, &raw), Some(raw.clone()));
    assert_eq!(
        yubihsm::ed25519::PublicKey::from_bytes(&raw).map(|key| key.as_bytes().to_vec()),
        Some(raw)
    );
}

#[test]
fn usb_key_generation() {
    assert_eq!(
        usb_lines(&generate(KeyRole::Root, KeyAlgorithm::P384, "tuf-root"), KeyAlgorithm::P384),
        strings(&["connect(2, [1, 1])", "generate(3, tuf-root, 1, 0x80, P384)", "get_public_key(3)"])
    );
    assert_eq!(
        usb_lines(&generate(KeyRole::Targets, KeyAlgorithm::Ed25519, "tuf-targets"), KeyAlgorithm::Ed25519),
        strings(&["connect(2, [1, 1])", "generate(4, tuf-targets, 1, 0x100, Ed25519)", "get_public_key(4)"])
    );
    if let UsbCall::GenerateAsymmetricKey { key_plan: key, .. } =
        &usb_calls(&generate(KeyRole::Root, KeyAlgorithm::P384, "l"), KeyAlgorithm::P384).unwrap()[1]
    {
        assert_eq!(*key, signing_key(KeyRole::Root, KeyAlgorithm::P384));
    } else {
        panic!("no key generation");
    }
}

#[test]
fn usb_attestation() {
    let certificate = Action::DeviceCertificate { credential: secret("pin") };
    assert_eq!(
        usb_lines(&certificate, KeyAlgorithm::P384),
        strings(&["connect(2, [1, 1])", "get_opaque(0)"])
    );
    assert_eq!(DEVICE_CERTIFICATE_ID, 0);
    let root = Action::Attest { key: KeyRole::Root, credential: secret("pin") };
    assert_eq!(usb_lines(&root, KeyAlgorithm::P384), strings(&["connect(2, [1, 1])", "attest(3)"]));
    let targets = Action::Attest { key: KeyRole::Targets, credential: secret("pin") };
    assert_eq!(usb_lines(&targets, KeyAlgorithm::P384), strings(&["connect(2, [1, 1])", "attest(4)"]));
}

#[test]
fn usb_has_no_script_for_other_requests() {
    let others = vec![
        Action::Confirm(Prompt::Reset),
        Action::Discover,
        Action::ReadStatus,
        Action::Settle { seconds: 10 },
        Action::GenerateSecret(Role::Administrative),
        Action::ReadSecret,
        Action::Finish(Ok(())),
    ];
    for action in others {
        assert!(usb_calls(&action, KeyAlgorithm::P384).is_none());
    }
}

#[test]
fn usb_faults_follow_the_call() {
    let connect = UsbCall::Connect { key_id: 1, key: vec![0; 32] };
    assert_eq!(
        usb_fault(&connect, false, "connector error"),
        Fault {
            kind: FaultKind::Connection,
            cause: String::from("unable to open a client connection with the HSM: connector error"),
        }
    );
    assert_eq!(usb_fault(&connect, true, "authentication failed").kind, FaultKind::Auth);
    assert_eq!(
        usb_fault(&UsbCall::ResetDevice, false, "e"),
        Fault { kind: FaultKind::Device, cause: String::from("reset failed: e") }
    );
    assert_eq!(
        usb_fault(&UsbCall::DeleteAuthenticationKey { id: 1 }, false, "e"),
        Fault { kind: FaultKind::Device, cause: String::from("failed to delete default auth key: e") }
    );
    assert_eq!(usb_fault(&UsbCall::GetPublicKey { id: 3 }, false, "e").kind, FaultKind::KeyGen);
    assert_eq!(usb_fault(&UsbCall::GetOpaque { id: 0 }, false, "e").kind, FaultKind::Attestation);
    assert_eq!(
        usb_fault(&UsbCall::SignAttestationCertificate { key_id: 3 }, false, "e"),
        Fault {
            kind: FaultKind::Attestation,
            cause: String::from("failed to create attestation certificate: e"),
        }
    );
    assert_eq!(usb_fault(&UsbCall::GetOpaque { id: 0 }, true, "e").kind, FaultKind::Auth);
}

/// Runs a token script against results given call by call, and returns the
/// calls that were made with what the run ended in.
fn run_token(script: &Vec<TokenCall>, results: &[bool]) -> (Vec<String>, ScriptStep) {
    let mut made = vec![];
    let mut step = begin_script(script.len());
    while let ScriptStep::Call(at) = step {
        made.push(token_line(&script[at]));
        step = after_token_call(script, at, results[at]);
    }
    (made, step)
}

fn run_usb(script: &Vec<UsbCall>, results: &[bool]) -> (Vec<String>, ScriptStep) {
    let mut made = vec![];
    let mut step = begin_script(script.len());
    while let ScriptStep::Call(at) = step {
        made.push(usb_line(&script[at]));
        step = after_usb_call(script, at, results[at]);
    }
    (made, step)
}

#[test]
fn script_steps() {
    assert_eq!(begin_script(0), ScriptStep::Finished);
    assert_eq!(begin_script(3), ScriptStep::Call(0));
    assert_eq!(after_call(3, 0, true, false), ScriptStep::Call(1));
    assert_eq!(after_call(3, 1, true, true), ScriptStep::Call(2));
    assert_eq!(after_call(3, 2, true, true), ScriptStep::Finished);
    assert_eq!(after_call(3, 0, false, false), ScriptStep::Report);
    assert_eq!(after_call(3, 1, false, true), ScriptStep::CloseThenReport);
    assert_eq!(after_call(1, 0, true, false), ScriptStep::Finished);
}

#[test]
fn token_script_runs_to_its_end() {
    let script = token_calls(&rotate(Role::Administrative)).unwrap();
    let (made, end) = run_token(&script, &[true; 5]);
    assert_eq!(
        made,
        vec!["open_session", "login(so, old)", "set_pin(old, new)", "logout", "close_session"]
    );
    assert_eq!(end, ScriptStep::Finished);
}

#[test]
fn token_script_stops_at_the_first_failure() {
    let script = token_calls(&rotate(Role::Administrative)).unwrap();
    let (made, end) = run_token(&script, &[false, true, true, true, true]);
    assert_eq!(made, vec!["open_session"]);
    assert_eq!(end, ScriptStep::Report);
    let (made, end) = run_token(&script, &[true, false, true, true, true]);
    assert_eq!(made, vec!["open_session", "login(so, old)"]);
    assert_eq!(end, ScriptStep::CloseThenReport);
    let (made, end) = run_token(&script, &[true, true, false, false, false]);
    assert_eq!(made, vec!["open_session", "login(so, old)", "set_pin(old, new)"]);
    assert_eq!(end, ScriptStep::CloseThenReport);
    let (made, end) = run_token(&script, &[true, true, true, true, false]);
    assert_eq!(made.len(), 5);
    assert_eq!(end, ScriptStep::Report);
    let script = token_calls(&reset()).unwrap();
    assert_eq!(run_token(&script, &[false]).1, ScriptStep::Report);
    assert_eq!(run_token(&script, &[true]).1, ScriptStep::Finished);
}

#[test]
fn token_step_after_each_call() {
    let script = token_calls(&rotate(Role::User)).unwrap();
    assert_eq!(after_token_call(&script, 0, true), ScriptStep::Call(1));
    assert_eq!(after_token_call(&script, 2, true), ScriptStep::Call(3));
    assert_eq!(after_token_call(&script, 3, true), ScriptStep::Finished);
    assert_eq!(after_token_call(&script, 0, false), ScriptStep::Report);
    assert_eq!(after_token_call(&script, 2, false), ScriptStep::CloseThenReport);
    assert_eq!(after_token_call(&script, 3, false), ScriptStep::Report);
    for at in 0..script.len() {
        assert_eq!(
            after_token_call(&script, at, false) == ScriptStep::CloseThenReport,
            must_close_session(&script, at)
        );
    }
}

#[test]
fn usb_rotation_keeps_the_factory_key_after_a_failure() {
    let script = usb_calls_under(&rotate(Role::Administrative), KeyAlgorithm::P384, vec![1, 1], vec![2, 2])
        .unwrap();
    for results in [
        [false, true, true, true],
        [true, false, true, true],
        [true, true, false, true],
        [false, false, false, false],
        [true, false, false, true],
    ] {
        let (made, end) = run_usb(&script, &results);
        assert!(made.iter().all(|call| call != "delete_auth_key(1)"), "{results:?}");
        assert!(end == ScriptStep::Report || end == ScriptStep::CloseThenReport);
    }
    let (made, end) = run_usb(&script, &[true, false, true, true]);
    assert_eq!(made.len(), 2);
    assert_eq!(end, ScriptStep::CloseThenReport);
    let (made, end) = run_usb(&script, &[true, true, false, true]);
    assert_eq!(made.len(), 3);
    assert_eq!(end, ScriptStep::Report);
}

#[test]
fn usb_rotation_deletes_the_factory_key_once_after_all_else() {
    let script = usb_calls_under(&rotate(Role::Administrative), KeyAlgorithm::P384, vec![1, 1], vec![2, 2])
        .unwrap();
    let (made, end) = run_usb(&script, &[true, true, true, true]);
    assert_eq!(made.iter().filter(|call| *call == "delete_auth_key(1)").count(), 1);
    assert_eq!(made.last().unwrap(), "delete_auth_key(1)");
    assert_eq!(made[2], "connect(2, [2, 2])");
    assert_eq!(end, ScriptStep::Finished);
    let (made, end) = run_usb(&script, &[true, true, true, false]);
    assert_eq!(made.len(), 4);
    assert_eq!(end, ScriptStep::CloseThenReport);
}

#[test]
fn usb_step_after_each_call() {
    let script = usb_calls_under(&generate(KeyRole::Root, KeyAlgorithm::P384, "l"), KeyAlgorithm::P384, vec![1], vec![])
        .unwrap();
    assert_eq!(after_usb_call(&script, 0, true), ScriptStep::Call(1));
    assert_eq!(after_usb_call(&script, 1, true), ScriptStep::Call(2));
    assert_eq!(after_usb_call(&script, 2, true), ScriptStep::Finished);
    assert_eq!(after_usb_call(&script, 0, false), ScriptStep::Report);
    assert_eq!(after_usb_call(&script, 1, false), ScriptStep::CloseThenReport);
    assert_eq!(after_usb_call(&script, 2, false), ScriptStep::CloseThenReport);
}
