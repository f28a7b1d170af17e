//! The USB module: its authentication keys and their capabilities, the
//! objects a run creates on it, and its profile.

use crate::device::DeviceStatus;
use crate::error::{Fault, FaultKind, FaultView};
use crate::keys::{KeyAlgorithm, KeyRole};
use crate::model::{authorising, ActionView};
use crate::profile::{BackendKind, Profile, ProfileView};
use crate::script::{
    after_call, law_call_follows_successes, law_failure_is_reported, position, step_after,
    ScriptStep,
};
use crate::secret::{Credential, Role};
use crate::text::{copy_bytes, label_text, labelled, same_text, texts};
use crate::workflow::Action;
use vstd::prelude::*;
use vstd::string::{StringExecFns, StringSliceAdditionalSpecFns};

verus! {

/// The capability to read opaque objects, such as the device's certificate.
pub const GET_OPAQUE: u64 = 0x1;

/// The capability to generate asymmetric keypairs.
pub const GENERATE_ASYMMETRIC_KEY: u64 = 0x10;

/// The capability to sign with ECDSA.
pub const SIGN_ECDSA: u64 = 0x80;

/// The capability to sign with EdDSA.
pub const SIGN_EDDSA: u64 = 0x100;

/// The capability to sign attestation certificates.
pub const SIGN_ATTESTATION_CERTIFICATE: u64 = 0x4_0000_0000;

/// The capability to delete authentication keys.
pub const DELETE_AUTHENTICATION_KEY: u64 = 0x100_0000_0000;

/// The first of the sixteen domains, the only one a run uses.
pub const DOMAIN_ONE: u16 = 0x0001;

/// The object the factory's authentication key is stored as.
pub const DEFAULT_AUTH_KEY_ID: u16 = 1;

/// The object the new authentication key is stored as.
pub const AUTH_KEY_ID: u16 = 2;

/// The object the root key is stored as.
pub const ROOT_KEY_ID: u16 = 3;

/// The object the targets key is stored as.
pub const TARGETS_KEY_ID: u16 = 4;

/// The most bytes a label can have.
pub const LABEL_SIZE: usize = 40;

/// The label of the new authentication key.
pub const AUTH_KEY_LABEL: &'static str = "tuf-authkey";

/// The label of the root key.
pub const ROOT_LABEL: &'static str = "tuf-root";

/// The label of the targets key.
pub const TARGETS_LABEL: &'static str = "tuf-targets";

/// The product a module has to declare.
pub const USB_IDENTITY: &'static str = "Yubico YubiHSM";

/// The password of the factory's authentication key.
pub const FACTORY_PASSWORD: &'static str = "password";

/// The seconds given to the module for one USB transfer.
pub const USB_TIMEOUT_SECONDS: u64 = 10;

/// The capability a key of an algorithm signs with.
pub open spec fn signing_capability(algorithm: KeyAlgorithm) -> u64 {
    match algorithm {
        KeyAlgorithm::P256 => SIGN_ECDSA,
        KeyAlgorithm::P384 => SIGN_ECDSA,
        KeyAlgorithm::Ed25519 => SIGN_EDDSA,
    }
}

/// What the new authentication key may do: read the device's certificate,
/// generate keypairs, sign with them, sign attestations, and delete the
/// factory's key. Nothing else.
pub open spec fn auth_key_capabilities(algorithm: KeyAlgorithm) -> u64 {
    GET_OPAQUE | GENERATE_ASYMMETRIC_KEY | signing_capability(algorithm)
        | SIGN_ATTESTATION_CERTIFICATE | DELETE_AUTHENTICATION_KEY
}

/// The object a signing key is stored as.
pub open spec fn key_id_of(role: KeyRole) -> u16 {
    match role {
        KeyRole::Root => ROOT_KEY_ID,
        KeyRole::Targets => TARGETS_KEY_ID,
    }
}

/// The authentication key that takes the place of the factory's.
#[derive(Clone, Copy, Debug, PartialEq, Eq, Structural)]
pub struct AuthKeyPlan {
    /// The object it is stored as.
    pub id: u16,
    /// The object it replaces, which is deleted once the new key works.
    pub replaces: u16,
    /// The domains it acts in.
    pub domains: u16,
    /// What sessions under it may do.
    pub capabilities: u64,
    /// What keys created under it may be given.
    pub delegated: u64,
}

/// A signing key to create on the module.
#[derive(Clone, Copy, Debug, PartialEq, Eq, Structural)]
pub struct KeyPlan {
    /// The object it is stored as.
    pub id: u16,
    /// The domains it acts in.
    pub domains: u16,
    /// What it may do.
    pub capabilities: u64,
}

/// The plan of the new authentication key for keys of an algorithm.
pub open spec fn auth_key_plan(algorithm: KeyAlgorithm) -> AuthKeyPlan {
    AuthKeyPlan {
        id: AUTH_KEY_ID,
        replaces: DEFAULT_AUTH_KEY_ID,
        domains: DOMAIN_ONE,
        capabilities: auth_key_capabilities(algorithm),
        delegated: signing_capability(algorithm),
    }
}

/// The plan of a signing key.
pub open spec fn key_plan(role: KeyRole, algorithm: KeyAlgorithm) -> KeyPlan {
    KeyPlan { id: key_id_of(role), domains: DOMAIN_ONE, capabilities: signing_capability(algorithm) }
}

/// The capability a key of an algorithm signs with.
pub fn signing(algorithm: KeyAlgorithm) -> (capability: u64)
    ensures
        capability == signing_capability(algorithm),
{
    match algorithm {
        KeyAlgorithm::P256 => SIGN_ECDSA,
        KeyAlgorithm::P384 => SIGN_ECDSA,
        KeyAlgorithm::Ed25519 => SIGN_EDDSA,
    }
}

/// The plan of the new authentication key for keys of an algorithm.
pub fn replacement_auth_key(algorithm: KeyAlgorithm) -> (plan: AuthKeyPlan)
    ensures
        plan == auth_key_plan(algorithm),
{
    let sign = signing(algorithm);
    AuthKeyPlan {
        id: AUTH_KEY_ID,
        replaces: DEFAULT_AUTH_KEY_ID,
        domains: DOMAIN_ONE,
        capabilities: GET_OPAQUE | GENERATE_ASYMMETRIC_KEY | sign | SIGN_ATTESTATION_CERTIFICATE
            | DELETE_AUTHENTICATION_KEY,
        delegated: sign,
    }
}

/// The plan of a signing key.
pub fn signing_key(role: KeyRole, algorithm: KeyAlgorithm) -> (plan: KeyPlan)
    ensures
        plan == key_plan(role, algorithm),
{
    KeyPlan {
        id: match role {
            KeyRole::Root => ROOT_KEY_ID,
            KeyRole::Targets => TARGETS_KEY_ID,
        },
        domains: DOMAIN_ONE,
        capabilities: signing(algorithm),
    }
}

/// Whether a label is short enough for the module.
pub fn label_fits(label: &str) -> (fits: bool)
    ensures
        fits == (label.spec_bytes().len() <= LABEL_SIZE),
{
    label.as_bytes().len() <= LABEL_SIZE
}

/// The milliseconds given to the module for one USB transfer.
pub fn usb_timeout_millis() -> (millis: u64)
    ensures
        millis == USB_TIMEOUT_SECONDS * 1000,
{
    USB_TIMEOUT_SECONDS * 1000
}

/// The credential a module accepts when it comes from the factory or from a reset.
pub fn factory_credential() -> (credential: Credential)
    ensures
        credential@ == FACTORY_PASSWORD@,
{
    Credential::new(String::from_str(FACTORY_PASSWORD))
}

/// The profile of the module: one authentication key, attestation, and a
/// wait after the reset.
pub fn yubihsm_profile() -> (profile: Profile)
    ensures
        profile@ == (ProfileView {
            kind: BackendKind::UsbHsm,
            identity: USB_IDENTITY@,
            algorithm: KeyAlgorithm::P384,
            reset_label: Seq::<char>::empty(),
            root_label: ROOT_LABEL@,
            targets_label: TARGETS_LABEL@,
        }),
{
    proof {
        reveal_strlit("");
        assert(""@ =~= Seq::<char>::empty());
    }
    Profile::new(BackendKind::UsbHsm, USB_IDENTITY, KeyAlgorithm::P384, "", ROOT_LABEL, TARGETS_LABEL)
}

/// The status of a module, which has no flags of its own to report: a
/// module that is attached is in order, one that is gone cannot be read.
pub open spec fn status_of_attached(serial: Seq<char>, attached: Seq<Seq<char>>) -> Option<
    DeviceStatus,
> {
    if attached.contains(serial) {
        Some(
            DeviceStatus {
                one_attempt_from_admin_lockout: false,
                admin_locked: false,
                one_attempt_from_user_lockout: false,
                user_locked: false,
                self_test_failed: false,
            },
        )
    } else {
        None
    }
}

/// Reads the status of the module with a serial number off the list of the
/// modules that are attached now.
pub fn attached_status(serial_number: &str, attached: &Vec<String>) -> (status: Option<DeviceStatus>)
    ensures
        status == status_of_attached(serial_number@, texts(attached@)),
{
    let mut i: usize = 0;
    while i < attached.len()
        invariant
            i <= attached.len(),
            forall|j: int| 0 <= j < i ==> texts(attached@)[j] != serial_number@,
        decreases attached.len() - i,
    {
        if same_text(attached[i].as_str(), serial_number) {
            assert(texts(attached@)[i as int] == serial_number@);
            return Some(
                DeviceStatus {
                    one_attempt_from_admin_lockout: false,
                    admin_locked: false,
                    one_attempt_from_user_lockout: false,
                    user_locked: false,
                    self_test_failed: false,
                },
            );
        }
        i += 1;
    }
    None
}

/// The bytes of one coordinate of a point on the curve of an algorithm.
pub open spec fn field_bytes(algorithm: KeyAlgorithm) -> nat {
    match algorithm {
        KeyAlgorithm::P256 => 32,
        KeyAlgorithm::P384 => 48,
        KeyAlgorithm::Ed25519 => 32,
    }
}

/// The encoding of a point that the module returned as its two coordinates:
/// the tag of an uncompressed point, 4, and then the coordinates. Anything
/// that is not two coordinates long has no encoding.
pub open spec fn uncompressed_point(raw: Seq<u8>, coordinate_bytes: nat) -> Option<Seq<u8>> {
    if raw.len() == 2 * coordinate_bytes {
        Some(seq![4u8] + raw)
    } else {
        None
    }
}

/// The content of a public key's file: for the two curves the encoded
/// point, for Ed25519 the 32 bytes as the module returned them. A key of
/// another algorithm than the one asked for has none.
pub open spec fn public_key_encoding(
    algorithm: KeyAlgorithm,
    reported: KeyAlgorithm,
    raw: Seq<u8>,
) -> Option<Seq<u8>> {
    if algorithm != reported {
        None
    } else if algorithm == KeyAlgorithm::Ed25519 {
        if raw.len() == field_bytes(algorithm) {
            Some(raw)
        } else {
            None
        }
    } else {
        uncompressed_point(raw, field_bytes(algorithm))
    }
}

/// `yubihsm::asymmetric::PublicKey::ecdsa` for the curve P-256, and
/// `as_bytes` of the point it returns. For a key of that curve's algorithm
/// it takes 64 raw bytes as the two coordinates and encodes them without
/// compression, which this curve does not ask for: the tag 4, then the
/// bytes. Any other length gives `None`.
#[verifier::external_body]
fn encode_p256(raw: &Vec<u8>) -> (encoded: Option<Vec<u8>>)
    ensures
        match uncompressed_point(raw@, 32) {
            Some(bytes) => encoded is Some && encoded->0@ == bytes,
            None => encoded is None,
        },
{
    let key = yubihsm::asymmetric::PublicKey {
        algorithm: yubihsm::asymmetric::Algorithm::EcP256,
        bytes: raw.clone(),
    };
    match key.ecdsa::<yubihsm::ecdsa::NistP256>() {
        Some(point) => Some(point.as_bytes().to_vec()),
        None => None,
    }
}

/// `yubihsm::asymmetric::PublicKey::ecdsa` for the curve P-384, and
/// `as_bytes` of the point it returns. For a key of that curve's algorithm
/// it takes 96 raw bytes as the two coordinates and encodes them without
/// compression, which this curve does not ask for: the tag 4, then the
/// bytes. Any other length gives `None`.
#[verifier::external_body]
fn encode_p384(raw: &Vec<u8>) -> (encoded: Option<Vec<u8>>)
    ensures
        match uncompressed_point(raw@, 48) {
            Some(bytes) => encoded is Some && encoded->0@ == bytes,
            None => encoded is None,
        },
{
    let key = yubihsm::asymmetric::PublicKey {
        algorithm: yubihsm::asymmetric::Algorithm::EcP384,
        bytes: raw.clone(),
    };
    match key.ecdsa::<yubihsm::ecdsa::NistP384>() {
        Some(point) => Some(point.as_bytes().to_vec()),
        None => None,
    }
}

/// The content of the file of a public key that the module returned raw.
/// `algorithm` is the one asked for, `reported` the one the module names.
pub fn public_key_file(algorithm: KeyAlgorithm, reported: KeyAlgorithm, raw: &Vec<u8>) -> (file:
    Option<Vec<u8>>)
    ensures
        match public_key_encoding(algorithm, reported, raw@) {
            Some(bytes) => file is Some && file->0@ == bytes,
            None => file is None,
        },
{
    match (algorithm, reported) {
        (KeyAlgorithm::P256, KeyAlgorithm::P256) => encode_p256(raw),
        (KeyAlgorithm::P384, KeyAlgorithm::P384) => encode_p384(raw),
        (KeyAlgorithm::Ed25519, KeyAlgorithm::Ed25519) => {
            if raw.len() == 32 {
                Some(copy_bytes(raw))
            } else {
                None
            }
        },
        _ => None,
    }
}

/// The object the device's own attestation certificate is stored as.
pub const DEVICE_CERTIFICATE_ID: u16 = 0;

/// One call to a module's driver.
pub enum UsbCall {
    /// Open a session under an authentication key, in place of the one
    /// before it.
    Connect { key_id: u16, key: Vec<u8> },
    /// Reset the module to its factory state.
    ResetDevice,
    /// Store a new authentication key.
    PutAuthenticationKey { plan: AuthKeyPlan, label: String, new_key: Vec<u8> },
    /// Delete an authentication key.
    DeleteAuthenticationKey { id: u16 },
    /// Generate a signing key.
    GenerateAsymmetricKey { key_plan: KeyPlan, label: String, algorithm: KeyAlgorithm },
    /// Read the public key of a signing key.
    GetPublicKey { id: u16 },
    /// Read an opaque object.
    GetOpaque { id: u16 },
    /// Have a key attested to by the module's own attestation key.
    SignAttestationCertificate { key_id: u16 },
}

/// A call as a value of the model.
pub enum UsbCallView {
    Connect { key_id: u16, key: Seq<u8> },
    ResetDevice,
    PutAuthenticationKey { plan: AuthKeyPlan, label: Seq<char>, new_key: Seq<u8> },
    DeleteAuthenticationKey { id: u16 },
    GenerateAsymmetricKey { key_plan: KeyPlan, label: Seq<char>, algorithm: KeyAlgorithm },
    GetPublicKey { id: u16 },
    GetOpaque { id: u16 },
    SignAttestationCertificate { key_id: u16 },
}

impl View for UsbCall {
    type V = UsbCallView;

    open spec fn view(&self) -> UsbCallView {
        match *self {
            UsbCall::Connect { key_id, key } => UsbCallView::Connect { key_id, key: key@ },
            UsbCall::ResetDevice => UsbCallView::ResetDevice,
            UsbCall::PutAuthenticationKey { plan, label, new_key } => UsbCallView::PutAuthenticationKey {
                plan,
                label: label@,
                new_key: new_key@,
            },
            UsbCall::DeleteAuthenticationKey { id } => UsbCallView::DeleteAuthenticationKey { id },
            UsbCall::GenerateAsymmetricKey { key_plan, label, algorithm } => UsbCallView::GenerateAsymmetricKey {
                key_plan,
                label: label@,
                algorithm,
            },
            UsbCall::GetPublicKey { id } => UsbCallView::GetPublicKey { id },
            UsbCall::GetOpaque { id } => UsbCallView::GetOpaque { id },
            UsbCall::SignAttestationCertificate { key_id } => UsbCallView::SignAttestationCertificate {
                key_id,
            },
        }
    }
}

/// The views of a sequence of calls.
pub open spec fn usb_calls_of(calls: Seq<UsbCall>) -> Seq<UsbCallView> {
    Seq::new(calls.len(), |i: int| calls[i]@)
}

/// The authentication key that the module's driver derives from a password.
pub uninterp spec fn derived_key(password: Seq<char>) -> Seq<u8>;

/// The calls that carry out a request on a module, in their order, where
/// `session_key` is the key of the request's credential and `new_key` that of
/// the credential a rotation brings; `None` for a request that is not made of
/// a module. Each script opens its own session first. The reset and the
/// rotation are made under the factory's key, the rotation deletes that key
/// only under the new one, and whatever follows is made under the new key.
/// `algorithm` is that of the run's keys.
pub open spec fn usb_script_under(
    action: ActionView,
    algorithm: KeyAlgorithm,
    session_key: Seq<u8>,
    new_key: Seq<u8>,
) -> Option<Seq<UsbCallView>> {
    match action {
        ActionView::Reset { .. } => Some(
            seq![
                UsbCallView::Connect { key_id: DEFAULT_AUTH_KEY_ID, key: session_key },
                UsbCallView::ResetDevice,
            ],
        ),
        ActionView::Rotate { role, .. } => match role {
            Role::Administrative => Some(
                seq![
                    UsbCallView::Connect { key_id: DEFAULT_AUTH_KEY_ID, key: session_key },
                    UsbCallView::PutAuthenticationKey {
                        plan: auth_key_plan(algorithm),
                        label: AUTH_KEY_LABEL@,
                        new_key,
                    },
                    UsbCallView::Connect { key_id: AUTH_KEY_ID, key: new_key },
                    UsbCallView::DeleteAuthenticationKey { id: DEFAULT_AUTH_KEY_ID },
                ],
            ),
            Role::User => None,
        },
        ActionView::GenerateKeypair { request, .. } => Some(
            seq![
                UsbCallView::Connect { key_id: AUTH_KEY_ID, key: session_key },
                UsbCallView::GenerateAsymmetricKey {
                    key_plan: key_plan(request.role, request.algorithm),
                    label: request.label,
                    algorithm: request.algorithm,
                },
                UsbCallView::GetPublicKey { id: key_id_of(request.role) },
            ],
        ),
        ActionView::DeviceCertificate { .. } => Some(
            seq![
                UsbCallView::Connect { key_id: AUTH_KEY_ID, key: session_key },
                UsbCallView::GetOpaque { id: DEVICE_CERTIFICATE_ID },
            ],
        ),
        ActionView::Attest { key, .. } => Some(
            seq![
                UsbCallView::Connect { key_id: AUTH_KEY_ID, key: session_key },
                UsbCallView::SignAttestationCertificate { key_id: key_id_of(key) },
            ],
        ),
        _ => None,
    }
}

/// The calls that carry out a request on a module: each credential of the
/// request is handed to the driver as the key derived from it, never as it is.
pub open spec fn usb_script(action: ActionView, algorithm: KeyAlgorithm) -> Option<Seq<UsbCallView>> {
    usb_script_under(
        action,
        algorithm,
        derived_key(authorising(action)),
        match action {
            ActionView::Rotate { replacement, .. } => derived_key(replacement),
            _ => Seq::empty(),
        },
    )
}

/// Whether a session is open when the call at a place of a script fails, so
/// that it has to be closed before the failure is reported. A call that
/// opens a session has ended the one before it, and leaves none when it fails.
pub open spec fn usb_session_is_open(script: Seq<UsbCallView>, at: int) -> bool {
    0 < at < script.len() && script[0] is Connect && !(script[at] is Connect)
}

/// For each call of a script, whether a session is open while it is made.
pub open spec fn usb_sessions(script: Seq<UsbCallView>) -> Seq<bool> {
    Seq::new(script.len(), |i: int| usb_session_is_open(script, i))
}

/// What follows the call at a place of a script: after a success the next
/// call, or the end; after a failure no call, only the report, with the
/// session closed before it where one is open.
pub open spec fn usb_step(script: Seq<UsbCallView>, at: int, succeeded: bool) -> ScriptStep {
    step_after(script.len(), at, succeeded, usb_session_is_open(script, at))
}

/// The kind of fault a failed call is, where the driver does not say that
/// the authentication failed.
pub open spec fn usb_call_kind(call: UsbCallView) -> FaultKind {
    match call {
        UsbCallView::Connect { .. } => FaultKind::Connection,
        UsbCallView::GenerateAsymmetricKey { .. } => FaultKind::KeyGen,
        UsbCallView::GetPublicKey { .. } => FaultKind::KeyGen,
        UsbCallView::GetOpaque { .. } => FaultKind::Attestation,
        UsbCallView::SignAttestationCertificate { .. } => FaultKind::Attestation,
        _ => FaultKind::Device,
    }
}

/// The name a call is reported under.
pub open spec fn usb_call_name(call: UsbCallView) -> Seq<char> {
    match call {
        UsbCallView::Connect { .. } => "unable to open a client connection with the HSM"@,
        UsbCallView::ResetDevice => "reset failed"@,
        UsbCallView::PutAuthenticationKey { .. } => "failed to insert new auth key"@,
        UsbCallView::DeleteAuthenticationKey { .. } => "failed to delete default auth key"@,
        UsbCallView::GenerateAsymmetricKey { .. } => "failed to create keypair"@,
        UsbCallView::GetPublicKey { .. } => "failed to retrieve public key"@,
        UsbCallView::GetOpaque { .. } => "couldn't get the HSM's attestation cert"@,
        UsbCallView::SignAttestationCertificate { .. } => "failed to create attestation certificate"@,
    }
}

/// The fault that a failed call is reported as: a failed authentication is a
/// fault of authentication whatever the call, and the cause follows the name
/// of the call as it was given.
pub open spec fn usb_fault_of(call: UsbCallView, authentication_failed: bool, cause: Seq<char>) -> FaultView {
    FaultView {
        kind: if authentication_failed {
            FaultKind::Auth
        } else {
            usb_call_kind(call)
        },
        cause: labelled(usb_call_name(call), cause),
    }
}

/// `yubihsm::authentication::Key::derive_from_password` on the bytes of the
/// password, and the 32 secret bytes of the key it returns. The derivation
/// depends on the password alone.
#[verifier::external_body]
fn derive_key(password: &str) -> (key: Vec<u8>)
    ensures
        key@ == derived_key(password@),
{
    yubihsm::authentication::Key::derive_from_password(password.as_bytes()).as_secret_slice().to_vec()
}

/// The calls that carry out a request on a module, under given keys.
pub fn usb_calls_under(
    action: &Action,
    algorithm: KeyAlgorithm,
    session_key: Vec<u8>,
    new_key: Vec<u8>,
) -> (script: Option<Vec<UsbCall>>)
    ensures
        match usb_script_under(action@, algorithm, session_key@, new_key@) {
            Some(calls) => script is Some && usb_calls_of(script->0@) == calls,
            None => script is None,
        },
{
    let mut calls: Vec<UsbCall> = Vec::new();
    match action {
        Action::Reset { .. } => {
            calls.push(UsbCall::Connect { key_id: DEFAULT_AUTH_KEY_ID, key: session_key });
            calls.push(UsbCall::ResetDevice);
        },
        Action::Rotate { role, .. } => {
            match role {
                Role::Administrative => {
                    calls.push(UsbCall::Connect { key_id: DEFAULT_AUTH_KEY_ID, key: session_key });
                    calls.push(
                        UsbCall::PutAuthenticationKey {
                            plan: replacement_auth_key(algorithm),
                            label: String::from_str(AUTH_KEY_LABEL),
                            new_key: copy_bytes(&new_key),
                        },
                    );
                    calls.push(UsbCall::Connect { key_id: AUTH_KEY_ID, key: new_key });
                    calls.push(UsbCall::DeleteAuthenticationKey { id: DEFAULT_AUTH_KEY_ID });
                },
                Role::User => {
                    return None;
                },
            }
        },
        Action::GenerateKeypair { request, .. } => {
            let key_plan = signing_key(request.role(), request.algorithm());
            calls.push(UsbCall::Connect { key_id: AUTH_KEY_ID, key: session_key });
            calls.push(
                UsbCall::GenerateAsymmetricKey {
                    key_plan,
                    label: String::from_str(request.label()),
                    algorithm: request.algorithm(),
                },
            );
            calls.push(UsbCall::GetPublicKey { id: key_plan.id });
        },
        Action::DeviceCertificate { .. } => {
            calls.push(UsbCall::Connect { key_id: AUTH_KEY_ID, key: session_key });
            calls.push(UsbCall::GetOpaque { id: DEVICE_CERTIFICATE_ID });
        },
        Action::Attest { key, .. } => {
            let plan = signing_key(*key, algorithm);
            calls.push(UsbCall::Connect { key_id: AUTH_KEY_ID, key: session_key });
            calls.push(UsbCall::SignAttestationCertificate { key_id: plan.id });
        },
        _ => {
            return None;
        },
    }
    assert(usb_calls_of(calls@) =~= usb_script_under(action@, algorithm, session_key@, new_key@)->0);
    Some(calls)
}

/// The calls that carry out a request on a module. The keys are derived
/// from the credentials of the request.
pub fn usb_calls(action: &Action, algorithm: KeyAlgorithm) -> (script: Option<Vec<UsbCall>>)
    ensures
        match usb_script(action@, algorithm) {
            Some(calls) => script is Some && usb_calls_of(script->0@) == calls,
            None => script is None,
        },
{
    match action {
        Action::Reset { credential, .. } => usb_calls_under(
            action,
            algorithm,
            derive_key(credential.expose()),
            Vec::new(),
        ),
        Action::Rotate { current, replacement, .. } => usb_calls_under(
            action,
            algorithm,
            derive_key(current.expose()),
            derive_key(replacement.expose()),
        ),
        Action::GenerateKeypair { credential, .. } => usb_calls_under(
            action,
            algorithm,
            derive_key(credential.expose()),
            Vec::new(),
        ),
        Action::DeviceCertificate { credential } => usb_calls_under(
            action,
            algorithm,
            derive_key(credential.expose()),
            Vec::new(),
        ),
        Action::Attest { credential, .. } => usb_calls_under(
            action,
            algorithm,
            derive_key(credential.expose()),
            Vec::new(),
        ),
        _ => None,
    }
}

/// What to do after the call at a place of a script succeeded or failed.
pub fn after_usb_call(script: &Vec<UsbCall>, at: usize, succeeded: bool) -> (next: ScriptStep)
    requires
        at < script.len(),
    ensures
        next == usb_step(usb_calls_of(script@), at as int, succeeded),
{
    let connected = match &script[0] {
        UsbCall::Connect { .. } => true,
        _ => false,
    };
    let connecting = match &script[at] {
        UsbCall::Connect { .. } => true,
        _ => false,
    };
    after_call(script.len(), at, succeeded, at > 0 && connected && !connecting)
}

impl UsbCall {
    /// The name the call is reported under.
    pub fn name(&self) -> (name: &'static str)
        ensures
            name@ == usb_call_name(self@),
    {
        match self {
            UsbCall::Connect { .. } => "unable to open a client connection with the HSM",
            UsbCall::ResetDevice => "reset failed",
            UsbCall::PutAuthenticationKey { .. } => "failed to insert new auth key",
            UsbCall::DeleteAuthenticationKey { .. } => "failed to delete default auth key",
            UsbCall::GenerateAsymmetricKey { .. } => "failed to create keypair",
            UsbCall::GetPublicKey { .. } => "failed to retrieve public key",
            UsbCall::GetOpaque { .. } => "couldn't get the HSM's attestation cert",
            UsbCall::SignAttestationCertificate { .. } => "failed to create attestation certificate",
        }
    }

    /// The kind of fault the call is when it fails.
    pub fn kind(&self) -> (kind: FaultKind)
        ensures
            kind == usb_call_kind(self@),
    {
        match self {
            UsbCall::Connect { .. } => FaultKind::Connection,
            UsbCall::GenerateAsymmetricKey { .. } => FaultKind::KeyGen,
            UsbCall::GetPublicKey { .. } => FaultKind::KeyGen,
            UsbCall::GetOpaque { .. } => FaultKind::Attestation,
            UsbCall::SignAttestationCertificate { .. } => FaultKind::Attestation,
            _ => FaultKind::Device,
        }
    }
}

/// The fault that a failed call is reported as.
pub fn usb_fault(call: &UsbCall, authentication_failed: bool, cause: &str) -> (fault: Fault)
    ensures
        fault@ == usb_fault_of(call@, authentication_failed, cause@),
{
    Fault {
        kind: if authentication_failed {
            FaultKind::Auth
        } else {
            call.kind()
        },
        cause: label_text(call.name(), cause),
    }
}

/// Every script opens a session first and nothing else before it, and the
/// factory's key is deleted only in a session under the new key.
pub proof fn law_usb_script_connects_first(action: ActionView, algorithm: KeyAlgorithm, i: int)
    requires
        usb_script(action, algorithm) is Some,
        0 <= i < usb_script(action, algorithm)->0.len(),
    ensures
        ({
            let script = usb_script(action, algorithm)->0;
            &&& script[i] is Connect ==> script[i]->Connect_key == derived_key(authorising(action))
                || (action is Rotate && script[i]->Connect_key == derived_key(
                action->Rotate_replacement,
            ))
            &&& script[0] is Connect
            &&& script[i] is DeleteAuthenticationKey ==> i >= 1 && script[i - 1] is Connect
                && script[i - 1]->Connect_key_id == AUTH_KEY_ID
            &&& script[i] is ResetDevice ==> action is Reset
        }),
{
}

/// However the calls of a request's script turn out, the factory's key is
/// deleted at most once, and only after every call before it succeeded: the
/// new key was stored, and a session was opened under it. Where the store
/// or that session fails, no call follows, and the factory's key stays.
pub proof fn law_factory_key_outlives_failure(
    action: ActionView,
    algorithm: KeyAlgorithm,
    session_key: Seq<u8>,
    new_key: Seq<u8>,
    results: Seq<bool>,
    n: nat,
)
    requires
        usb_script_under(action, algorithm, session_key, new_key) is Some,
        results.len() == usb_script_under(action, algorithm, session_key, new_key)->0.len(),
        position(
            usb_sessions(usb_script_under(action, algorithm, session_key, new_key)->0),
            results,
            n,
        ) matches ScriptStep::Call(at) && usb_script_under(
            action,
            algorithm,
            session_key,
            new_key,
        )->0[at as int] is DeleteAuthenticationKey,
    ensures
        ({
            let script = usb_script_under(action, algorithm, session_key, new_key)->0;
            &&& n == 3
            &&& forall|j: int| 0 <= j < 3 ==> results[j]
            &&& script[1] == (UsbCallView::PutAuthenticationKey {
                plan: auth_key_plan(algorithm),
                label: AUTH_KEY_LABEL@,
                new_key,
            })
            &&& script[2] == (UsbCallView::Connect { key_id: AUTH_KEY_ID, key: new_key })
            &&& forall|m: nat|
                m != n ==> !(#[trigger] position(usb_sessions(script), results, m) matches ScriptStep::Call(
                    other,
                ) && script[other as int] is DeleteAuthenticationKey)
        }),
{
    let script = usb_script_under(action, algorithm, session_key, new_key)->0;
    let open_at = usb_sessions(script);
    law_call_follows_successes(open_at, results, n);
    assert forall|m: nat| m != n implies !(#[trigger] position(open_at, results, m) matches ScriptStep::Call(
        other,
    ) && script[other as int] is DeleteAuthenticationKey) by {
        law_call_follows_successes(open_at, results, m);
    }
}

/// Where a call of a request's script fails, no call after it is made: the
/// failure is reported right away, with the session closed first where one
/// is open.
pub proof fn law_usb_failure_ends_the_script(
    action: ActionView,
    algorithm: KeyAlgorithm,
    session_key: Seq<u8>,
    new_key: Seq<u8>,
    results: Seq<bool>,
    failed: int,
    n: nat,
)
    requires
        usb_script_under(action, algorithm, session_key, new_key) is Some,
        results.len() == usb_script_under(action, algorithm, session_key, new_key)->0.len(),
        0 <= failed < results.len(),
        !results[failed],
        forall|j: int| 0 <= j < failed ==> results[j],
        n > failed,
    ensures
        position(
            usb_sessions(usb_script_under(action, algorithm, session_key, new_key)->0),
            results,
            n,
        ) == usb_step(usb_script_under(action, algorithm, session_key, new_key)->0, failed, false),
{
    let script = usb_script_under(action, algorithm, session_key, new_key)->0;
    law_failure_is_reported(usb_sessions(script), results, failed, n);
}

/// The new authentication key may do whatever a signing key of the same
/// algorithm is created with, and may hand that capability on to it.
pub proof fn law_auth_key_covers_signing_key(algorithm: KeyAlgorithm)
    ensures
        auth_key_capabilities(algorithm) & GENERATE_ASYMMETRIC_KEY != 0,
        auth_key_capabilities(algorithm) & signing_capability(algorithm) == signing_capability(
            algorithm,
        ),
        auth_key_capabilities(algorithm) & DELETE_AUTHENTICATION_KEY != 0,
        auth_key_capabilities(algorithm) & SIGN_ATTESTATION_CERTIFICATE != 0,
        auth_key_capabilities(algorithm) & GET_OPAQUE != 0,
{
    let sign = signing_capability(algorithm);
    assert(sign == 0x80u64 || sign == 0x100u64);
    assert((sign == 0x80u64 || sign == 0x100u64) ==> ({
        let caps = 0x1u64 | 0x10u64 | sign | 0x4_0000_0000u64 | 0x100_0000_0000u64;
        &&& caps & 0x10u64 != 0
        &&& caps & sign == sign
        &&& caps & 0x100_0000_0000u64 != 0
        &&& caps & 0x4_0000_0000u64 != 0
        &&& caps & 0x1u64 != 0
    })) by (bit_vector);
}

} // verus!
