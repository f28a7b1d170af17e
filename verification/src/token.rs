//! The smartcard-style token: the flags it reports, and the profile of the
//! token this library provisions.

use crate::device::{is_deadly, DeviceStatus};
use crate::error::{Fault, FaultKind, FaultView};
use crate::keys::KeyAlgorithm;
use crate::model::ActionView;
use crate::profile::{BackendKind, Profile, ProfileView};
use crate::script::{after_call, law_failure_is_reported, position, step_after, ScriptStep};
use crate::secret::{Credential, Role};
use crate::text::{label_text, labelled};
use crate::workflow::Action;
use vstd::prelude::*;
use vstd::string::StringExecFns;

verus! {

/// The token flag that says the next failed user login locks the user PIN.
pub const USER_PIN_FINAL_TRY: u64 = 0x0002_0000;

/// The token flag that says the user PIN is locked.
pub const USER_PIN_LOCKED: u64 = 0x0004_0000;

/// The token flag that says the next failed login locks the administrative PIN.
pub const SO_PIN_FINAL_TRY: u64 = 0x0020_0000;

/// The token flag that says the administrative PIN is locked.
pub const SO_PIN_LOCKED: u64 = 0x0040_0000;

/// The token flag that says the token failed its self-test.
pub const ERROR_STATE: u64 = 0x0100_0000;

/// The manufacturer a token has to declare.
pub const TOKEN_IDENTITY: &'static str = "Nitrokey";

/// The label a token is given at its reset.
pub const TOKEN_RESET_LABEL: &'static str = "Nitrokey HSM - TUF";

/// The label of the root key on a token.
pub const TOKEN_ROOT_LABEL: &'static str = "tuf-root";

/// The label of the targets key on a token.
pub const TOKEN_TARGETS_LABEL: &'static str = "tuf-targets";

/// Whether a flag is set in a token's flags.
pub open spec fn has_flag(flags: u64, flag: u64) -> bool {
    flags & flag != 0
}

/// The status that a token's flags report.
pub open spec fn status_of_flags(flags: u64) -> DeviceStatus {
    DeviceStatus {
        one_attempt_from_admin_lockout: has_flag(flags, SO_PIN_FINAL_TRY),
        admin_locked: has_flag(flags, SO_PIN_LOCKED),
        one_attempt_from_user_lockout: has_flag(flags, USER_PIN_FINAL_TRY),
        user_locked: has_flag(flags, USER_PIN_LOCKED),
        self_test_failed: has_flag(flags, ERROR_STATE),
    }
}

/// Reads the status out of a token's flags.
pub fn status_from_flags(flags: u64) -> (status: DeviceStatus)
    ensures
        status == status_of_flags(flags),
{
    DeviceStatus {
        one_attempt_from_admin_lockout: flags & SO_PIN_FINAL_TRY != 0,
        admin_locked: flags & SO_PIN_LOCKED != 0,
        one_attempt_from_user_lockout: flags & USER_PIN_FINAL_TRY != 0,
        user_locked: flags & USER_PIN_LOCKED != 0,
        self_test_failed: flags & ERROR_STATE != 0,
    }
}

/// Whether a token is one failed login from locking a PIN, has locked one,
/// or failed its self-test.
pub fn token_in_deadly_state(flags: u64) -> (deadly: bool)
    ensures
        deadly == is_deadly(status_of_flags(flags)),
{
    let mask: u64 = USER_PIN_FINAL_TRY | USER_PIN_LOCKED | SO_PIN_FINAL_TRY | SO_PIN_LOCKED
        | ERROR_STATE;
    assert((flags & (0x0002_0000u64 | 0x0004_0000u64 | 0x0020_0000u64 | 0x0040_0000u64
        | 0x0100_0000u64) >= 1) == (flags & 0x0020_0000u64 != 0 || flags & 0x0040_0000u64 != 0
        || flags & 0x0002_0000u64 != 0 || flags & 0x0004_0000u64 != 0 || flags & 0x0100_0000u64
        != 0)) by (bit_vector);
    (flags & mask) >= 1
}

/// The profile of the token: two PINs, no attestation, no wait after the reset.
pub fn nitrokey_profile(algorithm: KeyAlgorithm) -> (profile: Profile)
    ensures
        profile@ == (ProfileView {
            kind: BackendKind::Token,
            identity: TOKEN_IDENTITY@,
            algorithm,
            reset_label: TOKEN_RESET_LABEL@,
            root_label: TOKEN_ROOT_LABEL@,
            targets_label: TOKEN_TARGETS_LABEL@,
        }),
{
    Profile::new(
        BackendKind::Token,
        TOKEN_IDENTITY,
        algorithm,
        TOKEN_RESET_LABEL,
        TOKEN_ROOT_LABEL,
        TOKEN_TARGETS_LABEL,
    )
}

/// Who logs in to a token.
#[derive(Clone, Copy, Debug, PartialEq, Eq, Structural)]
pub enum TokenUser {
    SecurityOfficer,
    User,
}

/// One call to a token's driver.
pub enum TokenCall {
    /// Initialise the token anew under the administrative PIN.
    InitToken { pin: Credential, label: String },
    /// Open a session that may write.
    OpenSession,
    /// Log in to the session.
    Login { user: TokenUser, pin: Credential },
    /// Replace the PIN of the user who is logged in.
    SetPin { old: Credential, new: Credential },
    /// Set the user PIN, as the security officer.
    InitPin { pin: Credential },
    /// Log out of the session.
    Logout,
    /// Generate a keypair on a curve. The private key stays on the token.
    GenerateKeyPair { curve: Vec<u8>, label: String },
    /// Read the public point of the keypair just generated.
    ReadPublicKey,
    /// Close the session.
    CloseSession,
}

/// A call as a value of the model.
pub enum TokenCallView {
    InitToken { pin: Seq<char>, label: Seq<char> },
    OpenSession,
    Login { user: TokenUser, pin: Seq<char> },
    SetPin { old: Seq<char>, new: Seq<char> },
    InitPin { pin: Seq<char> },
    Logout,
    GenerateKeyPair { curve: Seq<u8>, label: Seq<char> },
    ReadPublicKey,
    CloseSession,
}

impl View for TokenCall {
    type V = TokenCallView;

    open spec fn view(&self) -> TokenCallView {
        match *self {
            TokenCall::InitToken { pin, label } => TokenCallView::InitToken {
                pin: pin@,
                label: label@,
            },
            TokenCall::OpenSession => TokenCallView::OpenSession,
            TokenCall::Login { user, pin } => TokenCallView::Login { user, pin: pin@ },
            TokenCall::SetPin { old, new } => TokenCallView::SetPin { old: old@, new: new@ },
            TokenCall::InitPin { pin } => TokenCallView::InitPin { pin: pin@ },
            TokenCall::Logout => TokenCallView::Logout,
            TokenCall::GenerateKeyPair { curve, label } => TokenCallView::GenerateKeyPair {
                curve: curve@,
                label: label@,
            },
            TokenCall::ReadPublicKey => TokenCallView::ReadPublicKey,
            TokenCall::CloseSession => TokenCallView::CloseSession,
        }
    }
}

/// The views of a sequence of calls.
pub open spec fn token_calls_of(calls: Seq<TokenCall>) -> Seq<TokenCallView> {
    Seq::new(calls.len(), |i: int| calls[i]@)
}

/// The curve of an algorithm as the driver wants it: the encoded object
/// identifier of the named curve. A token has no curve for Ed25519.
pub open spec fn curve_of(algorithm: KeyAlgorithm) -> Option<Seq<u8>> {
    match algorithm {
        KeyAlgorithm::P256 => Some(seq![0x06u8, 0x08, 0x2a, 0x86, 0x48, 0xce, 0x3d, 0x03, 0x01, 0x07]),
        KeyAlgorithm::P384 => Some(seq![0x06u8, 0x05, 0x2b, 0x81, 0x04, 0x00, 0x22]),
        KeyAlgorithm::Ed25519 => None,
    }
}

/// The calls that carry out a request on a token, in their order; `None` for
/// a request that is not made of a token. A script that opens a session
/// closes it with its last call.
pub open spec fn token_script(action: ActionView) -> Option<Seq<TokenCallView>> {
    match action {
        ActionView::Reset { credential, label } => Some(
            seq![TokenCallView::InitToken { pin: credential, label }],
        ),
        ActionView::Rotate { role, current, replacement } => Some(
            match role {
                Role::Administrative => seq![
                    TokenCallView::OpenSession,
                    TokenCallView::Login { user: TokenUser::SecurityOfficer, pin: current },
                    TokenCallView::SetPin { old: current, new: replacement },
                    TokenCallView::Logout,
                    TokenCallView::CloseSession,
                ],
                Role::User => seq![
                    TokenCallView::OpenSession,
                    TokenCallView::Login { user: TokenUser::SecurityOfficer, pin: current },
                    TokenCallView::InitPin { pin: replacement },
                    TokenCallView::CloseSession,
                ],
            },
        ),
        ActionView::GenerateKeypair { request, credential } => match curve_of(request.algorithm) {
            Some(curve) => Some(
                seq![
                    TokenCallView::OpenSession,
                    TokenCallView::Login { user: TokenUser::User, pin: credential },
                    TokenCallView::GenerateKeyPair { curve, label: request.label },
                    TokenCallView::ReadPublicKey,
                    TokenCallView::Logout,
                    TokenCallView::CloseSession,
                ],
            ),
            None => None,
        },
        _ => None,
    }
}

/// Whether the session of a script is open when the call at a place fails,
/// so that it has to be closed before the failure is reported.
pub open spec fn session_is_open(script: Seq<TokenCallView>, failed_at: int) -> bool {
    0 < failed_at < script.len() && script[0] is OpenSession && !(script[failed_at] is CloseSession)
}

/// For each call of a script, whether the session is open while it is made.
pub open spec fn token_sessions(script: Seq<TokenCallView>) -> Seq<bool> {
    Seq::new(script.len(), |i: int| session_is_open(script, i))
}

/// What follows the call at a place of a script: after a success the next
/// call, or the end; after a failure no call, only the report, with the
/// session closed before it where the script has opened one.
pub open spec fn token_step(script: Seq<TokenCallView>, at: int, succeeded: bool) -> ScriptStep {
    step_after(script.len(), at, succeeded, session_is_open(script, at))
}

/// A return value of the driver that speaks of a PIN or of a login.
pub open spec fn is_pin_fault(code: u64) -> bool {
    (0xa0 <= code <= 0xa4) || code == 0x101 || code == 0x102 || code == 0x1b8
}

/// The kind of fault a failed call is, where the driver's return value does
/// not say more.
pub open spec fn token_call_kind(call: TokenCallView) -> FaultKind {
    match call {
        TokenCallView::OpenSession => FaultKind::Connection,
        TokenCallView::Login { .. } => FaultKind::Auth,
        TokenCallView::GenerateKeyPair { .. } => FaultKind::KeyGen,
        TokenCallView::ReadPublicKey => FaultKind::KeyGen,
        TokenCallView::Logout => FaultKind::Communication,
        TokenCallView::CloseSession => FaultKind::Communication,
        _ => FaultKind::Device,
    }
}

/// The name a call is reported under.
pub open spec fn token_call_name(call: TokenCallView) -> Seq<char> {
    match call {
        TokenCallView::InitToken { .. } => "failed to (re)initialize HSM"@,
        TokenCallView::OpenSession => "failed to open session with HSM"@,
        TokenCallView::Login { user, .. } => match user {
            TokenUser::SecurityOfficer => "failed to login as Security Officer"@,
            TokenUser::User => "failed to login as user"@,
        },
        TokenCallView::SetPin { .. } => "failed to set new SO PIN"@,
        TokenCallView::InitPin { .. } => "failed to set new user PIN"@,
        TokenCallView::Logout => "failed to logout"@,
        TokenCallView::GenerateKeyPair { .. } => "failed to create keypair"@,
        TokenCallView::ReadPublicKey => "failed to retrieve public key"@,
        TokenCallView::CloseSession => "failed to close session"@,
    }
}

/// The fault that a failed call is reported as: a return value that speaks
/// of a PIN makes it a fault of authentication, and the cause follows the
/// name of the call as it was given.
pub open spec fn token_fault_of(call: TokenCallView, code: Option<u64>, cause: Seq<char>) -> FaultView {
    FaultView {
        kind: if code is Some && is_pin_fault(code->0) {
            FaultKind::Auth
        } else {
            token_call_kind(call)
        },
        cause: labelled(token_call_name(call), cause),
    }
}

/// The curve of an algorithm as the driver wants it.
pub fn curve_parameters(algorithm: KeyAlgorithm) -> (curve: Option<Vec<u8>>)
    ensures
        match curve_of(algorithm) {
            Some(bytes) => curve is Some && curve->0@ == bytes,
            None => curve is None,
        },
{
    match algorithm {
        KeyAlgorithm::P256 => {
            let curve: Vec<u8> = vec![0x06u8, 0x08, 0x2a, 0x86, 0x48, 0xce, 0x3d, 0x03, 0x01, 0x07];
            assert(curve@ =~= seq![0x06u8, 0x08, 0x2a, 0x86, 0x48, 0xce, 0x3d, 0x03, 0x01, 0x07]);
            Some(curve)
        },
        KeyAlgorithm::P384 => {
            let curve: Vec<u8> = vec![0x06u8, 0x05, 0x2b, 0x81, 0x04, 0x00, 0x22];
            assert(curve@ =~= seq![0x06u8, 0x05, 0x2b, 0x81, 0x04, 0x00, 0x22]);
            Some(curve)
        },
        KeyAlgorithm::Ed25519 => None,
    }
}

/// The calls that carry out a request on a token.
pub fn token_calls(action: &Action) -> (script: Option<Vec<TokenCall>>)
    ensures
        match token_script(action@) {
            Some(calls) => script is Some && token_calls_of(script->0@) == calls,
            None => script is None,
        },
{
    match action {
        Action::Reset { credential, label } => {
            let mut calls: Vec<TokenCall> = Vec::new();
            calls.push(TokenCall::InitToken { pin: credential.duplicate(), label: label.clone() });
            assert(token_calls_of(calls@) =~= token_script(action@)->0);
            Some(calls)
        },
        Action::Rotate { role, current, replacement } => {
            let mut calls: Vec<TokenCall> = Vec::new();
            calls.push(TokenCall::OpenSession);
            calls.push(TokenCall::Login { user: TokenUser::SecurityOfficer, pin: current.duplicate() });
            match role {
                Role::Administrative => {
                    calls.push(
                        TokenCall::SetPin { old: current.duplicate(), new: replacement.duplicate() },
                    );
                    calls.push(TokenCall::Logout);
                },
                Role::User => {
                    calls.push(TokenCall::InitPin { pin: replacement.duplicate() });
                },
            }
            calls.push(TokenCall::CloseSession);
            assert(token_calls_of(calls@) =~= token_script(action@)->0);
            Some(calls)
        },
        Action::GenerateKeypair { request, credential } => {
            match curve_parameters(request.algorithm()) {
                Some(curve) => {
                    let mut calls: Vec<TokenCall> = Vec::new();
                    calls.push(TokenCall::OpenSession);
                    calls.push(TokenCall::Login { user: TokenUser::User, pin: credential.duplicate() });
                    calls.push(
                        TokenCall::GenerateKeyPair { curve, label: String::from_str(request.label()) },
                    );
                    calls.push(TokenCall::ReadPublicKey);
                    calls.push(TokenCall::Logout);
                    calls.push(TokenCall::CloseSession);
                    assert(token_calls_of(calls@) =~= token_script(action@)->0);
                    Some(calls)
                },
                None => None,
            }
        },
        _ => None,
    }
}

/// Whether the session has to be closed after the call at a place failed.
pub fn must_close_session(script: &Vec<TokenCall>, failed_at: usize) -> (close: bool)
    ensures
        close == session_is_open(token_calls_of(script@), failed_at as int),
{
    if failed_at == 0 || failed_at >= script.len() {
        return false;
    }
    let opened = match &script[0] {
        TokenCall::OpenSession => true,
        _ => false,
    };
    let closing = match &script[failed_at] {
        TokenCall::CloseSession => true,
        _ => false,
    };
    opened && !closing
}

/// What to do after the call at a place of a script succeeded or failed.
pub fn after_token_call(script: &Vec<TokenCall>, at: usize, succeeded: bool) -> (next: ScriptStep)
    requires
        at < script.len(),
    ensures
        next == token_step(token_calls_of(script@), at as int, succeeded),
{
    after_call(script.len(), at, succeeded, must_close_session(script, at))
}

impl TokenCall {
    /// The name the call is reported under.
    pub fn name(&self) -> (name: &'static str)
        ensures
            name@ == token_call_name(self@),
    {
        match self {
            TokenCall::InitToken { .. } => "failed to (re)initialize HSM",
            TokenCall::OpenSession => "failed to open session with HSM",
            TokenCall::Login { user, .. } => match user {
                TokenUser::SecurityOfficer => "failed to login as Security Officer",
                TokenUser::User => "failed to login as user",
            },
            TokenCall::SetPin { .. } => "failed to set new SO PIN",
            TokenCall::InitPin { .. } => "failed to set new user PIN",
            TokenCall::Logout => "failed to logout",
            TokenCall::GenerateKeyPair { .. } => "failed to create keypair",
            TokenCall::ReadPublicKey => "failed to retrieve public key",
            TokenCall::CloseSession => "failed to close session",
        }
    }

    /// The kind of fault the call is when it fails.
    pub fn kind(&self) -> (kind: FaultKind)
        ensures
            kind == token_call_kind(self@),
    {
        match self {
            TokenCall::OpenSession => FaultKind::Connection,
            TokenCall::Login { .. } => FaultKind::Auth,
            TokenCall::GenerateKeyPair { .. } => FaultKind::KeyGen,
            TokenCall::ReadPublicKey => FaultKind::KeyGen,
            TokenCall::Logout => FaultKind::Communication,
            TokenCall::CloseSession => FaultKind::Communication,
            _ => FaultKind::Device,
        }
    }
}

/// The fault that a failed call is reported as. `code` is the driver's
/// return value where it gave one.
pub fn token_fault(call: &TokenCall, code: Option<u64>, cause: &str) -> (fault: Fault)
    ensures
        fault@ == token_fault_of(call@, code, cause@),
{
    let about_pin = match code {
        Some(rv) => (0xa0 <= rv && rv <= 0xa4) || rv == 0x101 || rv == 0x102 || rv == 0x1b8,
        None => false,
    };
    Fault {
        kind: if about_pin {
            FaultKind::Auth
        } else {
            call.kind()
        },
        cause: label_text(call.name(), cause),
    }
}

/// A script opens at most one session: with its first call, and then it
/// logs in next and closes the session with its last call.
pub proof fn law_token_script_brackets_its_session(action: ActionView, i: int)
    requires
        token_script(action) is Some,
        0 <= i < token_script(action)->0.len(),
    ensures
        ({
            let script = token_script(action)->0;
            &&& script[i] is OpenSession ==> i == 0 && script[1] is Login && script.last() is CloseSession
            &&& script[i] is CloseSession ==> i == script.len() - 1 && script[0] is OpenSession
            &&& !(script[i] is InitToken || script[i] is OpenSession) ==> script[0] is OpenSession
        }),
{
}

/// Where a call of a request's script fails, every call before it was made
/// and no call after it is: the failure is reported right away, and where it
/// came inside the session the script had opened, the session is closed
/// first. So no script leaves a session open.
pub proof fn law_token_failure_closes_the_session(
    action: ActionView,
    results: Seq<bool>,
    failed: int,
    n: nat,
)
    requires
        token_script(action) is Some,
        results.len() == token_script(action)->0.len(),
        0 <= failed < results.len(),
        !results[failed],
        forall|j: int| 0 <= j < failed ==> results[j],
        n > failed,
    ensures
        ({
            let script = token_script(action)->0;
            let now = position(token_sessions(script), results, n);
            &&& now == token_step(script, failed, false)
            &&& now == ScriptStep::CloseThenReport <==> script[0] is OpenSession && failed > 0
                && !(script[failed] is CloseSession)
            &&& now == ScriptStep::Report <==> !(script[0] is OpenSession) || failed == 0
                || script[failed] is CloseSession
        }),
{
    let script = token_script(action)->0;
    law_failure_is_reported(token_sessions(script), results, failed, n);
}

} // verus!
