//! Runs of the machine: the states a sequence of events leads through, the
//! requests made on the way, and what stays as it is along a run.

use crate::model::{
    advance, initial, is_mutation, write_of, ActionView, EventView, MachineView, Step,
};
use crate::output::{assembled, suffixes_of, Suffix};
use crate::profile::{attests, has_user_role, settle_seconds, suffixes, ProfileView};
use crate::secret::{admitted, Role};
use vstd::prelude::*;

verus! {

/// The place of a step in the order of a run.
pub open spec fn step_rank(step: Step) -> nat {
    match step {
        Step::Banner => 0,
        Step::Discovery => 1,
        Step::Opening => 2,
        Step::OutputCheck => 3,
        Step::FirstStatus => 4,
        Step::ResetConsent => 5,
        Step::ResetStatus => 6,
        Step::Reset => 7,
        Step::Settling => 8,
        Step::AdminSecret => 9,
        Step::AdminRetype => 10,
        Step::AdminStatus => 11,
        Step::AdminRotation => 12,
        Step::UserSecret => 13,
        Step::UserRetype => 14,
        Step::UserStatus => 15,
        Step::UserRotation => 16,
        Step::OperationalSecret => 17,
        Step::RootStatus => 18,
        Step::RootKey => 19,
        Step::TargetsStatus => 20,
        Step::TargetsKey => 21,
        Step::DeviceCertificate => 22,
        Step::RootAttestation => 23,
        Step::TargetsAttestation => 24,
        Step::Writing => 25,
        Step::Finished => 26,
    }
}

/// The state of a run that began in `s` after it was handed the events one
/// after the other.
pub open spec fn state_after(s: MachineView, events: Seq<EventView>) -> MachineView
    decreases events.len(),
{
    if events.len() == 0 {
        s
    } else {
        advance(state_after(s, events.drop_last()), events.last()).0
    }
}

/// The state of a run just before its event number `k`.
pub open spec fn state_before(s: MachineView, events: Seq<EventView>, k: int) -> MachineView {
    state_after(s, events.take(k))
}

/// The request a run makes in answer to its event number `k`.
pub open spec fn request_at(s: MachineView, events: Seq<EventView>, k: int) -> ActionView {
    advance(state_before(s, events, k), events[k]).1
}

/// No event of the run is answered with a request that changes the device.
pub open spec fn device_untouched(s: MachineView, events: Seq<EventView>) -> bool {
    forall|j: int| 0 <= j < events.len() ==> !is_mutation(#[trigger] request_at(s, events, j))
}

/// The state before an event, moved on by that event, is the state before
/// the next one.
pub proof fn lemma_state_unfolds(s: MachineView, events: Seq<EventView>, k: int)
    requires
        0 <= k < events.len(),
    ensures
        state_before(s, events, k + 1) == advance(state_before(s, events, k), events[k]).0,
{
    let prefix = events.take(k + 1);
    assert(prefix.drop_last() =~= events.take(k));
    assert(prefix.last() == events[k]);
}

/// Before its first event a run is in the state it began in.
pub proof fn lemma_run_starts(s: MachineView, events: Seq<EventView>)
    ensures
        state_before(s, events, 0) == s,
{
    assert(events.take(0) =~= Seq::<EventView>::empty());
}

/// A move never goes back to an earlier step.
pub proof fn lemma_move_goes_forward(s: MachineView, e: EventView)
    ensures
        step_rank(advance(s, e).0.step) >= step_rank(s.step),
{
}

/// Along a run the steps only go forward.
pub proof fn lemma_run_goes_forward(s: MachineView, events: Seq<EventView>, a: int, b: int)
    requires
        0 <= a <= b <= events.len(),
    ensures
        step_rank(state_before(s, events, a).step) <= step_rank(state_before(s, events, b).step),
    decreases b - a,
{
    if a < b {
        lemma_run_goes_forward(s, events, a, b - 1);
        lemma_state_unfolds(s, events, b - 1);
        lemma_move_goes_forward(state_before(s, events, b - 1), events[b - 1]);
    }
}

/// Once a run is over it is over at every later event.
pub proof fn lemma_run_stays_finished(s: MachineView, events: Seq<EventView>, a: int, b: int)
    requires
        0 <= a <= b <= events.len(),
        state_before(s, events, a).step == Step::Finished,
    ensures
        state_before(s, events, b) == state_before(s, events, a),
    decreases b - a,
{
    if a < b {
        lemma_run_stays_finished(s, events, a, b - 1);
        lemma_state_unfolds(s, events, b - 1);
    }
}

/// A move leaves the profile as it is, and the device too once it is picked.
pub proof fn lemma_move_keeps_profile_and_device(s: MachineView, e: EventView)
    ensures
        advance(s, e).0.profile == s.profile,
        s.step != Step::Discovery ==> advance(s, e).0.device == s.device,
{
}

/// Along a run the profile stays, and the device too once it is picked.
pub proof fn lemma_run_keeps_profile_and_device(
    s: MachineView,
    events: Seq<EventView>,
    a: int,
    b: int,
)
    requires
        0 <= a <= b <= events.len(),
    ensures
        state_before(s, events, b).profile == state_before(s, events, a).profile,
        step_rank(state_before(s, events, a).step) > step_rank(Step::Discovery) ==> state_before(
            s,
            events,
            b,
        ).device == state_before(s, events, a).device,
    decreases b - a,
{
    if a < b {
        lemma_run_keeps_profile_and_device(s, events, a, b - 1);
        lemma_run_goes_forward(s, events, a, b - 1);
        lemma_state_unfolds(s, events, b - 1);
        lemma_move_keeps_profile_and_device(state_before(s, events, b - 1), events[b - 1]);
    }
}

/// A step that no run on a device of a profile can leave out: every step
/// but the wait after the reset, the steps of the user rotation and the
/// steps of the attestation, which only some families of devices have.
pub open spec fn is_checkpoint(step: Step, profile: ProfileView) -> bool {
    match step {
        Step::Settling => settle_seconds(profile.kind) > 0,
        Step::UserSecret | Step::UserRetype | Step::UserStatus | Step::UserRotation => has_user_role(
            profile.kind,
        ),
        Step::DeviceCertificate | Step::RootAttestation | Step::TargetsAttestation => attests(
            profile.kind,
        ),
        Step::Writing | Step::Finished => false,
        _ => true,
    }
}

/// A run that stands beyond a checkpoint, and is not over, came through it:
/// at some event it stood there, and the event moved it one step on.
pub proof fn lemma_checkpoint_was_passed(s: MachineView, events: Seq<EventView>, n: int, checkpoint: Step) -> (k:
    int)
    requires
        0 <= n <= events.len(),
        is_checkpoint(checkpoint, s.profile),
        step_rank(s.step) <= step_rank(checkpoint),
        step_rank(checkpoint) < step_rank(state_before(s, events, n).step) < step_rank(Step::Finished),
    ensures
        0 <= k < n,
        state_before(s, events, k).step == checkpoint,
        step_rank(state_before(s, events, k + 1).step) > step_rank(checkpoint),
        state_before(s, events, k + 1).step != Step::Finished,
    decreases n,
{
    if n == 0 {
        lemma_run_starts(s, events);
        0
    } else {
        let prev = state_before(s, events, n - 1);
        lemma_run_starts(s, events);
        lemma_state_unfolds(s, events, n - 1);
        lemma_run_keeps_profile_and_device(s, events, 0, n - 1);
        if step_rank(prev.step) > step_rank(checkpoint) {
            lemma_checkpoint_was_passed(s, events, n - 1, checkpoint)
        } else {
            n - 1
        }
    }
}

/// The stretch of a run a step lies in, as far as the credential the run
/// holds goes: up to the administrative rotation it is the one the run began
/// with, from there to the user rotation the new administrative one, and
/// through the key generation the one the operator gave for it. Elsewhere,
/// stretch 0, the run holds none that a request will carry.
pub open spec fn stretch(step: Step) -> nat {
    let rank = step_rank(step);
    if rank <= step_rank(Step::AdminStatus) {
        1
    } else if rank <= step_rank(Step::UserStatus) {
        2
    } else if step_rank(Step::RootStatus) <= rank <= step_rank(Step::TargetsAttestation) {
        3
    } else {
        0
    }
}

/// A move within a stretch leaves the held credential as it is.
pub proof fn lemma_move_keeps_held(s: MachineView, e: EventView)
    requires
        stretch(s.step) != 0,
        stretch(advance(s, e).0.step) == stretch(s.step),
    ensures
        advance(s, e).0.held == s.held,
{
}

/// Along a stretch of a run the held credential stays as it is.
pub proof fn lemma_run_keeps_held(s: MachineView, events: Seq<EventView>, a: int, b: int)
    requires
        0 <= a <= b <= events.len(),
        stretch(state_before(s, events, a).step) != 0,
        stretch(state_before(s, events, b).step) == stretch(state_before(s, events, a).step),
    ensures
        state_before(s, events, b).held == state_before(s, events, a).held,
    decreases b - a,
{
    if a < b {
        lemma_run_goes_forward(s, events, a, b - 1);
        lemma_run_goes_forward(s, events, b - 1, b);
        lemma_run_keeps_held(s, events, a, b - 1);
        lemma_state_unfolds(s, events, b - 1);
        lemma_move_keeps_held(state_before(s, events, b - 1), events[b - 1]);
    }
}

/// What holds of the state of every run that started at the beginning: a
/// generated credential that waits for its rotation follows its role's
/// policy, a user credential is rotated only on a device that has one,
/// certificates are there exactly when they have been fetched, and the files
/// that are being written are those of the device's family, named after the
/// device.
pub open spec fn coherent(s: MachineView) -> bool {
    let rank = step_rank(s.step);
    &&& (s.step == Step::AdminRetype || s.step == Step::AdminStatus) ==> admitted(
        Role::Administrative,
        s.fresh,
    )
    &&& (s.step == Step::UserRetype || s.step == Step::UserStatus) ==> admitted(Role::User, s.fresh)
    &&& step_rank(Step::UserSecret) <= rank <= step_rank(Step::UserRotation) ==> has_user_role(
        s.profile.kind,
    )
    &&& rank <= step_rank(Step::DeviceCertificate) ==> s.certificate is None
    &&& rank <= step_rank(Step::RootAttestation) ==> s.root.attestation is None
    &&& rank <= step_rank(Step::TargetsAttestation) ==> s.targets.attestation is None
    &&& step_rank(Step::DeviceCertificate) <= rank <= step_rank(Step::TargetsAttestation)
        ==> attests(s.profile.kind)
    &&& step_rank(Step::RootAttestation) <= rank <= step_rank(Step::TargetsAttestation)
        ==> s.certificate is Some
    &&& s.step == Step::TargetsAttestation ==> s.root.attestation is Some
    &&& s.step == Step::Writing ==> {
        &&& s.outputs == assembled(s.device.serial_number, s.root, s.targets, s.certificate)
        &&& s.root.attestation is Some <==> attests(s.profile.kind)
        &&& s.targets.attestation is Some <==> attests(s.profile.kind)
        &&& s.certificate is Some <==> attests(s.profile.kind)
        &&& suffixes_of(s.outputs.files) == suffixes(s.profile.kind)
        &&& s.written < s.outputs.files.len()
    }
}

/// A run starts coherent.
pub proof fn lemma_start_is_coherent(profile: ProfileView, admin: Seq<char>)
    ensures
        coherent(initial(profile, admin).0),
{
}

/// A move keeps a run coherent.
pub proof fn lemma_move_keeps_coherence(s: MachineView, e: EventView)
    requires
        coherent(s),
    ensures
        coherent(advance(s, e).0),
{
    let next = advance(s, e).0;
    if next.step == Step::Writing && s.step != Step::Writing {
        assert(suffixes_of(next.outputs.files) =~= suffixes(s.profile.kind));
    }
}

/// Every state of a run that started at the beginning is coherent.
pub proof fn lemma_run_is_coherent(
    profile: ProfileView,
    admin: Seq<char>,
    events: Seq<EventView>,
    n: int,
)
    requires
        0 <= n <= events.len(),
    ensures
        coherent(state_before(initial(profile, admin).0, events, n)),
    decreases n,
{
    let s = initial(profile, admin).0;
    if n == 0 {
        lemma_run_starts(s, events);
        lemma_start_is_coherent(profile, admin);
    } else {
        lemma_run_is_coherent(profile, admin, events, n - 1);
        lemma_state_unfolds(s, events, n - 1);
        lemma_move_keeps_coherence(state_before(s, events, n - 1), events[n - 1]);
    }
}

/// The step at which the device returns the content of a file.
pub open spec fn source_of(suffix: Suffix) -> Step {
    match suffix {
        Suffix::DeviceCertificate => Step::DeviceCertificate,
        Suffix::RootAttestation => Step::RootAttestation,
        Suffix::RootPubkey => Step::RootKey,
        Suffix::TargetsAttestation => Step::TargetsAttestation,
        Suffix::TargetsPubkey => Step::TargetsKey,
    }
}

/// What an event brings for a file: the public key of a generated keypair,
/// or the bytes of a certificate.
pub open spec fn payload(e: EventView) -> Option<Seq<u8>> {
    match e {
        EventView::Artifact(artifact) => Some(artifact.public_key),
        EventView::Bytes(bytes) => Some(bytes),
        _ => None,
    }
}

/// What a run keeps for a file, if it has it.
pub open spec fn kept(suffix: Suffix, s: MachineView) -> Option<Seq<u8>> {
    match suffix {
        Suffix::DeviceCertificate => s.certificate,
        Suffix::RootAttestation => s.root.attestation,
        Suffix::RootPubkey => Some(s.root.public_key),
        Suffix::TargetsAttestation => s.targets.attestation,
        Suffix::TargetsPubkey => Some(s.targets.public_key),
    }
}

/// A move from the step at which a file's content is returned keeps what
/// the event brought; a move from a later step leaves it as it is.
pub proof fn lemma_move_keeps_payload(suffix: Suffix, s: MachineView, e: EventView)
    requires
        advance(s, e).0.step != Step::Finished,
    ensures
        s.step == source_of(suffix) ==> payload(e) is Some && kept(suffix, advance(s, e).0)
            == payload(e),
        step_rank(s.step) > step_rank(source_of(suffix)) ==> kept(suffix, advance(s, e).0) == kept(
            suffix,
            s,
        ),
{
}

/// In a run that starts at the beginning and is beyond the step at which a
/// file's content is returned, what the run keeps for the file, if it keeps
/// anything, is what an event brought at that step.
pub proof fn lemma_payload_was_delivered(
    profile: ProfileView,
    admin: Seq<char>,
    events: Seq<EventView>,
    n: int,
    suffix: Suffix,
) -> (k: int)
    requires
        0 <= n <= events.len(),
        step_rank(source_of(suffix)) < step_rank(
            state_before(initial(profile, admin).0, events, n).step,
        ) < step_rank(Step::Finished),
        kept(suffix, state_before(initial(profile, admin).0, events, n)) is Some,
    ensures
        0 <= k < n,
        state_before(initial(profile, admin).0, events, k).step == source_of(suffix),
        payload(events[k]) == kept(suffix, state_before(initial(profile, admin).0, events, n)),
    decreases n,
{
    let s = initial(profile, admin).0;
    if n == 0 {
        lemma_run_starts(s, events);
        0
    } else {
        let prev = state_before(s, events, n - 1);
        lemma_state_unfolds(s, events, n - 1);
        lemma_run_is_coherent(profile, admin, events, n - 1);
        lemma_move_keeps_payload(suffix, prev, events[n - 1]);
        if step_rank(prev.step) > step_rank(source_of(suffix)) {
            lemma_payload_was_delivered(profile, admin, events, n - 1, suffix)
        } else {
            n - 1
        }
    }
}

/// In a run that starts at the beginning and is writing its files, every
/// file up to the one being written has been asked for.
pub proof fn lemma_files_so_far_were_asked_for(
    profile: ProfileView,
    admin: Seq<char>,
    events: Seq<EventView>,
    n: int,
    i: int,
) -> (k: int)
    requires
        0 <= n <= events.len(),
        state_before(initial(profile, admin).0, events, n).step == Step::Writing,
        0 <= i <= state_before(initial(profile, admin).0, events, n).written,
    ensures
        0 <= k < n,
        request_at(initial(profile, admin).0, events, k) == write_of(
            state_before(initial(profile, admin).0, events, n).outputs,
            i,
        ),
    decreases n,
{
    let s = initial(profile, admin).0;
    if n == 0 {
        lemma_run_starts(s, events);
        0
    } else {
        let prev = state_before(s, events, n - 1);
        lemma_state_unfolds(s, events, n - 1);
        if prev.step == Step::Writing && i <= prev.written {
            lemma_files_so_far_were_asked_for(profile, admin, events, n - 1, i)
        } else {
            n - 1
        }
    }
}

} // verus!
