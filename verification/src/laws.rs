//! What holds of every run of the machine, whatever the device, the
//! operator and the disk answer.

use crate::device::is_deadly;
use crate::error::{stage_rank, ErrorView};
use crate::keys::KeyRole;
use crate::model::{
    abort, advance, authorising, initial, is_mutation, outcome, request_for, role_at, stage,
    write_of, ActionView, EventView, MachineView, Step,
};
use crate::output::{
    guard_outputs, is_first_present, lemma_first_present_exists, path_of, paths_of, suffixes_of,
    Suffix,
};
use crate::profile::{attests, has_user_role, suffixes, ProfileView};
use crate::run::{
    device_untouched, kept, lemma_checkpoint_was_passed, lemma_files_so_far_were_asked_for,
    lemma_payload_was_delivered, lemma_run_goes_forward, lemma_run_is_coherent,
    lemma_run_keeps_held, lemma_run_keeps_profile_and_device, lemma_run_starts,
    lemma_run_stays_finished, lemma_state_unfolds, payload, request_at, source_of, state_before,
    step_rank,
};
use crate::secret::{admitted, Role};
use vstd::prelude::*;

verus! {

/// A move never goes back to an earlier step.
pub proof fn law_steps_go_forward(s: MachineView, e: EventView)
    ensures
        step_rank(advance(s, e).0.step) >= step_rank(s.step),
        stage_rank(stage(advance(s, e).0)) >= stage_rank(stage(s)),
{
}

/// A run that is over stays as it is and asks for nothing more.
pub proof fn law_finished_is_final(s: MachineView, e: EventView)
    requires
        s.step == Step::Finished,
    ensures
        advance(s, e).0 == s,
        advance(s, e).1 == ActionView::Finish(outcome(s)),
{
}

/// A request that changes the device is made in answer to a status that was
/// just read and is not deadly, and in answer to nothing else.
pub proof fn law_mutation_answers_safe_status(s: MachineView, e: EventView)
    requires
        is_mutation(advance(s, e).1),
    ensures
        e matches EventView::Status(status) && !is_deadly(status),
        s.step == Step::ResetStatus || s.step == Step::AdminStatus || s.step == Step::UserStatus
            || s.step == Step::RootStatus || s.step == Step::TargetsStatus,
        advance(s, e).1 is Reset <==> s.step == Step::ResetStatus,
        step_rank(advance(s, e).0.step) > step_rank(s.step),
{
}

/// A deadly status ends the run at once, with nothing asked of the device.
pub proof fn law_deadly_status_ends_run(s: MachineView, e: EventView)
    requires
        s.step == Step::FirstStatus || s.step == Step::ResetStatus || s.step == Step::AdminStatus
            || s.step == Step::UserStatus || s.step == Step::RootStatus || s.step
            == Step::TargetsStatus,
        e matches EventView::Status(status) && is_deadly(status),
    ensures
        advance(s, e) == abort(s, ErrorView::DeviceRequiresManualIntervention),
{
}

/// A run that ends before its reset was asked for has not changed the
/// device, and never will: no request of the whole run is a reset, a
/// rotation or a key generation.
pub proof fn law_early_end_leaves_device_untouched(s: MachineView, events: Seq<EventView>, k: int)
    requires
        0 <= k < events.len(),
        step_rank(state_before(s, events, k).step) <= step_rank(Step::ResetStatus),
        state_before(s, events, k + 1).step == Step::Finished,
    ensures
        device_untouched(s, events),
{
    assert forall|j: int| 0 <= j < events.len() implies !is_mutation(
        #[trigger] request_at(s, events, j),
    ) by {
        let before = state_before(s, events, j);
        lemma_state_unfolds(s, events, j);
        if j < k {
            lemma_run_goes_forward(s, events, j + 1, k);
            if is_mutation(request_at(s, events, j)) {
                law_mutation_answers_safe_status(before, events[j]);
                lemma_run_goes_forward(s, events, 0, j);
            }
        } else if j == k {
            if is_mutation(request_at(s, events, j)) {
                law_mutation_answers_safe_status(before, events[j]);
            }
        } else {
            lemma_run_stays_finished(s, events, k + 1, j);
            law_finished_is_final(before, events[j]);
        }
    }
}

/// No change of the device is asked for twice in a run: two requests that
/// change the device are made at different steps, the later one at the
/// later step.
pub proof fn law_no_mutation_is_repeated(s: MachineView, events: Seq<EventView>, j: int, k: int)
    requires
        0 <= j < k < events.len(),
        is_mutation(request_at(s, events, j)),
        is_mutation(request_at(s, events, k)),
    ensures
        step_rank(state_before(s, events, j).step) < step_rank(state_before(s, events, k).step),
        !(request_at(s, events, j) is Reset && request_at(s, events, k) is Reset),
{
    law_mutation_answers_safe_status(state_before(s, events, j), events[j]);
    law_mutation_answers_safe_status(state_before(s, events, k), events[k]);
    lemma_state_unfolds(s, events, j);
    lemma_run_goes_forward(s, events, j + 1, k);
}

/// A deadly status read before the reset ends the run with the call for
/// manual intervention, and the device is not touched in the whole run.
pub proof fn law_deadly_status_forbids_reset(s: MachineView, events: Seq<EventView>, k: int)
    requires
        0 <= k < events.len(),
        state_before(s, events, k).step == Step::FirstStatus || state_before(s, events, k).step
            == Step::ResetStatus,
        events[k] matches EventView::Status(status) && is_deadly(status),
    ensures
        request_at(s, events, k) == ActionView::Finish(
            Err(ErrorView::DeviceRequiresManualIntervention),
        ),
        device_untouched(s, events),
{
    lemma_state_unfolds(s, events, k);
    law_early_end_leaves_device_untouched(s, events, k);
}

/// An operator who declines a confirmation ends the run as aborted by the
/// user, and the device is not touched in the whole run.
pub proof fn law_declined_confirmation_touches_nothing(
    s: MachineView,
    events: Seq<EventView>,
    k: int,
)
    requires
        0 <= k < events.len(),
        state_before(s, events, k).step == Step::Banner || state_before(s, events, k).step
            == Step::ResetConsent,
        events[k] == EventView::Confirmed(false),
    ensures
        request_at(s, events, k) == ActionView::Finish(Err(ErrorView::UserAborted)),
        device_untouched(s, events),
{
    lemma_state_unfolds(s, events, k);
    law_early_end_leaves_device_untouched(s, events, k);
}

/// A file that exists under one of the names the run would write ends the
/// run with a conflict that names such a file, and the device is not touched
/// in the whole run.
pub proof fn law_existing_output_forbids_reset(
    s: MachineView,
    events: Seq<EventView>,
    k: int,
    presence: Seq<bool>,
    i: int,
)
    requires
        0 <= k < events.len(),
        state_before(s, events, k).step == Step::OutputCheck,
        events[k] == EventView::Presence(presence),
        presence.len() == suffixes(state_before(s, events, k).profile.kind).len(),
        0 <= i < presence.len(),
        presence[i],
    ensures
        ({
            let before = state_before(s, events, k);
            let paths = paths_of(before.device.serial_number, suffixes(before.profile.kind));
            exists|c: int|
                0 <= c < presence.len() && presence[c] && request_at(s, events, k)
                    == ActionView::Finish(Err(ErrorView::OutputConflict { path: paths[c] }))
        }),
        device_untouched(s, events),
{
    let before = state_before(s, events, k);
    let paths = paths_of(before.device.serial_number, suffixes(before.profile.kind));
    lemma_first_present_exists(presence, i);
    let c = choose|c: int| is_first_present(presence, c);
    assert(guard_outputs(paths, presence) == Err::<(), ErrorView>(
        ErrorView::OutputConflict { path: paths[c] },
    ));
    assert(0 <= c < presence.len() && presence[c] && request_at(s, events, k)
        == ActionView::Finish(Err(ErrorView::OutputConflict { path: paths[c] })));
    lemma_state_unfolds(s, events, k);
    law_early_end_leaves_device_untouched(s, events, k);
}

/// A retyped credential that differs from the one shown ends the run with a
/// mismatch for that role. The run keeps no credential after it, and no
/// request of the whole run rotates that role's credential or generates a key.
pub proof fn law_mismatch_rotates_nothing(
    s: MachineView,
    events: Seq<EventView>,
    k: int,
    typed: Seq<char>,
)
    requires
        0 <= k < events.len(),
        state_before(s, events, k).step == Step::AdminRetype || state_before(s, events, k).step
            == Step::UserRetype,
        events[k] == EventView::Secret(typed),
        typed != state_before(s, events, k).fresh,
    ensures
        request_at(s, events, k) == ActionView::Finish(
            Err(ErrorView::CredentialMismatch { role: role_at(state_before(s, events, k).step) }),
        ),
        state_before(s, events, k + 1).held == Seq::<char>::empty(),
        state_before(s, events, k + 1).fresh == Seq::<char>::empty(),
        forall|j: int|
            0 <= j < events.len() ==> !(#[trigger] request_at(s, events, j) matches ActionView::Rotate {
                role,
                ..
            } && role == role_at(state_before(s, events, k).step)),
        forall|j: int|
            0 <= j < events.len() ==> !(#[trigger] request_at(s, events, j) is GenerateKeypair),
{
    lemma_state_unfolds(s, events, k);
    let mismatched = role_at(state_before(s, events, k).step);
    assert forall|j: int| 0 <= j < events.len() implies !(#[trigger] request_at(s, events, j) matches ActionView::Rotate {
        role,
        ..
    } && role == mismatched) && !(request_at(s, events, j) is GenerateKeypair) by {
        let before = state_before(s, events, j);
        lemma_state_unfolds(s, events, j);
        if j < k {
            lemma_run_goes_forward(s, events, j + 1, k);
            if is_mutation(request_at(s, events, j)) {
                law_mutation_answers_safe_status(before, events[j]);
            }
        } else if j > k {
            lemma_run_stays_finished(s, events, k + 1, j);
            law_finished_is_final(before, events[j]);
        }
    }
}

/// In a run that starts at the beginning, a request that changes the device
/// comes after the disk was asked and held none of the files the run would
/// write, and after the operator consented to the reset.
pub proof fn law_mutation_follows_check_and_consent(
    profile: ProfileView,
    admin: Seq<char>,
    events: Seq<EventView>,
    j: int,
)
    requires
        0 <= j < events.len(),
        is_mutation(request_at(initial(profile, admin).0, events, j)),
    ensures
        exists|k: int|
            0 <= k < j && state_before(initial(profile, admin).0, events, k).step
                == Step::OutputCheck && (#[trigger] events[k] matches EventView::Presence(presence)
                && guard_outputs(
                paths_of(
                    state_before(initial(profile, admin).0, events, j).device.serial_number,
                    suffixes(profile.kind),
                ),
                presence,
            ) is Ok),
        exists|k: int|
            0 <= k < j && state_before(initial(profile, admin).0, events, k).step
                == Step::ResetConsent && #[trigger] events[k] == EventView::Confirmed(true),
{
    let s = initial(profile, admin).0;
    lemma_run_starts(s, events);
    law_mutation_answers_safe_status(state_before(s, events, j), events[j]);
    let c = lemma_checkpoint_was_passed(s, events, j, Step::OutputCheck);
    lemma_state_unfolds(s, events, c);
    lemma_run_keeps_profile_and_device(s, events, 0, c);
    lemma_run_keeps_profile_and_device(s, events, c, j);
    assert(events[c] matches EventView::Presence(presence) && guard_outputs(
        paths_of(state_before(s, events, j).device.serial_number, suffixes(profile.kind)),
        presence,
    ) is Ok);
    let r = lemma_checkpoint_was_passed(s, events, j, Step::ResetConsent);
    lemma_state_unfolds(s, events, r);
    assert(events[r] == EventView::Confirmed(true));
}

/// In a run that starts at the beginning, the reset and the administrative
/// rotation are made under the credential the run was given, the reset with
/// the profile's label; the user rotation is made under the administrative
/// credential that the rotation before it put on the device; and whatever is
/// asked of the device after the rotations is asked under the credential the
/// operator gave for the key generation.
pub proof fn law_requests_carry_the_right_credentials(
    profile: ProfileView,
    admin: Seq<char>,
    events: Seq<EventView>,
    j: int,
)
    requires
        0 <= j < events.len(),
    ensures
        ({
            let s = initial(profile, admin).0;
            let request = request_at(s, events, j);
            &&& request is Reset ==> request->Reset_credential == admin && request->Reset_label
                == profile.reset_label
            &&& request is Rotate && request->Rotate_role == Role::Administrative
                ==> request->Rotate_current == admin
            &&& request is Rotate && request->Rotate_role == Role::User ==> exists|i: int|
                0 <= i < j && (#[trigger] request_at(s, events, i)) is Rotate && request_at(
                    s,
                    events,
                    i,
                )->Rotate_role == Role::Administrative && request_at(s, events, i)->Rotate_replacement
                    == request->Rotate_current
            &&& request is GenerateKeypair || request is DeviceCertificate || request is Attest
                ==> exists|k: int|
                0 <= k < j && state_before(s, events, k).step == Step::OperationalSecret
                    && #[trigger] events[k] == EventView::Secret(authorising(request))
        }),
{
    let s = initial(profile, admin).0;
    let request = request_at(s, events, j);
    let before = state_before(s, events, j);
    lemma_run_starts(s, events);
    lemma_run_goes_forward(s, events, 0, j);
    lemma_run_keeps_profile_and_device(s, events, 0, j);
    if request is Reset || (request is Rotate && request->Rotate_role == Role::Administrative) {
        lemma_run_keeps_held(s, events, 0, j);
    }
    if request is Rotate && request->Rotate_role == Role::User {
        lemma_run_is_coherent(profile, admin, events, j);
        let i = lemma_checkpoint_was_passed(s, events, j, Step::AdminStatus);
        lemma_state_unfolds(s, events, i);
        lemma_run_keeps_profile_and_device(s, events, i, j);
        lemma_run_keeps_held(s, events, i + 1, j);
        assert(request_at(s, events, i) is Rotate && request_at(s, events, i)->Rotate_role
            == Role::Administrative && request_at(s, events, i)->Rotate_replacement
            == request->Rotate_current);
    }
    if request is GenerateKeypair || request is DeviceCertificate || request is Attest {
        let k = lemma_checkpoint_was_passed(s, events, j, Step::OperationalSecret);
        lemma_state_unfolds(s, events, k);
        lemma_run_keeps_held(s, events, k + 1, j);
        assert(state_before(s, events, k).step == Step::OperationalSecret && events[k]
            == EventView::Secret(authorising(request)));
    }
}

/// In a run that starts at the beginning, the credential a rotation puts on
/// the device follows the policy of its role, and is the one the operator
/// was shown and typed again.
pub proof fn law_rotation_submits_confirmed_policy_credential(
    profile: ProfileView,
    admin: Seq<char>,
    events: Seq<EventView>,
    j: int,
)
    requires
        0 <= j < events.len(),
        request_at(initial(profile, admin).0, events, j) is Rotate,
    ensures
        ({
            let s = initial(profile, admin).0;
            &&& request_at(s, events, j) matches ActionView::Rotate { role, replacement, .. }
            &&& admitted(role, replacement)
            &&& j >= 1
            &&& events[j - 1] == EventView::Secret(replacement)
            &&& request_at(s, events, j - 1) == ActionView::ReadStatus
            &&& j >= 2
            &&& request_at(s, events, j - 2) == (ActionView::ShowAndConfirm {
                role,
                secret: replacement,
            })
        }),
{
    let s = initial(profile, admin).0;
    lemma_run_starts(s, events);
    lemma_run_is_coherent(profile, admin, events, j);
    law_mutation_answers_safe_status(state_before(s, events, j), events[j]);
    if j >= 1 {
        lemma_state_unfolds(s, events, j - 1);
        lemma_run_is_coherent(profile, admin, events, j - 1);
        if j >= 2 {
            lemma_state_unfolds(s, events, j - 2);
            lemma_run_is_coherent(profile, admin, events, j - 2);
        }
    }
}

/// In a run that starts at the beginning, every file that is written is one
/// of those the disk was asked about before the reset: its name is among the
/// names of that question.
pub proof fn law_written_files_were_checked(
    profile: ProfileView,
    admin: Seq<char>,
    events: Seq<EventView>,
    j: int,
)
    requires
        0 <= j < events.len(),
        request_at(initial(profile, admin).0, events, j) is Write,
    ensures
        exists|k: int|
            0 <= k < j && (#[trigger] request_at(initial(profile, admin).0, events, k) matches ActionView::CheckOutputs(
                paths,
            ) && paths.contains(request_at(initial(profile, admin).0, events, j)->Write_path)),
{
    let s = initial(profile, admin).0;
    lemma_run_starts(s, events);
    let before = state_before(s, events, j);
    let after = state_before(s, events, j + 1);
    lemma_state_unfolds(s, events, j);
    lemma_run_is_coherent(profile, admin, events, j);
    lemma_run_is_coherent(profile, admin, events, j + 1);
    assert(after.step == Step::Writing);
    let k = lemma_checkpoint_was_passed(s, events, j + 1, Step::Opening);
    lemma_state_unfolds(s, events, k);
    lemma_run_keeps_profile_and_device(s, events, 0, k);
    lemma_run_keeps_profile_and_device(s, events, k, j + 1);
    let paths = paths_of(after.device.serial_number, suffixes(profile.kind));
    assert(request_at(s, events, k) == ActionView::CheckOutputs(paths));
    let w = after.written as int;
    assert(request_at(s, events, j) == write_of(after.outputs, w));
    assert(suffixes_of(after.outputs.files)[w] == suffixes(profile.kind)[w]);
    assert(paths[w] == request_at(s, events, j)->Write_path);
    assert(k < j) by {
        if k == j {
            assert(before.step == Step::Opening);
        }
    }
}

/// In a run that starts at the beginning, the content of every file that is
/// written is what the device returned for it: the public key of the keypair
/// it generated, or the certificate it handed out, byte for byte.
pub proof fn law_written_content_is_what_the_device_returned(
    profile: ProfileView,
    admin: Seq<char>,
    events: Seq<EventView>,
    j: int,
)
    requires
        0 <= j < events.len(),
        request_at(initial(profile, admin).0, events, j) is Write,
    ensures
        ({
            let s = initial(profile, admin).0;
            let request = request_at(s, events, j);
            exists|k: int|
                0 <= k < j && state_before(s, events, k).step == source_of(request->Write_suffix)
                    && payload(#[trigger] events[k]) == Some(request->Write_content)
        }),
{
    let s = initial(profile, admin).0;
    let request = request_at(s, events, j);
    let after = state_before(s, events, j + 1);
    lemma_run_starts(s, events);
    lemma_state_unfolds(s, events, j);
    lemma_run_is_coherent(profile, admin, events, j);
    lemma_run_is_coherent(profile, admin, events, j + 1);
    lemma_run_keeps_profile_and_device(s, events, 0, j + 1);
    let w = after.written as int;
    let files = after.outputs.files;
    assert(request == write_of(after.outputs, w));
    if attests(profile.kind) {
        assert(files =~= seq![
            (Suffix::DeviceCertificate, after.certificate->0),
            (Suffix::RootAttestation, after.root.attestation->0),
            (Suffix::RootPubkey, after.root.public_key),
            (Suffix::TargetsAttestation, after.targets.attestation->0),
            (Suffix::TargetsPubkey, after.targets.public_key),
        ]);
    } else {
        assert(files =~= seq![
            (Suffix::RootPubkey, after.root.public_key),
            (Suffix::TargetsPubkey, after.targets.public_key),
        ]);
    }
    assert(kept(request->Write_suffix, after) == Some(request->Write_content));
    let k = lemma_payload_was_delivered(profile, admin, events, j + 1, request->Write_suffix);
    assert(k < j) by {
        if k == j {
            assert(state_before(s, events, j).step == Step::Writing || state_before(
                s,
                events,
                j,
            ).step == source_of(request->Write_suffix));
        }
    }
}

/// In a run that starts at the beginning and ends well, every file of the
/// device's family has been asked to be written, under its name.
pub proof fn law_success_means_every_file_was_written(
    profile: ProfileView,
    admin: Seq<char>,
    events: Seq<EventView>,
    j: int,
    i: int,
)
    requires
        0 <= j < events.len(),
        state_before(initial(profile, admin).0, events, j).step != Step::Finished,
        request_at(initial(profile, admin).0, events, j) == ActionView::Finish(Ok(())),
        0 <= i < suffixes(profile.kind).len(),
    ensures
        ({
            let s = initial(profile, admin).0;
            exists|k: int|
                0 <= k < j && (#[trigger] request_at(s, events, k)) is Write && request_at(
                    s,
                    events,
                    k,
                )->Write_suffix == suffixes(profile.kind)[i] && request_at(s, events, k)->Write_path
                    == path_of(
                    state_before(s, events, j).device.serial_number,
                    suffixes(profile.kind)[i],
                )
        }),
{
    let s = initial(profile, admin).0;
    let before = state_before(s, events, j);
    lemma_run_starts(s, events);
    lemma_run_is_coherent(profile, admin, events, j);
    lemma_run_keeps_profile_and_device(s, events, 0, j);
    assert(before.step == Step::Writing);
    assert(suffixes_of(before.outputs.files)[i] == suffixes(profile.kind)[i]);
    let k = lemma_files_so_far_were_asked_for(profile, admin, events, j, i);
    assert(request_at(s, events, k) == write_of(before.outputs, i));
}

/// In a run that starts at the beginning and ends well, the device was
/// reset, its administrative credential was rotated, and both keys were
/// generated; where the device has a user credential that was rotated too,
/// and where it attests, its certificate was fetched and both keys were
/// attested to.
pub proof fn law_success_means_device_was_provisioned(
    profile: ProfileView,
    admin: Seq<char>,
    events: Seq<EventView>,
    j: int,
)
    requires
        0 <= j < events.len(),
        state_before(initial(profile, admin).0, events, j).step != Step::Finished,
        request_at(initial(profile, admin).0, events, j) == ActionView::Finish(Ok(())),
    ensures
        ({
            let s = initial(profile, admin).0;
            &&& exists|k: int| 0 <= k < j && (#[trigger] request_at(s, events, k)) is Reset
            &&& exists|k: int|
                0 <= k < j && (#[trigger] request_at(s, events, k)) is Rotate && request_at(
                    s,
                    events,
                    k,
                )->Rotate_role == Role::Administrative
            &&& has_user_role(profile.kind) ==> exists|k: int|
                0 <= k < j && (#[trigger] request_at(s, events, k)) is Rotate && request_at(
                    s,
                    events,
                    k,
                )->Rotate_role == Role::User
            &&& exists|k: int|
                0 <= k < j && (#[trigger] request_at(s, events, k)) is GenerateKeypair && request_at(
                    s,
                    events,
                    k,
                )->GenerateKeypair_request == request_for(profile, KeyRole::Root)
            &&& exists|k: int|
                0 <= k < j && (#[trigger] request_at(s, events, k)) is GenerateKeypair && request_at(
                    s,
                    events,
                    k,
                )->GenerateKeypair_request == request_for(profile, KeyRole::Targets)
            &&& attests(profile.kind) ==> exists|k: int|
                0 <= k < j && (#[trigger] request_at(s, events, k)) is DeviceCertificate
            &&& attests(profile.kind) ==> exists|k: int|
                0 <= k < j && (#[trigger] request_at(s, events, k)) is Attest && request_at(
                    s,
                    events,
                    k,
                )->Attest_key == KeyRole::Root
            &&& attests(profile.kind) ==> exists|k: int|
                0 <= k < j && (#[trigger] request_at(s, events, k)) is Attest && request_at(
                    s,
                    events,
                    k,
                )->Attest_key == KeyRole::Targets
        }),
{
    let s = initial(profile, admin).0;
    lemma_run_starts(s, events);
    assert(state_before(s, events, j).step == Step::Writing);
    let reset = lemma_checkpoint_was_passed(s, events, j, Step::ResetStatus);
    lemma_state_unfolds(s, events, reset);
    assert(request_at(s, events, reset) is Reset);
    let rotation = lemma_checkpoint_was_passed(s, events, j, Step::AdminStatus);
    lemma_state_unfolds(s, events, rotation);
    assert(request_at(s, events, rotation) is Rotate);
    let root = lemma_checkpoint_was_passed(s, events, j, Step::RootStatus);
    lemma_state_unfolds(s, events, root);
    lemma_run_keeps_profile_and_device(s, events, 0, root);
    assert(request_at(s, events, root) is GenerateKeypair);
    let targets = lemma_checkpoint_was_passed(s, events, j, Step::TargetsStatus);
    lemma_state_unfolds(s, events, targets);
    lemma_run_keeps_profile_and_device(s, events, 0, targets);
    assert(request_at(s, events, targets) is GenerateKeypair);
    if has_user_role(profile.kind) {
        let user = lemma_checkpoint_was_passed(s, events, j, Step::UserStatus);
        lemma_state_unfolds(s, events, user);
        assert(request_at(s, events, user) is Rotate);
    }
    if attests(profile.kind) {
        let key = lemma_checkpoint_was_passed(s, events, j, Step::TargetsKey);
        lemma_state_unfolds(s, events, key);
        lemma_run_keeps_profile_and_device(s, events, 0, key);
        assert(request_at(s, events, key) is DeviceCertificate);
        let certificate = lemma_checkpoint_was_passed(s, events, j, Step::DeviceCertificate);
        lemma_state_unfolds(s, events, certificate);
        assert(request_at(s, events, certificate) is Attest);
        let attestation = lemma_checkpoint_was_passed(s, events, j, Step::RootAttestation);
        lemma_state_unfolds(s, events, attestation);
        assert(request_at(s, events, attestation) is Attest);
    }
}

} // verus!
