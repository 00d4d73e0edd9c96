//! Workflows: what a draft, a proposal, a launch and a transition take from the
//! request, and which sessions are found.
use vstd::prelude::*;

use crate::commands::profile::ProfileSourceScope;
use crate::commands::session::PinnedView;
use crate::json::{field, signed_in, JsonView};
use crate::laws::shown::{gives_text, lemma_shows_all, only_keys, shows, shows_only};
use crate::text::utf8_len;
use crate::text_map::text_le;
use crate::workflow::{is_session_at, read_lease, seen_lease};
use crate::workflow::{
    cancelled_in, command_in, compile_stages_for, draft_in, draft_value, draft_values,
    gateway_result, launch_in, launch_stages_for, launches_proposal, lease_matches,
    lemma_modes_by_index, mode_views, mode_with, modes_in, needed_profiles, needs_recovery,
    observed_mode, pin_of, profile_stages, proposal_current, proposal_stages_for, proposes,
    recovery_pending, recovery_view, selected_id, session_view, shown_modes, stage_outcome,
    status_view, transition_in, validated_id, workflows_view, CurrentWorkflow, DraftView,
    EffectiveProfile, ModeRevision, ProposalView, TransitionRequest, TransitionView, WorkflowDraft,
    WorkflowLaunch, WorkflowLease, WorkflowProposal, WorkflowStage,
};

verus! {

/// A transition goes to the mode that was asked for, under the operation and
/// from the state that the request names, and only to a mode that the session
/// was launched with.
pub proof fn law_transition_goes_where_asked(
    session_known: bool,
    lease: Result<WorkflowLease, Seq<char>>,
    params: JsonView,
    request: TransitionRequest,
)
    requires
        transition_in(session_known, lease, params) == Ok::<TransitionView, Seq<char>>(request@),
    ensures
        session_known,
        only_keys(
            params,
            seq![
                "operationId"@,
                "operationFingerprint"@,
                "sourceStateSequence"@,
                "targetMode"@,
                "requestedAtUnix"@,
            ],
        ),
        gives_text(params, "targetMode"@, request.target_mode@),
        gives_text(params, "operationId"@, request.operation_id@),
        gives_text(params, "operationFingerprint"@, request.operation_fingerprint@),
        field(params, "sourceStateSequence"@) == Some(
            JsonView::Unsigned(request.source_state_sequence),
        ),
        match field(params, "requestedAtUnix"@) {
            Some(JsonView::Unsigned(at)) => request.requested_at_unix == at,
            Some(JsonView::Negative(at)) => request.requested_at_unix == at,
            _ => false,
        },
        lease is Ok,
        lease->Ok_0.workflow is Some,
        exists|i: int|
            0 <= i < lease->Ok_0.workflow->0.profile_revisions@.len() && (
            #[trigger] lease->Ok_0.workflow->0.profile_revisions@[i]).mode@ == request.target_mode@,
{
}

/// A session moves to every one of its reviewed modes, whichever is active, and
/// to no other.
pub proof fn law_reviewed_modes_are_reached(
    lease: WorkflowLease,
    params: JsonView,
    mode: Seq<char>,
    operation_id: Seq<char>,
    fingerprint: Seq<char>,
    sequence: u64,
    at: i64,
)
    requires
        only_keys(
            params,
            seq![
                "operationId"@,
                "operationFingerprint"@,
                "sourceStateSequence"@,
                "targetMode"@,
                "requestedAtUnix"@,
            ],
        ),
        gives_text(params, "targetMode"@, mode),
        gives_text(params, "operationId"@, operation_id),
        gives_text(params, "operationFingerprint"@, fingerprint),
        field(params, "sourceStateSequence"@) == Some(JsonView::Unsigned(sequence)),
        signed_in(field(params, "requestedAtUnix"@)) == Some(at),
        lease.workflow is Some,
    ensures
        ({
            let outcome = transition_in(true, Ok(lease), params);
            let reviewed = exists|i: int|
                0 <= i < lease.workflow->0.profile_revisions@.len() && (
                #[trigger] lease.workflow->0.profile_revisions@[i]).mode@ == mode;
            &&& reviewed ==> outcome is Ok && outcome->Ok_0.target_mode == mode
            &&& !reviewed ==> outcome == Err::<TransitionView, Seq<char>>(
                "workflow-expansion-requires-review"@,
            )
        }),
{
}

/// A draft is what the request says: its names, its provider, its entry, and its
/// modes one by one.
pub proof fn law_draft_is_what_was_composed(
    params: JsonView,
    provider_known: bool,
    draft: WorkflowDraft,
)
    requires
        draft_in(params, provider_known) == Ok::<DraftView, Seq<char>>(draft@),
    ensures
        provider_known,
        only_keys(
            params,
            seq![
                "workflowId"@,
                "displayName"@,
                "description"@,
                "provider"@,
                "baselineProfileId"@,
                "entryMode"@,
                "modes"@,
            ],
        ),
        gives_text(params, "workflowId"@, draft.workflow_id@),
        gives_text(params, "displayName"@, draft.display_name@),
        gives_text(params, "provider"@, draft.provider@),
        gives_text(params, "baselineProfileId"@, draft.baseline_profile_id@),
        gives_text(params, "entryMode"@, draft.entry_mode@),
        match draft.description {
            Some(text) => gives_text(params, "description"@, text@),
            None => field(params, "description"@) is None || field(params, "description"@) == Some(
                JsonView::Null,
            ),
        },
        field(params, "modes"@) is Some,
        field(params, "modes"@)->0 is Array,
        draft.modes@.len() == field(params, "modes"@)->0->Array_0.len(),
        forall|i: int|
            0 <= i < draft.modes@.len() ==> {
                let value = field(params, "modes"@)->0->Array_0[i];
                &&& field(value, "name"@) == Some(
                    JsonView::Text((#[trigger] draft.modes@[i]).name@),
                )
                &&& field(value, "profileId"@) == Some(JsonView::Text(draft.modes@[i].profile_id@))
            },
        draft.workflow_revision@.len() == 0,
{
    let list = field(params, "modes"@)->0->Array_0;
    lemma_modes_by_index(list);
    let views = mode_views(draft.modes@);
    assert(draft@.modes == views);
    assert(modes_in(list)->Ok_0 == views);
    assert forall|i: int| 0 <= i < draft.modes@.len() implies {
        &&& field(list[i], "name"@) == Some(JsonView::Text((#[trigger] draft.modes@[i]).name@))
        &&& field(list[i], "profileId"@) == Some(JsonView::Text(draft.modes@[i].profile_id@))
    } by {
        assert(views[i] == (draft.modes@[i].name@, draft.modes@[i].profile_id@));
        assert(modes_in(list)->Ok_0[i] == views[i]);
    }
    if draft.description is Some {
        assert(draft@.description == Some(draft.description->0@));
    } else {
        assert(draft@.description is None);
    }
    assert(draft@.workflow_revision.len() == 0);
}

/// A workflow is validated under its own id and, where the request names a
/// revision, only under the one that was composed.
pub proof fn law_validation_is_of_the_draft(
    workflows: Map<Seq<char>, DraftView>,
    params: JsonView,
    provider_known: bool,
)
    ensures
        match validated_id(workflows, params, provider_known) {
            Ok(id) => {
                &&& provider_known
                &&& gives_text(params, "workflowId"@, id)
                &&& workflows.contains_key(id)
                &&& match field(params, "workflowRevision"@) {
                    Some(JsonView::Text(revision)) => revision == workflows[id].workflow_revision,
                    Some(JsonView::Null) => true,
                    Some(_) => false,
                    None => true,
                }
            },
            Err(_) => true,
        },
{
}

/// A proposal is for the workflow that the request names, or, where it names
/// none, for the first one of the provider in the order of their ids.
pub proof fn law_proposal_is_for_the_named_workflow(
    workflows: Map<Seq<char>, DraftView>,
    params: JsonView,
    provider: Option<Seq<char>>,
    id: Seq<char>,
)
    requires
        proposes(workflows, params, provider, Ok(id)),
    ensures
        workflows.contains_key(id),
        provider is Some,
        match field(params, "workflowId"@) {
            Some(JsonView::Text(named)) => id == named,
            Some(JsonView::Null) | None => {
                &&& workflows[id].provider == provider->0
                &&& forall|other: Seq<char>| #[trigger]
                    workflows.contains_key(other) && workflows[other].provider == provider->0
                        ==> text_le(id, other)
            },
            Some(_) => false,
        },
        match field(params, "prompt"@) {
            Some(JsonView::Text(prompt)) => prompt.len() > 0,
            _ => false,
        },
{
    crate::text_map::lemma_text_le_reflexive(id);
}

/// A launch runs the proposal that the request names, under the fingerprint that
/// was shown, with the command that the request gives, and only while no session
/// runs.
pub proof fn law_launch_runs_what_was_reviewed(
    launches: Map<Seq<char>, (ProposalView, i64)>,
    workflows: Map<Seq<char>, DraftView>,
    session_active: bool,
    params: JsonView,
)
    ensures
        match launch_in(launches, workflows, session_active, params) {
            Ok((proposal, workflow, command)) => {
                &&& !session_active
                &&& gives_text(params, "proposalId"@, proposal)
                &&& launches.contains_key(proposal)
                &&& gives_text(
                    params,
                    "proposalFingerprint"@,
                    launches[proposal].0.proposal_fingerprint,
                )
                &&& workflow == launches[proposal].0.workflow_id
                &&& workflows.contains_key(workflow)
                &&& field(params, "hostCommand"@) is Some
                &&& field(params, "hostCommand"@)->0 is Array
                &&& command.len() == field(params, "hostCommand"@)->0->Array_0.len()
                &&& 1 <= command.len() <= 128
                &&& forall|i: int|
                    0 <= i < command.len() ==> {
                        &&& field(params, "hostCommand"@)->0->Array_0[i] == JsonView::Text(
                            #[trigger] command[i],
                        )
                        &&& 0 < command[i].len()
                        &&& utf8_len(command[i]) <= 16 * 1024
                    }
            },
            Err(_) => true,
        },
{
    if let Ok((proposal, workflow, command)) = launch_in(
        launches,
        workflows,
        session_active,
        params,
    ) {
        let list = field(params, "hostCommand"@)->0->Array_0;
        assert(command_in(params) == Ok::<Seq<Seq<char>>, Seq<char>>(command));
        assert forall|i: int| 0 <= i < command.len() implies {
            &&& list[i] == JsonView::Text(#[trigger] command[i])
            &&& 0 < command[i].len()
            &&& utf8_len(command[i]) <= 16 * 1024
        } by {
            assert(crate::workflow::command_part(list[i]) is Some);
        }
    }
}

/// A proposal is launched only while everything that it was reviewed with is
/// still in force.
pub proof fn law_stale_proposals_are_refused(
    proposal: WorkflowProposal,
    current: CurrentWorkflow,
)
    ensures
        proposal_current(proposal@, current) <==> {
            &&& proposal.workflow_id@ == current.workflow_id@
            &&& proposal.entry_mode@ == current.entry_mode@
            &&& proposal.provider@ == current.provider@
            &&& proposal.repository_key@ == current.repository_key@
            &&& proposal.workspace_key@ == current.workspace_key@
            &&& proposal.catalog_revision@ == current.catalog_revision@
            &&& proposal.workflow_revision@ == current.workflow_revision@
            &&& proposal.capability_count == current.capability_count
            &&& proposal.gateway_required
        },
{
}

/// A session is told of the proposal exactly what was reviewed.
pub proof fn law_session_is_told_the_proposal(
    launch: WorkflowLaunch,
    proposal: WorkflowProposal,
)
    requires
        launches_proposal(launch, proposal@),
    ensures
        launch.workflow_id@ == proposal.workflow_id@,
        launch.workflow_revision@ == proposal.workflow_revision@,
        launch.entry_mode@ == proposal.entry_mode@,
        launch.catalog_revision@ == proposal.catalog_revision@,
        launch.proposal_id@ == proposal.proposal_id@,
        launch.proposal_fingerprint@ == proposal.proposal_fingerprint@,
        launch.prompt_digest@ == proposal.prompt_digest@,
        launch.capability_count == proposal.capability_count,
{
}

/// A session starts with the profile of the mode in which the workflow is
/// entered, under the digest of the workflow; without such a profile nothing is
/// pinned.
pub proof fn law_entry_profile_is_pinned(
    profiles: Seq<EffectiveProfile>,
    mode: Seq<char>,
    revision_digest: Seq<char>,
)
    ensures
        match pin_of(profiles, mode, revision_digest) {
            None => forall|i: int| 0 <= i < profiles.len() ==> (#[trigger] profiles[i]).mode@ != mode,
            Some(pinned) => exists|i: int|
                0 <= i < profiles.len() && (#[trigger] profiles[i]).mode@ == mode && pinned == (
                PinnedView::Profile {
                    profile_id: profiles[i].profile_id@,
                    profile_digest: profiles[i].digest@,
                    origin_scope: ProfileSourceScope::Session,
                    definition_digest: revision_digest,
                }) && forall|j: int| 0 <= j < i ==> (#[trigger] profiles[j]).mode@ != mode,
        },
    decreases profiles.len(),
{
    if profiles.len() > 0 {
        let rest = profiles.drop_first();
        law_entry_profile_is_pinned(rest, mode, revision_digest);
        if profiles[0].mode@ == mode {
            assert(profiles[0].mode@ == mode);
        } else {
            match pin_of(rest, mode, revision_digest) {
                None => {
                    assert forall|i: int| 0 <= i < profiles.len() implies (
                    #[trigger] profiles[i]).mode@ != mode by {
                        if i > 0 {
                            assert(rest[i - 1] == profiles[i]);
                        }
                    }
                },
                Some(pinned) => {
                    let i = choose|i: int|
                        0 <= i < rest.len() && (#[trigger] rest[i]).mode@ == mode && pinned == (
                        PinnedView::Profile {
                            profile_id: rest[i].profile_id@,
                            profile_digest: rest[i].digest@,
                            origin_scope: ProfileSourceScope::Session,
                            definition_digest: revision_digest,
                        }) && forall|j: int| 0 <= j < i ==> (#[trigger] rest[j]).mode@ != mode;
                    assert(profiles[i + 1] == rest[i]);
                    assert forall|j: int| 0 <= j < i + 1 implies (
                    #[trigger] profiles[j]).mode@ != mode by {
                        if j > 0 {
                            assert(rest[j - 1] == profiles[j]);
                        }
                    }
                },
            }
        }
    }
}

/// A session is taken for the one of a workspace only if it is active, runs a
/// workflow, and belongs to that repository and workspace.
pub proof fn law_sessions_belong_to_their_workspace(
    lease: WorkflowLease,
    repository_key: Seq<char>,
    workspace_key: Seq<char>,
)
    ensures
        lease_matches(lease, repository_key, workspace_key) <==> {
            &&& lease.active
            &&& lease.workflow is Some
            &&& lease.repository_key@ == repository_key
            &&& lease.workspace_key@ == workspace_key
        },
{
}

/// Recovery is asked for while a transition is pending, and of a session whose
/// exposure is not the one that is desired and will not become it by itself.
pub proof fn law_recovery_is_asked_for(lease: WorkflowLease, operations: Seq<JsonView>)
    ensures
        operations.len() > 0 ==> recovery_pending(Some(lease), operations) && recovery_pending(
            None,
            operations,
        ),
        operations.len() == 0 ==> !recovery_pending(None, operations),
        operations.len() == 0 ==> (recovery_pending(Some(lease), operations) <==> needs_recovery(
            lease,
        )),
        lease.exposures_agree ==> !needs_recovery(lease),
        !lease.exposures_agree && (lease.live is ReloadRequired || lease.live is NextSessionOnly
            || lease.live is Unknown) ==> needs_recovery(lease),
        lease.live is Other ==> !needs_recovery(lease),
{
}

/// A transition is cancelled under the operation that the request names, and
/// only where there is a session.
pub proof fn law_cancellation_is_of_the_named_operation(params: JsonView, session_known: bool)
    ensures
        match cancelled_in(params, session_known) {
            Ok(id) => session_known && gives_text(params, "operationId"@, id),
            Err(_) => true,
        },
        only_keys(params, seq!["operationId"@]) && field(params, "operationId"@) is Some && (field(
            params,
            "operationId"@,
        )->0 matches JsonView::Text(id) && gives_text(params, "operationId"@, id)) && session_known
            ==> cancelled_in(params, session_known) is Ok,
{
}

/// The workflow that is selected is the one that runs; only where none runs is
/// it the only draft.
pub proof fn law_running_workflow_is_selected(lease: Option<WorkflowLease>, keys: Seq<Seq<char>>)
    ensures
        lease is Some && lease->0.workflow is Some ==> selected_id(lease, keys) == Some(
            lease->0.workflow->0.workflow_id@,
        ),
        (lease is None || lease->0.workflow is None) && keys.len() == 1 ==> selected_id(lease, keys)
            == Some(keys[0]),
        (lease is None || lease->0.workflow is None) && keys.len() != 1 ==> selected_id(lease, keys)
            is None,
{
}

/// What a gateway answers is shown by its result, and whole where it has none.
pub proof fn law_gateway_result_is_shown(answer: JsonView)
    ensures
        match field(answer, "result"@) {
            Some(result) => gateway_result(answer) == result,
            None => gateway_result(answer) == answer,
        },
{
}

/// A workflow needs its baseline's profile and the profile of each of its modes,
/// and no other.
pub proof fn law_every_profile_is_needed(
    baseline: Seq<char>,
    modes: Seq<(Seq<char>, Seq<char>)>,
    profile: Seq<char>,
)
    ensures
        needed_profiles(baseline, modes).contains(profile) <==> profile == baseline || exists|i: int|
            0 <= i < modes.len() && (#[trigger] modes[i]).1 == profile,
{
    let all = seq![baseline] + Seq::new(modes.len(), |i: int| modes[i].1);
    crate::ordering::law_text_set(all);
    if all.contains(profile) {
        let k = choose|k: int| 0 <= k < all.len() && all[k] == profile;
        if k > 0 {
            assert(modes[k - 1].1 == profile);
        }
    }
    if profile == baseline {
        assert(all[0] == profile);
    }
    if exists|i: int| 0 <= i < modes.len() && (#[trigger] modes[i]).1 == profile {
        let i = choose|i: int| 0 <= i < modes.len() && (#[trigger] modes[i]).1 == profile;
        assert(all[i + 1] == profile);
    }
}

/// The mode of a revision is the first one that has it.
pub proof fn law_modes_are_found_by_revision(revisions: Seq<ModeRevision>, revision: Seq<char>)
    ensures
        match mode_with(revisions, revision) {
            Some(mode) => exists|i: int|
                0 <= i < revisions.len() && (#[trigger] revisions[i]).revision@ == revision
                    && revisions[i].mode@ == mode && forall|j: int|
                    0 <= j < i ==> (#[trigger] revisions[j]).revision@ != revision,
            None => forall|j: int|
                0 <= j < revisions.len() ==> (#[trigger] revisions[j]).revision@ != revision,
        },
    decreases revisions.len(),
{
    if revisions.len() > 0 && revisions[0].revision@ != revision {
        let rest = revisions.skip(1);
        law_modes_are_found_by_revision(rest, revision);
        match mode_with(rest, revision) {
            Some(mode) => {
                let i = choose|i: int|
                    0 <= i < rest.len() && (#[trigger] rest[i]).revision@ == revision
                        && rest[i].mode@ == mode && forall|j: int|
                        0 <= j < i ==> (#[trigger] rest[j]).revision@ != revision;
                assert(revisions[i + 1] == rest[i]);
                assert forall|j: int| 0 <= j < i + 1 implies (#[trigger] revisions[j]).revision@
                    != revision by {
                    if j > 0 {
                        assert(rest[j - 1] == revisions[j]);
                    }
                }
            },
            None => {
                assert forall|j: int| 0 <= j < revisions.len() implies (
                #[trigger] revisions[j]).revision@ != revision by {
                    if j > 0 {
                        assert(rest[j - 1] == revisions[j]);
                    }
                }
            },
        }
    } else if revisions.len() > 0 {
        assert(revisions[0].revision@ == revision);
    }
}

/// The modes of a draft are shown one by one.
pub proof fn law_shown_modes_by_place(draft: WorkflowDraft, i: int)
    requires
        0 <= i < draft.modes@.len(),
    ensures
        shown_modes(draft@.modes).len() == draft.modes@.len(),
        shows_only(shown_modes(draft@.modes)[i], 2),
        shows(shown_modes(draft@.modes)[i], "name"@, JsonView::Text(draft.modes@[i].name@)),
        shows(
            shown_modes(draft@.modes)[i],
            "profileId"@,
            JsonView::Text(draft.modes@[i].profile_id@),
        ),
{
    let shown = shown_modes(draft@.modes)[i];
    assert(mode_views(draft.modes@)[i] == (draft.modes@[i].name@, draft.modes@[i].profile_id@));
    lemma_shows_all(shown);
    let at = shown->Object_0;
    assert(at[0] == at[0] && at[1] == at[1]);
}

/// A draft is shown whole.
pub proof fn law_drafts_are_shown_whole(draft: WorkflowDraft)
    ensures
        ({
            let shown = draft_value(draft@);
            &&& shows(shown, "workflowId"@, JsonView::Text(draft.workflow_id@))
            &&& shows(shown, "displayName"@, JsonView::Text(draft.display_name@))
            &&& shows(
                shown,
                "description"@,
                match draft.description {
                    Some(text) => JsonView::Text(text@),
                    None => JsonView::Null,
                },
            )
            &&& shows(shown, "provider"@, JsonView::Text(draft.provider@))
            &&& shows(shown, "baselineProfileId"@, JsonView::Text(draft.baseline_profile_id@))
            &&& shows(shown, "entryMode"@, JsonView::Text(draft.entry_mode@))
            &&& shows(shown, "workflowRevision"@, JsonView::Text(draft.workflow_revision@))
        }),
{
    let shown = draft_value(draft@);
    lemma_shows_all(shown);
    let at = shown->Object_0;
    assert(at[0] == at[0] && at[1] == at[1] && at[2] == at[2] && at[3] == at[3] && at[4] == at[4]
        && at[5] == at[5] && at[6] == at[6] && at[7] == at[7]);
}

/// A session is shown with the workflow that it runs: the mode that is desired
/// beside the mode that is observed.
pub proof fn law_sessions_show_their_workflow(lease: WorkflowLease, operations: Seq<JsonView>)
    requires
        lease.workflow is Some,
    ensures
        ({
            let shown = session_view(lease, operations);
            &&& shows_only(shown, 12)
            &&& shows(shown, "sessionId"@, JsonView::Text(lease.session_id@))
            &&& shows(shown, "workflowId"@, JsonView::Text(lease.workflow->0.workflow_id@))
            &&& shows(shown, "proposalId"@, JsonView::Text(lease.workflow->0.proposal_id@))
            &&& shows(shown, "desiredMode"@, JsonView::Text(lease.workflow->0.active_mode@))
            &&& shows(
                shown,
                "observedMode"@,
                match mode_with(lease.workflow->0.profile_revisions@, lease.observed_revision@) {
                    Some(mode) => JsonView::Text(mode),
                    None => JsonView::Null,
                },
            )
            &&& shows(shown, "desiredExposureRevision"@, JsonView::Text(lease.desired_revision@))
            &&& shows(shown, "observedExposureRevision"@, JsonView::Text(lease.observed_revision@))
            &&& shows(shown, "stateSequence"@, JsonView::Unsigned(lease.state_sequence))
            &&& shows(shown, "admissionOpen"@, JsonView::Bool(lease.admission_open))
            &&& shows(shown, "operationHistory"@, JsonView::Array(operations))
        }),
{
    let shown = session_view(lease, operations);
    lemma_shows_all(shown);
    let at = shown->Object_0;
    assert(at[0] == at[0] && at[1] == at[1] && at[2] == at[2] && at[3] == at[3] && at[4] == at[4]
        && at[5] == at[5] && at[6] == at[6] && at[7] == at[7] && at[8] == at[8] && at[9] == at[9]
        && at[10] == at[10] && at[11] == at[11]);
}

/// The status of a session says what it runs and whether it must be recovered;
/// without a session it says that there is none.
pub proof fn law_statuses_show_the_session(lease: WorkflowLease)
    ensures
        ({
            let shown = status_view(Some(lease));
            &&& shows_only(shown, 9)
            &&& shows(shown, "sessionId"@, JsonView::Text(lease.session_id@))
            &&& lease.workflow is Some ==> shows(
                shown,
                "workflowId"@,
                JsonView::Text(lease.workflow->0.workflow_id@),
            )
            &&& lease.workflow is Some ==> shows(
                shown,
                "desiredMode"@,
                JsonView::Text(lease.workflow->0.active_mode@),
            )
            &&& shows(
                shown,
                "observedMode"@,
                match observed_mode(lease) {
                    Some(mode) => JsonView::Text(mode),
                    None => JsonView::Null,
                },
            )
            &&& shows(
                shown,
                "activeMode"@,
                match observed_mode(lease) {
                    Some(mode) => JsonView::Text(mode),
                    None => JsonView::Null,
                },
            )
            &&& shows(shown, "stateSequence"@, JsonView::Unsigned(lease.state_sequence))
            &&& shows(shown, "liveStatus"@, lease.live_status@)
            &&& shows(shown, "admissionOpen"@, JsonView::Bool(lease.admission_open))
            &&& shows(shown, "recoveryRequired"@, JsonView::Bool(needs_recovery(lease)))
        }),
        ({
            let shown = status_view(None);
            &&& shows_only(shown, 7)
            &&& shows(shown, "activeMode"@, JsonView::Null)
            &&& shows(shown, "desiredMode"@, JsonView::Null)
            &&& shows(shown, "observedMode"@, JsonView::Null)
            &&& shows(shown, "stateSequence"@, JsonView::Null)
            &&& shows(shown, "liveStatus"@, JsonView::Text("no-session"@))
            &&& shows(shown, "admissionOpen"@, JsonView::Bool(false))
            &&& shows(shown, "recoveryRequired"@, JsonView::Bool(false))
        }),
{
    let shown = status_view(Some(lease));
    lemma_shows_all(shown);
    let at = shown->Object_0;
    assert(at[0] == at[0] && at[1] == at[1] && at[2] == at[2] && at[3] == at[3] && at[4] == at[4]
        && at[5] == at[5] && at[6] == at[6] && at[7] == at[7] && at[8] == at[8]);
    let none = status_view(None);
    lemma_shows_all(none);
    let of = none->Object_0;
    assert(of[0] == of[0] && of[1] == of[1] && of[2] == of[2] && of[3] == of[3] && of[4] == of[4]
        && of[5] == of[5] && of[6] == of[6]);
}

/// Recovery shows what is pending, and says so exactly if something is.
pub proof fn law_recovery_shows_what_is_pending(
    lease: Option<WorkflowLease>,
    operations: Seq<JsonView>,
)
    ensures
        ({
            let shown = recovery_view(lease, operations);
            let required = (lease is Some && needs_recovery(lease->0)) || operations.len() > 0;
            &&& shows_only(shown, 5)
            &&& shows(shown, "recoveryRequired"@, JsonView::Bool(required))
            &&& required ==> shows(shown, "status"@, JsonView::Text("recovery-required"@))
            &&& !required ==> shows(shown, "status"@, JsonView::Text("ready"@))
            &&& shows(shown, "operations"@, JsonView::Array(operations))
            &&& lease is Some ==> shows(shown, "session"@, session_view(lease->0, operations))
            &&& lease is None ==> shows(shown, "session"@, JsonView::Null)
        }),
{
    let shown = recovery_view(lease, operations);
    lemma_shows_all(shown);
    let at = shown->Object_0;
    assert(at[0] == at[0] && at[1] == at[1] && at[2] == at[2] && at[3] == at[3] && at[4] == at[4]);
}

/// The overview shows every draft, in the order of their ids, and the selected
/// one beside them.
pub proof fn law_overviews_show_every_draft(
    workflows: Map<Seq<char>, DraftView>,
    keys: Seq<Seq<char>>,
    lease: Option<WorkflowLease>,
    operations: Seq<JsonView>,
)
    ensures
        draft_values(workflows, keys).len() == keys.len(),
        forall|i: int|
            0 <= i < keys.len() ==> #[trigger] draft_values(workflows, keys)[i] == draft_value(
                workflows[keys[i]],
            ),
        ({
            let shown = workflows_view(workflows, keys, lease, operations);
            let selected = selected_id(lease, keys);
            &&& shows_only(shown, 7)
            &&& shows(shown, "workflows"@, JsonView::Array(draft_values(workflows, keys)))
            &&& shows(shown, "status"@, status_view(lease))
            &&& lease is Some ==> shows(shown, "session"@, session_view(lease->0, operations))
            &&& lease is None ==> shows(shown, "session"@, JsonView::Null)
            &&& selected is Some ==> shows(
                shown,
                "selectedWorkflowId"@,
                JsonView::Text(selected->0),
            )
            &&& selected is None ==> shows(shown, "selectedWorkflowId"@, JsonView::Null)
            &&& selected is Some && workflows.contains_key(selected->0) ==> shows(
                shown,
                "workflow"@,
                draft_value(workflows[selected->0]),
            )
            &&& selected is None || !workflows.contains_key(selected->0) ==> shows(
                shown,
                "workflow"@,
                JsonView::Null,
            )
            &&& shows(shown, "operations"@, JsonView::Array(operations))
            &&& shows(
                shown,
                "recoveryRequired"@,
                JsonView::Bool((lease is Some && needs_recovery(lease->0)) || operations.len() > 0),
            )
        }),
{
    let shown = workflows_view(workflows, keys, lease, operations);
    lemma_shows_all(shown);
    let at = shown->Object_0;
    assert(at[0] == at[0] && at[1] == at[1] && at[2] == at[2] && at[3] == at[3] && at[4] == at[4]
        && at[5] == at[5] && at[6] == at[6]);
}

/// Each profile that a workflow needs is loaded and then compiled.
pub proof fn law_every_profile_is_compiled(profiles: nat)
    ensures
        profile_stages(profiles).len() == 2 * profiles,
        forall|i: int|
            0 <= i < 2 * profiles ==> #[trigger] profile_stages(profiles)[i] == if i % 2 == 0 {
                WorkflowStage::LoadProfile
            } else {
                WorkflowStage::CompileProfile
            },
        compile_stages_for(profiles).len() == 2 * profiles + 6,
        proposal_stages_for(profiles).len() == 2 * profiles + 10,
        launch_stages_for(profiles).len() == 2 * profiles + 20,
        proposal_stages_for(profiles).take((2 * profiles + 6) as int) == compile_stages_for(profiles),
        launch_stages_for(profiles).take((2 * profiles + 6) as int) == compile_stages_for(profiles),
    decreases profiles,
{
    if profiles > 0 {
        law_every_profile_is_compiled((profiles - 1) as nat);
    }
    let n = (2 * profiles + 6) as int;
    assert(proposal_stages_for(profiles).take(n) =~= compile_stages_for(profiles));
    assert(launch_stages_for(profiles).take(n) =~= compile_stages_for(profiles));
}

/// Work goes on stage by stage, ends after the last one, and stops where a stage
/// fails, with the code of that stage.
pub proof fn law_stages_are_taken_in_turn(stages: Seq<WorkflowStage>, at: int)
    requires
        0 <= at < stages.len(),
    ensures
        at + 1 < stages.len() ==> stage_outcome(stages, at, true) == Ok::<Option<int>, Seq<char>>(
            Some(at + 1),
        ),
        at + 1 == stages.len() ==> stage_outcome(stages, at, true) == Ok::<Option<int>, Seq<char>>(
            None,
        ),
        stage_outcome(stages, at, false) == Err::<Option<int>, Seq<char>>(
            match stages[at] {
                WorkflowStage::ValidateDefinition => "workflow-validation-failed"@,
                WorkflowStage::Discover => "discovery-unavailable"@,
                WorkflowStage::BuildCatalog => "catalog-unavailable"@,
                WorkflowStage::LoadProfile => "workflow-profile-unavailable"@,
                WorkflowStage::CompileProfile => "workflow-profile-invalid"@,
                WorkflowStage::LoadPolicy => "workflow-policy-unavailable"@,
                WorkflowStage::CompileLocks => "workflow-policy-invalid"@,
                WorkflowStage::CompileWorkflow => "workflow-validation-failed"@,
                WorkflowStage::WorkspaceIdentity => "workspace-identity-unavailable"@,
                WorkflowStage::BuildProposal => "workflow-proposal-invalid"@,
                WorkflowStage::CompareProposal => "workflow-proposal-stale"@,
                WorkflowStage::MaterializeRevision => "workflow-revision-unavailable"@,
                WorkflowStage::EntryProfile => "workflow-entry-profile-missing"@,
                WorkflowStage::SessionKey => "workflow-session-authority-unavailable"@,
                WorkflowStage::BackupKey => "workflow-backup-authority-unavailable"@,
                WorkflowStage::Spawn | WorkflowStage::Establish => "workflow-launch-failed"@,
                WorkflowStage::Confirm => "workflow-launch-unconfirmed"@,
                WorkflowStage::ReadSession => "workflow-session-unavailable"@,
                WorkflowStage::ReadOperations => "workflow-operation-history-unavailable"@,
                WorkflowStage::EnterMode => "workflow-transition-blocked"@,
                WorkflowStage::CancelTransition => "workflow-cancel-blocked"@,
            },
        ),
{
}

/// A command is read part by part: between one and 128 of them, each a text that
/// is neither empty nor longer than 16 KiB.
pub proof fn law_commands_are_read_in_order(params: JsonView, command: Seq<Seq<char>>)
    requires
        command_in(params) == Ok::<Seq<Seq<char>>, Seq<char>>(command),
    ensures
        field(params, "hostCommand"@) is Some,
        field(params, "hostCommand"@)->0 is Array,
        command.len() == field(params, "hostCommand"@)->0->Array_0.len(),
        1 <= command.len() <= 128,
        forall|i: int|
            0 <= i < command.len() ==> field(params, "hostCommand"@)->0->Array_0[i]
                == JsonView::Text(#[trigger] command[i]) && 0 < command[i].len() && utf8_len(
                command[i],
            ) <= 16 * 1024,
{
    let list = field(params, "hostCommand"@)->0->Array_0;
    assert forall|i: int| 0 <= i < command.len() implies list[i] == JsonView::Text(
        #[trigger] command[i],
    ) && 0 < command[i].len() && utf8_len(command[i]) <= 16 * 1024 by {
        assert(crate::workflow::command_part(list[i]) is Some);
    }
}

/// A session is found by its id, the first one that has it, and in one place
/// only.
pub proof fn law_sessions_are_found_once(
    leases: Seq<WorkflowLease>,
    id: Seq<char>,
    a: Option<usize>,
    b: Option<usize>,
)
    requires
        is_session_at(leases, id, a),
        is_session_at(leases, id, b),
    ensures
        a == b,
        a is Some ==> a->0 < leases.len() && leases[a->0 as int].session_id@ == id,
        a is None ==> forall|j: int|
            0 <= j < leases.len() ==> (#[trigger] leases[j]).session_id@ != id,
{
    if a is Some && b is Some {
        if a->0 < b->0 {
            assert(leases[a->0 as int].session_id@ != id);
        }
        if b->0 < a->0 {
            assert(leases[b->0 as int].session_id@ != id);
        }
    }
    if a is Some && b is None {
        assert(leases[a->0 as int].session_id@ != id);
    }
    if b is Some && a is None {
        assert(leases[b->0 as int].session_id@ != id);
    }
}

/// A lease that was read is seen as it is, and one that was not by its code.
pub proof fn law_leases_are_seen(lease: &WorkflowLease, code: &'static str)
    ensures
        read_lease(Ok(lease)) == Ok::<WorkflowLease, Seq<char>>(*lease),
        read_lease(Err(code)) == Err::<WorkflowLease, Seq<char>>(code@),
        seen_lease(Some(lease)) == Some(*lease),
        seen_lease(None) is None,
{
}

} // verus!
