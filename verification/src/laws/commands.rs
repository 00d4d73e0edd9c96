//! Commands: what their arguments select, how a failure ends them, and what they
//! list.
use vstd::prelude::*;

use crate::agent_plugin::{
    lifecycle_guidance_text, package_summary_value_view, plan_counts_view, plan_review_view,
    result_counts_view, ApplyItem, PackagePlan, PluginPackage,
};
use crate::commands::agent_plugins::{
    bare_fingerprint, handoff_reason, missing_package_view, package_reach, package_status_view,
    plan_error_code_text, plan_reason_code_text, projection_current, safe_reason, stop_at,
    stop_exit, stop_reason, BulkTogglePlanError, PackageCommand, PackageRequestError,
    PackageStepFailure, PackageStop, ProviderChoice,
};
use crate::commands::catalog::{is_item, short_fingerprint, DiscoveredItem};
use crate::commands::flow::{
    blocking, coded_exit, failing, move_after, recovering, requiring_recovery, review, status_name,
    step_at, CommandExit, CommandStatus, CommandStep, EventView, FailureClass, MoveView,
    ReviewOutcome, StepRule,
};
use crate::commands::gateway::{
    move_after_match, pending_matches, GatewayPlanKey, GatewayRequest, PlanSource,
};
use crate::commands::group::{
    challenge_in, challenge_read_text, member_in, member_texts, member_views, members_in,
    scope_named, ChallengeReadFailure, GroupMember, GroupScope, MemberText, MemberTextView,
    MemberView,
};
use crate::commands::hook::{
    listed_hooks, trust_holds, DiscoveredHook, HookHandler, HookTrustRecord,
};
use crate::commands::parties::{actor_name, owner_name, ReviewedChange};
use crate::commands::profile::{
    apply_policy_profile_rules, apply_profile_rules, apply_profile_with_reach_rules,
    change_error_status, chosen_definition, environment_file, providers_with_locks,
    ProfileSourceScope, ProviderLocks,
};
use crate::commands::session::{
    origin_named, pinned, workspace_summaries, PinnedProfile, PinnedView, SessionRow,
};
use crate::commands::toggle::{
    lifecycle_text, plan_error_status, DiscoveryKind, ProviderReachArg, ProviderReachInput,
    ProviderReachLifecycle, ReachView,
};
use crate::commands::workflow::{
    candidate_view, candidate_views, move_after_ranking, mutation_error, requested_mutation,
    selection_required_view, MutationArguments, MutationRequest, NamedDefinition, ProposalStart,
    RankedWorkflow,
};
use crate::json::{field, text_in, JsonView};
use crate::laws::shown::{lemma_shows_all, shows, shows_only};
use crate::laws::texts::{group_occurs, law_parts_are_joined_again, rejoined};
use crate::laws::toggle::{names_category, names_kind, names_layer};
use crate::provider_roots::ProviderId;
use crate::text::{cut, occurs, optional, stands_at, trimmed};

verus! {

/// A reason is shown as it is exactly if it is a short code of small letters,
/// digits and hyphens.
pub proof fn law_plain_reasons_are_shown(reason: Seq<char>)
    ensures
        0 < reason.len() <= 128 && (forall|i: int|
            0 <= i < reason.len() ==> 'a' <= #[trigger] reason[i] <= 'z' || '0' <= reason[i] <= '9'
                || reason[i] == '-') ==> safe_reason(reason) == reason,
        reason.len() == 0 || reason.len() > 128 ==> safe_reason(reason)
            == "redacted-operation-reason"@,
        (exists|i: int|
            0 <= i < reason.len() && !('a' <= #[trigger] reason[i] <= 'z') && !('0' <= reason[i]
                <= '9') && reason[i] != '-') ==> safe_reason(reason)
            == "redacted-operation-reason"@,
{
    if exists|i: int|
        0 <= i < reason.len() && !('a' <= #[trigger] reason[i] <= 'z') && !('0' <= reason[i] <= '9')
            && reason[i] != '-' {
        let i = choose|i: int|
            0 <= i < reason.len() && !('a' <= #[trigger] reason[i] <= 'z') && !('0' <= reason[i]
                <= '9') && reason[i] != '-';
        assert(!crate::commands::agent_plugins::code_char(reason[i]));
    }
}

/// A package is changed within the reach that was chosen: all providers, with
/// none named, or the one that was named.
pub proof fn law_package_reach_is_as_chosen(
    request: Result<(), BulkTogglePlanError>,
    reach: Option<ProviderReachArg>,
    choice: ProviderChoice,
    provider: Seq<char>,
    input: ProviderReachInput,
)
    ensures
        package_reach(request, reach, choice, provider) == Ok::<ReachView, PackageRequestError>(
            input@,
        ) <==> request is Ok && match input {
            ProviderReachInput::All => reach == Some(ProviderReachArg::All) && choice is Missing,
            ProviderReachInput::Selected { provider: selected } => reach == Some(
                ProviderReachArg::Selected,
            ) && choice is Known && selected@ == provider,
            ProviderReachInput::Omitted => false,
        },
        request is Err ==> package_reach(request, reach, choice, provider) == Err::<
            ReachView,
            PackageRequestError,
        >(PackageRequestError::Core(request->Err_0)),
        request is Ok && reach is None ==> package_reach(request, reach, choice, provider)
            == Err::<ReachView, PackageRequestError>(PackageRequestError::ReachRequired),
{
}

/// A handoff that failed for a key tells which key to make.
pub proof fn law_missing_keys_are_named(message: Seq<char>)
    ensures
        occurs(message, "backup authentication key missing"@) ==> handoff_reason(message)
            == "backup authentication key missing; run `unpin auth backup init`"@,
        !occurs(message, "backup authentication key missing"@) && occurs(
            message,
            "session authority key missing"@,
        ) ==> handoff_reason(message)
            == "session authority key missing; run `unpin auth session init`"@,
        !occurs(message, "backup authentication key missing"@) && !occurs(
            message,
            "session authority key missing"@,
        ) ==> handoff_reason(message)
            == "durable package handoff is unavailable; refresh credentials and discovery before retrying"@,
{
}

/// The code of a plan that was refused, for the desktop and for the command line.
pub proof fn law_refused_plans_have_codes(error: BulkTogglePlanError)
    ensures
        error is AgentPluginNotFound ==> plan_error_code_text(error) == "agent-plugin-not-found"@
            && plan_reason_code_text(error) == "agent-plugin-not-found"@,
        error is AgentPluginHasNoActivationAnchors ==> plan_error_code_text(error)
            == "agent-plugin-no-activation-anchors"@ && plan_reason_code_text(error)
            == "no-native-activation-anchors"@,
        error is AgentPluginInventoryIncomplete ==> plan_error_code_text(error)
            == "agent-plugin-inventory-incomplete"@ && plan_reason_code_text(error)
            == "agent-plugin-inventory-incomplete"@,
        error is AgentPluginHasDiagnosticsOnlyActivationAnchors ==> plan_error_code_text(error)
            == "agent-plugin-diagnostics-only-writable-activation"@ && plan_reason_code_text(error)
            == "diagnostics-only-writable-activation"@,
        error is AgentPluginHasNoActionableActivationAnchors ==> plan_error_code_text(error)
            == "agent-plugin-no-actionable-activation"@ && plan_reason_code_text(error)
            == "diagnostics-only-no-actionable-activation"@,
        error is SelectionContextFingerprintMismatch ==> plan_error_code_text(error)
            == "agent-plugin-projection-changed"@ && plan_reason_code_text(error)
            == "package-projection-changed"@,
        error is PlanFingerprintMismatch ==> plan_error_code_text(error)
            == "plan-fingerprint-mismatch"@ && plan_reason_code_text(error)
            == "plan-fingerprint-mismatch"@,
        error is NoTargetsInProviderReach ==> plan_error_code_text(error)
            == "no-targets-in-provider-reach"@ && plan_reason_code_text(error)
            == "no-targets-in-provider-reach"@,
        error is Other ==> plan_error_code_text(error) == "agent-plugin-plan-unavailable"@
            && plan_reason_code_text(error) == "package-plan-blocked"@,
{
}

/// A command on a package that stops says why, and fails only where nothing
/// could be discovered.
pub proof fn law_stopped_commands_say_why(stop: PackageStop)
    ensures
        stop_exit(stop) == 1 <==> stop is DiscoveryFailed,
        stop_exit(stop) == 3 <==> !(stop is DiscoveryFailed),
        stop_reason(stop).0 == match stop {
            PackageStop::NotConfirmed => "confirmation-required"@,
            PackageStop::PackageNotFound => "agent-plugin-not-found"@,
            PackageStop::PackageRefreshRequired => "package-refresh-required"@,
            PackageStop::FingerprintMismatch => "plan-fingerprint-mismatch"@,
            PackageStop::SealedRootsUnavailable => "sealed-root-binding-unavailable"@,
            PackageStop::ProjectionChanged => "package-projection-changed"@,
            PackageStop::ApprovalUnavailable => "approval-unavailable"@,
            PackageStop::SessionAuthorityMissing => "session-authority-missing"@,
            PackageStop::SessionAuthorityUnavailable => "session-authority-unavailable"@,
            PackageStop::DiscoveryFailed => "discovery-failed"@,
            PackageStop::Handoff(_) => "handoff-unavailable"@,
            PackageStop::Request(PackageRequestError::Core(error)) => plan_reason_code_text(error),
            PackageStop::Request(PackageRequestError::ReachRequired) => "provider-reach-required"@,
            PackageStop::Request(PackageRequestError::Reach) => "selected-provider-required"@,
            PackageStop::Request(
                PackageRequestError::InvalidProvider,
            ) => "invalid-selected-provider"@,
            PackageStop::Request(
                PackageRequestError::ProviderWithAllReach,
            ) => "provider-conflicts-with-all-reach"@,
        },
        match stop {
            PackageStop::Handoff(message) => stop_reason(stop).1 == handoff_reason(message@),
            _ => true,
        },
{
}

/// A step that fails stops a command on a package for the reason that belongs to
/// the step.
pub proof fn law_steps_stop_for_their_reason(command: PackageCommand, failure: PackageStepFailure)
    ensures
        stop_at(command, CommandStep::Confirm, failure) is NotConfirmed,
        stop_at(command, CommandStep::Discover, failure) is DiscoveryFailed,
        stop_at(command, CommandStep::MatchHandoff, failure) is FingerprintMismatch,
        stop_at(command, CommandStep::RootBinding, failure) is SealedRootsUnavailable,
        stop_at(command, CommandStep::MatchPackage, failure) is ProjectionChanged,
        stop_at(command, CommandStep::Authorize, failure) is ApprovalUnavailable,
        stop_at(command, CommandStep::FindPackage, failure) is PackageRefreshRequired <==> command
            is Apply,
        stop_at(command, CommandStep::FindPackage, failure) is PackageNotFound <==> !(command
            is Apply),
        failure is Missing <==> stop_at(command, CommandStep::SessionKey, failure)
            is SessionAuthorityMissing,
        match failure {
            PackageStepFailure::Refused(error) => stop_at(command, CommandStep::PlanChange, failure)
                == PackageStop::Request(error),
            PackageStepFailure::Other(message) => stop_at(command, CommandStep::Apply, failure)
                == PackageStop::Handoff(message),
            PackageStepFailure::Missing => true,
        },
{
}

/// A fingerprint is the same with and without its prefix.
pub proof fn law_prefixes_do_not_matter(fingerprint: Seq<char>)
    ensures
        bare_fingerprint("sha256:"@ + fingerprint) == fingerprint,
        !stands_at(fingerprint, "sha256:"@, 0) ==> bare_fingerprint(fingerprint) == fingerprint,
{
    reveal_strlit("sha256:");
    let long = "sha256:"@ + fingerprint;
    assert(long.subrange(0, 7) =~= "sha256:"@);
    assert(stands_at(long, "sha256:"@, 0));
    assert(long.skip(7) =~= fingerprint);
}

/// A package is as it was reviewed exactly if it is there under the fingerprint
/// that was reviewed.
pub proof fn law_reviewed_packages_are_current(package: PluginPackage, reviewed: Option<Seq<char>>)
    ensures
        projection_current(Some(package), reviewed) <==> reviewed is Some && reviewed->0
            == package.projection_fingerprint@,
        !projection_current(None, reviewed),
{
}

/// The status of a package says what came of its plan and whether it must be
/// planned again.
pub proof fn law_package_status_is_shown(
    package: Option<PluginPackage>,
    logical_id: Seq<char>,
    plan: PackagePlan,
    reviewed: Option<Seq<char>>,
    lifecycle: ProviderReachLifecycle,
    items: Option<Seq<ApplyItem>>,
)
    ensures
        ({
            let shown = package_status_view(package, logical_id, plan, reviewed, lifecycle, items);
            let current = package is Some && reviewed == Some(
                package->0.projection_fingerprint@,
            );
            &&& shows_only(shown, 15)
            &&& shows(shown, "statusVersion"@, JsonView::Unsigned(1))
            &&& shows(shown, "status"@, JsonView::Text(lifecycle_text(lifecycle)))
            &&& shows(shown, "operationId"@, JsonView::Text(plan.operation_id@))
            &&& shows(shown, "planFingerprint"@, JsonView::Text(plan.plan_fingerprint@))
            &&& shows(shown, "providerReach"@, plan.provider_reach@)
            &&& shows(shown, "targetEnabled"@, JsonView::Bool(plan.target_enabled))
            &&& package is Some ==> shows(
                shown,
                "package"@,
                package_summary_value_view(package->0),
            )
            &&& package is None ==> shows(shown, "package"@, missing_package_view(logical_id))
            &&& shows(shown, "projectionMatchesReview"@, JsonView::Bool(current))
            &&& current ==> shows(shown, "refreshStatus"@, JsonView::Text("complete"@))
            &&& !current ==> shows(shown, "refreshStatus"@, JsonView::Text("required"@))
            &&& shows(shown, "refreshRequired"@, JsonView::Bool(!current))
            &&& shows(shown, "replanRequired"@, JsonView::Bool(!current))
            &&& shows(shown, "counts"@, plan_counts_view(package, plan))
            &&& shows(shown, "review"@, plan_review_view(package, plan))
            &&& items is Some ==> shows(shown, "resultCounts"@, result_counts_view(items->0))
            &&& items is None ==> shows(shown, "resultCounts"@, JsonView::Null)
            &&& shows(shown, "guidance"@, JsonView::Text(lifecycle_guidance_text(lifecycle)))
        }),
{
    let shown = package_status_view(package, logical_id, plan, reviewed, lifecycle, items);
    lemma_shows_all(shown);
    let at = shown->Object_0;
    assert(at[0] == at[0] && at[1] == at[1] && at[2] == at[2] && at[3] == at[3] && at[4] == at[4]
        && at[5] == at[5] && at[6] == at[6] && at[7] == at[7] && at[8] == at[8] && at[9] == at[9]
        && at[10] == at[10] && at[11] == at[11] && at[12] == at[12] && at[13] == at[13] && at[14]
        == at[14]);
}

/// An operation is named after the start of a fingerprint, at most twenty-four
/// characters of it.
pub proof fn law_short_fingerprints_are_starts(fingerprint: Seq<char>)
    ensures
        short_fingerprint(fingerprint).len() <= 24,
        fingerprint.len() >= 24 ==> short_fingerprint(fingerprint).len() == 24,
        fingerprint.len() < 24 ==> short_fingerprint(fingerprint) == fingerprint,
        forall|i: int|
            0 <= i < short_fingerprint(fingerprint).len() ==> #[trigger] short_fingerprint(
                fingerprint,
            )[i] == fingerprint[i],
{
}

/// An item is the one that was asked for if its provider and its id are, and its
/// kind where one was given.
pub proof fn law_items_are_found_by_all(
    item: DiscoveredItem,
    provider: ProviderId,
    kind: DiscoveryKind,
    id: Seq<char>,
)
    ensures
        is_item(item, provider, None, id) <==> item.provider == provider && item.id@ == id,
        is_item(item, provider, Some(kind), id) <==> item.provider == provider && item.id@ == id
            && item.kind == kind,
{
}

/// What a rule says of its step.
pub proof fn law_rules_say_how_steps_fail(step: CommandStep, code: u8)
    ensures
        failing(step).step == step && failing(step).status is Failed && failing(step).exit
            is General && !failing(step).recoverable,
        blocking(step).step == step && blocking(step).status is Blocked && blocking(step).exit
            is General && !blocking(step).recoverable,
        recovering(step).step == step && recovering(step).status is Blocked && recovering(step).exit
            is General && recovering(step).recoverable,
        requiring_recovery(step).step == step && requiring_recovery(step).status is RecoveryRequired
            && requiring_recovery(step).exit is General && !requiring_recovery(step).recoverable,
        coded_exit(failing(step), code).exit == CommandExit::Code(code),
        coded_exit(failing(step), code).step == step,
        coded_exit(failing(step), code).status is Failed,
        coded_exit(blocking(step), code).status is Blocked,
        coded_exit(recovering(step), code).recoverable,
{
}

/// A plan goes on exactly if it is to be applied, was confirmed, and is the one
/// that was reviewed; without a wish to apply it is only shown.
pub proof fn law_plans_go_on_when_reviewed(
    apply: bool,
    confirm: bool,
    reviewed: Option<Seq<char>>,
    planned: Seq<char>,
)
    ensures
        review(apply, confirm, reviewed, planned) is Proceed <==> apply && confirm && reviewed
            is Some && reviewed->0 == planned,
        review(apply, confirm, reviewed, planned) is Planned <==> !apply,
        review(apply, confirm, reviewed, planned) is ConfirmationRequired <==> apply && !confirm,
        review(apply, confirm, reviewed, planned) is FingerprintMismatch <==> apply && confirm && !(
        reviewed is Some && reviewed->0 == planned),
{
}

/// A step that is done leads to the next one, and the last one to the end; a
/// review is passed only by its own answer.
pub proof fn law_steps_lead_on(rules: Seq<StepRule>, at: int)
    requires
        0 <= at < rules.len(),
    ensures
        !(rules[at].step is Review) && at + 1 < rules.len() ==> move_after(
            rules,
            at,
            EventView::Done,
        ) == MoveView::Perform(rules[at + 1].step),
        !(rules[at].step is Review) && at + 1 == rules.len() ==> move_after(
            rules,
            at,
            EventView::Done,
        ) is Finish,
        rules[at].step is Review ==> move_after(rules, at, EventView::Done) is Stop,
        at + 1 < rules.len() ==> move_after(
            rules,
            at,
            EventView::Reviewed(ReviewOutcome::Proceed),
        ) == MoveView::Perform(rules[at + 1].step),
        move_after(rules, at, EventView::Reviewed(ReviewOutcome::Planned)) is ShowPlan,
        step_at(rules, 0) == MoveView::Perform(rules[0].step),
{
}

/// A step that fails ends the command with its message, the status of its rule,
/// and the exit of its rule; where the step can leave something behind, the
/// status says so.
pub proof fn law_failures_end_commands(
    rules: Seq<StepRule>,
    at: int,
    message: Seq<char>,
    class: FailureClass,
)
    requires
        0 <= at < rules.len(),
    ensures
        ({
            let end = move_after(rules, at, EventView::Failed { message, class });
            let rule = rules[at];
            &&& end is Stop
            &&& end->message == message
            &&& !rule.recoverable || class is Plain ==> end->status == (match rule.status {
                CommandStatus::Failed => "failed"@,
                CommandStatus::Blocked => "blocked"@,
                CommandStatus::RecoveryRequired => "recovery-required"@,
                CommandStatus::Draining => "draining"@,
                CommandStatus::NoTargets => "no-targets"@,
            }) && end->exit == rule.exit
            &&& rule.recoverable && class is RecoveryRequired ==> end->status
                == "recovery-required"@ && (rule.exit is Code ==> end->exit == CommandExit::Code(4))
                && (rule.exit is General ==> end->exit is General)
            &&& rule.recoverable && class is Draining ==> end->status == "draining"@ && end->exit
                == rule.exit
            &&& rule.recoverable && class is NoTargets ==> end->status == "no-targets"@ && end->exit
                == rule.exit
        }),
        ({
            let end = move_after(rules, at, EventView::Missing);
            &&& end is Stop
            &&& end->status == status_name(rules[at].status)
            &&& end->exit == rules[at].exit
        }),
{
}

/// What is missing is named: the keys with the command that makes them.
pub proof fn law_missing_things_are_named(step: CommandStep)
    ensures
        ({
            let text = crate::commands::flow::missing_text(step);
            &&& step is Confirm ==> text == "confirmation-required"@
            &&& step is ParseProvider ==> text == "unsupported provider"@
            &&& step is ParseSelectedProvider ==> text == "unsupported selected provider"@
            &&& step is LoadProfile ==> text == "profile not found"@
            &&& step is LoadWorkflow ==> text == "workflow not found"@
            &&& step is MatchHandoff ==> text == "plan-fingerprint-mismatch"@
            &&& step is FindItem ==> text == "provider item not found"@
            &&& step is FindCapability ==> text == "catalog capability not found"@
            &&& step is FindHook ==> text == "hook not found"@
            &&& step is LockRevision ==> text == "capability-lock-revision-mismatch"@
            &&& step is SessionKey ==> text
                == "session authority key missing; run `unpin auth session init`"@
            &&& step is BackupKey || step is OpenStore ==> text
                == "backup authentication key missing; run `unpin auth backup init`"@
            &&& step is FindOperation ==> text == "group operation was not found"@
            &&& step is LoadHistory ==> text == "group history record was not found"@
            &&& step is PriorDefinition ==> text == "history record has no prior definition"@
            &&& step is MatchPending ==> text
                == "pending plan does not match requested gateway target"@
            &&& step is MatchWorkspace ==> text
                == "inventory group approval context does not match this workspace"@
            &&& step is SessionCredential ==> text == "session authority credential is unavailable"@
            &&& step is BackupCredential ==> text
                == "backup authentication credential is unavailable"@
        }),
{
}

/// A pending plan is resumed exactly if it is for what is asked now.
pub proof fn law_pending_plans_are_compared(plan: GatewayPlanKey, request: GatewayRequest)
    ensures
        pending_matches(plan, request) <==> {
            &&& plan.mode_target@ == request.mode_target@
            &&& plan.action == request.action
            &&& plan.force == request.force
            &&& plan.policy is Some ==> plan.policy->0.target@ == request.policy_target@
            &&& plan.policy is Some ==> optional(plan.policy->0.provider) == optional(
                request.provider,
            )
        },
{
}

/// After a match a pending plan skips the planning, a new one does not, and
/// another one's stops the command.
pub proof fn law_pending_plans_skip_planning(rules: Seq<StepRule>, at: int)
    requires
        0 <= at,
        at + 2 < rules.len(),
    ensures
        move_after_match(rules, at, PlanSource::Pending) == MoveView::Perform(rules[at + 2].step),
        move_after_match(rules, at, PlanSource::New) == MoveView::Perform(rules[at + 1].step),
        move_after_match(rules, at, PlanSource::Mismatch) is Stop,
{
}

/// A scope is read under its own name.
pub proof fn law_scopes_are_read(name: Seq<char>)
    ensures
        scope_named(name) == Some(GroupScope::Personal) <==> name == "personal"@,
        scope_named(name) == Some(GroupScope::Repository) <==> name == "repository"@,
{
    reveal_strlit("personal");
    reveal_strlit("repository");
    assert("personal"@.len() == 8 && "repository"@.len() == 10);
}

/// The five parts of a member's identity as they are written.
pub open spec fn full_identity(
    provider: Seq<char>,
    layer: Seq<char>,
    kind: Seq<char>,
    category: Seq<char>,
    id: Seq<char>,
) -> Seq<char> {
    rejoined(seq![provider, layer, kind, category, id], ':')
}

/// A member is read from its five parts, and they are the whole of what was
/// given: provider, layer, kind, category and id.
pub proof fn law_members_are_read_whole(text: MemberText, member: GroupMember)
    requires
        member_in(text@) == Ok::<MemberView, Seq<char>>(member@),
    ensures
        text.provider_known,
        text.identity is Ok,
        exists|layer: Seq<char>, kind: Seq<char>, category: Seq<char>|
            names_layer(layer, member.layer) && names_kind(kind, member.kind) && names_category(
                category,
                member.category,
            ) && text.text@ == #[trigger] full_identity(
                member.provider@,
                layer,
                kind,
                category,
                member.id@,
            ),
        !member.provider@.contains(':'),
{
    let fields = cut(text.text@, ':', 5);
    law_parts_are_joined_again(text.text@, ':', 5);
    assert(fields =~= seq![fields[0], fields[1], fields[2], fields[3], fields[4]]);
    assert(member.provider@ == fields[0] && member.id@ == fields[4]);
    assert(names_layer(fields[1], member.layer));
    assert(names_kind(fields[2], member.kind));
    assert(names_category(fields[3], member.category));
    assert(text.text@ == full_identity(
        member.provider@,
        fields[1],
        fields[2],
        fields[3],
        member.id@,
    ));
    assert(text@.identity is Ok);
}

/// Members are read one by one, or none at all.
pub proof fn law_members_are_read_in_order(values: Seq<MemberText>, members: Seq<GroupMember>)
    requires
        members_in(member_texts(values)) == Ok::<Seq<MemberView>, Seq<char>>(member_views(members)),
    ensures
        members.len() == values.len(),
        forall|i: int|
            0 <= i < values.len() ==> member_in((#[trigger] values[i])@) == Ok::<
                MemberView,
                Seq<char>,
            >(members[i]@),
{
    lemma_members_in(member_texts(values));
    let read = members_in(member_texts(values))->Ok_0;
    assert(read.len() == members.len());
    assert forall|i: int| 0 <= i < values.len() implies member_in((#[trigger] values[i])@) == Ok::<
        MemberView,
        Seq<char>,
    >(members[i]@) by {
        assert(member_texts(values)[i] == values[i]@);
        assert(read[i] == members[i]@);
    }
}

proof fn lemma_members_in(values: Seq<MemberTextView>)
    ensures
        match members_in(values) {
            Ok(members) => members.len() == values.len() && forall|i: int|
                0 <= i < values.len() ==> member_in(#[trigger] values[i]) == Ok::<
                    MemberView,
                    Seq<char>,
                >(members[i]),
            Err(_) => true,
        },
    decreases values.len(),
{
    if values.len() > 0 {
        let shorter = values.drop_last();
        lemma_members_in(shorter);
        if let Ok(members) = members_in(values) {
            let before = members_in(shorter)->Ok_0;
            assert forall|i: int| 0 <= i < values.len() implies member_in(#[trigger] values[i])
                == Ok::<MemberView, Seq<char>>(members[i]) by {
                if i < values.len() - 1 {
                    assert(shorter[i] == values[i]);
                    assert(members[i] == before[i]);
                }
            }
        }
    }
}

/// A challenge is what was given without the white space around it, if there is
/// any and it is not too long.
pub proof fn law_challenges_are_trimmed(bytes: Seq<u8>, limit: nat)
    ensures
        match challenge_in(bytes, limit) {
            Ok(challenge) => {
                &&& bytes.len() <= limit
                &&& vstd::utf8::valid_utf8(bytes)
                &&& challenge == trimmed(vstd::utf8::decode_utf8(bytes))
                &&& challenge.len() > 0
            },
            Err(_) => bytes.len() > limit || !vstd::utf8::valid_utf8(bytes) || trimmed(
                vstd::utf8::decode_utf8(bytes),
            ).len() == 0,
        },
{
}

/// A challenge that could not be read says from where and why.
pub proof fn law_unread_challenges_say_why(
    failure: ChallengeReadFailure,
    path: Seq<char>,
    error: Seq<char>,
)
    ensures
        occurs(challenge_read_text(failure, path, error), ": "@ + error) || failure is Input,
        occurs(challenge_read_text(failure, path, error), error),
        !(failure is Input) ==> occurs(challenge_read_text(failure, path, error), path),
{
    broadcast use group_occurs;

}

/// A hook is trusted only as it was when it was trusted: by its id, its own
/// fingerprint and that of what it runs.
pub proof fn law_trust_is_of_one_hook(record: HookTrustRecord, hook: HookHandler)
    ensures
        trust_holds(Some(record), Some(hook)) <==> record.handler_id@ == hook.id@
            && record.handler_fingerprint@ == hook.fingerprint@ && record.invocation_fingerprint@
            == hook.invocation_fingerprint@,
        !trust_holds(None, Some(hook)),
        !trust_holds(Some(record), None),
        !trust_holds(None, None),
{
}

/// The hooks that are listed are exactly the items that are hooks, in their
/// order, each with its id and with whether it is trusted in the profile.
pub proof fn law_every_hook_is_listed(items: Seq<DiscoveredHook>, profile_given: bool)
    ensures
        listed_hooks(items, profile_given) == items.filter(
            |item: DiscoveredHook| item.kind is Hook,
        ).map_values(
            |item: DiscoveredHook|
                (
                    text_in(field(item.item@, "id"@)),
                    item.item@,
                    profile_given && item.record is Ok && trust_holds(
                        item.record->Ok_0,
                        item.handler,
                    ),
                ),
        ),
    decreases items.len(),
{
    reveal(Seq::filter);
    let test = |item: DiscoveredHook| item.kind is Hook;
    let shown = |item: DiscoveredHook|
        (
            text_in(field(item.item@, "id"@)),
            item.item@,
            profile_given && item.record is Ok && trust_holds(item.record->Ok_0, item.handler),
        );
    if items.len() > 0 {
        law_every_hook_is_listed(items.drop_last(), profile_given);
        let before = items.drop_last().filter(test);
        if test(items.last()) {
            assert(items.filter(test) == before.push(items.last()));
            assert(before.push(items.last()).map_values(shown) =~= before.map_values(shown).push(
                shown(items.last()),
            ));
        }
    } else {
        assert(items.filter(test).map_values(shown) =~= listed_hooks(items, profile_given));
    }
}

/// A change is made in the name of the part of Unpin that makes it.
pub proof fn law_changes_have_their_actors(change: ReviewedChange)
    ensures
        actor_name(change) == match change {
            ReviewedChange::Profile => "unpin-cli-profile-approval"@,
            ReviewedChange::ProfileProviders => "unpin-cli-profile-provider-approval"@,
            ReviewedChange::CapabilityLock => "unpin-cli-capability-lock-approval"@,
            ReviewedChange::Gateway => "unpin-cli-gateway-approval"@,
            ReviewedChange::SessionEnd => "unpin-cli-session-end-approval"@,
            ReviewedChange::WorkflowDefinition => "unpin-cli-workflow-definition"@,
            ReviewedChange::BulkToggle => "unpin-cli-bulk-toggle-approval"@,
            ReviewedChange::AgentPlugin => "unpin-cli-agent-plugin-approval"@,
            ReviewedChange::DesktopGroup => "unpin-desktop-local-approval"@,
            ReviewedChange::DesktopAgentPlugin => "unpin-desktop-agent-plugin-approval"@,
            ReviewedChange::DesktopRestore => "unpin-desktop-local-restore-approval"@,
        },
        change is Profile ==> owner_name(change) == Some("unpin-cli-profile"@),
        change is ProfileProviders ==> owner_name(change) == Some("unpin-cli-profile-provider"@),
        change is CapabilityLock ==> owner_name(change) == Some("unpin-cli-capability-lock"@),
        change is Gateway ==> owner_name(change) == Some("unpin-cli-gateway"@),
        change is SessionEnd ==> owner_name(change) == Some("unpin-cli-session-end"@),
{
}

/// A definition of the workspace goes before a global one, each only where it
/// may be taken from, and what cannot be read is an error.
pub proof fn law_workspace_definitions_go_first<T>(
    in_workspace: bool,
    in_global: bool,
    local: Option<T>,
    global: Option<T>,
    error: String,
)
    ensures
        in_workspace && local is Some ==> chosen_definition(
            in_workspace,
            in_global,
            Ok(local),
            Ok(global),
        ) == Ok::<Option<(ProfileSourceScope, T)>, String>(
            Some((ProfileSourceScope::Workspace, local->0)),
        ),
        (!in_workspace || local is None) && in_global && global is Some ==> chosen_definition(
            in_workspace,
            in_global,
            Ok(local),
            Ok(global),
        ) == Ok::<Option<(ProfileSourceScope, T)>, String>(
            Some((ProfileSourceScope::Global, global->0)),
        ),
        (!in_workspace || local is None) && (!in_global || global is None) ==> chosen_definition(
            in_workspace,
            in_global,
            Ok(local),
            Ok(global),
        ) == Ok::<Option<(ProfileSourceScope, T)>, String>(None),
        in_workspace ==> chosen_definition(in_workspace, in_global, Err(error), Ok(global)) == Err::<
            Option<(ProfileSourceScope, T)>,
            String,
        >(error),
        (!in_workspace || local is None) && in_global ==> chosen_definition(
            in_workspace,
            in_global,
            Ok(local),
            Err(error),
        ) == Err::<Option<(ProfileSourceScope, T)>, String>(error),
{
}

/// A file of environment variables is one whose name starts so.
pub proof fn law_environment_files_are_known(name: Seq<char>)
    ensures
        environment_file(Some(".env"@ + name)),
        environment_file(Some(name)) ==> name.len() >= 4 && name.take(4) == ".env"@,
        !environment_file(None),
{
    reveal_strlit(".env");
    let long = ".env"@ + name;
    assert(long.subrange(0, 4) =~= ".env"@);
    assert(stands_at(long, ".env"@, 0));
    if environment_file(Some(name)) {
        assert(name.take(4) =~= name.subrange(0, 4));
    }
}

/// A change that failed says whether it must be recovered.
pub proof fn law_failed_changes_say_whether_to_recover(recovery_required: bool)
    ensures
        recovery_required ==> change_error_status(recovery_required) == "recovery-required"@,
        !recovery_required ==> change_error_status(recovery_required) == "blocked"@,
{
}

/// A planning error is shown as its class.
pub proof fn law_planning_errors_are_shown(text: Seq<char>)
    ensures
        occurs(text, "recovery-required"@) ==> plan_error_status(text) == "recovery-required"@,
        !occurs(text, "recovery-required"@) && occurs(text, "no targets"@) ==> plan_error_status(
            text,
        ) == "no-targets"@,
        !occurs(text, "recovery-required"@) && !occurs(text, "no targets"@) ==> plan_error_status(
            text,
        ) == "blocked"@,
{
}

/// The providers that are listed for their locks are exactly those that have
/// any, in their order.
pub proof fn law_locked_providers_are_listed(policies: Seq<ProviderLocks>)
    ensures
        providers_with_locks(policies) == policies.filter(
            |policy: ProviderLocks| policy.lock_count > 0,
        ).map_values(|policy: ProviderLocks| policy.provider@),
    decreases policies.len(),
{
    reveal(Seq::filter);
    let test = |policy: ProviderLocks| policy.lock_count > 0;
    let shown = |policy: ProviderLocks| policy.provider@;
    if policies.len() > 0 {
        law_locked_providers_are_listed(policies.drop_last());
        let before = policies.drop_last().filter(test);
        if test(policies.last()) {
            assert(policies.filter(test) == before.push(policies.last()));
            assert(before.push(policies.last()).map_values(shown) =~= before.map_values(shown).push(
                shown(policies.last()),
            ));
        }
    } else {
        assert(policies.filter(test).map_values(shown) =~= Seq::<Seq<char>>::empty());
    }
}

/// A profile is selected by the steps of the way that was chosen, after those
/// that find it.
pub proof fn law_profiles_are_selected_in_order(provider_given: bool, with_reach: bool)
    ensures
        ({
            let rules = apply_profile_rules(provider_given, with_reach);
            let start = if provider_given {
                6int
            } else {
                5int
            };
            &&& provider_given ==> rules[0] == failing(CommandStep::ParseProvider)
            &&& rules[start - 5] == failing(CommandStep::ResolveConfig)
            &&& rules[start - 4] == failing(CommandStep::LoadProfile)
            &&& rules[start - 3] == failing(CommandStep::CompileProfile)
            &&& rules[start - 2] == failing(CommandStep::WorkspaceIdentity)
            &&& rules[start - 1] == failing(CommandStep::PolicyTarget)
            &&& with_reach ==> rules.skip(start) == apply_profile_with_reach_rules()
            &&& !with_reach ==> rules.skip(start) == apply_policy_profile_rules()
        }),
{
    let rules = apply_profile_rules(provider_given, with_reach);
    if provider_given {
        if with_reach {
            assert(rules.skip(6) =~= apply_profile_with_reach_rules());
        } else {
            assert(rules.skip(6) =~= apply_policy_profile_rules());
        }
    } else {
        if with_reach {
            assert(rules.skip(5) =~= apply_profile_with_reach_rules());
        } else {
            assert(rules.skip(5) =~= apply_policy_profile_rules());
        }
    }
}

/// A session is pinned to the profile that was named, with the digests and the
/// origin that were given; to nothing where nothing was; and to what is native
/// where that was asked for alone.
pub proof fn law_sessions_are_pinned_as_asked(
    native: bool,
    id: Option<Seq<char>>,
    digest: Option<Seq<char>>,
    definition: Option<Seq<char>>,
    origin: Option<Seq<char>>,
    profile: PinnedProfile,
)
    requires
        pinned(native, id, digest, definition, origin) == Ok::<PinnedView, Seq<char>>(profile@),
    ensures
        match profile {
            PinnedProfile::Native => native && id is None && digest is None && definition is None
                && origin is None,
            PinnedProfile::Empty => !native && id is None && digest is None && definition is None
                && origin is None,
            PinnedProfile::Profile {
                profile_id,
                profile_digest,
                origin_scope,
                definition_digest,
            } => {
                &&& !native
                &&& id == Some(profile_id@)
                &&& digest == Some(profile_digest@)
                &&& definition == Some(definition_digest@)
                &&& origin is None ==> origin_scope is Workspace
                &&& origin is Some ==> origin->0 == match origin_scope {
                    ProfileSourceScope::Global => "global"@,
                    ProfileSourceScope::Repository => "repository"@,
                    ProfileSourceScope::Workspace => "workspace"@,
                    ProfileSourceScope::Session => "session"@,
                }
            },
        },
{
}

/// A profile that is given whole is pinned.
pub proof fn law_whole_profiles_are_pinned(
    id: Seq<char>,
    digest: Seq<char>,
    definition: Seq<char>,
)
    ensures
        pinned(false, Some(id), Some(digest), Some(definition), None) is Ok,
        pinned(false, None, None, None, None) is Ok,
        pinned(true, None, None, None, None) is Ok,
        pinned(true, Some(id), Some(digest), Some(definition), None) is Err,
        pinned(false, Some(id), None, Some(definition), None) is Err,
        origin_named(Some("global"@)) is Some,
        origin_named(None) == Some(ProfileSourceScope::Workspace),
{
}

/// The sessions that are listed are exactly those of the workspace, in their
/// order.
pub proof fn law_sessions_of_the_workspace_are_listed(
    rows: Seq<SessionRow>,
    repository_key: Seq<char>,
    workspace_key: Seq<char>,
)
    ensures
        workspace_summaries(rows, repository_key, workspace_key) == rows.filter(
            |row: SessionRow|
                row.repository_key@ == repository_key && row.workspace_key@ == workspace_key,
        ).map_values(|row: SessionRow| row.summary@),
    decreases rows.len(),
{
    reveal(Seq::filter);
    let test = |row: SessionRow|
        row.repository_key@ == repository_key && row.workspace_key@ == workspace_key;
    let shown = |row: SessionRow| row.summary@;
    if rows.len() > 0 {
        law_sessions_of_the_workspace_are_listed(rows.drop_last(), repository_key, workspace_key);
        let before = rows.drop_last().filter(test);
        if test(rows.last()) {
            assert(rows.filter(test) == before.push(rows.last()));
            assert(before.push(rows.last()).map_values(shown) =~= before.map_values(shown).push(
                shown(rows.last()),
            ));
        }
    } else {
        assert(rows.filter(test).map_values(shown) =~= Seq::<JsonView>::empty());
    }
}

/// A change to a definition needs what it is about: an id or a file to put, an id
/// to delete; a workspace's definitions are not changed at all.
pub proof fn law_mutations_need_their_subject(arguments: MutationArguments)
    ensures
        mutation_error(arguments) is None <==> {
            &&& !(arguments.scope is Workspace)
            &&& arguments.restore_history_id is None && arguments.action is Upsert
                ==> arguments.id is Some || arguments.file_given
            &&& arguments.restore_history_id is None && arguments.action is Delete
                ==> arguments.id is Some
        },
{
}

/// A change to a definition is the one that was asked for: the record that was
/// named, the id that was named, or the definition from the file or the store,
/// under its own id.
pub proof fn law_mutations_are_as_asked<D>(
    arguments: MutationArguments,
    from_file: Result<NamedDefinition<D>, String>,
    stored: Result<Option<NamedDefinition<D>>, String>,
    request: MutationRequest<D>,
)
    requires
        requested_mutation(
            arguments,
            from_file,
            stored,
            Ok::<MutationRequest<D>, String>(request),
        ),
    ensures
        match request {
            MutationRequest::Restore { history_id } => arguments.restore_history_id is Some
                && arguments.restore_history_id->0@ == history_id@,
            MutationRequest::Delete { id } => {
                &&& arguments.restore_history_id is None
                &&& arguments.action is Delete
                &&& arguments.id is Some && arguments.id->0@ == id@
            },
            MutationRequest::Upsert(definition) => {
                &&& arguments.restore_history_id is None
                &&& arguments.action is Upsert
                &&& arguments.file_given ==> from_file == Ok::<NamedDefinition<D>, String>(
                    definition,
                )
                &&& !arguments.file_given ==> stored == Ok::<Option<NamedDefinition<D>>, String>(
                    Some(definition),
                )
                &&& arguments.id is Some ==> arguments.id->0@ == definition.id@
            },
        },
{
    assert(optional(arguments.id) is Some <==> arguments.id is Some);
}

/// The candidates are the best ranked workflows, at most twenty of them.
pub proof fn law_best_candidates_are_listed(ranked: Seq<RankedWorkflow>)
    ensures
        ranked.len() <= 20 ==> candidate_views(ranked).len() == ranked.len(),
        ranked.len() > 20 ==> candidate_views(ranked).len() == 20,
        forall|i: int|
            0 <= i < candidate_views(ranked).len() ==> #[trigger] candidate_views(ranked)[i]
                == candidate_view(ranked[i]),
{
}

/// Where a person must choose, the candidates are shown and nothing is
/// recommended.
pub proof fn law_choices_are_left_open(
    prompt_digest: Seq<char>,
    provider: Option<Seq<char>>,
    candidates: Seq<JsonView>,
    next_action: Option<Seq<char>>,
)
    ensures
        ({
            let shown = selection_required_view(prompt_digest, provider, candidates, next_action);
            &&& next_action is None ==> shows_only(shown, 7)
            &&& next_action is Some ==> shows_only(shown, 8) && shows(
                shown,
                "nextAction"@,
                JsonView::Text(next_action->0),
            )
            &&& shows(shown, "schemaVersion"@, JsonView::Unsigned(1))
            &&& shows(shown, "promptDigest"@, JsonView::Text(prompt_digest))
            &&& provider is Some ==> shows(shown, "provider"@, JsonView::Text(provider->0))
            &&& provider is None ==> shows(shown, "provider"@, JsonView::Null)
            &&& shows(shown, "candidates"@, JsonView::Array(candidates))
            &&& shows(shown, "recommended"@, JsonView::Null)
            &&& shows(shown, "confirmationRequired"@, JsonView::Bool(true))
            &&& shows(shown, "mutatesState"@, JsonView::Bool(false))
        }),
{
    let shown = selection_required_view(prompt_digest, provider, candidates, next_action);
    lemma_shows_all(shown);
    let at = shown->Object_0;
    assert(at[0] == at[0] && at[1] == at[1] && at[2] == at[2] && at[3] == at[3] && at[4] == at[4]
        && at[5] == at[5] && at[6] == at[6]);
    if next_action is Some {
        assert(at[7] == at[7]);
    }
}

/// A proposal goes on to be compiled only where nothing is left to choose.
pub proof fn law_open_choices_are_shown(rules: Seq<StepRule>, at: int, start: ProposalStart)
    requires
        0 <= at,
        at + 1 < rules.len(),
    ensures
        start is SelectionRequired ==> move_after_ranking(rules, at, start) is ShowPlan,
        start is Compile ==> move_after_ranking(rules, at, start) == MoveView::Perform(
            rules[at + 1].step,
        ),
{
}

} // verus!
