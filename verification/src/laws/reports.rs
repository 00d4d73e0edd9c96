//! Reports: what is printed, in which order, and in which words.
use vstd::prelude::*;

use crate::agent_plugin::{
    package_apply_value_view, package_plan_value_view, package_summary_value_view, PackagePlan,
    PackageResult, PluginPackage,
};
use crate::commands::profile::ProfileProviderOperationStatus;
use crate::json::{field, item_views, pretty_text, Json, JsonView};
use crate::laws::texts::group_occurs;
use crate::ordering::EntryView;
use crate::report::agent_plugins::{
    applied_package_view, handoff_report_view, package_count_line_text, package_line_text,
    package_list_lines, package_part, package_value_lines, planned_package_view, reach_part,
    summary_views, SealedHandoff,
};
use crate::report::catalog::{record_values, CatalogRecord};
use crate::report::gateway::{data_plane, fixture_attachment, gateway_lifecycle, gateway_plan_word};
use crate::report::group::{group_result_view, outcome_status, shown_result, GroupOutcome};
use crate::report::hook::{hook_coverage_text, known_id, shown_installations, HookProvider};
use crate::report::profile::{
    actions_text, listed_values, locked_providers, managed_word, member_total, operation_word,
    plan_word, policy_action, proposal_status, reach_target_line_text, reach_target_lines_texts,
    ListingView, ProviderLocks, ReachTarget,
};
use crate::report::toggle::{
    bulk_title, known, member_line, recorded_coverage, recorded_reach, recorded_result,
    shown_reach, value_lines, BulkCommand, BulkOperation,
};
use crate::report::workflow::{workflow_list_values, WorkflowListingView};
use crate::report::{asks_to_confirm, concerned, printed, HumanAction};
use crate::text::{bool_word, joined_with, occurs};

verus! {

/// A program is given the value, and a person the lines.
pub proof fn law_programs_read_values(value: JsonView, lines: Seq<Seq<char>>)
    ensures
        printed(false, value, lines) == Some(lines),
        pretty_text(value) is Some ==> printed(true, value, lines) is Some && printed(
            true,
            value,
            lines,
        )->0.len() == 1 && printed(true, value, lines)->0[0] == pretty_text(value)->0,
        pretty_text(value) is None ==> printed(true, value, lines) is None,
{
}

/// A command concerns the provider that was named, and all of them where none
/// was.
pub proof fn law_named_providers_are_concerned(provider: Seq<char>, all: Seq<Seq<char>>)
    ensures
        concerned(Some(provider), all).len() == 1,
        concerned(Some(provider), all)[0] == provider,
        concerned(None, all) == all,
{
}

/// A word for yes and one for no.
pub proof fn law_words_say_which(yes: bool)
    ensures
        yes ==> bool_word(yes) == "true"@ && managed_word(yes) == "managed"@ && gateway_plan_word(
            yes,
        ) == "blocked"@ && proposal_status(yes) == "proposed"@ && plan_word(yes) == "no-op"@,
        !yes ==> bool_word(yes) == "false"@ && managed_word(yes) == "unmanaged"@
            && gateway_plan_word(yes) == "planned"@ && proposal_status(yes)
            == "selection-required"@ && plan_word(yes) == "planned"@,
        yes ==> data_plane(yes) == "available-for-fixture-session-launch"@ && fixture_attachment(
            yes,
        ) == "verified-contract-runtime-not-observed"@,
        !yes ==> data_plane(yes) == "implemented-without-live-provider-attachment"@
            && fixture_attachment(yes) == "not-applicable"@,
        yes ==> policy_action(yes) == JsonView::Null,
        !yes ==> policy_action(yes) is Object,
{
}

/// The list of packages counts them and then shows one on each line.
pub proof fn law_package_lists_show_each(packages: Seq<PluginPackage>)
    ensures
        package_list_lines(packages)[0] == package_count_line_text(packages.len() as u64),
        packages.len() > 0 ==> package_list_lines(packages).len() == packages.len() + 1,
        forall|i: int|
            0 <= i < packages.len() ==> package_list_lines(packages)[i + 1] == package_line_text(
                #[trigger] packages[i],
            ),
        packages.len() == 0 ==> package_list_lines(packages).len() == 2,
        summary_views(packages).len() == packages.len(),
        forall|i: int|
            0 <= i < packages.len() ==> #[trigger] summary_views(packages)[i]
                == package_summary_value_view(packages[i]),
{
}

/// A plan for a package is shown with its handoff where it has one, and changed
/// in nothing else.
pub proof fn law_handoffs_are_shown(
    package: PluginPackage,
    plan: PackagePlan,
    handoff: SealedHandoff,
)
    ensures
        planned_package_view(package, plan, None) == package_plan_value_view(package, plan),
        ({
            let value = package_plan_value_view(package, plan);
            let shown = planned_package_view(package, plan, Some(handoff));
            &&& shown is Object
            &&& shown->Object_0.len() == value->Object_0.len() + 1
            &&& shown->Object_0.last() == ("handoff"@, handoff_report_view(handoff))
            &&& shown->Object_0.drop_last() == value->Object_0
        }),
{
    let value = package_plan_value_view(package, plan);
    let shown = planned_package_view(package, plan, Some(handoff));
    assert(shown->Object_0.drop_last() =~= value->Object_0);
}

/// A plan that was carried out is shown with the package as it is then; where it
/// could not be read again, with the package that was reviewed, and that is said.
pub proof fn law_applied_packages_are_refreshed(
    reviewed: PluginPackage,
    refreshed: PluginPackage,
    result: PackageResult,
)
    ensures
        ({
            let value = package_apply_value_view(refreshed, result);
            let shown = applied_package_view(reviewed, Some(refreshed), result);
            &&& shown is Object
            &&& shown->Object_0.len() == value->Object_0.len() + 1
            &&& shown->Object_0.last() == ("refreshStatus"@, JsonView::Text("complete"@))
            &&& shown->Object_0.drop_last() == value->Object_0
        }),
        ({
            let value = package_apply_value_view(reviewed, result);
            let shown = applied_package_view(reviewed, None, result);
            &&& shown is Object
            &&& shown->Object_0.len() == value->Object_0.len() + 1
            &&& shown->Object_0.last() == ("refreshStatus"@, JsonView::Text("failed-run-status"@))
            &&& shown->Object_0.drop_last() == value->Object_0
        }),
{
    let a = applied_package_view(reviewed, Some(refreshed), result);
    assert(a->Object_0.drop_last() =~= package_apply_value_view(refreshed, result)->Object_0);
    let b = applied_package_view(reviewed, None, result);
    assert(b->Object_0.drop_last() =~= package_apply_value_view(reviewed, result)->Object_0);
}

/// A text member is shown under its own name, and what is not known is called so.
pub proof fn law_members_stand_under_their_names(value: JsonView, key: Seq<char>)
    ensures
        match field(value, key) {
            Some(JsonView::Text(text)) => {
                &&& known(value, key) == text
                &&& member_line(value, key).len() == 1
                &&& member_line(value, key)[0] == key + ": "@ + text
            },
            _ => known(value, key) == "unknown"@ && member_line(value, key).len() == 0,
        },
{
}

/// The lines of a plan start with its status and then name its operation, its
/// fingerprint and its reach.
pub proof fn law_plan_lines_stand_in_order(
    value: JsonView,
    title: Seq<char>,
    reach: Seq<char>,
    status: Seq<char>,
    operation: Seq<char>,
    fingerprint: Seq<char>,
)
    requires
        field(value, "status"@) == Some(JsonView::Text(status)),
        field(value, "operationId"@) == Some(JsonView::Text(operation)),
        field(value, "planFingerprint"@) == Some(JsonView::Text(fingerprint)),
    ensures
        value_lines(value, title, reach).len() == 4,
        value_lines(value, title, reach)[0] == title + ": "@ + status,
        value_lines(value, title, reach)[1] == "operationId"@ + ": "@ + operation,
        value_lines(value, title, reach)[2] == "planFingerprint"@ + ": "@ + fingerprint,
        value_lines(value, title, reach)[3] == "providerReach: "@ + reach,
{
}

/// The lines of a package's plan name the package, the operation, the
/// fingerprint, the reach and what to do.
pub proof fn law_package_lines_stand_in_order(
    value: JsonView,
    title: Seq<char>,
    reach: Seq<char>,
    package: JsonView,
    operation: Seq<char>,
    fingerprint: Seq<char>,
    guidance: Seq<char>,
)
    requires
        field(value, "package"@) == Some(package),
        field(value, "operationId"@) == Some(JsonView::Text(operation)),
        field(value, "planFingerprint"@) == Some(JsonView::Text(fingerprint)),
        field(value, "guidance"@) == Some(JsonView::Text(guidance)),
        field(value, "providerReach"@) is Some,
        field(value, "providerReach"@) != Some(JsonView::Null),
    ensures
        ({
            let lines = package_value_lines(value, title, reach);
            &&& lines.len() == 6
            &&& lines[0] == title + ": "@ + known(value, "status"@)
            &&& lines[1] == "package: "@ + known(package, "name"@) + " ("@ + known(
                package,
                "logicalId"@,
            ) + ") state="@ + known(package, "state"@) + " access="@ + known(package, "access"@)
            &&& lines[2] == "operationId"@ + ": "@ + operation
            &&& lines[3] == "planFingerprint"@ + ": "@ + fingerprint
            &&& lines[4] == "providerReach: "@ + reach
            &&& lines[5] == "guidance"@ + ": "@ + guidance
        }),
        field(value, "package"@) is Some ==> package_part(value).len() == 1,
        reach_part(value, reach).len() == 1,
{
}

/// The values of a catalog, and of what is listed by id, stand one by one.
pub proof fn law_listed_values_stand_in_order(
    records: Seq<CatalogRecord>,
    profiles: Seq<EntryView<ListingView>>,
    workflows: Seq<EntryView<WorkflowListingView>>,
)
    ensures
        record_values(records).len() == records.len(),
        forall|i: int|
            0 <= i < records.len() ==> #[trigger] record_values(records)[i] == records[i].value@,
        listed_values(profiles).len() == profiles.len(),
        forall|i: int|
            0 <= i < profiles.len() ==> #[trigger] listed_values(profiles)[i]
                == profiles[i].2.value,
        workflow_list_values(workflows).len() == workflows.len(),
        forall|i: int|
            0 <= i < workflows.len() ==> #[trigger] workflow_list_values(workflows)[i]
                == workflows[i].2.value,
{
}

/// The lifecycle of a gateway is what is installed and how it routes; without
/// either it is detached and off.
pub proof fn law_gateways_show_both_parts(installation: Seq<char>, routing: Seq<char>)
    ensures
        gateway_lifecycle(Some((installation, routing))) == installation + "/"@ + routing,
        gateway_lifecycle(None) == "detached/off"@,
{
}

/// A result is shown to a program with its status, and to a person as it is.
pub proof fn law_results_are_shown_with_status(outcome: GroupOutcome, result: Json)
    ensures
        shown_result(false, outcome, result) == result@,
        shown_result(true, outcome, result) == group_result_view(outcome, result),
        outcome_status(outcome) == match outcome {
            GroupOutcome::Shown => "group"@,
            GroupOutcome::Created => "created"@,
            GroupOutcome::Updated => "updated"@,
            GroupOutcome::Renamed => "renamed"@,
            GroupOutcome::Deleted => "deleted"@,
            GroupOutcome::History => "history"@,
            GroupOutcome::Restored => "restored"@,
            GroupOutcome::Planned => "plan"@,
            GroupOutcome::Approved => "approved"@,
            GroupOutcome::Operation => "operation"@,
        },
{
}

/// Installations are shown of managed assets alone, and then all of them.
pub proof fn law_managed_installations_are_shown(row: HookProvider)
    ensures
        row.managed_asset ==> shown_installations(row) == item_views(row.installations@),
        !row.managed_asset ==> shown_installations(row).len() == 0,
        known_id(None) == "unknown"@,
        forall|id: Seq<char>| #[trigger] known_id(Some(id)) == id,
{
}

/// The actions on a policy are listed with commas between, or as none.
pub proof fn law_actions_are_listed(actions: Seq<Seq<char>>, a: Seq<char>, b: Seq<char>)
    ensures
        actions.len() == 0 ==> actions_text(actions) == "none"@,
        actions.len() > 0 ==> actions_text(actions) == joined_with(actions, ","@),
        actions_text(seq![a]) == a,
        actions_text(seq![a, b]) == a + ","@ + b,
{
    assert(seq![a, b].drop_last() =~= seq![a]);
    assert(joined_with(seq![a], ","@) == a);
}

/// The providers whose locks are shown are exactly those that have any, in their
/// order.
pub proof fn law_locked_providers_are_shown(policy: Seq<ProviderLocks>)
    ensures
        locked_providers(policy) == policy.filter(|entry: ProviderLocks| entry.locked).map_values(
            |entry: ProviderLocks| entry.provider@,
        ),
    decreases policy.len(),
{
    reveal(Seq::filter);
    let test = |entry: ProviderLocks| entry.locked;
    let shown = |entry: ProviderLocks| entry.provider@;
    if policy.len() > 0 {
        law_locked_providers_are_shown(policy.drop_last());
        let before = policy.drop_last().filter(test);
        if test(policy.last()) {
            assert(policy.filter(test) == before.push(policy.last()));
            assert(before.push(policy.last()).map_values(shown) =~= before.map_values(shown).push(
                shown(policy.last()),
            ));
        }
    } else {
        assert(policy.filter(test).map_values(shown) =~= Seq::<Seq<char>>::empty());
    }
}

/// The members of a profile are its own and those for each provider.
pub proof fn law_members_are_counted_for_each(own: nat, for_providers: Seq<u64>, more: u64)
    ensures
        member_total(own, seq![]) == own,
        member_total(own, for_providers.push(more)) == member_total(own, for_providers) + more,
{
    assert(for_providers.push(more).drop_last() =~= for_providers);
}

/// The word for what came of an operation.
pub proof fn law_operations_have_their_words(status: ProfileProviderOperationStatus)
    ensures
        status is Applied ==> operation_word(status) == "applied"@,
        status is NoOp ==> operation_word(status) == "no-op"@,
        status is Blocked ==> operation_word(status) == "blocked"@,
        status is RecoveryRequired ==> operation_word(status) == "recovery-required"@,
{
}

/// What the result of an operation says goes before what was planned.
pub proof fn law_results_go_before_plans(operation: BulkOperation)
    ensures
        operation.result is Some ==> {
            &&& recorded_reach(operation) == operation.result->0.provider_reach@
            &&& recorded_coverage(operation) == operation.result->0.provider_coverage@
            &&& recorded_result(operation) == operation.result->0.value@
        },
        operation.result is None ==> {
            &&& recorded_reach(operation) == operation.provider_reach@
            &&& recorded_coverage(operation) == operation.provider_coverage@
            &&& recorded_result(operation) == JsonView::Null
        },
{
}

/// A command on many items is titled by what it does.
pub proof fn law_bulk_commands_have_titles(command: BulkCommand, value: JsonView)
    ensures
        command is Plan ==> bulk_title(command) == "bulk plan"@,
        command is Apply ==> bulk_title(command) == "bulk apply"@,
        command is Status ==> bulk_title(command) == "bulk status"@,
        field(value, "providerReach"@) is Some ==> shown_reach(value) == crate::json::compact_text(
            field(value, "providerReach"@)->0,
        ),
{
}

/// The lines of the targets in reach stand one by one, and a person is asked to
/// confirm with the guidance that belongs to the plan.
pub proof fn law_targets_stand_in_order(
    targets: Seq<ReachTarget>,
    action: Option<HumanAction>,
    guidance: Seq<char>,
)
    ensures
        reach_target_lines_texts(targets).len() == targets.len(),
        forall|i: int|
            0 <= i < targets.len() ==> #[trigger] reach_target_lines_texts(targets)[i]
                == reach_target_line_text(targets[i]),
        asks_to_confirm(action, guidance) <==> action is Some && action->0.code@
            == "confirm-and-apply"@ && action->0.guidance@ == guidance,
{
}

/// A coverage by hooks names the provider and both kinds of tools.
pub proof fn law_hook_coverage_names_both(
    row: HookProvider,
    provider: Seq<char>,
    built_in: Seq<char>,
    gateway: Seq<char>,
)
    requires
        crate::json::compact_text(row.provider@) == Some(provider),
        crate::json::compact_text(row.built_in_tools@) == Some(built_in),
        crate::json::compact_text(row.gateway_mcp_tools@) == Some(gateway),
    ensures
        hook_coverage_text(row) is Some,
        occurs(hook_coverage_text(row)->0, provider),
        occurs(hook_coverage_text(row)->0, " built-in="@ + built_in),
        occurs(hook_coverage_text(row)->0, " gateway-mcp="@ + gateway),
{
    broadcast use group_occurs;

}

} // verus!
