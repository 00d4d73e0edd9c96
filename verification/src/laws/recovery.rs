//! Recovery: what is shown of backups and operations, and which roots are bound.
use vstd::prelude::*;

use crate::json::JsonView;
use crate::ordering::{entry_values, in_order, law_sorting_keeps_entries, EntryView};
use crate::provider_roots::{
    bound_roots, included_in_order, name_of, primary_root, primary_roots, sandbox_roots, unsealed,
    with_root, DiscoveryRoots, NamedProvider, ProviderId, RootsView, SealedRoot,
};
use crate::recovery::{
    availability, backup_ids, control_entries, final_values, group_entries, group_status,
    operation_values, read_control, read_groups, redacted_group_operation_summary_view,
    redacted_operation_summary_view, resource_total, seconds_value, CohortBackups,
    ControlOperation, GroupInspection, GroupOperationFailure, TerminalResult,
};

verus! {

/// The resources and the backups of an operation are those of all its cohorts.
pub proof fn law_every_cohort_is_counted(cohorts: Seq<CohortBackups>, cohort: CohortBackups)
    ensures
        resource_total(seq![]) == 0,
        backup_ids(seq![]).len() == 0,
        resource_total(cohorts.push(cohort)) == resource_total(cohorts) + cohort.resource_ids@.len(),
        backup_ids(cohorts.push(cohort)).len() == backup_ids(cohorts).len()
            + cohort.backup_ids@.len(),
        forall|i: int|
            0 <= i < backup_ids(cohorts).len() ==> #[trigger] backup_ids(cohorts.push(cohort))[i]
                == backup_ids(cohorts)[i],
        forall|i: int|
            0 <= i < cohort.backup_ids@.len() ==> backup_ids(cohorts.push(cohort))[backup_ids(
                cohorts,
            ).len() + i] == (#[trigger] cohort.backup_ids@[i])@,
{
    assert(cohorts.push(cohort).drop_last() =~= cohorts);
}

/// What an operation came to is shown as it was recorded, and as nothing where
/// nothing was.
pub proof fn law_results_are_shown_as_recorded(result: TerminalResult)
    ensures
        final_values(Some(result)).0 == result.final_state@,
        final_values(Some(result)).1 == JsonView::Bool(result.observation_fresh),
        result.observation_reason is Some ==> final_values(Some(result)).2
            == result.observation_reason->0@,
        result.observation_reason is None ==> final_values(Some(result)).2 == JsonView::Null,
        final_values(Some(result)).3 == result.members@,
        final_values(None) == (JsonView::Null, JsonView::Null, JsonView::Null, JsonView::Null),
{
}

proof fn lemma_sorted_contains<V>(list: Seq<EntryView<V>>, x: EntryView<V>)
    ensures
        in_order(list).contains(x) <==> list.contains(x),
{
    law_sorting_keeps_entries(list);
    list.to_multiset_ensures();
    in_order(list).to_multiset_ensures();
    assert(list.contains(x) <==> list.to_multiset().count(x) > 0);
    assert(in_order(list).contains(x) <==> in_order(list).to_multiset().count(x) > 0);
}

/// Every operation is shown, those of groups among the others, and none twice.
pub proof fn law_every_operation_is_shown(
    control: Seq<ControlOperation>,
    groups: Seq<GroupInspection>,
)
    ensures
        operation_values(control, groups).len() == control.len() + groups.len(),
        forall|i: int|
            0 <= i < control.len() ==> operation_values(control, groups).contains(
                redacted_operation_summary_view(#[trigger] control[i]),
            ),
        forall|i: int|
            0 <= i < groups.len() ==> operation_values(control, groups).contains(
                redacted_group_operation_summary_view(#[trigger] groups[i]),
            ),
{
    let all = control_entries(control) + group_entries(groups);
    let sorted = in_order(all);
    law_sorting_keeps_entries(all);
    assert forall|i: int| 0 <= i < control.len() implies operation_values(
        control,
        groups,
    ).contains(redacted_operation_summary_view(#[trigger] control[i])) by {
        let entry = (
            control[i].operation_id@,
            0u64,
            redacted_operation_summary_view(control[i]),
        );
        assert(all[i] == entry);
        lemma_sorted_contains(all, entry);
        let k = choose|k: int| 0 <= k < sorted.len() && sorted[k] == entry;
        assert(entry_values(sorted)[k] == entry.2);
    }
    assert forall|i: int| 0 <= i < groups.len() implies operation_values(
        control,
        groups,
    ).contains(redacted_group_operation_summary_view(#[trigger] groups[i])) by {
        let entry = (
            groups[i].operation_id@,
            0u64,
            redacted_group_operation_summary_view(groups[i]),
        );
        assert(all[control.len() + i] == entry);
        lemma_sorted_contains(all, entry);
        let k = choose|k: int| 0 <= k < sorted.len() && sorted[k] == entry;
        assert(entry_values(sorted)[k] == entry.2);
    }
}

/// What can be read is shown as available; what cannot says why.
pub proof fn law_statuses_say_why(failure: GroupOperationFailure, groups: Seq<GroupInspection>)
    ensures
        availability(true) == "available"@,
        availability(false) == "unavailable"@,
        group_status(Ok(groups)) == "available"@,
        group_status(Err(failure)) == match failure {
            GroupOperationFailure::Unavailable => "unavailable"@,
            GroupOperationFailure::Authentication => "authentication-unavailable"@,
            GroupOperationFailure::Context => "context-unavailable"@,
            GroupOperationFailure::State => "state-unavailable"@,
            GroupOperationFailure::Storage => "storage-unavailable"@,
            GroupOperationFailure::Evidence => "evidence-invalid"@,
        },
{
}

/// A time is shown as it is, before and after the start of counting.
pub proof fn law_times_are_shown(seconds: i64)
    ensures
        match seconds_value(seconds) {
            JsonView::Unsigned(n) => n == seconds,
            JsonView::Negative(n) => n == seconds && seconds < 0,
            _ => false,
        },
{
}

/// Everything that a fixture may write to is checked: the state, the workspace
/// and every root of every provider.
pub proof fn law_every_root_is_checked(
    app_state_root: Seq<char>,
    workspace_root: Seq<char>,
    roots: DiscoveryRoots,
)
    ensures
        ({
            let all = sandbox_roots(app_state_root, workspace_root, roots@);
            &&& all.contains(app_state_root)
            &&& all.contains(workspace_root)
            &&& all.contains(roots.claude_global@)
            &&& all.contains(roots.claude_user_state@)
            &&& all.contains(roots.claude_project@)
            &&& all.contains(roots.codex_global@)
            &&& all.contains(roots.codex_admin@)
            &&& all.contains(roots.codex_project@)
            &&& all.contains(roots.cursor_global@)
            &&& all.contains(roots.cursor_config@)
            &&& all.contains(roots.cursor_project@)
            &&& all.contains(roots.pi_global@)
            &&& all.contains(roots.pi_project@)
            &&& all.contains(roots.opencode_global@)
            &&& all.contains(roots.opencode_project@)
            &&& all.contains(roots.shared_global@)
            &&& all.contains(roots.shared_project@)
            &&& all.contains(roots.zed_global@)
            &&& all.contains(roots.zed_project@)
            &&& roots.app_state_root is Some ==> all.contains(roots.app_state_root->0@)
            &&& all.len() == if roots.app_state_root is Some {
                20int
            } else {
                19int
            }
        }),
{
    let all = sandbox_roots(app_state_root, workspace_root, roots@);
    assert(all[0] == app_state_root && all[1] == workspace_root);
    assert(all[2] == roots.claude_global@ && all[3] == roots.claude_user_state@);
    assert(all[4] == roots.claude_project@ && all[5] == roots.codex_global@);
    assert(all[6] == roots.codex_admin@ && all[7] == roots.codex_project@);
    assert(all[8] == roots.cursor_global@ && all[9] == roots.cursor_config@);
    assert(all[10] == roots.cursor_project@ && all[11] == roots.pi_global@);
    assert(all[12] == roots.pi_project@ && all[13] == roots.opencode_global@);
    assert(all[14] == roots.opencode_project@ && all[15] == roots.shared_global@);
    assert(all[16] == roots.shared_project@ && all[17] == roots.zed_global@);
    assert(all[18] == roots.zed_project@);
    if roots.app_state_root is Some {
        assert(all[19] == roots.app_state_root->0@);
    }
}

/// The root of a provider is its own.
pub proof fn law_providers_have_their_roots(roots: DiscoveryRoots, provider: ProviderId)
    ensures
        primary_root(roots@, provider) == match provider {
            ProviderId::Claude => roots.claude_global@,
            ProviderId::Codex => roots.codex_global@,
            ProviderId::Cursor => roots.cursor_config@,
            ProviderId::Pi => roots.pi_global@,
            ProviderId::OpenCode => roots.opencode_global@,
            ProviderId::Zed => roots.zed_global@,
        },
{
}

/// A sealed root takes the place of the root of its provider and scope, and of
/// no other; only one provider has a project root to be sealed.
pub proof fn law_sealed_roots_replace_one(
    roots: RootsView,
    sealed: SealedRoot,
    other: ProviderId,
)
    ensures
        sealed.scope is Primary ==> with_root(roots, sealed) is Some && {
            let after = with_root(roots, sealed)->0;
            &&& primary_root(after, sealed.provider) == sealed.root
            &&& other != sealed.provider ==> primary_root(after, other) == primary_root(roots, other)
            &&& after.claude_project == roots.claude_project
            &&& after.app_state_root == roots.app_state_root
        },
        sealed.scope is Project && sealed.provider is Claude ==> with_root(roots, sealed) is Some
            && {
            let after = with_root(roots, sealed)->0;
            &&& after.claude_project == sealed.root
            &&& primary_root(after, other) == primary_root(roots, other)
            &&& after.app_state_root == roots.app_state_root
        },
        sealed.scope is Project && !(sealed.provider is Claude) ==> with_root(roots, sealed) is None,
{
}

/// Roots are unsealed only for the state that they were sealed under.
pub proof fn law_roots_stay_with_their_state(
    current: RootsView,
    app_state_root: Seq<char>,
    sealed_under: Seq<char>,
    sealed: Seq<SealedRoot>,
)
    ensures
        sealed_under != app_state_root ==> unsealed(
            current,
            app_state_root,
            sealed_under,
            sealed,
        ) is Err,
        match unsealed(current, app_state_root, sealed_under, sealed) {
            Ok(roots) => roots.app_state_root == Some(app_state_root) && sealed_under
                == app_state_root,
            Err(_) => true,
        },
{
}

/// The providers whose roots are bound are those that the plan includes, in their
/// order.
pub proof fn law_included_providers_are_bound(
    order: Seq<NamedProvider>,
    included: Seq<ProviderId>,
)
    ensures
        included_in_order(order, included) == order.filter(
            |named: NamedProvider| included.contains(named.provider),
        ),
    decreases order.len(),
{
    reveal(Seq::filter);
    if order.len() > 0 {
        law_included_providers_are_bound(order.drop_last(), included);
    }
}

/// Each included provider is bound to its root as it is, and the one project
/// root besides exactly if the plan changes it.
pub proof fn law_bindings_hold_each_root(
    roots: RootsView,
    order: Seq<NamedProvider>,
    included: Seq<ProviderId>,
    changes_claude_project: bool,
)
    ensures
        ({
            let bound = bound_roots(roots, order, included, changes_claude_project);
            let providers = included_in_order(order, included);
            let project = changes_claude_project && included.contains(ProviderId::Claude);
            &&& bound.len() == providers.len() + if project {
                1int
            } else {
                0int
            }
            &&& forall|i: int|
                0 <= i < providers.len() ==> {
                    &&& (#[trigger] bound[i]).provider == providers[i].provider
                    &&& bound[i].name == providers[i].name@
                    &&& bound[i].scope is Primary
                    &&& bound[i].root == primary_root(roots, providers[i].provider)
                }
            &&& project ==> {
                &&& bound.last().provider is Claude
                &&& bound.last().scope is Project
                &&& bound.last().root == roots.claude_project
                &&& bound.last().name == name_of(order, ProviderId::Claude)
            }
        }),
{
    let providers = included_in_order(order, included);
    let primary = primary_roots(roots, providers);
    assert(primary.len() == providers.len());
}

/// The name of a provider is the first one that is given for it.
pub proof fn law_providers_are_named(order: Seq<NamedProvider>, provider: ProviderId, i: int)
    requires
        0 <= i < order.len(),
        order[i].provider == provider,
        forall|j: int| 0 <= j < i ==> (#[trigger] order[j]).provider != provider,
    ensures
        name_of(order, provider) == order[i].name@,
    decreases order.len(),
{
    if i > 0 {
        assert(order[0].provider != provider);
        let rest = order.skip(1);
        assert(rest[i - 1] == order[i]);
        assert forall|j: int| 0 <= j < i - 1 implies (#[trigger] rest[j]).provider != provider by {
            assert(rest[j] == order[j + 1]);
        }
        law_providers_are_named(rest, provider, i - 1);
    }
}

/// What was read for recovery is seen as it is, and what was not by why.
pub proof fn law_operations_are_seen(
    control: Vec<ControlOperation>,
    groups: Vec<GroupInspection>,
    failure: GroupOperationFailure,
)
    ensures
        read_control(Some(control)) == Some(control@),
        read_control(None) is None,
        read_groups(Ok(groups)) == Ok::<Seq<GroupInspection>, GroupOperationFailure>(groups@),
        read_groups(Err(failure)) == Err::<Seq<GroupInspection>, GroupOperationFailure>(failure),
{
}

} // verus!
