//! Packages: what is counted, what is left out, and what a review lists.
use vstd::prelude::*;

use crate::agent_plugin::{
    all_kind_ranks, backed_up, component_entries, component_row_view, component_rows,
    component_value_view, coverage_ranks, coverage_view, covered, diagnostic_rows,
    disposition_name, ended, excluded_value_view, excluded_values_views, finding_row_view,
    in_reach, instance_detail_value_view, instance_rows, layer_entries, names_view, no_op_count,
    no_op_values_views, ordered_details, outcome_name, package_instances, package_total,
    place_value_view, plan_status_text, provider_coverage_view, provider_entries, provider_ranks,
    reasons_for, safe_reasons, total_of, ApplyItem, ComponentDisposition, Counted, CoverageEntry,
    IncludedTarget, PackagePlan, PlanReach, PluginComponent, PluginInstance, PluginPackage,
    TargetOutcome, ToggleStatus,
};
use crate::commands::agent_plugins::safe_reason;
use crate::commands::toggle::ProviderReachLifecycle;
use crate::json::JsonView;
use crate::ordering::{
    entry_values, in_order, law_sorting_keeps_entries, rank_set, with_rank, EntryView,
};

verus! {

/// A total grows with every instance by what that instance holds.
pub proof fn law_totals_count_every_instance(
    instances: Seq<PluginInstance>,
    instance: PluginInstance,
)
    ensures
        ({
            let more = instances.push(instance);
            &&& total_of(more, Counted::Components) == total_of(instances, Counted::Components)
                + instance.components@.len()
            &&& total_of(more, Counted::Activations) == total_of(instances, Counted::Activations)
                + instance.activations@.len()
            &&& total_of(more, Counted::Blockers) == total_of(instances, Counted::Blockers)
                + instance.blockers@.len()
            &&& total_of(more, Counted::Diagnostics) == total_of(instances, Counted::Diagnostics)
                + instance.diagnostics@.len()
            &&& total_of(more, Counted::Findings) == total_of(instances, Counted::Findings)
                + instance.blockers@.len() + instance.diagnostics@.len()
        }),
        total_of(seq![], Counted::Components) == 0,
        total_of(seq![], Counted::Activations) == 0,
        total_of(seq![], Counted::Blockers) == 0,
        total_of(seq![], Counted::Diagnostics) == 0,
        total_of(seq![], Counted::Findings) == 0,
{
    assert(instances.push(instance).drop_last() =~= instances);
}

/// Findings are blockers and diagnostics, and nothing else.
pub proof fn law_findings_are_blockers_and_diagnostics(instances: Seq<PluginInstance>)
    ensures
        total_of(instances, Counted::Findings) == total_of(instances, Counted::Blockers) + total_of(
            instances,
            Counted::Diagnostics,
        ),
    decreases instances.len(),
{
    if instances.len() > 0 {
        law_findings_are_blockers_and_diagnostics(instances.drop_last());
    }
}

/// Whether ranks only grow.
pub open spec fn ranks_ascend(list: Seq<(u32, Seq<char>)>) -> bool {
    forall|i: int, j: int| 0 <= i < j < list.len() ==> (#[trigger] list[i]).0 < (#[trigger] list[j]).0
}

proof fn lemma_with_rank(list: Seq<(u32, Seq<char>)>, item: (u32, Seq<char>))
    requires
        ranks_ascend(list),
    ensures
        ranks_ascend(with_rank(list, item)),
        exists|i: int|
            0 <= i < with_rank(list, item).len() && (#[trigger] with_rank(list, item)[i]).0
                == item.0,
        forall|x: (u32, Seq<char>)| #[trigger]
            with_rank(list, item).contains(x) ==> list.contains(x) || x == item,
        forall|x: (u32, Seq<char>)| #[trigger]
            list.contains(x) ==> with_rank(list, item).contains(x),
    decreases list.len(),
{
    let out = with_rank(list, item);
    if list.len() == 0 || list.last().0 < item.0 {
        assert(out == list.push(item));
        assert(out[list.len() as int].0 == item.0);
        assert forall|x: (u32, Seq<char>)| #[trigger] list.contains(x) implies out.contains(x) by {
            let k = choose|k: int| 0 <= k < list.len() && list[k] == x;
            assert(out[k] == x);
        }
        assert forall|x: (u32, Seq<char>)| #[trigger] out.contains(x) implies list.contains(x) || x
            == item by {
            let k = choose|k: int| 0 <= k < out.len() && out[k] == x;
            if k < list.len() {
                assert(list[k] == x);
            }
        }
    } else if list.last().0 == item.0 {
        assert(out[list.len() - 1].0 == item.0);
    } else {
        let shorter = list.drop_last();
        lemma_with_rank(shorter, item);
        let before = with_rank(shorter, item);
        assert(out == before.push(list.last()));
        let i = choose|i: int| 0 <= i < before.len() && (#[trigger] before[i]).0 == item.0;
        assert(out[i].0 == item.0);
        assert forall|i: int, j: int| 0 <= i < j < out.len() implies (#[trigger] out[i]).0 < (
        #[trigger] out[j]).0 by {
            if j == out.len() - 1 {
                assert(before.contains(before[i]));
                if shorter.contains(before[i]) {
                    let k = choose|k: int| 0 <= k < shorter.len() && shorter[k] == before[i];
                    assert(list[k].0 < list[list.len() - 1].0);
                }
            }
        }
        assert forall|x: (u32, Seq<char>)| #[trigger] list.contains(x) implies out.contains(x) by {
            let k = choose|k: int| 0 <= k < list.len() && list[k] == x;
            if k < list.len() - 1 {
                assert(shorter[k] == x);
                assert(shorter.contains(x));
                let m = choose|m: int| 0 <= m < before.len() && before[m] == x;
                assert(out[m] == x);
            } else {
                assert(out[before.len() as int] == x);
            }
        }
        assert forall|x: (u32, Seq<char>)| #[trigger] out.contains(x) implies list.contains(x) || x
            == item by {
            let k = choose|k: int| 0 <= k < out.len() && out[k] == x;
            if k < before.len() {
                assert(before[k] == x);
                assert(before.contains(x));
                if shorter.contains(x) {
                    let m = choose|m: int| 0 <= m < shorter.len() && shorter[m] == x;
                    assert(list[m] == x);
                }
            } else {
                assert(list[list.len() - 1] == x);
            }
        }
    }
}

/// Names are listed once for each rank, in the order of the ranks, and no name
/// that was not given.
pub proof fn law_ranks_are_listed_once(list: Seq<(u32, Seq<char>)>)
    ensures
        ranks_ascend(rank_set(list)),
        forall|i: int|
            0 <= i < list.len() ==> exists|k: int|
                0 <= k < rank_set(list).len() && (#[trigger] rank_set(list)[k]).0 == (
                #[trigger] list[i]).0,
        forall|x: (u32, Seq<char>)| #[trigger] rank_set(list).contains(x) ==> list.contains(x),
    decreases list.len(),
{
    if list.len() > 0 {
        let shorter = list.drop_last();
        law_ranks_are_listed_once(shorter);
        let before = rank_set(shorter);
        let out = rank_set(list);
        lemma_with_rank(before, list.last());
        assert(out == with_rank(before, list.last()));
        assert forall|i: int| 0 <= i < list.len() implies exists|k: int|
            0 <= k < out.len() && (#[trigger] out[k]).0 == (#[trigger] list[i]).0 by {
            if i < list.len() - 1 {
                assert(shorter[i] == list[i]);
                let k = choose|k: int|
                    0 <= k < before.len() && (#[trigger] before[k]).0 == shorter[i].0;
                assert(before.contains(before[k]));
                assert(out.contains(before[k]));
                let m = choose|m: int| 0 <= m < out.len() && out[m] == before[k];
                assert(out[m].0 == list[i].0);
            } else {
                let k = choose|k: int| 0 <= k < out.len() && (#[trigger] out[k]).0 == list.last().0;
                assert(out[k].0 == list[i].0);
            }
        }
        assert forall|x: (u32, Seq<char>)| #[trigger] out.contains(x) implies list.contains(x) by {
            if before.contains(x) {
                assert(shorter.contains(x));
                let k = choose|k: int| 0 <= k < shorter.len() && shorter[k] == x;
                assert(list[k] == x);
            } else {
                assert(list[list.len() - 1] == x);
            }
        }
    }
}

/// The providers of a package are those of its instances.
pub proof fn law_providers_are_listed(instances: Seq<PluginInstance>, i: int)
    requires
        0 <= i < instances.len(),
    ensures
        provider_ranks(instances).len() == instances.len(),
        provider_ranks(instances)[i] == (instances[i].provider_rank, instances[i].provider@),
        names_view(provider_ranks(instances)) is Array,
        names_view(provider_ranks(instances))->Array_0.len() == rank_set(
            provider_ranks(instances),
        ).len(),
        forall|k: int|
            0 <= k < rank_set(provider_ranks(instances)).len()
                ==> #[trigger] names_view(provider_ranks(instances))->Array_0[k] == JsonView::Text(
                rank_set(provider_ranks(instances))[k].1,
            ),
{
}

/// The kinds of a package are those of the components of its instances, and no
/// others.
pub proof fn law_kinds_are_listed(instances: Seq<PluginInstance>, kind: (u32, Seq<char>))
    ensures
        all_kind_ranks(instances).contains(kind) <==> exists|i: int, j: int|
            0 <= i < instances.len() && 0 <= j < instances[i].components@.len() && (
            #[trigger] instances[i].components@[j]).kind_rank == kind.0
                && instances[i].components@[j].kind@ == kind.1,
    decreases instances.len(),
{
    if instances.len() > 0 {
        let shorter = instances.drop_last();
        law_kinds_are_listed(shorter, kind);
        let before = all_kind_ranks(shorter);
        let own = crate::agent_plugin::kind_ranks(instances.last().components@);
        let all = all_kind_ranks(instances);
        assert(all == before + own);
        if all.contains(kind) {
            let k = choose|k: int| 0 <= k < all.len() && all[k] == kind;
            if k < before.len() {
                assert(before[k] == kind);
                let (i, j) = choose|i: int, j: int|
                    0 <= i < shorter.len() && 0 <= j < shorter[i].components@.len() && (
                    #[trigger] shorter[i].components@[j]).kind_rank == kind.0
                        && shorter[i].components@[j].kind@ == kind.1;
                assert(instances[i].components@[j].kind_rank == kind.0);
            } else {
                let j = k - before.len();
                assert(own[j] == kind);
                let last = instances.len() - 1;
                assert(instances[last].components@[j].kind_rank == kind.0);
            }
        }
        if exists|i: int, j: int|
            0 <= i < instances.len() && 0 <= j < instances[i].components@.len() && (
            #[trigger] instances[i].components@[j]).kind_rank == kind.0
                && instances[i].components@[j].kind@ == kind.1 {
            let (i, j) = choose|i: int, j: int|
                0 <= i < instances.len() && 0 <= j < instances[i].components@.len() && (
                #[trigger] instances[i].components@[j]).kind_rank == kind.0
                    && instances[i].components@[j].kind@ == kind.1;
            if i < instances.len() - 1 {
                assert(shorter[i].components@[j].kind_rank == kind.0);
                let k = choose|k: int| 0 <= k < before.len() && before[k] == kind;
                assert(all[k] == kind);
            } else {
                assert(own[j] == kind);
                assert(all[before.len() + j] == kind);
            }
        }
    }
}

/// What is not written of what is included is left as it is.
pub proof fn law_no_ops_are_what_is_not_written(plan: PackagePlan)
    ensures
        plan.included_count >= plan.write_count ==> no_op_count(plan) + plan.write_count
            == plan.included_count,
        plan.included_count < plan.write_count ==> no_op_count(plan) == 0,
{
}

/// The totals of a plan are those of its package, and nothing without one.
pub proof fn law_plans_count_their_package(package: PluginPackage, what: Counted)
    requires
        total_of(package.instances@, what) <= u64::MAX,
    ensures
        package_total(Some(package), what) == total_of(package.instances@, what),
        package_total(None, what) == 0,
        package_instances(Some(package)) == package.instances@,
        package_instances(None).len() == 0,
{
}

/// A review lists as unchanged exactly the targets in which nothing changes, in
/// their order.
pub proof fn law_unchanged_targets_are_listed(list: Seq<IncludedTarget>)
    ensures
        no_op_values_views(list) == list.filter(
            |item: IncludedTarget| item.outcome is NoOp,
        ).map_values(|item: IncludedTarget| place_value_view(item)),
    decreases list.len(),
{
    reveal(Seq::filter);
    let test = |item: IncludedTarget| item.outcome is NoOp;
    let shown = |item: IncludedTarget| place_value_view(item);
    if list.len() > 0 {
        law_unchanged_targets_are_listed(list.drop_last());
        let before = list.drop_last().filter(test);
        if test(list.last()) {
            assert(list.filter(test) == before.push(list.last()));
            assert(before.push(list.last()).map_values(shown) =~= before.map_values(shown).push(
                shown(list.last()),
            ));
        }
    } else {
        assert(list.filter(test).map_values(shown) =~= Seq::<JsonView>::empty());
    }
}

/// A review lists as out of reach exactly the instances of other providers than
/// the selected one, in their order.
pub proof fn law_instances_out_of_reach_are_listed(list: Seq<PluginInstance>, reach: PlanReach)
    ensures
        excluded_values_views(list, reach) == list.filter(
            |item: PluginInstance|
                match reach {
                    PlanReach::All => false,
                    PlanReach::Selected { provider } => provider@ != item.provider@,
                },
        ).map_values(|item: PluginInstance| excluded_value_view(item)),
    decreases list.len(),
{
    reveal(Seq::filter);
    let test = |item: PluginInstance|
        match reach {
            PlanReach::All => false,
            PlanReach::Selected { provider } => provider@ != item.provider@,
        };
    let shown = |item: PluginInstance| excluded_value_view(item);
    if list.len() > 0 {
        law_instances_out_of_reach_are_listed(list.drop_last(), reach);
        let before = list.drop_last().filter(test);
        if test(list.last()) {
            assert(list.filter(test) == before.push(list.last()));
            assert(before.push(list.last()).map_values(shown) =~= before.map_values(shown).push(
                shown(list.last()),
            ));
        }
    } else {
        assert(list.filter(test).map_values(shown) =~= Seq::<JsonView>::empty());
    }
}

/// The components that are listed for an instance are exactly those that are not
/// available, in their order.
pub proof fn law_withheld_components_are_listed(
    instance: PluginInstance,
    components: Seq<PluginComponent>,
)
    ensures
        component_rows(instance, components) == components.filter(
            |item: PluginComponent| item.disposition is Withheld,
        ).map_values(|item: PluginComponent| component_row_view(instance, item)),
    decreases components.len(),
{
    reveal(Seq::filter);
    let test = |item: PluginComponent| item.disposition is Withheld;
    let shown = |item: PluginComponent| component_row_view(instance, item);
    if components.len() > 0 {
        law_withheld_components_are_listed(instance, components.drop_last());
        let before = components.drop_last().filter(test);
        if test(components.last()) {
            assert(components.filter(test) == before.push(components.last()));
            assert(before.push(components.last()).map_values(shown) =~= before.map_values(
                shown,
            ).push(shown(components.last())));
        }
    } else {
        assert(components.filter(test).map_values(shown) =~= Seq::<JsonView>::empty());
    }
}

/// The diagnostics of a package hold those of each instance: its withheld
/// components, then its blockers, then its diagnostics.
pub proof fn law_diagnostics_hold_every_instance(instances: Seq<PluginInstance>, i: int)
    requires
        0 <= i < instances.len(),
    ensures
        ({
            let rows = diagnostic_rows(instances);
            let instance = instances[i];
            &&& forall|j: int|
                0 <= j < instance.blockers@.len() ==> rows.contains(
                    finding_row_view(instance, "blocked"@, (#[trigger] instance.blockers@[j])@),
                )
            &&& forall|j: int|
                0 <= j < instance.diagnostics@.len() ==> rows.contains(
                    finding_row_view(
                        instance,
                        "diagnostic"@,
                        (#[trigger] instance.diagnostics@[j])@,
                    ),
                )
            &&& forall|x: JsonView| #[trigger]
                component_rows(instance, instance.components@).contains(x) ==> rows.contains(x)
        }),
    decreases instances.len(),
{
    let rows = diagnostic_rows(instances);
    let before = diagnostic_rows(instances.drop_last());
    let own = instance_rows(instances.last());
    assert(rows == before + own);
    let instance = instances[i];
    if i < instances.len() - 1 {
        law_diagnostics_hold_every_instance(instances.drop_last(), i);
        assert(instances.drop_last()[i] == instance);
        assert forall|x: JsonView| #[trigger] before.contains(x) implies rows.contains(x) by {
            let k = choose|k: int| 0 <= k < before.len() && before[k] == x;
            assert(rows[k] == x);
        }
    } else {
        let components = component_rows(instance, instance.components@);
        let n = components.len() as int;
        let b = instance.blockers@.len() as int;
        assert forall|j: int| 0 <= j < instance.blockers@.len() implies rows.contains(
            finding_row_view(instance, "blocked"@, (#[trigger] instance.blockers@[j])@),
        ) by {
            assert(rows[before.len() + n + j] == finding_row_view(
                instance,
                "blocked"@,
                instance.blockers@[j]@,
            ));
        }
        assert forall|j: int| 0 <= j < instance.diagnostics@.len() implies rows.contains(
            finding_row_view(instance, "diagnostic"@, (#[trigger] instance.diagnostics@[j])@),
        ) by {
            assert(rows[before.len() + n + b + j] == finding_row_view(
                instance,
                "diagnostic"@,
                instance.diagnostics@[j]@,
            ));
        }
        assert forall|x: JsonView| #[trigger] components.contains(x) implies rows.contains(x) by {
            let k = choose|k: int| 0 <= k < components.len() && components[k] == x;
            assert(rows[before.len() + k] == x);
        }
    }
}

/// There are no diagnostics but those of the instances.
pub proof fn law_diagnostics_are_counted(instances: Seq<PluginInstance>, instance: PluginInstance)
    ensures
        diagnostic_rows(seq![]).len() == 0,
        diagnostic_rows(instances.push(instance)).len() == diagnostic_rows(instances).len()
            + instance.components@.filter(
            |item: PluginComponent| item.disposition is Withheld,
        ).len() + instance.blockers@.len() + instance.diagnostics@.len(),
{
    assert(instances.push(instance).drop_last() =~= instances);
    law_withheld_components_are_listed(instance, instance.components@);
}

/// A coverage counts the entries of a provider by whether they are included.
pub proof fn law_coverage_counts_entries(entries: Seq<CoverageEntry>, rank: u32, included: bool)
    ensures
        covered(entries, rank, included) == entries.filter(
            |entry: CoverageEntry| entry.provider_rank == rank && entry.included == included,
        ).len(),
        reasons_for(entries, rank) == entries.filter(
            |entry: CoverageEntry| entry.provider_rank == rank && entry.reason is Some,
        ).map_values(|entry: CoverageEntry| entry.reason->0@),
    decreases entries.len(),
{
    reveal(Seq::filter);
    let counted = |entry: CoverageEntry| entry.provider_rank == rank && entry.included == included;
    let test = |entry: CoverageEntry| entry.provider_rank == rank && entry.reason is Some;
    let shown = |entry: CoverageEntry| entry.reason->0@;
    if entries.len() > 0 {
        law_coverage_counts_entries(entries.drop_last(), rank, included);
        let before = entries.drop_last().filter(test);
        if counted(entries.last()) {
            assert(entries.filter(counted) == entries.drop_last().filter(counted).push(
                entries.last(),
            ));
        }
        if test(entries.last()) {
            assert(entries.filter(test) == before.push(entries.last()));
            assert(before.push(entries.last()).map_values(shown) =~= before.map_values(shown).push(
                shown(entries.last()),
            ));
        }
    } else {
        assert(entries.filter(test).map_values(shown) =~= Seq::<Seq<char>>::empty());
    }
}

/// A coverage says something of every provider that an entry names.
pub proof fn law_coverage_names_every_provider(entries: Seq<CoverageEntry>, i: int)
    requires
        0 <= i < entries.len(),
    ensures
        coverage_view(entries) is Array,
        ({
            let shown = coverage_view(entries)->Array_0;
            let providers = rank_set(coverage_ranks(entries));
            &&& shown.len() == providers.len()
            &&& forall|k: int|
                0 <= k < shown.len() ==> #[trigger] shown[k] == provider_coverage_view(
                    entries,
                    providers[k],
                )
            &&& exists|k: int|
                0 <= k < providers.len() && (#[trigger] providers[k]).0 == entries[i].provider_rank
        }),
{
    law_ranks_are_listed_once(coverage_ranks(entries));
    assert(coverage_ranks(entries)[i].0 == entries[i].provider_rank);
}

/// Results are counted by how each item ended, and by whether it has a backup.
pub proof fn law_results_are_counted(items: Seq<ApplyItem>, status: ToggleStatus)
    ensures
        ended(items, status) == items.filter(|item: ApplyItem| item.status == status).len(),
        backed_up(items) == items.filter(|item: ApplyItem| item.has_backup).len(),
        safe_reasons(items) == items.filter(|item: ApplyItem| item.reason is Some).map_values(
            |item: ApplyItem| safe_reason(item.reason->0@),
        ),
    decreases items.len(),
{
    reveal(Seq::filter);
    let same = |item: ApplyItem| item.status == status;
    let kept = |item: ApplyItem| item.has_backup;
    let test = |item: ApplyItem| item.reason is Some;
    let shown = |item: ApplyItem| safe_reason(item.reason->0@);
    if items.len() > 0 {
        let shorter = items.drop_last();
        law_results_are_counted(shorter, status);
        if same(items.last()) {
            assert(items.filter(same) == shorter.filter(same).push(items.last()));
        }
        if kept(items.last()) {
            assert(items.filter(kept) == shorter.filter(kept).push(items.last()));
        }
        let before = shorter.filter(test);
        if test(items.last()) {
            assert(items.filter(test) == before.push(items.last()));
            assert(before.push(items.last()).map_values(shown) =~= before.map_values(shown).push(
                shown(items.last()),
            ));
        }
    } else {
        assert(items.filter(test).map_values(shown) =~= Seq::<Seq<char>>::empty());
    }
}

/// A plan that would write is shown as planned, and any other as what it is.
pub proof fn law_plans_show_what_they_would_do(lifecycle: ProviderReachLifecycle)
    ensures
        lifecycle is Applied || lifecycle is Partial ==> plan_status_text(lifecycle) == "planned"@,
        lifecycle is NoOp ==> plan_status_text(lifecycle) == "no-op"@,
        lifecycle is NoTargetsInProviderReach ==> plan_status_text(lifecycle)
            == "no-targets-in-provider-reach"@,
        lifecycle is Blocked ==> plan_status_text(lifecycle) == "blocked"@,
        lifecycle is RecoveryRequired ==> plan_status_text(lifecycle) == "recovery-required"@,
{
}

/// Whatever a component or a target came to is shown under its own name.
pub proof fn law_outcomes_keep_their_names(
    disposition: ComponentDisposition,
    outcome: TargetOutcome,
)
    ensures
        match disposition {
            ComponentDisposition::Available { name } => disposition_name(disposition) == name@,
            ComponentDisposition::Withheld { name } => disposition_name(disposition) == name@,
        },
        match outcome {
            TargetOutcome::NoOp { name } => outcome_name(outcome) == name@,
            TargetOutcome::Change { name } => outcome_name(outcome) == name@,
        },
{
}

proof fn lemma_sorted_contains<V>(list: Seq<EntryView<V>>, x: EntryView<V>)
    ensures
        in_order(list).contains(x) <==> list.contains(x),
{
    law_sorting_keeps_entries(list);
    list.to_multiset_ensures();
    in_order(list).to_multiset_ensures();
    assert(list.contains(x) <==> list.to_multiset().count(x) > 0);
    assert(in_order(list).contains(x) <==> in_order(list).to_multiset().count(x) > 0);
}

/// The details of a package show each of its instances, and nothing else.
pub proof fn law_details_show_every_instance(instances: Seq<PluginInstance>, i: int)
    requires
        0 <= i < instances.len(),
    ensures
        ordered_details(instances).len() == instances.len(),
        ordered_details(instances).contains(instance_detail_value_view(instances[i])),
{
    let first = in_order(layer_entries(instances));
    law_sorting_keeps_entries(layer_entries(instances));
    law_sorting_keeps_entries(provider_entries(first));
    let row = (instances[i].provider@, instance_detail_value_view(instances[i]));
    let entry = (instances[i].layer@, 0u64, row);
    assert(layer_entries(instances)[i] == entry);
    lemma_sorted_contains(layer_entries(instances), entry);
    let k = choose|k: int| 0 <= k < first.len() && first[k] == entry;
    let second = (row.0, 0u64, row);
    assert(provider_entries(first)[k] == second);
    lemma_sorted_contains(provider_entries(first), second);
    let list = in_order(provider_entries(first));
    let m = choose|m: int| 0 <= m < list.len() && list[m] == second;
    assert(ordered_details(instances)[m] == instance_detail_value_view(instances[i]));
}

/// The components of an instance are all shown, in the order of their kinds.
pub proof fn law_details_show_every_component(components: Seq<PluginComponent>, i: int)
    requires
        0 <= i < components.len(),
    ensures
        ({
            let sorted = in_order(component_entries(components));
            let shown = entry_values(sorted);
            &&& shown.len() == components.len()
            &&& shown.contains(component_value_view(components[i]))
            &&& forall|a: int, b: int|
                0 <= a < b < sorted.len() ==> crate::text_map::text_le(
                    (#[trigger] sorted[a]).0,
                    (#[trigger] sorted[b]).0,
                )
        }),
{
    let entries = component_entries(components);
    let sorted = in_order(entries);
    law_sorting_keeps_entries(entries);
    let entry = (components[i].kind@, 0u64, component_value_view(components[i]));
    assert(entries[i] == entry);
    lemma_sorted_contains(entries, entry);
    let k = choose|k: int| 0 <= k < sorted.len() && sorted[k] == entry;
    assert(entry_values(sorted)[k] == entry.2);
}

/// A reach holds every provider, or the one that was selected.
pub proof fn law_reaches_hold_their_providers(reach: PlanReach, provider: Seq<char>)
    ensures
        match reach {
            PlanReach::All => in_reach(reach, provider),
            PlanReach::Selected { provider: selected } => in_reach(reach, provider) <==> selected@
                == provider,
        },
{
}

/// A provider is put into a list of ranks once, whatever else it holds.
pub proof fn law_ranks_are_put_once(list: Seq<(u32, Seq<char>)>, item: (u32, Seq<char>))
    requires
        ranks_ascend(list),
    ensures
        ranks_ascend(with_rank(list, item)),
        exists|i: int|
            0 <= i < with_rank(list, item).len() && (#[trigger] with_rank(list, item)[i]).0
                == item.0,
        forall|x: (u32, Seq<char>)| #[trigger]
            with_rank(list, item).contains(x) ==> list.contains(x) || x == item,
        forall|x: (u32, Seq<char>)| #[trigger]
            list.contains(x) ==> with_rank(list, item).contains(x),
{
    lemma_with_rank(list, item);
}

} // verus!
