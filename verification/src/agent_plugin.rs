//! Agent plugin packages: what is shown of them, of the plans that switch them,
//! and of what came of a plan, without the paths behind them.
use vstd::prelude::*;

use crate::commands::agent_plugins::{safe_reason, safe_reason_code};
use crate::commands::toggle::{lifecycle_name, lifecycle_text, ProviderReachLifecycle};
use crate::json::{
    array, item_views, text, text_array, text_values, Json, JsonView, ObjectBuilder,
};
use crate::laws::shown::{lemma_shows_all, shows, shows_only};
use crate::ordering::{
    entry_values, entry_views, in_order, put_rank_once, put_text_once, rank_set, ranked_views,
    sort_entries, text_set, with_rank, EntryView, OrderedEntry, RankedName,
};
use crate::text::{same_text, string_views};

verus! {

/// What becomes of a component, with the name that is shown for it.
pub enum ComponentDisposition {
    Available { name: String },
    /// Anything that keeps a component from being available.
    Withheld { name: String },
}

/// The name of what becomes of a component.
pub open spec fn disposition_name(disposition: ComponentDisposition) -> Seq<char> {
    match disposition {
        ComponentDisposition::Available { name } => name@,
        ComponentDisposition::Withheld { name } => name@,
    }
}

impl ComponentDisposition {
    pub fn name(&self) -> (name: &str)
        ensures
            name@ == disposition_name(*self),
    {
        match self {
            ComponentDisposition::Available { name } => name.as_str(),
            ComponentDisposition::Withheld { name } => name.as_str(),
        }
    }

    pub fn is_available(&self) -> (r: bool)
        ensures
            r == (self is Available),
    {
        match self {
            ComponentDisposition::Available { .. } => true,
            ComponentDisposition::Withheld { .. } => false,
        }
    }
}

/// A component of a package; `kind_rank` is the place of its kind among the
/// kinds.
pub struct PluginComponent {
    pub kind: String,
    pub kind_rank: u32,
    pub name: Json,
    pub disposition: ComponentDisposition,
    pub reason: Json,
}

/// A native activation of a package.
pub struct PluginActivation {
    pub enabled: Json,
    pub mutability: Json,
}

/// A package in one provider and layer; `provider_rank` is the place of the
/// provider among the providers.
pub struct PluginInstance {
    pub instance_id: String,
    pub provider: String,
    pub provider_rank: u32,
    pub layer: String,
    pub state: String,
    pub access: String,
    pub version: Json,
    pub components: Vec<PluginComponent>,
    pub activations: Vec<PluginActivation>,
    pub blockers: Vec<String>,
    pub diagnostics: Vec<String>,
}

/// A logical package.
pub struct PluginPackage {
    pub logical_id: String,
    pub name: String,
    pub component_signature: String,
    pub projection_fingerprint: String,
    pub state: String,
    pub access: String,
    pub instances: Vec<PluginInstance>,
}

/// What is counted of an instance.
#[derive(Debug, Clone, Copy, PartialEq, Eq, Structural)]
pub enum Counted {
    Components,
    Activations,
    Blockers,
    Diagnostics,
    /// Blockers and diagnostics together.
    Findings,
}

/// How many of something an instance has.
pub open spec fn count_of(instance: PluginInstance, what: Counted) -> nat {
    match what {
        Counted::Components => instance.components@.len(),
        Counted::Activations => instance.activations@.len(),
        Counted::Blockers => instance.blockers@.len(),
        Counted::Diagnostics => instance.diagnostics@.len(),
        Counted::Findings => instance.blockers@.len() + instance.diagnostics@.len(),
    }
}

/// How many of something all instances have.
pub open spec fn total_of(instances: Seq<PluginInstance>, what: Counted) -> nat
    decreases instances.len(),
{
    if instances.len() == 0 {
        0
    } else {
        total_of(instances.drop_last(), what) + count_of(instances.last(), what)
    }
}

/// Whether everything in a package can be counted.
pub open spec fn countable(package: PluginPackage) -> bool {
    forall|what: Counted| #[trigger] total_of(package.instances@, what) <= u64::MAX
}

proof fn lemma_total_grows(instances: Seq<PluginInstance>, what: Counted, n: int)
    requires
        0 <= n <= instances.len(),
    ensures
        total_of(instances.take(n), what) <= total_of(instances, what),
    decreases instances.len(),
{
    if n == instances.len() {
        assert(instances.take(n) =~= instances);
    } else {
        assert(instances.drop_last().take(n) =~= instances.take(n));
        lemma_total_grows(instances.drop_last(), what, n);
    }
}

fn total(instances: &Vec<PluginInstance>, what: Counted) -> (sum: u64)
    requires
        total_of(instances@, what) <= u64::MAX,
    ensures
        sum == total_of(instances@, what),
{
    let mut sum: u64 = 0;
    let mut i: usize = 0;
    assert(instances@.take(0) =~= seq![]);
    while i < instances.len()
        invariant
            i <= instances@.len(),
            sum == total_of(instances@.take(i as int), what),
            total_of(instances@, what) <= u64::MAX,
        decreases instances@.len() - i,
    {
        proof {
            assert(instances@.take(i + 1).drop_last() =~= instances@.take(i as int));
            lemma_total_grows(instances@, what, i + 1);
        }
        let instance = &instances[i];
        sum = match what {
            Counted::Components => sum + instance.components.len() as u64,
            Counted::Activations => sum + instance.activations.len() as u64,
            Counted::Blockers => sum + instance.blockers.len() as u64,
            Counted::Diagnostics => sum + instance.diagnostics.len() as u64,
            Counted::Findings => sum + instance.blockers.len() as u64
                + instance.diagnostics.len() as u64,
        };
        i = i + 1;
    }
    assert(instances@.take(i as int) =~= instances@);
    sum
}

fn total_fits(instances: &Vec<PluginInstance>, what: Counted) -> (r: bool)
    ensures
        r == (total_of(instances@, what) <= u64::MAX),
{
    let mut sum: u64 = 0;
    let mut i: usize = 0;
    assert(instances@.take(0) =~= seq![]);
    while i < instances.len()
        invariant
            i <= instances@.len(),
            sum == total_of(instances@.take(i as int), what),
        decreases instances@.len() - i,
    {
        proof {
            assert(instances@.take(i + 1).drop_last() =~= instances@.take(i as int));
            lemma_total_grows(instances@, what, i + 1);
        }
        let instance = &instances[i];
        let (first, second): (usize, usize) = match what {
            Counted::Components => (instance.components.len(), 0),
            Counted::Activations => (instance.activations.len(), 0),
            Counted::Blockers => (instance.blockers.len(), 0),
            Counted::Diagnostics => (instance.diagnostics.len(), 0),
            Counted::Findings => (instance.blockers.len(), instance.diagnostics.len()),
        };
        let grown = match sum.checked_add(first as u64) {
            Some(grown) => grown.checked_add(second as u64),
            None => None,
        };
        sum = match grown {
            Some(grown) => grown,
            None => return false,
        };
        i = i + 1;
    }
    assert(instances@.take(i as int) =~= instances@);
    true
}

/// Whether everything in a package can be counted.
pub fn is_countable(package: &PluginPackage) -> (r: bool)
    ensures
        r == countable(*package),
{
    let fits = total_fits(&package.instances, Counted::Components) && total_fits(
        &package.instances,
        Counted::Activations,
    ) && total_fits(&package.instances, Counted::Blockers) && total_fits(
        &package.instances,
        Counted::Diagnostics,
    ) && total_fits(&package.instances, Counted::Findings);
    proof {
        let instances = package.instances@;
        if fits {
            assert forall|what: Counted| #[trigger] total_of(instances, what) <= u64::MAX by {
                match what {
                    Counted::Components => {},
                    Counted::Activations => {},
                    Counted::Blockers => {},
                    Counted::Diagnostics => {},
                    Counted::Findings => {},
                }
            }
        }
    }
    fits
}

/// The providers of a package.
pub open spec fn provider_ranks(instances: Seq<PluginInstance>) -> Seq<(u32, Seq<char>)> {
    Seq::new(instances.len(), |i: int| (instances[i].provider_rank, instances[i].provider@))
}

/// The kinds of an instance's components.
pub open spec fn kind_ranks(components: Seq<PluginComponent>) -> Seq<(u32, Seq<char>)> {
    Seq::new(components.len(), |i: int| (components[i].kind_rank, components[i].kind@))
}

/// The kinds of all components of a package.
pub open spec fn all_kind_ranks(instances: Seq<PluginInstance>) -> Seq<(u32, Seq<char>)>
    decreases instances.len(),
{
    if instances.len() == 0 {
        seq![]
    } else {
        all_kind_ranks(instances.drop_last()) + kind_ranks(instances.last().components@)
    }
}

/// The names of ranked names.
pub open spec fn names_of(list: Seq<(u32, Seq<char>)>) -> Seq<Seq<char>> {
    Seq::new(list.len(), |i: int| list[i].1)
}

/// The names in a list of ranked names, each once, in their order.
pub open spec fn names_view(list: Seq<(u32, Seq<char>)>) -> JsonView {
    JsonView::Array(text_values(names_of(rank_set(list))))
}

fn names_array(list: &Vec<RankedName>) -> (value: Json)
    ensures
        value@ == JsonView::Array(text_values(names_of(ranked_views(list@)))),
{
    let mut values: Vec<Json> = Vec::new();
    let mut i: usize = 0;
    while i < list.len()
        invariant
            i <= list@.len(),
            values@.len() == i,
            forall|j: int|
                0 <= j < i ==> (#[trigger] values@[j])@ == JsonView::Text(list@[j].name@),
        decreases list@.len() - i,
    {
        values.push(text(list[i].name.as_str()));
        i = i + 1;
    }
    assert(item_views(values@) =~= text_values(names_of(ranked_views(list@))));
    array(values)
}

fn provider_names(instances: &Vec<PluginInstance>) -> (value: Json)
    ensures
        value@ == names_view(provider_ranks(instances@)),
{
    let ghost all = provider_ranks(instances@);
    let mut list: Vec<RankedName> = Vec::new();
    let mut i: usize = 0;
    assert(all.take(0) =~= seq![]);
    assert(ranked_views(list@) =~= seq![]);
    while i < instances.len()
        invariant
            i <= instances@.len(),
            all == provider_ranks(instances@),
            ranked_views(list@) == rank_set(all.take(i as int)),
        decreases instances@.len() - i,
    {
        assert(all.take(i + 1).drop_last() =~= all.take(i as int));
        put_rank_once(&mut list, instances[i].provider_rank, instances[i].provider.as_str());
        i = i + 1;
    }
    assert(all.take(i as int) =~= all);
    names_array(&list)
}

proof fn lemma_rank_set_appended(a: Seq<(u32, Seq<char>)>, item: (u32, Seq<char>))
    ensures
        rank_set(a.push(item)) == with_rank(rank_set(a), item),
{
    assert(a.push(item).drop_last() =~= a);
}

fn kind_names(instances: &Vec<PluginInstance>) -> (value: Json)
    ensures
        value@ == names_view(all_kind_ranks(instances@)),
{
    let mut list: Vec<RankedName> = Vec::new();
    let mut i: usize = 0;
    assert(instances@.take(0) =~= seq![]);
    assert(ranked_views(list@) =~= seq![]);
    while i < instances.len()
        invariant
            i <= instances@.len(),
            ranked_views(list@) == rank_set(all_kind_ranks(instances@.take(i as int))),
        decreases instances@.len() - i,
    {
        let ghost before = all_kind_ranks(instances@.take(i as int));
        let components = &instances[i].components;
        let ghost kinds = kind_ranks(components@);
        let mut k: usize = 0;
        assert(before + kinds.take(0) =~= before);
        while k < components.len()
            invariant
                k <= components@.len(),
                kinds == kind_ranks(components@),
                ranked_views(list@) == rank_set(before + kinds.take(k as int)),
            decreases components@.len() - k,
        {
            proof {
                lemma_rank_set_appended(before + kinds.take(k as int), kinds[k as int]);
                assert((before + kinds.take(k as int)).push(kinds[k as int]) =~= before
                    + kinds.take(k + 1));
            }
            put_rank_once(&mut list, components[k].kind_rank, components[k].kind.as_str());
            k = k + 1;
        }
        proof {
            assert(kinds.take(k as int) =~= kinds);
            assert(instances@.take(i + 1).drop_last() =~= instances@.take(i as int));
        }
        i = i + 1;
    }
    assert(instances@.take(i as int) =~= instances@);
    names_array(&list)
}

/// What a package's summary says of an instance.
pub open spec fn instance_summary_value_view(instance: PluginInstance) -> JsonView {
    JsonView::Object(
        seq![
            ("provider"@, JsonView::Text(instance.provider@)),
            ("layer"@, JsonView::Text(instance.layer@)),
            ("state"@, JsonView::Text(instance.state@)),
            ("access"@, JsonView::Text(instance.access@)),
            ("componentCount"@, JsonView::Unsigned(instance.components@.len() as u64)),
            ("activationCount"@, JsonView::Unsigned(instance.activations@.len() as u64)),
            ("blockerCount"@, JsonView::Unsigned(instance.blockers@.len() as u64)),
            ("diagnosticCount"@, JsonView::Unsigned(instance.diagnostics@.len() as u64)),
        ],
    )
}

/// What a package's summary says of an instance: each part under its own name,
/// and nothing else.
pub proof fn law_shown_instance_summary(instance: PluginInstance)
    ensures
        ({
            let shown = instance_summary_value_view(instance);
            &&& shows_only(shown, 8)
            &&& shows(shown, "provider"@, JsonView::Text(instance.provider@))
            &&& shows(shown, "layer"@, JsonView::Text(instance.layer@))
            &&& shows(shown, "state"@, JsonView::Text(instance.state@))
            &&& shows(shown, "access"@, JsonView::Text(instance.access@))
            &&& shows(
                shown,
                "componentCount"@,
                JsonView::Unsigned(instance.components@.len() as u64),
            )
            &&& shows(
                shown,
                "activationCount"@,
                JsonView::Unsigned(instance.activations@.len() as u64),
            )
            &&& shows(shown, "blockerCount"@, JsonView::Unsigned(instance.blockers@.len() as u64))
            &&& shows(
                shown,
                "diagnosticCount"@,
                JsonView::Unsigned(instance.diagnostics@.len() as u64),
            )
        }),
{
    let shown = instance_summary_value_view(instance);
    lemma_shows_all(shown);
    let at = shown->Object_0;
    assert(at[0] == at[0] && at[1] == at[1] && at[2] == at[2] && at[3] == at[3] && at[4] ==
        at[4] && at[5] == at[5] && at[6] == at[6] && at[7] == at[7]);
}

/// What a package's summary says of an instance.
pub fn instance_summary_value(instance: &PluginInstance) -> (value: Json)
    ensures
        value@ == instance_summary_value_view(*instance),
{
    let mut out = ObjectBuilder::new();
    out.put_text("provider", instance.provider.as_str());
    out.put_text("layer", instance.layer.as_str());
    out.put_text("state", instance.state.as_str());
    out.put_text("access", instance.access.as_str());
    out.put("componentCount", Json::Unsigned(instance.components.len() as u64));
    out.put("activationCount", Json::Unsigned(instance.activations.len() as u64));
    out.put("blockerCount", Json::Unsigned(instance.blockers.len() as u64));
    out.put("diagnosticCount", Json::Unsigned(instance.diagnostics.len() as u64));
    assert(out@ =~= instance_summary_value_view(*instance)->Object_0);
    out.finish()
}

/// What a package's summary says of its instances.
pub open spec fn instance_summaries_views(list: Seq<PluginInstance>) -> Seq<JsonView> {
    Seq::new(list.len(), |i: int| instance_summary_value_view(list[i]))
}

/// Each of them is shown, in the order in which they stand.
pub proof fn law_each_of_instance_summaries(list: Seq<PluginInstance>)
    ensures
        instance_summaries_views(list).len() == list.len(),
        forall|i: int| 0 <= i < list.len() ==> #[trigger] instance_summaries_views(list)[i] == instance_summary_value_view(list[i]),
{
}

/// What a package's summary says of its instances.
pub fn instance_summaries(list: &Vec<PluginInstance>) -> (values: Vec<Json>)
    ensures
        item_views(values@) == instance_summaries_views(list@),
{
    let mut values: Vec<Json> = Vec::new();
    let mut i: usize = 0;
    while i < list.len()
        invariant
            i <= list@.len(),
            values@.len() == i,
            forall|j: int|
                0 <= j < i ==> (#[trigger] values@[j])@ == instance_summary_value_view(list@[j]),
        decreases list@.len() - i,
    {
        values.push(instance_summary_value(&list[i]));
        i = i + 1;
    }
    assert(item_views(values@) =~= instance_summaries_views(list@));
    values
}

/// What is shown of a component.
pub open spec fn component_value_view(component: PluginComponent) -> JsonView {
    JsonView::Object(
        seq![
            ("kind"@, JsonView::Text(component.kind@)),
            ("name"@, component.name@),
            ("disposition"@, JsonView::Text(disposition_name(component.disposition))),
            ("reason"@, component.reason@),
        ],
    )
}

/// What is shown of a component: each part under its own name, and nothing
/// else.
pub proof fn law_shown_component(component: PluginComponent)
    ensures
        ({
            let shown = component_value_view(component);
            &&& shows_only(shown, 4)
            &&& shows(shown, "kind"@, JsonView::Text(component.kind@))
            &&& shows(shown, "name"@, component.name@)
            &&& shows(
                shown,
                "disposition"@,
                JsonView::Text(disposition_name(component.disposition)),
            )
            &&& shows(shown, "reason"@, component.reason@)
        }),
{
    let shown = component_value_view(component);
    lemma_shows_all(shown);
    let at = shown->Object_0;
    assert(at[0] == at[0] && at[1] == at[1] && at[2] == at[2] && at[3] == at[3]);
}

/// What is shown of a component.
pub fn component_value(component: &PluginComponent) -> (value: Json)
    ensures
        value@ == component_value_view(*component),
{
    let mut out = ObjectBuilder::new();
    out.put_text("kind", component.kind.as_str());
    out.put("name", component.name.duplicate());
    out.put_text("disposition", component.disposition.name());
    out.put("reason", component.reason.duplicate());
    assert(out@ =~= component_value_view(*component)->Object_0);
    out.finish()
}

/// What is shown of components.
pub open spec fn component_values_views(list: Seq<PluginComponent>) -> Seq<JsonView> {
    Seq::new(list.len(), |i: int| component_value_view(list[i]))
}

/// Each of them is shown, in the order in which they stand.
pub proof fn law_each_of_component_values(list: Seq<PluginComponent>)
    ensures
        component_values_views(list).len() == list.len(),
        forall|i: int| 0 <= i < list.len() ==> #[trigger] component_values_views(list)[i] == component_value_view(list[i]),
{
}

/// What is shown of components.
pub fn component_values(list: &Vec<PluginComponent>) -> (values: Vec<Json>)
    ensures
        item_views(values@) == component_values_views(list@),
{
    let mut values: Vec<Json> = Vec::new();
    let mut i: usize = 0;
    while i < list.len()
        invariant
            i <= list@.len(),
            values@.len() == i,
            forall|j: int|
                0 <= j < i ==> (#[trigger] values@[j])@ == component_value_view(list@[j]),
        decreases list@.len() - i,
    {
        values.push(component_value(&list[i]));
        i = i + 1;
    }
    assert(item_views(values@) =~= component_values_views(list@));
    values
}

/// What is shown of an activation.
pub open spec fn activation_value_view(activation: PluginActivation) -> JsonView {
    JsonView::Object(
        seq![
            ("enabled"@, activation.enabled@),
            ("mutability"@, activation.mutability@),
        ],
    )
}

/// What is shown of an activation: each part under its own name, and nothing
/// else.
pub proof fn law_shown_activation(activation: PluginActivation)
    ensures
        ({
            let shown = activation_value_view(activation);
            &&& shows_only(shown, 2)
            &&& shows(shown, "enabled"@, activation.enabled@)
            &&& shows(shown, "mutability"@, activation.mutability@)
        }),
{
    let shown = activation_value_view(activation);
    lemma_shows_all(shown);
    let at = shown->Object_0;
    assert(at[0] == at[0] && at[1] == at[1]);
}

/// What is shown of an activation.
pub fn activation_value(activation: &PluginActivation) -> (value: Json)
    ensures
        value@ == activation_value_view(*activation),
{
    let mut out = ObjectBuilder::new();
    out.put("enabled", activation.enabled.duplicate());
    out.put("mutability", activation.mutability.duplicate());
    assert(out@ =~= activation_value_view(*activation)->Object_0);
    out.finish()
}

/// What is shown of activations.
pub open spec fn activation_values_views(list: Seq<PluginActivation>) -> Seq<JsonView> {
    Seq::new(list.len(), |i: int| activation_value_view(list[i]))
}

/// Each of them is shown, in the order in which they stand.
pub proof fn law_each_of_activation_values(list: Seq<PluginActivation>)
    ensures
        activation_values_views(list).len() == list.len(),
        forall|i: int| 0 <= i < list.len() ==> #[trigger] activation_values_views(list)[i] == activation_value_view(list[i]),
{
}

/// What is shown of activations.
pub fn activation_values(list: &Vec<PluginActivation>) -> (values: Vec<Json>)
    ensures
        item_views(values@) == activation_values_views(list@),
{
    let mut values: Vec<Json> = Vec::new();
    let mut i: usize = 0;
    while i < list.len()
        invariant
            i <= list@.len(),
            values@.len() == i,
            forall|j: int|
                0 <= j < i ==> (#[trigger] values@[j])@ == activation_value_view(list@[j]),
        decreases list@.len() - i,
    {
        values.push(activation_value(&list[i]));
        i = i + 1;
    }
    assert(item_views(values@) =~= activation_values_views(list@));
    values
}

/// What the desktop is shown of an instance.
pub open spec fn redacted_agent_plugin_instance_view(instance: PluginInstance) -> JsonView {
    JsonView::Object(
        seq![
            ("instanceId"@, JsonView::Text(instance.instance_id@)),
            ("provider"@, JsonView::Text(instance.provider@)),
            ("layer"@, JsonView::Text(instance.layer@)),
            ("state"@, JsonView::Text(instance.state@)),
            ("access"@, JsonView::Text(instance.access@)),
            ("version"@, instance.version@),
            ("components"@, JsonView::Array(component_values_views(instance.components@))),
            ("activations"@, JsonView::Array(activation_values_views(instance.activations@))),
            ("blockers"@, JsonView::Array(text_values(string_views(instance.blockers@)))),
            ("diagnostics"@, JsonView::Array(text_values(string_views(instance.diagnostics@)))),
        ],
    )
}

/// What the desktop is shown of an instance: each part under its own name, and
/// nothing else.
pub proof fn law_shown_redacted_agent_plugin_instance(instance: PluginInstance)
    ensures
        ({
            let shown = redacted_agent_plugin_instance_view(instance);
            &&& shows_only(shown, 10)
            &&& shows(shown, "instanceId"@, JsonView::Text(instance.instance_id@))
            &&& shows(shown, "provider"@, JsonView::Text(instance.provider@))
            &&& shows(shown, "layer"@, JsonView::Text(instance.layer@))
            &&& shows(shown, "state"@, JsonView::Text(instance.state@))
            &&& shows(shown, "access"@, JsonView::Text(instance.access@))
            &&& shows(shown, "version"@, instance.version@)
            &&& shows(
                shown,
                "components"@,
                JsonView::Array(component_values_views(instance.components@)),
            )
            &&& shows(
                shown,
                "activations"@,
                JsonView::Array(activation_values_views(instance.activations@)),
            )
            &&& shows(
                shown,
                "blockers"@,
                JsonView::Array(text_values(string_views(instance.blockers@))),
            )
            &&& shows(
                shown,
                "diagnostics"@,
                JsonView::Array(text_values(string_views(instance.diagnostics@))),
            )
        }),
{
    let shown = redacted_agent_plugin_instance_view(instance);
    lemma_shows_all(shown);
    let at = shown->Object_0;
    assert(at[0] == at[0] && at[1] == at[1] && at[2] == at[2] && at[3] == at[3] && at[4] ==
        at[4] && at[5] == at[5] && at[6] == at[6] && at[7] == at[7] && at[8] == at[8] && at[9]
        == at[9]);
}

/// What the desktop is shown of an instance.
pub fn redacted_agent_plugin_instance(instance: &PluginInstance) -> (value: Json)
    ensures
        value@ == redacted_agent_plugin_instance_view(*instance),
{
    let mut out = ObjectBuilder::new();
    out.put_text("instanceId", instance.instance_id.as_str());
    out.put_text("provider", instance.provider.as_str());
    out.put_text("layer", instance.layer.as_str());
    out.put_text("state", instance.state.as_str());
    out.put_text("access", instance.access.as_str());
    out.put("version", instance.version.duplicate());
    out.put("components", array(component_values(&instance.components)));
    out.put("activations", array(activation_values(&instance.activations)));
    out.put("blockers", text_array(&instance.blockers));
    out.put("diagnostics", text_array(&instance.diagnostics));
    assert(out@ =~= redacted_agent_plugin_instance_view(*instance)->Object_0);
    out.finish()
}

/// What the desktop is shown of instances.
pub open spec fn redacted_instances_views(list: Seq<PluginInstance>) -> Seq<JsonView> {
    Seq::new(list.len(), |i: int| redacted_agent_plugin_instance_view(list[i]))
}

/// Each of them is shown, in the order in which they stand.
pub proof fn law_each_of_redacted_instances(list: Seq<PluginInstance>)
    ensures
        redacted_instances_views(list).len() == list.len(),
        forall|i: int| 0 <= i < list.len() ==> #[trigger] redacted_instances_views(list)[i] == redacted_agent_plugin_instance_view(list[i]),
{
}

/// What the desktop is shown of instances.
pub fn redacted_instances(list: &Vec<PluginInstance>) -> (values: Vec<Json>)
    ensures
        item_views(values@) == redacted_instances_views(list@),
{
    let mut values: Vec<Json> = Vec::new();
    let mut i: usize = 0;
    while i < list.len()
        invariant
            i <= list@.len(),
            values@.len() == i,
            forall|j: int|
                0 <= j < i ==> (#[trigger] values@[j])@ == redacted_agent_plugin_instance_view(
                    list@[j],
                ),
        decreases list@.len() - i,
    {
        values.push(redacted_agent_plugin_instance(&list[i]));
        i = i + 1;
    }
    assert(item_views(values@) =~= redacted_instances_views(list@));
    values
}

/// The summary of a package.
pub open spec fn package_summary_value_view(package: PluginPackage) -> JsonView {
    JsonView::Object(
        seq![
            ("logicalId"@, JsonView::Text(package.logical_id@)),
            ("name"@, JsonView::Text(package.name@)),
            ("componentSignature"@, JsonView::Text(package.component_signature@)),
            ("projectionFingerprint"@, JsonView::Text(package.projection_fingerprint@)),
            ("state"@, JsonView::Text(package.state@)),
            ("access"@, JsonView::Text(package.access@)),
            ("componentKinds"@, names_view(all_kind_ranks(package.instances@))),
            (
                "blockerCount"@,
                JsonView::Unsigned(total_of(package.instances@, Counted::Blockers) as u64),
            ),
            (
                "diagnosticCount"@,
                JsonView::Unsigned(total_of(package.instances@, Counted::Diagnostics) as u64),
            ),
            ("instanceCount"@, JsonView::Unsigned(package.instances@.len() as u64)),
            ("instances"@, JsonView::Array(instance_summaries_views(package.instances@))),
        ],
    )
}

/// The summary of a package: each part under its own name, and nothing else.
pub proof fn law_shown_package_summary(package: PluginPackage)
    ensures
        ({
            let shown = package_summary_value_view(package);
            &&& shows_only(shown, 11)
            &&& shows(shown, "logicalId"@, JsonView::Text(package.logical_id@))
            &&& shows(shown, "name"@, JsonView::Text(package.name@))
            &&& shows(shown, "componentSignature"@, JsonView::Text(package.component_signature@))
            &&& shows(
                shown,
                "projectionFingerprint"@,
                JsonView::Text(package.projection_fingerprint@),
            )
            &&& shows(shown, "state"@, JsonView::Text(package.state@))
            &&& shows(shown, "access"@, JsonView::Text(package.access@))
            &&& shows(shown, "componentKinds"@, names_view(all_kind_ranks(package.instances@)))
            &&& shows(
                shown,
                "blockerCount"@,
                JsonView::Unsigned(total_of(package.instances@, Counted::Blockers) as u64),
            )
            &&& shows(
                shown,
                "diagnosticCount"@,
                JsonView::Unsigned(total_of(package.instances@, Counted::Diagnostics) as u64),
            )
            &&& shows(
                shown,
                "instanceCount"@,
                JsonView::Unsigned(package.instances@.len() as u64),
            )
            &&& shows(
                shown,
                "instances"@,
                JsonView::Array(instance_summaries_views(package.instances@)),
            )
        }),
{
    let shown = package_summary_value_view(package);
    lemma_shows_all(shown);
    let at = shown->Object_0;
    assert(at[0] == at[0] && at[1] == at[1] && at[2] == at[2] && at[3] == at[3] && at[4] ==
        at[4] && at[5] == at[5] && at[6] == at[6] && at[7] == at[7] && at[8] == at[8] && at[9]
        == at[9] && at[10] == at[10]);
}

/// The summary of a package.
pub fn package_summary_value(package: &PluginPackage) -> (value: Json)
    requires
        countable(*package),
    ensures
        value@ == package_summary_value_view(*package),
{
    let mut out = ObjectBuilder::new();
    out.put_text("logicalId", package.logical_id.as_str());
    out.put_text("name", package.name.as_str());
    out.put_text("componentSignature", package.component_signature.as_str());
    out.put_text("projectionFingerprint", package.projection_fingerprint.as_str());
    out.put_text("state", package.state.as_str());
    out.put_text("access", package.access.as_str());
    out.put("componentKinds", kind_names(&package.instances));
    out.put("blockerCount", Json::Unsigned(total(&package.instances, Counted::Blockers)));
    out.put("diagnosticCount", Json::Unsigned(total(&package.instances, Counted::Diagnostics)));
    out.put("instanceCount", Json::Unsigned(package.instances.len() as u64));
    out.put("instances", array(instance_summaries(&package.instances)));
    assert(out@ =~= package_summary_value_view(*package)->Object_0);
    out.finish()
}

/// What the desktop is shown of a package.
pub open spec fn redacted_agent_plugin_summary_view(package: PluginPackage) -> JsonView {
    JsonView::Object(
        seq![
            ("logicalId"@, JsonView::Text(package.logical_id@)),
            ("name"@, JsonView::Text(package.name@)),
            ("componentSignature"@, JsonView::Text(package.component_signature@)),
            ("projectionFingerprint"@, JsonView::Text(package.projection_fingerprint@)),
            ("state"@, JsonView::Text(package.state@)),
            ("access"@, JsonView::Text(package.access@)),
            ("providers"@, names_view(provider_ranks(package.instances@))),
            ("componentKinds"@, names_view(all_kind_ranks(package.instances@))),
            (
                "blockerCount"@,
                JsonView::Unsigned(total_of(package.instances@, Counted::Blockers) as u64),
            ),
            (
                "diagnosticCount"@,
                JsonView::Unsigned(total_of(package.instances@, Counted::Diagnostics) as u64),
            ),
            ("instanceCount"@, JsonView::Unsigned(package.instances@.len() as u64)),
            ("instances"@, JsonView::Array(redacted_instances_views(package.instances@))),
        ],
    )
}

/// What the desktop is shown of a package: each part under its own name, and
/// nothing else.
pub proof fn law_shown_redacted_agent_plugin_summary(package: PluginPackage)
    ensures
        ({
            let shown = redacted_agent_plugin_summary_view(package);
            &&& shows_only(shown, 12)
            &&& shows(shown, "logicalId"@, JsonView::Text(package.logical_id@))
            &&& shows(shown, "name"@, JsonView::Text(package.name@))
            &&& shows(shown, "componentSignature"@, JsonView::Text(package.component_signature@))
            &&& shows(
                shown,
                "projectionFingerprint"@,
                JsonView::Text(package.projection_fingerprint@),
            )
            &&& shows(shown, "state"@, JsonView::Text(package.state@))
            &&& shows(shown, "access"@, JsonView::Text(package.access@))
            &&& shows(shown, "providers"@, names_view(provider_ranks(package.instances@)))
            &&& shows(shown, "componentKinds"@, names_view(all_kind_ranks(package.instances@)))
            &&& shows(
                shown,
                "blockerCount"@,
                JsonView::Unsigned(total_of(package.instances@, Counted::Blockers) as u64),
            )
            &&& shows(
                shown,
                "diagnosticCount"@,
                JsonView::Unsigned(total_of(package.instances@, Counted::Diagnostics) as u64),
            )
            &&& shows(
                shown,
                "instanceCount"@,
                JsonView::Unsigned(package.instances@.len() as u64),
            )
            &&& shows(
                shown,
                "instances"@,
                JsonView::Array(redacted_instances_views(package.instances@)),
            )
        }),
{
    let shown = redacted_agent_plugin_summary_view(package);
    lemma_shows_all(shown);
    let at = shown->Object_0;
    assert(at[0] == at[0] && at[1] == at[1] && at[2] == at[2] && at[3] == at[3] && at[4] ==
        at[4] && at[5] == at[5] && at[6] == at[6] && at[7] == at[7] && at[8] == at[8] && at[9]
        == at[9] && at[10] == at[10] && at[11] == at[11]);
}

/// What the desktop is shown of a package.
pub fn redacted_agent_plugin_summary(package: &PluginPackage) -> (value: Json)
    requires
        countable(*package),
    ensures
        value@ == redacted_agent_plugin_summary_view(*package),
{
    let mut out = ObjectBuilder::new();
    out.put_text("logicalId", package.logical_id.as_str());
    out.put_text("name", package.name.as_str());
    out.put_text("componentSignature", package.component_signature.as_str());
    out.put_text("projectionFingerprint", package.projection_fingerprint.as_str());
    out.put_text("state", package.state.as_str());
    out.put_text("access", package.access.as_str());
    out.put("providers", provider_names(&package.instances));
    out.put("componentKinds", kind_names(&package.instances));
    out.put("blockerCount", Json::Unsigned(total(&package.instances, Counted::Blockers)));
    out.put("diagnosticCount", Json::Unsigned(total(&package.instances, Counted::Diagnostics)));
    out.put("instanceCount", Json::Unsigned(package.instances.len() as u64));
    out.put("instances", array(redacted_instances(&package.instances)));
    assert(out@ =~= redacted_agent_plugin_summary_view(*package)->Object_0);
    out.finish()
}

/// Components with the names of their kinds, by which they are ordered.
pub open spec fn component_entries(components: Seq<PluginComponent>) -> Seq<EntryView<JsonView>> {
    Seq::new(
        components.len(),
        |i: int| (components[i].kind@, 0u64, component_value_view(components[i])),
    )
}

fn ordered_components(components: &Vec<PluginComponent>) -> (values: Vec<Json>)
    ensures
        item_views(values@) == entry_values(in_order(component_entries(components@))),
{
    let mut list: Vec<OrderedEntry<Json>> = Vec::new();
    let mut i: usize = 0;
    while i < components.len()
        invariant
            i <= components@.len(),
            list@.len() == i,
            forall|j: int|
                0 <= j < i ==> (#[trigger] list@[j])@ == component_entries(components@)[j],
        decreases components@.len() - i,
    {
        list.push(
            OrderedEntry {
                key: components[i].kind.clone(),
                rank: 0,
                value: component_value(&components[i]),
            },
        );
        i = i + 1;
    }
    assert(entry_views(list@) =~= component_entries(components@));
    let sorted = sort_entries(list);
    let mut values: Vec<Json> = Vec::new();
    let mut k: usize = 0;
    while k < sorted.len()
        invariant
            k <= sorted@.len(),
            values@.len() == k,
            forall|j: int| 0 <= j < k ==> (#[trigger] values@[j])@ == sorted@[j].value@,
        decreases sorted@.len() - k,
    {
        values.push(sorted[k].value.duplicate());
        k = k + 1;
    }
    assert(item_views(values@) =~= entry_values(entry_views(sorted@)));
    values
}

/// All that is shown of an instance, with its components in the order of their
/// kinds.
pub open spec fn instance_detail_value_view(instance: PluginInstance) -> JsonView {
    JsonView::Object(
        seq![
            ("provider"@, JsonView::Text(instance.provider@)),
            ("layer"@, JsonView::Text(instance.layer@)),
            ("state"@, JsonView::Text(instance.state@)),
            ("access"@, JsonView::Text(instance.access@)),
            ("version"@, instance.version@),
            (
                "components"@,
                JsonView::Array(entry_values(in_order(component_entries(instance.components@)))),
            ),
            ("activations"@, JsonView::Array(activation_values_views(instance.activations@))),
            ("blockers"@, JsonView::Array(text_values(string_views(instance.blockers@)))),
            ("diagnostics"@, JsonView::Array(text_values(string_views(instance.diagnostics@)))),
        ],
    )
}

/// All that is shown of an instance, with its components in the order of their
/// kinds: each part under its own name, and nothing else.
pub proof fn law_shown_instance_detail(instance: PluginInstance)
    ensures
        ({
            let shown = instance_detail_value_view(instance);
            &&& shows_only(shown, 9)
            &&& shows(shown, "provider"@, JsonView::Text(instance.provider@))
            &&& shows(shown, "layer"@, JsonView::Text(instance.layer@))
            &&& shows(shown, "state"@, JsonView::Text(instance.state@))
            &&& shows(shown, "access"@, JsonView::Text(instance.access@))
            &&& shows(shown, "version"@, instance.version@)
            &&& shows(
                shown,
                "components"@,
                JsonView::Array(entry_values(in_order(component_entries(instance.components@)))),
            )
            &&& shows(
                shown,
                "activations"@,
                JsonView::Array(activation_values_views(instance.activations@)),
            )
            &&& shows(
                shown,
                "blockers"@,
                JsonView::Array(text_values(string_views(instance.blockers@))),
            )
            &&& shows(
                shown,
                "diagnostics"@,
                JsonView::Array(text_values(string_views(instance.diagnostics@))),
            )
        }),
{
    let shown = instance_detail_value_view(instance);
    lemma_shows_all(shown);
    let at = shown->Object_0;
    assert(at[0] == at[0] && at[1] == at[1] && at[2] == at[2] && at[3] == at[3] && at[4] ==
        at[4] && at[5] == at[5] && at[6] == at[6] && at[7] == at[7] && at[8] == at[8]);
}

/// All that is shown of an instance, with its components in the order of their
/// kinds.
pub fn instance_detail_value(instance: &PluginInstance) -> (value: Json)
    ensures
        value@ == instance_detail_value_view(*instance),
{
    let mut out = ObjectBuilder::new();
    out.put_text("provider", instance.provider.as_str());
    out.put_text("layer", instance.layer.as_str());
    out.put_text("state", instance.state.as_str());
    out.put_text("access", instance.access.as_str());
    out.put("version", instance.version.duplicate());
    out.put("components", array(ordered_components(&instance.components)));
    out.put("activations", array(activation_values(&instance.activations)));
    out.put("blockers", text_array(&instance.blockers));
    out.put("diagnostics", text_array(&instance.diagnostics));
    assert(out@ =~= instance_detail_value_view(*instance)->Object_0);
    out.finish()
}

/// A value that is shown, with its provider.
pub struct ProviderRow {
    pub provider: String,
    pub value: Json,
}

impl View for ProviderRow {
    type V = (Seq<char>, JsonView);

    open spec fn view(&self) -> (Seq<char>, JsonView) {
        (self.provider@, self.value@)
    }
}

/// Instances with their layers, by which they are ordered first.
pub open spec fn layer_entries(instances: Seq<PluginInstance>) -> Seq<
    EntryView<(Seq<char>, JsonView)>,
> {
    Seq::new(
        instances.len(),
        |i: int|
            (
                instances[i].layer@,
                0u64,
                (instances[i].provider@, instance_detail_value_view(instances[i])),
            ),
    )
}

/// The same entries with their providers, by which they are ordered then.
pub open spec fn provider_entries(list: Seq<EntryView<(Seq<char>, JsonView)>>) -> Seq<
    EntryView<(Seq<char>, JsonView)>,
> {
    Seq::new(list.len(), |i: int| (list[i].2.0, 0u64, list[i].2))
}

/// The instances of a package by provider and, within a provider, by layer.
pub open spec fn ordered_details(instances: Seq<PluginInstance>) -> Seq<JsonView> {
    let list = in_order(provider_entries(in_order(layer_entries(instances))));
    Seq::new(list.len(), |i: int| list[i].2.1)
}

fn ordered_instances(instances: &Vec<PluginInstance>) -> (values: Vec<Json>)
    ensures
        item_views(values@) == ordered_details(instances@),
{
    let mut list: Vec<OrderedEntry<ProviderRow>> = Vec::new();
    let mut i: usize = 0;
    while i < instances.len()
        invariant
            i <= instances@.len(),
            list@.len() == i,
            forall|j: int| 0 <= j < i ==> (#[trigger] list@[j])@ == layer_entries(instances@)[j],
        decreases instances@.len() - i,
    {
        list.push(
            OrderedEntry {
                key: instances[i].layer.clone(),
                rank: 0,
                value: ProviderRow {
                    provider: instances[i].provider.clone(),
                    value: instance_detail_value(&instances[i]),
                },
            },
        );
        i = i + 1;
    }
    assert(entry_views(list@) =~= layer_entries(instances@));
    let by_layer = sort_entries(list);
    let ghost first = entry_views(by_layer@);
    let mut keyed: Vec<OrderedEntry<ProviderRow>> = Vec::new();
    let mut k: usize = 0;
    while k < by_layer.len()
        invariant
            k <= by_layer@.len(),
            first == entry_views(by_layer@),
            keyed@.len() == k,
            forall|j: int| 0 <= j < k ==> (#[trigger] keyed@[j])@ == provider_entries(first)[j],
        decreases by_layer@.len() - k,
    {
        let row = &by_layer[k].value;
        keyed.push(
            OrderedEntry {
                key: row.provider.clone(),
                rank: 0,
                value: ProviderRow {
                    provider: row.provider.clone(),
                    value: row.value.duplicate(),
                },
            },
        );
        k = k + 1;
    }
    assert(entry_views(keyed@) =~= provider_entries(first));
    let by_provider = sort_entries(keyed);
    let ghost last = entry_views(by_provider@);
    let mut values: Vec<Json> = Vec::new();
    let mut m: usize = 0;
    while m < by_provider.len()
        invariant
            m <= by_provider@.len(),
            last == entry_views(by_provider@),
            values@.len() == m,
            forall|j: int| 0 <= j < m ==> (#[trigger] values@[j])@ == last[j].2.1,
        decreases by_provider@.len() - m,
    {
        values.push(by_provider[m].value.value.duplicate());
        m = m + 1;
    }
    assert(item_views(values@) =~= ordered_details(instances@));
    values
}

/// All that is shown of a package, its instances in order.
pub open spec fn package_detail_value_view(package: PluginPackage) -> JsonView {
    JsonView::Object(
        seq![
            ("logicalId"@, JsonView::Text(package.logical_id@)),
            ("name"@, JsonView::Text(package.name@)),
            ("componentSignature"@, JsonView::Text(package.component_signature@)),
            ("projectionFingerprint"@, JsonView::Text(package.projection_fingerprint@)),
            ("state"@, JsonView::Text(package.state@)),
            ("access"@, JsonView::Text(package.access@)),
            ("componentKinds"@, names_view(all_kind_ranks(package.instances@))),
            (
                "blockerCount"@,
                JsonView::Unsigned(total_of(package.instances@, Counted::Blockers) as u64),
            ),
            (
                "diagnosticCount"@,
                JsonView::Unsigned(total_of(package.instances@, Counted::Diagnostics) as u64),
            ),
            ("instanceCount"@, JsonView::Unsigned(package.instances@.len() as u64)),
            ("instances"@, JsonView::Array(ordered_details(package.instances@))),
        ],
    )
}

/// All that is shown of a package, its instances in order: each part under its
/// own name, and nothing else.
pub proof fn law_shown_package_detail(package: PluginPackage)
    ensures
        ({
            let shown = package_detail_value_view(package);
            &&& shows_only(shown, 11)
            &&& shows(shown, "logicalId"@, JsonView::Text(package.logical_id@))
            &&& shows(shown, "name"@, JsonView::Text(package.name@))
            &&& shows(shown, "componentSignature"@, JsonView::Text(package.component_signature@))
            &&& shows(
                shown,
                "projectionFingerprint"@,
                JsonView::Text(package.projection_fingerprint@),
            )
            &&& shows(shown, "state"@, JsonView::Text(package.state@))
            &&& shows(shown, "access"@, JsonView::Text(package.access@))
            &&& shows(shown, "componentKinds"@, names_view(all_kind_ranks(package.instances@)))
            &&& shows(
                shown,
                "blockerCount"@,
                JsonView::Unsigned(total_of(package.instances@, Counted::Blockers) as u64),
            )
            &&& shows(
                shown,
                "diagnosticCount"@,
                JsonView::Unsigned(total_of(package.instances@, Counted::Diagnostics) as u64),
            )
            &&& shows(
                shown,
                "instanceCount"@,
                JsonView::Unsigned(package.instances@.len() as u64),
            )
            &&& shows(shown, "instances"@, JsonView::Array(ordered_details(package.instances@)))
        }),
{
    let shown = package_detail_value_view(package);
    lemma_shows_all(shown);
    let at = shown->Object_0;
    assert(at[0] == at[0] && at[1] == at[1] && at[2] == at[2] && at[3] == at[3] && at[4] ==
        at[4] && at[5] == at[5] && at[6] == at[6] && at[7] == at[7] && at[8] == at[8] && at[9]
        == at[9] && at[10] == at[10]);
}

/// All that is shown of a package, its instances in order.
pub fn package_detail_value(package: &PluginPackage) -> (value: Json)
    requires
        countable(*package),
    ensures
        value@ == package_detail_value_view(*package),
{
    let mut out = ObjectBuilder::new();
    out.put_text("logicalId", package.logical_id.as_str());
    out.put_text("name", package.name.as_str());
    out.put_text("componentSignature", package.component_signature.as_str());
    out.put_text("projectionFingerprint", package.projection_fingerprint.as_str());
    out.put_text("state", package.state.as_str());
    out.put_text("access", package.access.as_str());
    out.put("componentKinds", kind_names(&package.instances));
    out.put("blockerCount", Json::Unsigned(total(&package.instances, Counted::Blockers)));
    out.put("diagnosticCount", Json::Unsigned(total(&package.instances, Counted::Diagnostics)));
    out.put("instanceCount", Json::Unsigned(package.instances.len() as u64));
    out.put("instances", array(ordered_instances(&package.instances)));
    assert(out@ =~= package_detail_value_view(*package)->Object_0);
    out.finish()
}

/// What a plan does to a target, with the name that is shown for it.
pub enum TargetOutcome {
    /// The target is as it should be already.
    NoOp { name: String },
    Change { name: String },
}

/// The name of what a plan does to a target.
pub open spec fn outcome_name(outcome: TargetOutcome) -> Seq<char> {
    match outcome {
        TargetOutcome::NoOp { name } => name@,
        TargetOutcome::Change { name } => name@,
    }
}

impl TargetOutcome {
    pub fn name(&self) -> (name: &str)
        ensures
            name@ == outcome_name(*self),
    {
        match self {
            TargetOutcome::NoOp { name } => name.as_str(),
            TargetOutcome::Change { name } => name.as_str(),
        }
    }

    pub fn is_no_op(&self) -> (r: bool)
        ensures
            r == (self is NoOp),
    {
        match self {
            TargetOutcome::NoOp { .. } => true,
            TargetOutcome::Change { .. } => false,
        }
    }
}

/// A target that a plan reaches.
pub struct IncludedTarget {
    pub provider: String,
    pub layer: String,
    pub outcome: TargetOutcome,
}

/// A target that a plan cannot change.
pub struct BlockedTarget {
    pub provider: String,
    pub layer: String,
    pub reason_code: Json,
}

/// Which providers a plan reaches.
pub enum PlanReach {
    All,
    Selected { provider: String },
}

/// Whether a provider is in reach.
pub open spec fn in_reach(reach: PlanReach, provider: Seq<char>) -> bool {
    match reach {
        PlanReach::All => true,
        PlanReach::Selected { provider: selected } => selected@ == provider,
    }
}

impl PlanReach {
    /// Whether a provider is in reach.
    pub fn allows(&self, provider: &str) -> (r: bool)
        ensures
            r == in_reach(*self, provider@),
    {
        match self {
            PlanReach::All => true,
            PlanReach::Selected { provider: selected } => same_text(selected.as_str(), provider),
        }
    }
}

/// One target in the coverage of a plan.
pub struct CoverageEntry {
    pub provider: String,
    pub provider_rank: u32,
    pub included: bool,
    pub reason: Option<String>,
}

/// A plan that switches a package.
pub struct PackagePlan {
    pub operation_id: String,
    pub plan_fingerprint: String,
    pub target_enabled: bool,
    pub provider_reach: Json,
    pub reach: PlanReach,
    pub coverage: Vec<CoverageEntry>,
    pub lifecycle: ProviderReachLifecycle,
    /// The lifecycle as it is written in responses to the desktop.
    pub lifecycle_value: Json,
    pub included: Vec<IncludedTarget>,
    pub blocked: Vec<BlockedTarget>,
    pub included_count: u64,
    pub write_count: u64,
    pub blocked_count: u64,
    pub reach_excluded_count: u64,
}

/// How many targets a plan leaves as they are.
pub open spec fn no_op_count(plan: PackagePlan) -> u64 {
    if plan.included_count >= plan.write_count {
        (plan.included_count - plan.write_count) as u64
    } else {
        0
    }
}

/// How many of something a package has, if there is one.
pub open spec fn package_total(package: Option<PluginPackage>, what: Counted) -> u64 {
    match package {
        Some(package) => total_of(package.instances@, what) as u64,
        None => 0,
    }
}

/// The instances of a package, if there is one.
pub open spec fn package_instances(package: Option<PluginPackage>) -> Seq<PluginInstance> {
    match package {
        Some(package) => package.instances@,
        None => seq![],
    }
}

/// What an optional reference refers to.
pub open spec fn seen(package: Option<&PluginPackage>) -> Option<PluginPackage> {
    match package {
        Some(package) => Some(*package),
        None => None,
    }
}

fn total_in(package: Option<&PluginPackage>, what: Counted) -> (sum: u64)
    requires
        package is Some ==> countable(*package->0),
    ensures
        sum == package_total(seen(package), what),
{
    match package {
        Some(package) => total(&package.instances, what),
        None => 0,
    }
}

/// The counts of a plan.
pub open spec fn plan_counts_view(package: Option<PluginPackage>, plan: PackagePlan) -> JsonView {
    JsonView::Object(
        seq![
            ("instances"@, JsonView::Unsigned(package_instances(package).len() as u64)),
            ("activations"@, JsonView::Unsigned(package_total(package, Counted::Activations))),
            ("components"@, JsonView::Unsigned(package_total(package, Counted::Components))),
            ("diagnostics"@, JsonView::Unsigned(package_total(package, Counted::Findings))),
            ("included"@, JsonView::Unsigned(plan.included_count)),
            ("writes"@, JsonView::Unsigned(plan.write_count)),
            ("noOp"@, JsonView::Unsigned(no_op_count(plan))),
            ("blocked"@, JsonView::Unsigned(plan.blocked_count)),
            ("reachExcluded"@, JsonView::Unsigned(plan.reach_excluded_count)),
        ],
    )
}

/// The counts of a plan: each part under its own name, and nothing else.
pub proof fn law_shown_plan_counts(package: Option<PluginPackage>, plan: PackagePlan)
    ensures
        ({
            let shown = plan_counts_view(package, plan);
            &&& shows_only(shown, 9)
            &&& shows(
                shown,
                "instances"@,
                JsonView::Unsigned(package_instances(package).len() as u64),
            )
            &&& shows(
                shown,
                "activations"@,
                JsonView::Unsigned(package_total(package, Counted::Activations)),
            )
            &&& shows(
                shown,
                "components"@,
                JsonView::Unsigned(package_total(package, Counted::Components)),
            )
            &&& shows(
                shown,
                "diagnostics"@,
                JsonView::Unsigned(package_total(package, Counted::Findings)),
            )
            &&& shows(shown, "included"@, JsonView::Unsigned(plan.included_count))
            &&& shows(shown, "writes"@, JsonView::Unsigned(plan.write_count))
            &&& shows(shown, "noOp"@, JsonView::Unsigned(no_op_count(plan)))
            &&& shows(shown, "blocked"@, JsonView::Unsigned(plan.blocked_count))
            &&& shows(shown, "reachExcluded"@, JsonView::Unsigned(plan.reach_excluded_count))
        }),
{
    let shown = plan_counts_view(package, plan);
    lemma_shows_all(shown);
    let at = shown->Object_0;
    assert(at[0] == at[0] && at[1] == at[1] && at[2] == at[2] && at[3] == at[3] && at[4] ==
        at[4] && at[5] == at[5] && at[6] == at[6] && at[7] == at[7] && at[8] == at[8]);
}

/// The counts of a plan; a package that is gone counts as nothing.
pub fn plan_counts_value(package: Option<&PluginPackage>, plan: &PackagePlan) -> (value: Json)
    requires
        package is Some ==> countable(*package->0),
    ensures
        value@ == plan_counts_view(seen(package), *plan),
{
    let instances: u64 = match package {
        Some(package) => package.instances.len() as u64,
        None => 0,
    };
    let no_op: u64 = if plan.included_count >= plan.write_count {
        plan.included_count - plan.write_count
    } else {
        0
    };
    let mut out = ObjectBuilder::new();
    out.put("instances", Json::Unsigned(instances));
    out.put("activations", Json::Unsigned(total_in(package, Counted::Activations)));
    out.put("components", Json::Unsigned(total_in(package, Counted::Components)));
    out.put("diagnostics", Json::Unsigned(total_in(package, Counted::Findings)));
    out.put("included", Json::Unsigned(plan.included_count));
    out.put("writes", Json::Unsigned(plan.write_count));
    out.put("noOp", Json::Unsigned(no_op));
    out.put("blocked", Json::Unsigned(plan.blocked_count));
    out.put("reachExcluded", Json::Unsigned(plan.reach_excluded_count));
    assert(out@ =~= plan_counts_view(seen(package), *plan)->Object_0);
    out.finish()
}

/// What a review says of a target in reach.
pub open spec fn included_value_view(item: IncludedTarget) -> JsonView {
    JsonView::Object(
        seq![
            ("provider"@, JsonView::Text(item.provider@)),
            ("layer"@, JsonView::Text(item.layer@)),
            ("outcome"@, JsonView::Text(outcome_name(item.outcome))),
        ],
    )
}

/// What a review says of a target in reach: each part under its own name, and
/// nothing else.
pub proof fn law_shown_included(item: IncludedTarget)
    ensures
        ({
            let shown = included_value_view(item);
            &&& shows_only(shown, 3)
            &&& shows(shown, "provider"@, JsonView::Text(item.provider@))
            &&& shows(shown, "layer"@, JsonView::Text(item.layer@))
            &&& shows(shown, "outcome"@, JsonView::Text(outcome_name(item.outcome)))
        }),
{
    let shown = included_value_view(item);
    lemma_shows_all(shown);
    let at = shown->Object_0;
    assert(at[0] == at[0] && at[1] == at[1] && at[2] == at[2]);
}

/// What a review says of a target in reach.
pub fn included_value(item: &IncludedTarget) -> (value: Json)
    ensures
        value@ == included_value_view(*item),
{
    let mut out = ObjectBuilder::new();
    out.put_text("provider", item.provider.as_str());
    out.put_text("layer", item.layer.as_str());
    out.put_text("outcome", item.outcome.name());
    assert(out@ =~= included_value_view(*item)->Object_0);
    out.finish()
}

/// What a review says of the targets in reach.
pub open spec fn included_values_views(list: Seq<IncludedTarget>) -> Seq<JsonView> {
    Seq::new(list.len(), |i: int| included_value_view(list[i]))
}

/// Each of them is shown, in the order in which they stand.
pub proof fn law_each_of_included_values(list: Seq<IncludedTarget>)
    ensures
        included_values_views(list).len() == list.len(),
        forall|i: int| 0 <= i < list.len() ==> #[trigger] included_values_views(list)[i] == included_value_view(list[i]),
{
}

/// What a review says of the targets in reach.
pub fn included_values(list: &Vec<IncludedTarget>) -> (values: Vec<Json>)
    ensures
        item_views(values@) == included_values_views(list@),
{
    let mut values: Vec<Json> = Vec::new();
    let mut i: usize = 0;
    while i < list.len()
        invariant
            i <= list@.len(),
            values@.len() == i,
            forall|j: int| 0 <= j < i ==> (#[trigger] values@[j])@ == included_value_view(list@[j]),
        decreases list@.len() - i,
    {
        values.push(included_value(&list[i]));
        i = i + 1;
    }
    assert(item_views(values@) =~= included_values_views(list@));
    values
}

/// Where a target stands.
pub open spec fn place_value_view(item: IncludedTarget) -> JsonView {
    JsonView::Object(
        seq![
            ("provider"@, JsonView::Text(item.provider@)),
            ("layer"@, JsonView::Text(item.layer@)),
        ],
    )
}

/// Where a target stands: each part under its own name, and nothing else.
pub proof fn law_shown_place(item: IncludedTarget)
    ensures
        ({
            let shown = place_value_view(item);
            &&& shows_only(shown, 2)
            &&& shows(shown, "provider"@, JsonView::Text(item.provider@))
            &&& shows(shown, "layer"@, JsonView::Text(item.layer@))
        }),
{
    let shown = place_value_view(item);
    lemma_shows_all(shown);
    let at = shown->Object_0;
    assert(at[0] == at[0] && at[1] == at[1]);
}

/// Where a target stands.
pub fn place_value(item: &IncludedTarget) -> (value: Json)
    ensures
        value@ == place_value_view(*item),
{
    let mut out = ObjectBuilder::new();
    out.put_text("provider", item.provider.as_str());
    out.put_text("layer", item.layer.as_str());
    assert(out@ =~= place_value_view(*item)->Object_0);
    out.finish()
}

/// Where the targets stand that a plan leaves as they are.
pub open spec fn no_op_values_views(list: Seq<IncludedTarget>) -> Seq<JsonView>
    decreases list.len(),
{
    if list.len() == 0 {
        seq![]
    } else {
        let before = no_op_values_views(list.drop_last());
        let item = list.last();
        if item.outcome is NoOp {
            before.push(place_value_view(item))
        } else {
            before
        }
    }
}

/// Where the targets stand that a plan leaves as they are.
pub fn no_op_values(list: &Vec<IncludedTarget>) -> (values: Vec<Json>)
    ensures
        item_views(values@) == no_op_values_views(list@),
{
    let mut values: Vec<Json> = Vec::new();
    let mut i: usize = 0;
    assert(list@.take(0) =~= seq![]);
    assert(item_views(values@) =~= seq![]);
    while i < list.len()
        invariant
            i <= list@.len(),
            item_views(values@) == no_op_values_views(list@.take(i as int)),
        decreases list@.len() - i,
    {
        assert(list@.take(i + 1).drop_last() =~= list@.take(i as int));
        let item = &list[i];
        if item.outcome.is_no_op() {
            let ghost before = item_views(values@);
            values.push(place_value(item));
            assert(item_views(values@) =~= before.push(place_value_view(list@[i as int])));
        }
        i = i + 1;
    }
    assert(list@.take(i as int) =~= list@);
    values
}

/// What a review says of a blocked target.
pub open spec fn blocked_value_view(item: BlockedTarget) -> JsonView {
    JsonView::Object(
        seq![
            ("provider"@, JsonView::Text(item.provider@)),
            ("layer"@, JsonView::Text(item.layer@)),
            ("reasonCode"@, item.reason_code@),
        ],
    )
}

/// What a review says of a blocked target: each part under its own name, and
/// nothing else.
pub proof fn law_shown_blocked(item: BlockedTarget)
    ensures
        ({
            let shown = blocked_value_view(item);
            &&& shows_only(shown, 3)
            &&& shows(shown, "provider"@, JsonView::Text(item.provider@))
            &&& shows(shown, "layer"@, JsonView::Text(item.layer@))
            &&& shows(shown, "reasonCode"@, item.reason_code@)
        }),
{
    let shown = blocked_value_view(item);
    lemma_shows_all(shown);
    let at = shown->Object_0;
    assert(at[0] == at[0] && at[1] == at[1] && at[2] == at[2]);
}

/// What a review says of a blocked target.
pub fn blocked_value(item: &BlockedTarget) -> (value: Json)
    ensures
        value@ == blocked_value_view(*item),
{
    let mut out = ObjectBuilder::new();
    out.put_text("provider", item.provider.as_str());
    out.put_text("layer", item.layer.as_str());
    out.put("reasonCode", item.reason_code.duplicate());
    assert(out@ =~= blocked_value_view(*item)->Object_0);
    out.finish()
}

/// What a review says of the blocked targets.
pub open spec fn blocked_values_views(list: Seq<BlockedTarget>) -> Seq<JsonView> {
    Seq::new(list.len(), |i: int| blocked_value_view(list[i]))
}

/// Each of them is shown, in the order in which they stand.
pub proof fn law_each_of_blocked_values(list: Seq<BlockedTarget>)
    ensures
        blocked_values_views(list).len() == list.len(),
        forall|i: int| 0 <= i < list.len() ==> #[trigger] blocked_values_views(list)[i] == blocked_value_view(list[i]),
{
}

/// What a review says of the blocked targets.
pub fn blocked_values(list: &Vec<BlockedTarget>) -> (values: Vec<Json>)
    ensures
        item_views(values@) == blocked_values_views(list@),
{
    let mut values: Vec<Json> = Vec::new();
    let mut i: usize = 0;
    while i < list.len()
        invariant
            i <= list@.len(),
            values@.len() == i,
            forall|j: int| 0 <= j < i ==> (#[trigger] values@[j])@ == blocked_value_view(list@[j]),
        decreases list@.len() - i,
    {
        values.push(blocked_value(&list[i]));
        i = i + 1;
    }
    assert(item_views(values@) =~= blocked_values_views(list@));
    values
}

/// What a review says of an instance out of reach.
pub open spec fn excluded_value_view(item: PluginInstance) -> JsonView {
    JsonView::Object(
        seq![
            ("provider"@, JsonView::Text(item.provider@)),
            ("layer"@, JsonView::Text(item.layer@)),
            ("activationCount"@, JsonView::Unsigned(item.activations@.len() as u64)),
            ("reasonCode"@, JsonView::Text("outside-selected-provider-reach"@)),
        ],
    )
}

/// What a review says of an instance out of reach: each part under its own
/// name, and nothing else.
pub proof fn law_shown_excluded(item: PluginInstance)
    ensures
        ({
            let shown = excluded_value_view(item);
            &&& shows_only(shown, 4)
            &&& shows(shown, "provider"@, JsonView::Text(item.provider@))
            &&& shows(shown, "layer"@, JsonView::Text(item.layer@))
            &&& shows(
                shown,
                "activationCount"@,
                JsonView::Unsigned(item.activations@.len() as u64),
            )
            &&& shows(shown, "reasonCode"@, JsonView::Text("outside-selected-provider-reach"@))
        }),
{
    let shown = excluded_value_view(item);
    lemma_shows_all(shown);
    let at = shown->Object_0;
    assert(at[0] == at[0] && at[1] == at[1] && at[2] == at[2] && at[3] == at[3]);
}

/// What a review says of an instance out of reach.
pub fn excluded_value(item: &PluginInstance) -> (value: Json)
    ensures
        value@ == excluded_value_view(*item),
{
    let mut out = ObjectBuilder::new();
    out.put_text("provider", item.provider.as_str());
    out.put_text("layer", item.layer.as_str());
    out.put("activationCount", Json::Unsigned(item.activations.len() as u64));
    out.put_text("reasonCode", "outside-selected-provider-reach");
    assert(out@ =~= excluded_value_view(*item)->Object_0);
    out.finish()
}

/// What a review says of the instances out of reach.
pub open spec fn excluded_values_views(list: Seq<PluginInstance>, reach: PlanReach) -> Seq<JsonView>
    decreases list.len(),
{
    if list.len() == 0 {
        seq![]
    } else {
        let before = excluded_values_views(list.drop_last(), reach);
        let item = list.last();
        if !in_reach(reach, item.provider@) {
            before.push(excluded_value_view(item))
        } else {
            before
        }
    }
}

/// What a review says of the instances out of reach.
pub fn excluded_values(list: &Vec<PluginInstance>, reach: &PlanReach) -> (values: Vec<Json>)
    ensures
        item_views(values@) == excluded_values_views(list@, *reach),
{
    let mut values: Vec<Json> = Vec::new();
    let mut i: usize = 0;
    assert(list@.take(0) =~= seq![]);
    assert(item_views(values@) =~= seq![]);
    while i < list.len()
        invariant
            i <= list@.len(),
            item_views(values@) == excluded_values_views(list@.take(i as int), *reach),
        decreases list@.len() - i,
    {
        assert(list@.take(i + 1).drop_last() =~= list@.take(i as int));
        let item = &list[i];
        if !reach.allows(item.provider.as_str()) {
            let ghost before = item_views(values@);
            values.push(excluded_value(item));
            assert(item_views(values@) =~= before.push(excluded_value_view(list@[i as int])));
        }
        i = i + 1;
    }
    assert(list@.take(i as int) =~= list@);
    values
}

/// A row of component diagnostics.
pub open spec fn component_row_view(
    instance: PluginInstance,
    component: PluginComponent,
) -> JsonView {
    JsonView::Object(
        seq![
            ("provider"@, JsonView::Text(instance.provider@)),
            ("layer"@, JsonView::Text(instance.layer@)),
            ("kind"@, JsonView::Text(component.kind@)),
            ("name"@, component.name@),
            ("disposition"@, JsonView::Text(disposition_name(component.disposition))),
            ("reason"@, component.reason@),
        ],
    )
}

/// A row of component diagnostics: each part under its own name, and nothing
/// else.
pub proof fn law_shown_component_row(instance: PluginInstance, component: PluginComponent)
    ensures
        ({
            let shown = component_row_view(instance, component);
            &&& shows_only(shown, 6)
            &&& shows(shown, "provider"@, JsonView::Text(instance.provider@))
            &&& shows(shown, "layer"@, JsonView::Text(instance.layer@))
            &&& shows(shown, "kind"@, JsonView::Text(component.kind@))
            &&& shows(shown, "name"@, component.name@)
            &&& shows(
                shown,
                "disposition"@,
                JsonView::Text(disposition_name(component.disposition)),
            )
            &&& shows(shown, "reason"@, component.reason@)
        }),
{
    let shown = component_row_view(instance, component);
    lemma_shows_all(shown);
    let at = shown->Object_0;
    assert(at[0] == at[0] && at[1] == at[1] && at[2] == at[2] && at[3] == at[3] && at[4] ==
        at[4] && at[5] == at[5]);
}

/// A row of other findings.
pub open spec fn finding_row_view(
    instance: PluginInstance,
    disposition: Seq<char>,
    reason: Seq<char>,
) -> JsonView {
    JsonView::Object(
        seq![
            ("provider"@, JsonView::Text(instance.provider@)),
            ("layer"@, JsonView::Text(instance.layer@)),
            ("disposition"@, JsonView::Text(disposition)),
            ("reason"@, JsonView::Text(reason)),
        ],
    )
}

/// A row of other findings: each part under its own name, and nothing else.
pub proof fn law_shown_finding_row(
    instance: PluginInstance,
    disposition: Seq<char>,
    reason: Seq<char>,
)
    ensures
        ({
            let shown = finding_row_view(instance, disposition, reason);
            &&& shows_only(shown, 4)
            &&& shows(shown, "provider"@, JsonView::Text(instance.provider@))
            &&& shows(shown, "layer"@, JsonView::Text(instance.layer@))
            &&& shows(shown, "disposition"@, JsonView::Text(disposition))
            &&& shows(shown, "reason"@, JsonView::Text(reason))
        }),
{
    let shown = finding_row_view(instance, disposition, reason);
    lemma_shows_all(shown);
    let at = shown->Object_0;
    assert(at[0] == at[0] && at[1] == at[1] && at[2] == at[2] && at[3] == at[3]);
}

/// The rows of the components that are not available.
pub open spec fn component_rows(instance: PluginInstance, components: Seq<PluginComponent>) -> Seq<
    JsonView,
>
    decreases components.len(),
{
    if components.len() == 0 {
        seq![]
    } else {
        let before = component_rows(instance, components.drop_last());
        if components.last().disposition is Available {
            before
        } else {
            before.push(component_row_view(instance, components.last()))
        }
    }
}

/// The rows of findings of one kind.
pub open spec fn finding_rows(
    instance: PluginInstance,
    disposition: Seq<char>,
    reasons: Seq<Seq<char>>,
) -> Seq<JsonView> {
    Seq::new(reasons.len(), |i: int| finding_row_view(instance, disposition, reasons[i]))
}

/// The rows of an instance: components, blockers, diagnostics.
pub open spec fn instance_rows(instance: PluginInstance) -> Seq<JsonView> {
    component_rows(instance, instance.components@) + finding_rows(
        instance,
        "blocked"@,
        string_views(instance.blockers@),
    ) + finding_rows(instance, "diagnostic"@, string_views(instance.diagnostics@))
}

/// The rows of all instances, in their order.
pub open spec fn diagnostic_rows(instances: Seq<PluginInstance>) -> Seq<JsonView>
    decreases instances.len(),
{
    if instances.len() == 0 {
        seq![]
    } else {
        diagnostic_rows(instances.drop_last()) + instance_rows(instances.last())
    }
}

fn push_component_rows(rows: &mut Vec<Json>, instance: &PluginInstance)
    ensures
        item_views(final(rows)@) == item_views(old(rows)@) + component_rows(
            *instance,
            instance.components@,
        ),
{
    let ghost start = item_views(rows@);
    let components = &instance.components;
    let mut i: usize = 0;
    assert(components@.take(0) =~= seq![]);
    assert(start + component_rows(*instance, components@.take(0)) =~= start);
    while i < components.len()
        invariant
            i <= components@.len(),
            components@ == instance.components@,
            item_views(rows@) == start + component_rows(*instance, components@.take(i as int)),
        decreases components@.len() - i,
    {
        assert(components@.take(i + 1).drop_last() =~= components@.take(i as int));
        if !components[i].disposition.is_available() {
            let ghost before = item_views(rows@);
            let component = &components[i];
            let mut out = ObjectBuilder::new();
            out.put_text("provider", instance.provider.as_str());
            out.put_text("layer", instance.layer.as_str());
            out.put_text("kind", component.kind.as_str());
            out.put("name", component.name.duplicate());
            out.put_text("disposition", component.disposition.name());
            out.put("reason", component.reason.duplicate());
            assert(out@ =~= component_row_view(*instance, *component)->Object_0);
            rows.push(out.finish());
            assert(item_views(rows@) =~= before.push(component_row_view(*instance, *component)));
            assert(item_views(rows@) =~= start + component_rows(
                *instance,
                components@.take(i + 1),
            ));
        }
        i = i + 1;
    }
    assert(components@.take(i as int) =~= components@);
}

fn push_finding_rows(
    rows: &mut Vec<Json>,
    instance: &PluginInstance,
    disposition: &str,
    reasons: &Vec<String>,
)
    ensures
        item_views(final(rows)@) == item_views(old(rows)@) + finding_rows(
            *instance,
            disposition@,
            string_views(reasons@),
        ),
{
    let ghost start = item_views(rows@);
    let ghost all = finding_rows(*instance, disposition@, string_views(reasons@));
    let mut i: usize = 0;
    assert(start + all.take(0) =~= start);
    while i < reasons.len()
        invariant
            i <= reasons@.len(),
            all == finding_rows(*instance, disposition@, string_views(reasons@)),
            item_views(rows@) == start + all.take(i as int),
        decreases reasons@.len() - i,
    {
        let ghost before = item_views(rows@);
        let mut out = ObjectBuilder::new();
        out.put_text("provider", instance.provider.as_str());
        out.put_text("layer", instance.layer.as_str());
        out.put_text("disposition", disposition);
        out.put_text("reason", reasons[i].as_str());
        assert(out@ =~= all[i as int]->Object_0);
        rows.push(out.finish());
        assert(item_views(rows@) =~= before.push(all[i as int]));
        assert(item_views(rows@) =~= start + all.take(i + 1));
        i = i + 1;
    }
    assert(all.take(i as int) =~= all);
}

fn diagnostics(instances: &Vec<PluginInstance>) -> (rows: Vec<Json>)
    ensures
        item_views(rows@) == diagnostic_rows(instances@),
{
    let mut rows: Vec<Json> = Vec::new();
    let mut i: usize = 0;
    assert(instances@.take(0) =~= seq![]);
    assert(item_views(rows@) =~= seq![]);
    while i < instances.len()
        invariant
            i <= instances@.len(),
            item_views(rows@) == diagnostic_rows(instances@.take(i as int)),
        decreases instances@.len() - i,
    {
        let ghost before = item_views(rows@);
        let instance = &instances[i];
        push_component_rows(&mut rows, instance);
        push_finding_rows(&mut rows, instance, "blocked", &instance.blockers);
        push_finding_rows(&mut rows, instance, "diagnostic", &instance.diagnostics);
        proof {
            assert(instances@.take(i + 1).drop_last() =~= instances@.take(i as int));
            assert(item_views(rows@) =~= before + instance_rows(*instance));
        }
        i = i + 1;
    }
    assert(instances@.take(i as int) =~= instances@);
    rows
}

/// The review of a plan.
pub open spec fn plan_review_view(package: Option<PluginPackage>, plan: PackagePlan) -> JsonView {
    JsonView::Object(
        seq![
            ("included"@, JsonView::Array(included_values_views(plan.included@))),
            ("noOp"@, JsonView::Array(no_op_values_views(plan.included@))),
            ("blocked"@, JsonView::Array(blocked_values_views(plan.blocked@))),
            (
                "reachExcluded"@,
                JsonView::Array(excluded_values_views(package_instances(package), plan.reach)),
            ),
            (
                "componentDiagnostics"@,
                JsonView::Array(diagnostic_rows(package_instances(package))),
            ),
        ],
    )
}

/// The review of a plan: each part under its own name, and nothing else.
pub proof fn law_shown_plan_review(package: Option<PluginPackage>, plan: PackagePlan)
    ensures
        ({
            let shown = plan_review_view(package, plan);
            &&& shows_only(shown, 5)
            &&& shows(shown, "included"@, JsonView::Array(included_values_views(plan.included@)))
            &&& shows(shown, "noOp"@, JsonView::Array(no_op_values_views(plan.included@)))
            &&& shows(shown, "blocked"@, JsonView::Array(blocked_values_views(plan.blocked@)))
            &&& shows(
                shown,
                "reachExcluded"@,
                JsonView::Array(excluded_values_views(package_instances(package), plan.reach)),
            )
            &&& shows(
                shown,
                "componentDiagnostics"@,
                JsonView::Array(diagnostic_rows(package_instances(package))),
            )
        }),
{
    let shown = plan_review_view(package, plan);
    lemma_shows_all(shown);
    let at = shown->Object_0;
    assert(at[0] == at[0] && at[1] == at[1] && at[2] == at[2] && at[3] == at[3] && at[4] ==
        at[4]);
}

/// The review of a plan: what it reaches, leaves, and cannot change, what is
/// out of reach, and what is wrong with the package. A package that is gone
/// adds nothing.
pub fn plan_review_value(package: Option<&PluginPackage>, plan: &PackagePlan) -> (value: Json)
    ensures
        value@ == plan_review_view(seen(package), *plan),
{
    let mut out = ObjectBuilder::new();
    out.put("included", array(included_values(&plan.included)));
    out.put("noOp", array(no_op_values(&plan.included)));
    out.put("blocked", array(blocked_values(&plan.blocked)));
    match package {
        Some(package) => {
            out.put("reachExcluded", array(excluded_values(&package.instances, &plan.reach)));
            out.put("componentDiagnostics", array(diagnostics(&package.instances)));
        },
        None => {
            let excluded: Vec<Json> = Vec::new();
            let rows: Vec<Json> = Vec::new();
            assert(item_views(excluded@) =~= seq![]);
            assert(item_views(rows@) =~= seq![]);
            out.put("reachExcluded", array(excluded));
            out.put("componentDiagnostics", array(rows));
        },
    }
    assert(out@ =~= plan_review_view(seen(package), *plan)->Object_0);
    out.finish()
}

/// The providers in a coverage.
pub open spec fn coverage_ranks(entries: Seq<CoverageEntry>) -> Seq<(u32, Seq<char>)> {
    Seq::new(entries.len(), |i: int| (entries[i].provider_rank, entries[i].provider@))
}

/// How many entries of a provider are included, or are not.
pub open spec fn covered(entries: Seq<CoverageEntry>, rank: u32, included: bool) -> nat
    decreases entries.len(),
{
    if entries.len() == 0 {
        0
    } else {
        covered(entries.drop_last(), rank, included) + if entries.last().provider_rank == rank
            && entries.last().included == included {
            1nat
        } else {
            0nat
        }
    }
}

/// The reasons given for a provider.
pub open spec fn reasons_for(entries: Seq<CoverageEntry>, rank: u32) -> Seq<Seq<char>>
    decreases entries.len(),
{
    if entries.len() == 0 {
        seq![]
    } else {
        let before = reasons_for(entries.drop_last(), rank);
        if entries.last().provider_rank == rank && entries.last().reason is Some {
            before.push(entries.last().reason->0@)
        } else {
            before
        }
    }
}

/// What a coverage says of one provider.
pub open spec fn provider_coverage_view(
    entries: Seq<CoverageEntry>,
    provider: (u32, Seq<char>),
) -> JsonView {
    JsonView::Object(
        seq![
            ("provider"@, JsonView::Text(provider.1)),
            ("included"@, JsonView::Unsigned(covered(entries, provider.0, true) as u64)),
            ("excluded"@, JsonView::Unsigned(covered(entries, provider.0, false) as u64)),
            (
                "reasonCodes"@,
                JsonView::Array(text_values(text_set(reasons_for(entries, provider.0)))),
            ),
        ],
    )
}

/// What a coverage says of one provider: each part under its own name, and
/// nothing else.
pub proof fn law_shown_provider_coverage(
    entries: Seq<CoverageEntry>,
    provider: (u32, Seq<char>),
)
    ensures
        ({
            let shown = provider_coverage_view(entries, provider);
            &&& shows_only(shown, 4)
            &&& shows(shown, "provider"@, JsonView::Text(provider.1))
            &&& shows(
                shown,
                "included"@,
                JsonView::Unsigned(covered(entries, provider.0, true) as u64),
            )
            &&& shows(
                shown,
                "excluded"@,
                JsonView::Unsigned(covered(entries, provider.0, false) as u64),
            )
            &&& shows(
                shown,
                "reasonCodes"@,
                JsonView::Array(text_values(text_set(reasons_for(entries, provider.0)))),
            )
        }),
{
    let shown = provider_coverage_view(entries, provider);
    lemma_shows_all(shown);
    let at = shown->Object_0;
    assert(at[0] == at[0] && at[1] == at[1] && at[2] == at[2] && at[3] == at[3]);
}

/// A coverage by provider, in the order of the providers.
pub open spec fn coverage_view(entries: Seq<CoverageEntry>) -> JsonView {
    let providers = rank_set(coverage_ranks(entries));
    JsonView::Array(
        Seq::new(providers.len(), |i: int| provider_coverage_view(entries, providers[i])),
    )
}

proof fn lemma_covered(entries: Seq<CoverageEntry>, rank: u32, included: bool)
    ensures
        covered(entries, rank, included) <= entries.len(),
    decreases entries.len(),
{
    if entries.len() > 0 {
        lemma_covered(entries.drop_last(), rank, included);
    }
}

fn provider_coverage(entries: &Vec<CoverageEntry>, provider: &RankedName) -> (value: Json)
    ensures
        value@ == provider_coverage_view(entries@, (provider.rank, provider.name@)),
{
    let rank: u32 = provider.rank;
    let mut included: u64 = 0;
    let mut excluded: u64 = 0;
    let mut reasons: Vec<String> = Vec::new();
    let count: usize = entries.len();
    let mut i: usize = 0;
    assert(entries@.take(0) =~= seq![]);
    assert(string_views(reasons@) =~= seq![]);
    while i < count
        invariant
            i <= count == entries@.len(),
            included == covered(entries@.take(i as int), rank, true),
            excluded == covered(entries@.take(i as int), rank, false),
            included <= i,
            excluded <= i,
            string_views(reasons@) == text_set(reasons_for(entries@.take(i as int), rank)),
        decreases count - i,
    {
        let ghost before = reasons_for(entries@.take(i as int), rank);
        proof {
            assert(entries@.take(i + 1).drop_last() =~= entries@.take(i as int));
            lemma_covered(entries@.take(i + 1), rank, true);
            lemma_covered(entries@.take(i + 1), rank, false);
        }
        let entry = &entries[i];
        if entry.provider_rank == rank {
            if entry.included {
                included = included + 1;
            } else {
                excluded = excluded + 1;
            }
            if let Some(reason) = &entry.reason {
                put_text_once(&mut reasons, reason.as_str());
                assert(before.push(reason@).drop_last() =~= before);
            }
        }
        i = i + 1;
    }
    assert(entries@.take(i as int) =~= entries@);
    let mut out = ObjectBuilder::new();
    out.put_text("provider", provider.name.as_str());
    out.put("included", Json::Unsigned(included));
    out.put("excluded", Json::Unsigned(excluded));
    out.put("reasonCodes", text_array(&reasons));
    assert(out@ =~= provider_coverage_view(entries@, (provider.rank, provider.name@))->Object_0);
    out.finish()
}

/// A coverage by provider: how many targets are included and excluded, and
/// the reasons, each once.
pub fn redacted_provider_coverage(entries: &Vec<CoverageEntry>) -> (value: Json)
    ensures
        value@ == coverage_view(entries@),
{
    let ghost all = coverage_ranks(entries@);
    let mut providers: Vec<RankedName> = Vec::new();
    let mut i: usize = 0;
    assert(all.take(0) =~= seq![]);
    assert(ranked_views(providers@) =~= seq![]);
    while i < entries.len()
        invariant
            i <= entries@.len(),
            all == coverage_ranks(entries@),
            ranked_views(providers@) == rank_set(all.take(i as int)),
        decreases entries@.len() - i,
    {
        assert(all.take(i + 1).drop_last() =~= all.take(i as int));
        put_rank_once(&mut providers, entries[i].provider_rank, entries[i].provider.as_str());
        i = i + 1;
    }
    assert(all.take(i as int) =~= all);
    let ghost ranks = ranked_views(providers@);
    let mut values: Vec<Json> = Vec::new();
    let mut k: usize = 0;
    while k < providers.len()
        invariant
            k <= providers@.len(),
            ranks == ranked_views(providers@),
            values@.len() == k,
            forall|j: int|
                0 <= j < k ==> (#[trigger] values@[j])@ == provider_coverage_view(
                    entries@,
                    ranks[j],
                ),
        decreases providers@.len() - k,
    {
        values.push(provider_coverage(entries, &providers[k]));
        k = k + 1;
    }
    assert(item_views(values@) =~= coverage_view(entries@)->Array_0);
    array(values)
}

/// How a plan is shown before it is applied.
pub open spec fn plan_status_text(lifecycle: ProviderReachLifecycle) -> Seq<char> {
    match lifecycle {
        ProviderReachLifecycle::Applied | ProviderReachLifecycle::Partial => "planned"@,
        _ => lifecycle_text(lifecycle),
    }
}

/// How a plan is shown before it is applied.
pub fn package_plan_status(lifecycle: ProviderReachLifecycle) -> (status: &'static str)
    ensures
        status@ == plan_status_text(lifecycle),
{
    match lifecycle {
        ProviderReachLifecycle::Applied | ProviderReachLifecycle::Partial => "planned",
        _ => lifecycle_name(lifecycle),
    }
}

/// What may be done with a package.
#[derive(Debug, Clone, Copy, PartialEq, Eq, Structural)]
pub enum AgentPluginAccess {
    Actionable,
    DiagnosticsOnly,
    Unsupported,
}

/// What is said of a package.
pub open spec fn package_guidance_text(access: AgentPluginAccess) -> Seq<char> {
    match access {
        AgentPluginAccess::Actionable => {
            "Packages are derived logical views; plan changes existing native activation anchors. Groups remain editable user definitions."@
        },
        AgentPluginAccess::DiagnosticsOnly => {
            "Diagnostics-only package: inspect component diagnostics and native activation coverage; no apply action is available."@
        },
        AgentPluginAccess::Unsupported => {
            "Package control is unsupported for this provider/layer; no apply action is available."@
        },
    }
}

/// What is said of a package: each has its own words.
pub proof fn law_words_of_package_guidance_text(access: AgentPluginAccess)
    ensures
        access is Actionable ==> package_guidance_text(access)
            == "Packages are derived logical views; plan changes existing native activation anchors. Groups remain editable user definitions."@,
        access is DiagnosticsOnly ==> package_guidance_text(access)
            == "Diagnostics-only package: inspect component diagnostics and native activation coverage; no apply action is available."@,
        access is Unsupported ==> package_guidance_text(access)
            == "Package control is unsupported for this provider/layer; no apply action is available."@,
{
}

/// What is said of a package.
pub fn package_guidance(access: AgentPluginAccess) -> (guidance: &'static str)
    ensures
        guidance@ == package_guidance_text(access),
{
    match access {
        AgentPluginAccess::Actionable => {
            "Packages are derived logical views; plan changes existing native activation anchors. Groups remain editable user definitions."
        },
        AgentPluginAccess::DiagnosticsOnly => {
            "Diagnostics-only package: inspect component diagnostics and native activation coverage; no apply action is available."
        },
        AgentPluginAccess::Unsupported => {
            "Package control is unsupported for this provider/layer; no apply action is available."
        },
    }
}

/// What is said of an operation.
pub open spec fn lifecycle_guidance_text(lifecycle: ProviderReachLifecycle) -> Seq<char> {
    match lifecycle {
        ProviderReachLifecycle::Applied => {
            "Refresh package status after apply. Backups and restore remain available through Unpin restore/operations."@
        },
        ProviderReachLifecycle::Partial => {
            "Review blocked and included counts before applying; after apply inspect backups and recovery guidance."@
        },
        ProviderReachLifecycle::NoOp => {
            "All included native activation anchors already match the requested package state."@
        },
        ProviderReachLifecycle::NoTargetsInProviderReach => {
            "Choose reach that includes an existing native activation anchor, then replan from fresh discovery."@
        },
        ProviderReachLifecycle::Blocked => {
            "No apply is available. Refresh discovery and resolve package/component diagnostics before replanning."@
        },
        ProviderReachLifecycle::RecoveryRequired => {
            "Do not reapply. Inspect operation status and use Unpin restore/operations recovery evidence."@
        },
    }
}

/// What is said of an operation: each has its own words.
pub proof fn law_words_of_lifecycle_guidance_text(lifecycle: ProviderReachLifecycle)
    ensures
        lifecycle is Applied ==> lifecycle_guidance_text(lifecycle)
            == "Refresh package status after apply. Backups and restore remain available through Unpin restore/operations."@,
        lifecycle is Partial ==> lifecycle_guidance_text(lifecycle)
            == "Review blocked and included counts before applying; after apply inspect backups and recovery guidance."@,
        lifecycle is NoOp ==> lifecycle_guidance_text(lifecycle)
            == "All included native activation anchors already match the requested package state."@,
        lifecycle is NoTargetsInProviderReach ==> lifecycle_guidance_text(lifecycle)
            == "Choose reach that includes an existing native activation anchor, then replan from fresh discovery."@,
        lifecycle is Blocked ==> lifecycle_guidance_text(lifecycle)
            == "No apply is available. Refresh discovery and resolve package/component diagnostics before replanning."@,
        lifecycle is RecoveryRequired ==> lifecycle_guidance_text(lifecycle)
            == "Do not reapply. Inspect operation status and use Unpin restore/operations recovery evidence."@,
{
}

/// What is said of an operation.
pub fn lifecycle_guidance(lifecycle: ProviderReachLifecycle) -> (guidance: &'static str)
    ensures
        guidance@ == lifecycle_guidance_text(lifecycle),
{
    match lifecycle {
        ProviderReachLifecycle::Applied => {
            "Refresh package status after apply. Backups and restore remain available through Unpin restore/operations."
        },
        ProviderReachLifecycle::Partial => {
            "Review blocked and included counts before applying; after apply inspect backups and recovery guidance."
        },
        ProviderReachLifecycle::NoOp => {
            "All included native activation anchors already match the requested package state."
        },
        ProviderReachLifecycle::NoTargetsInProviderReach => {
            "Choose reach that includes an existing native activation anchor, then replan from fresh discovery."
        },
        ProviderReachLifecycle::Blocked => {
            "No apply is available. Refresh discovery and resolve package/component diagnostics before replanning."
        },
        ProviderReachLifecycle::RecoveryRequired => {
            "Do not reapply. Inspect operation status and use Unpin restore/operations recovery evidence."
        },
    }
}

/// What the command line shows of a plan.
pub open spec fn package_plan_value_view(package: PluginPackage, plan: PackagePlan) -> JsonView {
    JsonView::Object(
        seq![
            ("statusVersion"@, JsonView::Unsigned(1)),
            ("status"@, JsonView::Text(plan_status_text(plan.lifecycle))),
            ("lifecycle"@, JsonView::Text(lifecycle_text(plan.lifecycle))),
            ("operationId"@, JsonView::Text(plan.operation_id@)),
            ("planFingerprint"@, JsonView::Text(plan.plan_fingerprint@)),
            ("providerReach"@, plan.provider_reach@),
            ("targetEnabled"@, JsonView::Bool(plan.target_enabled)),
            ("package"@, package_summary_value_view(package)),
            ("counts"@, plan_counts_view(Some(package), plan)),
            ("review"@, plan_review_view(Some(package), plan)),
            ("guidance"@, JsonView::Text(lifecycle_guidance_text(plan.lifecycle))),
        ],
    )
}

/// What the command line shows of a plan: each part under its own name, and
/// nothing else.
pub proof fn law_shown_package_plan(package: PluginPackage, plan: PackagePlan)
    ensures
        ({
            let shown = package_plan_value_view(package, plan);
            &&& shows_only(shown, 11)
            &&& shows(shown, "statusVersion"@, JsonView::Unsigned(1))
            &&& shows(shown, "status"@, JsonView::Text(plan_status_text(plan.lifecycle)))
            &&& shows(shown, "lifecycle"@, JsonView::Text(lifecycle_text(plan.lifecycle)))
            &&& shows(shown, "operationId"@, JsonView::Text(plan.operation_id@))
            &&& shows(shown, "planFingerprint"@, JsonView::Text(plan.plan_fingerprint@))
            &&& shows(shown, "providerReach"@, plan.provider_reach@)
            &&& shows(shown, "targetEnabled"@, JsonView::Bool(plan.target_enabled))
            &&& shows(shown, "package"@, package_summary_value_view(package))
            &&& shows(shown, "counts"@, plan_counts_view(Some(package), plan))
            &&& shows(shown, "review"@, plan_review_view(Some(package), plan))
            &&& shows(shown, "guidance"@, JsonView::Text(lifecycle_guidance_text(plan.lifecycle)))
        }),
{
    let shown = package_plan_value_view(package, plan);
    lemma_shows_all(shown);
    let at = shown->Object_0;
    assert(at[0] == at[0] && at[1] == at[1] && at[2] == at[2] && at[3] == at[3] && at[4] ==
        at[4] && at[5] == at[5] && at[6] == at[6] && at[7] == at[7] && at[8] == at[8] && at[9]
        == at[9] && at[10] == at[10]);
}

/// What the command line shows of a plan.
pub fn package_plan_value(package: &PluginPackage, plan: &PackagePlan) -> (value: Json)
    requires
        countable(*package),
    ensures
        value@ == package_plan_value_view(*package, *plan),
{
    let mut out = ObjectBuilder::new();
    out.put("statusVersion", Json::Unsigned(1));
    out.put_text("status", package_plan_status(plan.lifecycle));
    out.put_text("lifecycle", lifecycle_name(plan.lifecycle));
    out.put_text("operationId", plan.operation_id.as_str());
    out.put_text("planFingerprint", plan.plan_fingerprint.as_str());
    out.put("providerReach", plan.provider_reach.duplicate());
    out.put("targetEnabled", Json::Bool(plan.target_enabled));
    out.put("package", package_summary_value(package));
    out.put("counts", plan_counts_value(Some(package), plan));
    out.put("review", plan_review_value(Some(package), plan));
    out.put_text("guidance", lifecycle_guidance(plan.lifecycle));
    assert(out@ =~= package_plan_value_view(*package, *plan)->Object_0);
    out.finish()
}

/// What the desktop is shown of a plan: the package, and what the plan does to
/// it.
pub open spec fn redacted_agent_plugin_plan_view(
    package: PluginPackage,
    plan: PackagePlan,
) -> JsonView {
    JsonView::Object(
        seq![
            ("logicalId"@, JsonView::Text(package.logical_id@)),
            ("name"@, JsonView::Text(package.name@)),
            ("componentSignature"@, JsonView::Text(package.component_signature@)),
            ("projectionFingerprint"@, JsonView::Text(package.projection_fingerprint@)),
            ("state"@, JsonView::Text(package.state@)),
            ("access"@, JsonView::Text(package.access@)),
            ("providers"@, names_view(provider_ranks(package.instances@))),
            ("componentKinds"@, names_view(all_kind_ranks(package.instances@))),
            (
                "blockerCount"@,
                JsonView::Unsigned(total_of(package.instances@, Counted::Blockers) as u64),
            ),
            (
                "diagnosticCount"@,
                JsonView::Unsigned(total_of(package.instances@, Counted::Diagnostics) as u64),
            ),
            ("instanceCount"@, JsonView::Unsigned(package.instances@.len() as u64)),
            ("instances"@, JsonView::Array(redacted_instances_views(package.instances@))),
            ("operationId"@, JsonView::Text(plan.operation_id@)),
            ("planFingerprint"@, JsonView::Text(plan.plan_fingerprint@)),
            ("target"@, JsonView::Text((if plan.target_enabled { "on"@ } else { "off"@ }))),
            ("providerReach"@, plan.provider_reach@),
            ("coverage"@, coverage_view(plan.coverage@)),
            ("lifecycle"@, plan.lifecycle_value@),
            ("counts"@, plan_counts_view(Some(package), plan)),
            ("review"@, plan_review_view(Some(package), plan)),
        ],
    )
}

/// What the desktop is shown of a plan: the package, and what the plan does to
/// it: each part under its own name, and nothing else.
pub proof fn law_shown_redacted_agent_plugin_plan(package: PluginPackage, plan: PackagePlan)
    ensures
        ({
            let shown = redacted_agent_plugin_plan_view(package, plan);
            &&& shows_only(shown, 20)
            &&& shows(shown, "logicalId"@, JsonView::Text(package.logical_id@))
            &&& shows(shown, "name"@, JsonView::Text(package.name@))
            &&& shows(shown, "componentSignature"@, JsonView::Text(package.component_signature@))
            &&& shows(
                shown,
                "projectionFingerprint"@,
                JsonView::Text(package.projection_fingerprint@),
            )
            &&& shows(shown, "state"@, JsonView::Text(package.state@))
            &&& shows(shown, "access"@, JsonView::Text(package.access@))
            &&& shows(shown, "providers"@, names_view(provider_ranks(package.instances@)))
            &&& shows(shown, "componentKinds"@, names_view(all_kind_ranks(package.instances@)))
            &&& shows(
                shown,
                "blockerCount"@,
                JsonView::Unsigned(total_of(package.instances@, Counted::Blockers) as u64),
            )
            &&& shows(
                shown,
                "diagnosticCount"@,
                JsonView::Unsigned(total_of(package.instances@, Counted::Diagnostics) as u64),
            )
            &&& shows(
                shown,
                "instanceCount"@,
                JsonView::Unsigned(package.instances@.len() as u64),
            )
            &&& shows(
                shown,
                "instances"@,
                JsonView::Array(redacted_instances_views(package.instances@)),
            )
            &&& shows(shown, "operationId"@, JsonView::Text(plan.operation_id@))
            &&& shows(shown, "planFingerprint"@, JsonView::Text(plan.plan_fingerprint@))
            &&& shows(
                shown,
                "target"@,
                JsonView::Text((if plan.target_enabled { "on"@ } else { "off"@ })),
            )
            &&& shows(shown, "providerReach"@, plan.provider_reach@)
            &&& shows(shown, "coverage"@, coverage_view(plan.coverage@))
            &&& shows(shown, "lifecycle"@, plan.lifecycle_value@)
            &&& shows(shown, "counts"@, plan_counts_view(Some(package), plan))
            &&& shows(shown, "review"@, plan_review_view(Some(package), plan))
        }),
{
    let shown = redacted_agent_plugin_plan_view(package, plan);
    lemma_shows_all(shown);
    let at = shown->Object_0;
    assert(at[0] == at[0] && at[1] == at[1] && at[2] == at[2] && at[3] == at[3] && at[4] ==
        at[4] && at[5] == at[5] && at[6] == at[6] && at[7] == at[7] && at[8] == at[8] && at[9]
        == at[9] && at[10] == at[10] && at[11] == at[11] && at[12] == at[12] && at[13] == at[13]
        && at[14] == at[14] && at[15] == at[15] && at[16] == at[16] && at[17] == at[17] &&
        at[18] == at[18] && at[19] == at[19]);
}

/// What the desktop is shown of a plan: the package, and what the plan does to
/// it.
pub fn redacted_agent_plugin_plan(package: &PluginPackage, plan: &PackagePlan) -> (value: Json)
    requires
        countable(*package),
    ensures
        value@ == redacted_agent_plugin_plan_view(*package, *plan),
{
    let mut out = ObjectBuilder::new();
    out.put_text("logicalId", package.logical_id.as_str());
    out.put_text("name", package.name.as_str());
    out.put_text("componentSignature", package.component_signature.as_str());
    out.put_text("projectionFingerprint", package.projection_fingerprint.as_str());
    out.put_text("state", package.state.as_str());
    out.put_text("access", package.access.as_str());
    out.put("providers", provider_names(&package.instances));
    out.put("componentKinds", kind_names(&package.instances));
    out.put("blockerCount", Json::Unsigned(total(&package.instances, Counted::Blockers)));
    out.put("diagnosticCount", Json::Unsigned(total(&package.instances, Counted::Diagnostics)));
    out.put("instanceCount", Json::Unsigned(package.instances.len() as u64));
    out.put("instances", array(redacted_instances(&package.instances)));
    out.put_text("operationId", plan.operation_id.as_str());
    out.put_text("planFingerprint", plan.plan_fingerprint.as_str());
    out.put_text("target", if plan.target_enabled { "on" } else { "off" });
    out.put("providerReach", plan.provider_reach.duplicate());
    out.put("coverage", redacted_provider_coverage(&plan.coverage));
    out.put("lifecycle", plan.lifecycle_value.duplicate());
    out.put("counts", plan_counts_value(Some(package), plan));
    out.put("review", plan_review_value(Some(package), plan));
    assert(out@ =~= redacted_agent_plugin_plan_view(*package, *plan)->Object_0);
    out.finish()
}

/// What came of a target.
#[derive(Debug, Clone, Copy, PartialEq, Eq, Structural)]
pub enum ToggleStatus {
    Applied,
    DryRun,
    Blocked,
    RecoveryRequired,
}

/// A target after a plan was carried out.
pub struct ApplyItem {
    pub status: ToggleStatus,
    pub has_backup: bool,
    pub reason: Option<String>,
}

/// What came of a plan.
pub struct PackageResult {
    pub operation_id: String,
    pub plan_fingerprint: String,
    pub lifecycle: ProviderReachLifecycle,
    /// The lifecycle as it is written in responses to the desktop.
    pub lifecycle_value: Json,
    pub provider_reach: Json,
    pub coverage: Vec<CoverageEntry>,
    pub items: Vec<ApplyItem>,
}

/// How many targets ended in a way.
pub open spec fn ended(items: Seq<ApplyItem>, status: ToggleStatus) -> nat
    decreases items.len(),
{
    if items.len() == 0 {
        0
    } else {
        ended(items.drop_last(), status) + if items.last().status == status {
            1nat
        } else {
            0nat
        }
    }
}

/// How many targets have a backup.
pub open spec fn backed_up(items: Seq<ApplyItem>) -> nat
    decreases items.len(),
{
    if items.len() == 0 {
        0
    } else {
        backed_up(items.drop_last()) + if items.last().has_backup {
            1nat
        } else {
            0nat
        }
    }
}

/// The reasons that were given, made safe to show.
pub open spec fn safe_reasons(items: Seq<ApplyItem>) -> Seq<Seq<char>>
    decreases items.len(),
{
    if items.len() == 0 {
        seq![]
    } else {
        let before = safe_reasons(items.drop_last());
        match items.last().reason {
            Some(reason) => before.push(safe_reason(reason@)),
            None => before,
        }
    }
}

/// The counts of what came of a plan.
pub open spec fn result_counts_view(items: Seq<ApplyItem>) -> JsonView {
    JsonView::Object(
        seq![
            ("applied"@, JsonView::Unsigned(ended(items, ToggleStatus::Applied) as u64)),
            ("noOp"@, JsonView::Unsigned(ended(items, ToggleStatus::DryRun) as u64)),
            ("blocked"@, JsonView::Unsigned(ended(items, ToggleStatus::Blocked) as u64)),
            (
                "recoveryRequired"@,
                JsonView::Unsigned(ended(items, ToggleStatus::RecoveryRequired) as u64),
            ),
            ("backupCount"@, JsonView::Unsigned(backed_up(items) as u64)),
            ("reasonCodes"@, JsonView::Array(text_values(text_set(safe_reasons(items))))),
        ],
    )
}

/// The counts of what came of a plan: each part under its own name, and nothing
/// else.
pub proof fn law_shown_result_counts(items: Seq<ApplyItem>)
    ensures
        ({
            let shown = result_counts_view(items);
            &&& shows_only(shown, 6)
            &&& shows(
                shown,
                "applied"@,
                JsonView::Unsigned(ended(items, ToggleStatus::Applied) as u64),
            )
            &&& shows(
                shown,
                "noOp"@,
                JsonView::Unsigned(ended(items, ToggleStatus::DryRun) as u64),
            )
            &&& shows(
                shown,
                "blocked"@,
                JsonView::Unsigned(ended(items, ToggleStatus::Blocked) as u64),
            )
            &&& shows(
                shown,
                "recoveryRequired"@,
                JsonView::Unsigned(ended(items, ToggleStatus::RecoveryRequired) as u64),
            )
            &&& shows(shown, "backupCount"@, JsonView::Unsigned(backed_up(items) as u64))
            &&& shows(
                shown,
                "reasonCodes"@,
                JsonView::Array(text_values(text_set(safe_reasons(items)))),
            )
        }),
{
    let shown = result_counts_view(items);
    lemma_shows_all(shown);
    let at = shown->Object_0;
    assert(at[0] == at[0] && at[1] == at[1] && at[2] == at[2] && at[3] == at[3] && at[4] ==
        at[4] && at[5] == at[5]);
}

/// The counts of what came of a plan, and its reasons as far as they are safe
/// to show.
pub fn result_counts_value(items: &Vec<ApplyItem>) -> (value: Json)
    ensures
        value@ == result_counts_view(items@),
{
    let mut applied: u64 = 0;
    let mut no_op: u64 = 0;
    let mut blocked: u64 = 0;
    let mut recovery_required: u64 = 0;
    let mut backup_count: u64 = 0;
    let mut reasons: Vec<String> = Vec::new();
    let count: usize = items.len();
    let mut i: usize = 0;
    assert(items@.take(0) =~= seq![]);
    assert(string_views(reasons@) =~= seq![]);
    while i < count
        invariant
            i <= count == items@.len(),
            applied == ended(items@.take(i as int), ToggleStatus::Applied),
            no_op == ended(items@.take(i as int), ToggleStatus::DryRun),
            blocked == ended(items@.take(i as int), ToggleStatus::Blocked),
            recovery_required == ended(items@.take(i as int), ToggleStatus::RecoveryRequired),
            backup_count == backed_up(items@.take(i as int)),
            applied <= i,
            no_op <= i,
            blocked <= i,
            recovery_required <= i,
            backup_count <= i,
            string_views(reasons@) == text_set(safe_reasons(items@.take(i as int))),
        decreases count - i,
    {
        let ghost before = safe_reasons(items@.take(i as int));
        assert(items@.take(i + 1).drop_last() =~= items@.take(i as int));
        let item = &items[i];
        match item.status {
            ToggleStatus::Applied => {
                applied = applied + 1;
            },
            ToggleStatus::DryRun => {
                no_op = no_op + 1;
            },
            ToggleStatus::Blocked => {
                blocked = blocked + 1;
            },
            ToggleStatus::RecoveryRequired => {
                recovery_required = recovery_required + 1;
            },
        }
        if item.has_backup {
            backup_count = backup_count + 1;
        }
        if let Some(reason) = &item.reason {
            let code = safe_reason_code(reason.as_str());
            put_text_once(&mut reasons, code.as_str());
            assert(before.push(safe_reason(reason@)).drop_last() =~= before);
        }
        i = i + 1;
    }
    assert(items@.take(i as int) =~= items@);
    let mut out = ObjectBuilder::new();
    out.put("applied", Json::Unsigned(applied));
    out.put("noOp", Json::Unsigned(no_op));
    out.put("blocked", Json::Unsigned(blocked));
    out.put("recoveryRequired", Json::Unsigned(recovery_required));
    out.put("backupCount", Json::Unsigned(backup_count));
    out.put("reasonCodes", text_array(&reasons));
    assert(out@ =~= result_counts_view(items@)->Object_0);
    out.finish()
}

/// What the command line shows of a plan that was carried out.
pub open spec fn package_apply_value_view(
    package: PluginPackage,
    result: PackageResult,
) -> JsonView {
    JsonView::Object(
        seq![
            ("statusVersion"@, JsonView::Unsigned(1)),
            ("status"@, JsonView::Text(lifecycle_text(result.lifecycle))),
            ("operationId"@, JsonView::Text(result.operation_id@)),
            ("planFingerprint"@, JsonView::Text(result.plan_fingerprint@)),
            ("providerReach"@, result.provider_reach@),
            ("package"@, package_summary_value_view(package)),
            ("resultCounts"@, result_counts_view(result.items@)),
            ("guidance"@, JsonView::Text(lifecycle_guidance_text(result.lifecycle))),
        ],
    )
}

/// What the command line shows of a plan that was carried out: each part under
/// its own name, and nothing else.
pub proof fn law_shown_package_apply(package: PluginPackage, result: PackageResult)
    ensures
        ({
            let shown = package_apply_value_view(package, result);
            &&& shows_only(shown, 8)
            &&& shows(shown, "statusVersion"@, JsonView::Unsigned(1))
            &&& shows(shown, "status"@, JsonView::Text(lifecycle_text(result.lifecycle)))
            &&& shows(shown, "operationId"@, JsonView::Text(result.operation_id@))
            &&& shows(shown, "planFingerprint"@, JsonView::Text(result.plan_fingerprint@))
            &&& shows(shown, "providerReach"@, result.provider_reach@)
            &&& shows(shown, "package"@, package_summary_value_view(package))
            &&& shows(shown, "resultCounts"@, result_counts_view(result.items@))
            &&& shows(
                shown,
                "guidance"@,
                JsonView::Text(lifecycle_guidance_text(result.lifecycle)),
            )
        }),
{
    let shown = package_apply_value_view(package, result);
    lemma_shows_all(shown);
    let at = shown->Object_0;
    assert(at[0] == at[0] && at[1] == at[1] && at[2] == at[2] && at[3] == at[3] && at[4] ==
        at[4] && at[5] == at[5] && at[6] == at[6] && at[7] == at[7]);
}

/// What the command line shows of a plan that was carried out.
pub fn package_apply_value(package: &PluginPackage, result: &PackageResult) -> (value: Json)
    requires
        countable(*package),
    ensures
        value@ == package_apply_value_view(*package, *result),
{
    let mut out = ObjectBuilder::new();
    out.put("statusVersion", Json::Unsigned(1));
    out.put_text("status", lifecycle_name(result.lifecycle));
    out.put_text("operationId", result.operation_id.as_str());
    out.put_text("planFingerprint", result.plan_fingerprint.as_str());
    out.put("providerReach", result.provider_reach.duplicate());
    out.put("package", package_summary_value(package));
    out.put("resultCounts", result_counts_value(&result.items));
    out.put_text("guidance", lifecycle_guidance(result.lifecycle));
    assert(out@ =~= package_apply_value_view(*package, *result)->Object_0);
    out.finish()
}

/// What the desktop is shown of a plan that was carried out.
pub open spec fn redacted_agent_plugin_apply_view(
    package: PluginPackage,
    result: PackageResult,
) -> JsonView {
    JsonView::Object(
        seq![
            ("operationId"@, JsonView::Text(result.operation_id@)),
            ("planFingerprint"@, JsonView::Text(result.plan_fingerprint@)),
            ("lifecycle"@, result.lifecycle_value@),
            ("providerReach"@, result.provider_reach@),
            ("coverage"@, coverage_view(result.coverage@)),
            ("logicalId"@, JsonView::Text(package.logical_id@)),
            ("name"@, JsonView::Text(package.name@)),
            ("state"@, JsonView::Text(package.state@)),
            ("access"@, JsonView::Text(package.access@)),
            ("counts"@, result_counts_view(result.items@)),
        ],
    )
}

/// What the desktop is shown of a plan that was carried out: each part under
/// its own name, and nothing else.
pub proof fn law_shown_redacted_agent_plugin_apply(
    package: PluginPackage,
    result: PackageResult,
)
    ensures
        ({
            let shown = redacted_agent_plugin_apply_view(package, result);
            &&& shows_only(shown, 10)
            &&& shows(shown, "operationId"@, JsonView::Text(result.operation_id@))
            &&& shows(shown, "planFingerprint"@, JsonView::Text(result.plan_fingerprint@))
            &&& shows(shown, "lifecycle"@, result.lifecycle_value@)
            &&& shows(shown, "providerReach"@, result.provider_reach@)
            &&& shows(shown, "coverage"@, coverage_view(result.coverage@))
            &&& shows(shown, "logicalId"@, JsonView::Text(package.logical_id@))
            &&& shows(shown, "name"@, JsonView::Text(package.name@))
            &&& shows(shown, "state"@, JsonView::Text(package.state@))
            &&& shows(shown, "access"@, JsonView::Text(package.access@))
            &&& shows(shown, "counts"@, result_counts_view(result.items@))
        }),
{
    let shown = redacted_agent_plugin_apply_view(package, result);
    lemma_shows_all(shown);
    let at = shown->Object_0;
    assert(at[0] == at[0] && at[1] == at[1] && at[2] == at[2] && at[3] == at[3] && at[4] ==
        at[4] && at[5] == at[5] && at[6] == at[6] && at[7] == at[7] && at[8] == at[8] && at[9]
        == at[9]);
}

/// What the desktop is shown of a plan that was carried out.
pub fn redacted_agent_plugin_apply(package: &PluginPackage, result: &PackageResult) -> (value: Json)
    ensures
        value@ == redacted_agent_plugin_apply_view(*package, *result),
{
    let mut out = ObjectBuilder::new();
    out.put_text("operationId", result.operation_id.as_str());
    out.put_text("planFingerprint", result.plan_fingerprint.as_str());
    out.put("lifecycle", result.lifecycle_value.duplicate());
    out.put("providerReach", result.provider_reach.duplicate());
    out.put("coverage", redacted_provider_coverage(&result.coverage));
    out.put_text("logicalId", package.logical_id.as_str());
    out.put_text("name", package.name.as_str());
    out.put_text("state", package.state.as_str());
    out.put_text("access", package.access.as_str());
    out.put("counts", result_counts_value(&result.items));
    assert(out@ =~= redacted_agent_plugin_apply_view(*package, *result)->Object_0);
    out.finish()
}

/// A result that was shown counts every target once.
pub proof fn law_every_target_is_counted(items: Seq<ApplyItem>)
    ensures
        ended(items, ToggleStatus::Applied) + ended(items, ToggleStatus::DryRun) + ended(
            items,
            ToggleStatus::Blocked,
        ) + ended(items, ToggleStatus::RecoveryRequired) == items.len(),
    decreases items.len(),
{
    if items.len() > 0 {
        law_every_target_is_counted(items.drop_last());
    }
}

/// No reason that is shown of a result is anything but a plain code.
pub proof fn law_results_show_safe_reasons(items: Seq<ApplyItem>, shown: Seq<char>)
    requires
        text_set(safe_reasons(items)).contains(shown),
    ensures
        crate::commands::agent_plugins::plain_code(shown),
{
    crate::ordering::law_text_set(safe_reasons(items));
    lemma_safe_reasons(items, shown);
}

proof fn lemma_safe_reasons(items: Seq<ApplyItem>, shown: Seq<char>)
    requires
        safe_reasons(items).contains(shown),
    ensures
        crate::commands::agent_plugins::plain_code(shown),
    decreases items.len(),
{
    if items.len() > 0 {
        let before = safe_reasons(items.drop_last());
        if before.contains(shown) {
            lemma_safe_reasons(items.drop_last(), shown);
        } else {
            let all = safe_reasons(items);
            let k = choose|k: int| 0 <= k < all.len() && all[k] == shown;
            if k < before.len() {
                assert(before[k] == shown);
            }
            crate::commands::agent_plugins::law_reason_codes_are_plain(items.last().reason->0@);
        }
    }
}

} // verus!
