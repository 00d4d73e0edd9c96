//! Bulk toggles: what a selection holds, and how an operation ends.
use vstd::prelude::*;

use crate::commands::toggle::{
    category_named, kind_named, known_providers, layer_named, lifecycle_code, lifecycle_text,
    plan_error_class, reach_of, read_all, selected, status_code, BulkToggleSelector,
    DiscoveryCategory, DiscoveryKind, DiscoveryLayer, NamedProvider, ProviderReachArg,
    ProviderReachLifecycle, ReachView, SelectorView,
};
use crate::text::{occurs, string_views};

verus! {

/// Whether a name is that of a kind.
pub open spec fn names_kind(name: Seq<char>, kind: DiscoveryKind) -> bool {
    name == (match kind {
        DiscoveryKind::Skill => "skill"@,
        DiscoveryKind::Mcp => "mcp"@,
        DiscoveryKind::Plugin => "plugin"@,
        DiscoveryKind::Agent => "agent"@,
        DiscoveryKind::Hook => "hook"@,
        DiscoveryKind::Setting => "setting"@,
    })
}

/// Whether a name is that of a category.
pub open spec fn names_category(name: Seq<char>, category: DiscoveryCategory) -> bool {
    name == (match category {
        DiscoveryCategory::Skill => "skill"@,
        DiscoveryCategory::ConfiguredMcp => "configured-mcp"@,
        DiscoveryCategory::Tool => "tool"@,
        DiscoveryCategory::Agent => "agent"@,
        DiscoveryCategory::Hook => "hook"@,
        DiscoveryCategory::ProviderSetting => "provider-setting"@,
        DiscoveryCategory::PluginConfig => "plugin-config"@,
        DiscoveryCategory::PluginManifest => "plugin-manifest"@,
    })
}

/// Whether a name is that of a layer.
pub open spec fn names_layer(name: Seq<char>, layer: DiscoveryLayer) -> bool {
    name == (match layer {
        DiscoveryLayer::Global => "global"@,
        DiscoveryLayer::Project => "project"@,
    })
}

/// A selection holds every filter that was given: each provider, kind, category,
/// layer and id at its place, and nothing else.
pub proof fn law_selection_holds_every_filter(
    providers: Seq<NamedProvider>,
    kinds: Seq<String>,
    categories: Seq<String>,
    layers: Seq<String>,
    ids: Seq<String>,
    enabled: Option<bool>,
    selector: BulkToggleSelector,
)
    requires
        selected(
            providers,
            string_views(kinds),
            string_views(categories),
            string_views(layers),
            string_views(ids),
            enabled,
        ) == Ok::<SelectorView, Seq<char>>(selector@),
    ensures
        selector.providers@.len() == providers.len(),
        forall|i: int| 0 <= i < providers.len() ==> (#[trigger] providers[i]).known,
        forall|i: int|
            0 <= i < providers.len() ==> (#[trigger] selector.providers@[i])@ == providers[i].name@,
        selector.kinds@.len() == kinds.len(),
        forall|i: int|
            0 <= i < kinds.len() ==> names_kind(kinds[i]@, #[trigger] selector.kinds@[i]),
        selector.categories@.len() == categories.len(),
        forall|i: int|
            0 <= i < categories.len() ==> names_category(
                categories[i]@,
                #[trigger] selector.categories@[i],
            ),
        selector.layers@.len() == layers.len(),
        forall|i: int|
            0 <= i < layers.len() ==> names_layer(layers[i]@, #[trigger] selector.layers@[i]),
        selector.ids@.len() == ids.len(),
        forall|i: int| 0 <= i < ids.len() ==> (#[trigger] selector.ids@[i])@ == ids[i]@,
        selector.enabled == enabled,
{
    let kind = |name: Seq<char>| kind_named(name);
    let category = |name: Seq<char>| category_named(name);
    let layer = |name: Seq<char>| layer_named(name);
    lemma_known_providers(providers);
    lemma_read_all(string_views(kinds), kind, "invalid kind: "@);
    lemma_read_all(string_views(categories), category, "invalid category: "@);
    lemma_read_all(string_views(layers), layer, "invalid layer: "@);
    assert(string_views(selector.providers@) == selector@.providers);
    assert(string_views(selector.ids@) == string_views(ids));
    assert(string_views(selector.ids@).len() == selector.ids@.len());
    assert(string_views(selector.providers@).len() == selector.providers@.len());
    assert forall|i: int| 0 <= i < providers.len() implies (#[trigger] selector.providers@[i])@
        == providers[i].name@ by {
        assert(providers[i].known);
        assert(string_views(selector.providers@)[i] == selector.providers@[i]@);
    }
    assert forall|i: int| 0 <= i < kinds.len() implies names_kind(
        kinds[i]@,
        #[trigger] selector.kinds@[i],
    ) by {
        assert(string_views(kinds)[i] == kinds[i]@);
        assert(kind(kinds[i]@) == Some(selector@.kinds[i]));
    }
    assert forall|i: int| 0 <= i < categories.len() implies names_category(
        categories[i]@,
        #[trigger] selector.categories@[i],
    ) by {
        assert(string_views(categories)[i] == categories[i]@);
        assert(category(categories[i]@) == Some(selector@.categories[i]));
    }
    assert forall|i: int| 0 <= i < layers.len() implies names_layer(
        layers[i]@,
        #[trigger] selector.layers@[i],
    ) by {
        assert(string_views(layers)[i] == layers[i]@);
        assert(layer(layers[i]@) == Some(selector@.layers[i]));
    }
    assert forall|i: int| 0 <= i < ids.len() implies (#[trigger] selector.ids@[i])@ == ids[i]@ by {
        assert(string_views(selector.ids@)[i] == selector.ids@[i]@);
        assert(string_views(ids)[i] == ids[i]@);
    }
}

/// Texts that were all read stand one by one.
pub proof fn lemma_read_all<T>(
    list: Seq<Seq<char>>,
    read: spec_fn(Seq<char>) -> Option<T>,
    complaint: Seq<char>,
)
    ensures
        match read_all(list, read, complaint) {
            Ok(values) => values.len() == list.len() && forall|i: int|
                0 <= i < list.len() ==> read(list[i]) == Some(#[trigger] values[i]),
            Err(message) => exists|i: int|
                0 <= i < list.len() && read(#[trigger] list[i]) is None && message == complaint
                    + list[i] && forall|j: int|
                    0 <= j < i ==> read(#[trigger] list[j]) is Some,
        },
    decreases list.len(),
{
    if list.len() > 0 {
        let shorter = list.drop_last();
        lemma_read_all(shorter, read, complaint);
        match read_all(shorter, read, complaint) {
            Err(message) => {
                let i = choose|i: int|
                    0 <= i < shorter.len() && read(#[trigger] shorter[i]) is None && message
                        == complaint + shorter[i] && forall|j: int|
                        0 <= j < i ==> read(#[trigger] shorter[j]) is Some;
                assert(list[i] == shorter[i]);
                assert forall|j: int| 0 <= j < i implies read(#[trigger] list[j]) is Some by {
                    assert(shorter[j] == list[j]);
                }
            },
            Ok(before) => {
                let last = list.len() - 1;
                assert(list[last] == list.last());
                match read(list.last()) {
                    None => {
                        assert forall|j: int| 0 <= j < last implies read(
                            #[trigger] list[j],
                        ) is Some by {
                            assert(shorter[j] == list[j]);
                            assert(read(shorter[j]) == Some(before[j]));
                        }
                    },
                    Some(value) => {
                        let values = before.push(value);
                        assert forall|i: int| 0 <= i < list.len() implies read(list[i]) == Some(
                            #[trigger] values[i],
                        ) by {
                            if i < last {
                                assert(shorter[i] == list[i]);
                                assert(values[i] == before[i]);
                            }
                        }
                    },
                }
            },
        }
    }
}

/// Providers that are all known stand one by one.
pub proof fn lemma_known_providers(list: Seq<NamedProvider>)
    ensures
        match known_providers(list) {
            Ok(names) => names.len() == list.len() && forall|i: int|
                0 <= i < list.len() ==> (#[trigger] list[i]).known && names[i] == list[i].name@,
            Err(_) => true,
        },
    decreases list.len(),
{
    if list.len() > 0 {
        let shorter = list.drop_last();
        lemma_known_providers(shorter);
        if let Ok(names) = known_providers(list) {
            let before = known_providers(shorter)->Ok_0;
            assert(names == before.push(list.last().name@));
            assert forall|i: int| 0 <= i < list.len() implies (#[trigger] list[i]).known
                && names[i] == list[i].name@ by {
                if i < list.len() - 1 {
                    assert(shorter[i] == list[i]);
                    assert(names[i] == before[i]);
                }
            }
        }
    }
}

/// Every kind, category and layer is read under its own name.
pub proof fn law_names_are_read(
    kind: DiscoveryKind,
    category: DiscoveryCategory,
    layer: DiscoveryLayer,
    name: Seq<char>,
)
    ensures
        kind_named(name) == Some(kind) <==> names_kind(name, kind),
        category_named(name) == Some(category) <==> names_category(name, category),
        layer_named(name) == Some(layer) <==> names_layer(name, layer),
{
    reveal_strlit("skill");
    reveal_strlit("mcp");
    reveal_strlit("plugin");
    reveal_strlit("agent");
    reveal_strlit("hook");
    reveal_strlit("setting");
    reveal_strlit("configured-mcp");
    reveal_strlit("tool");
    reveal_strlit("provider-setting");
    reveal_strlit("plugin-config");
    reveal_strlit("plugin-manifest");
    reveal_strlit("global");
    reveal_strlit("project");
    assert("skill"@.len() == 5 && "mcp"@.len() == 3 && "plugin"@.len() == 6 && "agent"@.len() == 5);
    assert("hook"@.len() == 4 && "setting"@.len() == 7 && "configured-mcp"@.len() == 14);
    assert("tool"@.len() == 4 && "provider-setting"@.len() == 16 && "plugin-config"@.len() == 13);
    assert("plugin-manifest"@.len() == 15 && "global"@.len() == 6 && "project"@.len() == 7);
    assert("skill"@[0] == 's' && "agent"@[0] == 'a' && "hook"@[0] == 'h' && "tool"@[0] == 't');
}

/// An operation that did all or had nothing to do ends well; one that did a part,
/// nothing, or must be recovered has a code of its own.
pub proof fn law_lifecycles_have_their_codes(lifecycle: ProviderReachLifecycle)
    ensures
        lifecycle_code(lifecycle) == 0 <==> lifecycle is Applied || lifecycle is NoOp,
        lifecycle_code(lifecycle) == 2 <==> lifecycle is Partial,
        lifecycle_code(lifecycle) == 3 <==> lifecycle is Blocked || lifecycle
            is NoTargetsInProviderReach,
        lifecycle_code(lifecycle) == 4 <==> lifecycle is RecoveryRequired,
        lifecycle is Applied ==> lifecycle_text(lifecycle) == "applied"@,
        lifecycle is Partial ==> lifecycle_text(lifecycle) == "partial"@,
        lifecycle is NoOp ==> lifecycle_text(lifecycle) == "no-op"@,
        lifecycle is NoTargetsInProviderReach ==> lifecycle_text(lifecycle)
            == "no-targets-in-provider-reach"@,
        lifecycle is Blocked ==> lifecycle_text(lifecycle) == "blocked"@,
        lifecycle is RecoveryRequired ==> lifecycle_text(lifecycle) == "recovery-required"@,
{
}

/// The code of a status that is not that of a success is the code of the
/// lifecycle with that name.
pub proof fn law_status_codes_agree(lifecycle: ProviderReachLifecycle)
    requires
        lifecycle_code(lifecycle) != 0,
    ensures
        status_code(lifecycle_text(lifecycle)) == lifecycle_code(lifecycle),
{
    reveal_strlit("partial");
    reveal_strlit("blocked");
    reveal_strlit("no-targets");
    reveal_strlit("no-targets-in-provider-reach");
    reveal_strlit("recovery-required");
    assert("recovery-required"@.len() == 17 && "partial"@.len() == 7 && "no-targets"@.len() == 10);
    assert("no-targets-in-provider-reach"@.len() == 28);
    assert("blocked"@[0] == 'b' && "partial"@[0] == 'p');
}

/// A planning error asks for recovery where it says so, and only otherwise
/// reports that there is nothing to reach.
pub proof fn law_planning_errors_are_classed(text: Seq<char>)
    ensures
        plan_error_class(text) is RecoveryRequired <==> occurs(text, "recovery-required"@),
        plan_error_class(text) is NoTargets <==> occurs(text, "no targets"@) && !occurs(
            text,
            "recovery-required"@,
        ),
        plan_error_class(text) is Plain <==> !occurs(text, "recovery-required"@) && !occurs(
            text,
            "no targets"@,
        ),
{
}

/// A reach of all providers names none; a selected one names the provider that
/// was given, and is refused without one.
pub proof fn law_reach_names_its_provider(choice: ProviderReachArg, provider: Option<Seq<char>>)
    ensures
        choice is All ==> reach_of(choice, provider) == Ok::<ReachView, Seq<char>>(ReachView::All),
        choice is Selected && provider is Some ==> reach_of(choice, provider) == Ok::<
            ReachView,
            Seq<char>,
        >(ReachView::Selected(provider->0)),
        choice is Selected && provider is None ==> reach_of(choice, provider) is Err,
{
}

} // verus!
