//! Plans: what a request for a plan takes from its parameters.
use vstd::prelude::*;

use crate::agent_plugin::{redacted_agent_plugin_summary_view, PluginPackage};
use crate::bridge_stage::{failure_code, BridgeStage};
use crate::commands::agent_plugins::BulkTogglePlanError;
use crate::commands::toggle::ReachView;
use crate::json::{field, JsonView};
use crate::laws::shown::{gives_text, only_keys};
use crate::plan_request::{
    group_request_in, inspection, only_text_in, package_with, plugin_request_in, read_packages,
    AgentPluginPlanRequest, GroupPlanRequest, PluginRequestView,
};
use crate::text::optional;

verus! {

/// A plan for a package switches the package that the request names on where it
/// asks for that, and off where it asks for that; the package is in the
/// inventory, and a provider is bound exactly where the reach is selected.
pub proof fn law_package_plan_is_as_asked(
    params: JsonView,
    packages: Result<Seq<PluginPackage>, Seq<char>>,
    started: Result<(), BulkTogglePlanError>,
    provider: Option<Seq<char>>,
    request: AgentPluginPlanRequest,
)
    requires
        plugin_request_in(params, packages, started, provider) == Ok::<
            PluginRequestView,
            Seq<char>,
        >(request@),
    ensures
        gives_text(params, "logicalId"@, request.logical_id@),
        request.target_enabled ==> gives_text(params, "target"@, "on"@) || gives_text(
            params,
            "target"@,
            "enable"@,
        ),
        !request.target_enabled ==> gives_text(params, "target"@, "off"@) || gives_text(
            params,
            "target"@,
            "disable"@,
        ),
        request.reach is All ==> gives_text(params, "reach"@, "all"@) && request.selected_provider
            is None && field(params, "selectedProvider"@) is None,
        request.reach is Selected ==> gives_text(params, "reach"@, "selected"@)
            && request.selected_provider is Some && request.reach->provider@
            == request.selected_provider->0@ && provider == Some(request.selected_provider->0@)
            && field(params, "selectedProvider"@) is Some,
        !(request.reach is Omitted),
        started is Ok,
        packages is Ok,
        exists|i: int|
            0 <= i < packages->Ok_0.len() && (#[trigger] packages->Ok_0[i]).logical_id@
                == request.logical_id@,
{
    assert(optional(request.selected_provider) == request@.selected_provider);
    assert(request.reach@ == request@.reach);
    lemma_package_is_listed(packages->Ok_0, request.logical_id@);
}

/// What a target says and what it means agree, in every request that is granted.
pub proof fn law_target_decides(
    params: JsonView,
    packages: Result<Seq<PluginPackage>, Seq<char>>,
    started: Result<(), BulkTogglePlanError>,
    provider: Option<Seq<char>>,
)
    ensures
        match plugin_request_in(params, packages, started, provider) {
            Ok(request) => {
                let on = field(params, "target"@) == Some(JsonView::Text("on"@)) || field(
                    params,
                    "target"@,
                ) == Some(JsonView::Text("enable"@));
                let off = field(params, "target"@) == Some(JsonView::Text("off"@)) || field(
                    params,
                    "target"@,
                ) == Some(JsonView::Text("disable"@));
                &&& request.target_enabled <==> on
                &&& !request.target_enabled <==> off
            },
            Err(_) => true,
        },
{
    reveal_strlit("on");
    reveal_strlit("off");
    reveal_strlit("enable");
    reveal_strlit("disable");
    assert("on"@.len() == 2 && "off"@.len() == 3 && "enable"@.len() == 6 && "disable"@.len() == 7);
}

/// A request for a package that is in the inventory, with a target and a reach
/// that mean something, is granted.
pub proof fn law_package_plans_are_granted(
    params: JsonView,
    packages: Seq<PluginPackage>,
    at: int,
    on: bool,
)
    requires
        only_keys(params, seq!["logicalId"@, "target"@, "reach"@, "selectedProvider"@]),
        0 <= at < packages.len(),
        gives_text(params, "logicalId"@, packages[at].logical_id@),
        on ==> gives_text(params, "target"@, "on"@) || gives_text(params, "target"@, "enable"@),
        !on ==> gives_text(params, "target"@, "off"@) || gives_text(params, "target"@, "disable"@),
        gives_text(params, "reach"@, "all"@),
        field(params, "selectedProvider"@) is None,
    ensures
        plugin_request_in(params, Ok(packages), Ok(()), None) is Ok,
        plugin_request_in(params, Ok(packages), Ok(()), None)->Ok_0.target_enabled == on,
        plugin_request_in(params, Ok(packages), Ok(()), None)->Ok_0.logical_id
            == packages[at].logical_id@,
        plugin_request_in(params, Ok(packages), Ok(()), None)->Ok_0.reach == ReachView::All,
{
    reveal_strlit("on");
    reveal_strlit("off");
    reveal_strlit("enable");
    reveal_strlit("disable");
    assert("on"@.len() == 2 && "off"@.len() == 3 && "enable"@.len() == 6 && "disable"@.len() == 7);
    lemma_listed_package_is_found(packages, at);
}

proof fn lemma_package_is_listed(packages: Seq<PluginPackage>, id: Seq<char>)
    ensures
        match package_with(packages, id) {
            Some(package) => exists|i: int|
                0 <= i < packages.len() && #[trigger] packages[i] == package
                    && package.logical_id@ == id && forall|j: int|
                    0 <= j < i ==> (#[trigger] packages[j]).logical_id@ != id,
            None => forall|j: int|
                0 <= j < packages.len() ==> (#[trigger] packages[j]).logical_id@ != id,
        },
    decreases packages.len(),
{
    if packages.len() > 0 {
        let shorter = packages.drop_last();
        lemma_package_is_listed(shorter, id);
        match package_with(shorter, id) {
            Some(package) => {
                let i = choose|i: int|
                    0 <= i < shorter.len() && #[trigger] shorter[i] == package
                        && package.logical_id@ == id && forall|j: int|
                        0 <= j < i ==> (#[trigger] shorter[j]).logical_id@ != id;
                assert(packages[i] == package);
                assert forall|j: int| 0 <= j < i implies (#[trigger] packages[j]).logical_id@
                    != id by {
                    assert(shorter[j] == packages[j]);
                }
            },
            None => {
                assert forall|j: int| 0 <= j < packages.len() - 1 implies (
                #[trigger] packages[j]).logical_id@ != id by {
                    assert(shorter[j] == packages[j]);
                }
                let last = packages.len() - 1;
                assert(packages[last] == packages.last());
            },
        }
    }
}

proof fn lemma_listed_package_is_found(packages: Seq<PluginPackage>, at: int)
    requires
        0 <= at < packages.len(),
    ensures
        package_with(packages, packages[at].logical_id@) is Some,
{
    lemma_package_is_listed(packages, packages[at].logical_id@);
}

/// A package that is asked for is the first one with that id, and a package that
/// is there is found.
pub proof fn law_package_is_found_by_its_id(packages: Seq<PluginPackage>, id: Seq<char>)
    ensures
        match package_with(packages, id) {
            Some(package) => package.logical_id@ == id && packages.contains(package),
            None => forall|j: int|
                0 <= j < packages.len() ==> (#[trigger] packages[j]).logical_id@ != id,
        },
{
    lemma_package_is_listed(packages, id);
    if let Some(package) = package_with(packages, id) {
        let i = choose|i: int| 0 <= i < packages.len() && #[trigger] packages[i] == package;
        assert(packages[i] == package);
    }
}

/// A plan for a group enables the group that the request names where it asks for
/// that, and disables it where it asks for that.
pub proof fn law_group_plan_is_as_asked(
    params: JsonView,
    reference_valid: bool,
    request: GroupPlanRequest,
)
    requires
        group_request_in(params, reference_valid) == Ok::<(Seq<char>, bool), Seq<char>>(request@),
    ensures
        reference_valid,
        gives_text(params, "qualifiedName"@, request.qualified_name@),
        request.enable ==> gives_text(params, "target"@, "enable"@),
        !request.enable ==> gives_text(params, "target"@, "disable"@),
{
}

/// A restore is planned of the backup that the request names.
pub proof fn law_restore_is_of_the_named_backup(params: JsonView, key: Seq<char>)
    ensures
        match only_text_in(params, key) {
            Ok(text) => gives_text(params, key, text) && only_keys(params, seq![key]),
            Err(_) => true,
        },
{
}

/// A plan for a group is granted for every name that is valid, either way.
pub proof fn law_group_plans_are_granted(params: JsonView, name: Seq<char>, on: bool)
    requires
        only_keys(params, seq!["qualifiedName"@, "target"@]),
        gives_text(params, "qualifiedName"@, name),
        on ==> gives_text(params, "target"@, "enable"@),
        !on ==> gives_text(params, "target"@, "disable"@),
    ensures
        group_request_in(params, true) == Ok::<(Seq<char>, bool), Seq<char>>((name, on)),
        group_request_in(params, false) is Err,
{
    reveal_strlit("enable");
    reveal_strlit("disable");
    assert("enable"@.len() == 6 && "disable"@.len() == 7);
}

/// An inspection shows the package that was named, and nothing where it is not
/// there.
pub proof fn law_inspection_shows_the_named_package(
    params: JsonView,
    packages: Seq<PluginPackage>,
    id: Seq<char>,
)
    requires
        only_keys(params, seq!["logicalId"@]),
        gives_text(params, "logicalId"@, id),
    ensures
        match inspection(params, Ok(packages)) {
            Ok(value) => exists|i: int|
                0 <= i < packages.len() && (#[trigger] packages[i]).logical_id@ == id && value
                    == JsonView::Object(
                    seq![("package"@, redacted_agent_plugin_summary_view(packages[i]))],
                ),
            Err(code) => code == "agent-plugin-not-found"@ && forall|i: int|
                0 <= i < packages.len() ==> (#[trigger] packages[i]).logical_id@ != id,
        },
{
    lemma_package_is_listed(packages, id);
}

/// What was discovered is seen as it is, and what failed by its code.
pub proof fn law_packages_are_seen(packages: &Vec<PluginPackage>, stage: BridgeStage)
    ensures
        read_packages(Ok(packages)) == Ok::<Seq<PluginPackage>, Seq<char>>(packages@),
        read_packages(Err(stage)) == Err::<Seq<PluginPackage>, Seq<char>>(failure_code(stage)),
{
}

} // verus!
