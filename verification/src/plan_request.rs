//! What requests for plans ask for.
use vstd::prelude::*;

use crate::agent_plugin::{
    countable, redacted_agent_plugin_apply, redacted_agent_plugin_apply_view,
    redacted_agent_plugin_summary, redacted_agent_plugin_summary_view, seen, PackageResult,
    PluginPackage,
};
use crate::bridge_request::{
    bounded, coded, params_error, require_only_params, required_string, required_text, texts,
    MAX_PARAMETER_BYTES,
};
use crate::bridge_stage::{failure_code, BridgeStage};
use crate::commands::agent_plugins::{
    agent_plugin_plan_error_code, find_package, plan_error_code_text, BulkTogglePlanError,
};
use crate::commands::toggle::{ProviderReachLifecycle, ReachView, ProviderReachInput};
use crate::json::{field, text_in, Json, JsonView, ObjectBuilder};
use crate::laws::shown::{lemma_shows_all, shows, shows_only};
use crate::reviewed_plans::{
    fresh, limit_code, remember_plan, PlanFamily, ReviewedPlan, MAX_REVIEWED_CONTROL_PLANS,
};
use crate::text::{byte_len, optional, same_text};
use crate::text_map::TextMap;

verus! {

/// An object with one member.
pub open spec fn single_view(key: Seq<char>, value: JsonView) -> JsonView {
    JsonView::Object(seq![(key, value)])
}

/// An object with one member: each part under its own name, and nothing else.
pub proof fn law_shown_single(key: Seq<char>, value: JsonView)
    ensures
        ({
            let shown = single_view(key, value);
            &&& shows_only(shown, 1)
            &&& shows(shown, key, value)
        }),
{
    let shown = single_view(key, value);
    lemma_shows_all(shown);
    let at = shown->Object_0;
    assert(at[0] == at[0]);
}

/// An object with one member.
pub fn single(key: &str, value: Json) -> (out: Json)
    ensures
        out@ == single_view(key@, value@),
{
    let ghost expected = single_view(key@, value@)->Object_0;
    let mut out = ObjectBuilder::new();
    out.put(key, value);
    assert(out@ =~= expected);
    out.finish()
}

/// A group that is to be enabled or disabled.
pub struct GroupPlanRequest {
    pub qualified_name: String,
    pub enable: bool,
}

impl View for GroupPlanRequest {
    type V = (Seq<char>, bool);

    open spec fn view(&self) -> (Seq<char>, bool) {
        (self.qualified_name@, self.enable)
    }
}

/// The group in the parameters, and what is to become of it.
pub open spec fn group_request_in(params: JsonView, reference_valid: bool) -> Result<
    (Seq<char>, bool),
    Seq<char>,
> {
    match params_error(params, seq!["qualifiedName"@, "target"@]) {
        Some(code) => Err(code),
        None => match (required_text(params, "qualifiedName"@), required_text(params, "target"@)) {
            (Err(code), _) => Err(code),
            (Ok(_), Err(code)) => Err(code),
            (Ok(name), Ok(target)) => if target != "enable"@ && target != "disable"@ {
                Err("invalid-group-target"@)
            } else if !reference_valid {
                Err("invalid-group-reference"@)
            } else {
                Ok((name, target == "enable"@))
            },
        },
    }
}

/// Reads which group is to be planned. `reference_valid` says whether the
/// qualified name refers to a group at all.
pub fn plan_group(params: &Json, reference_valid: bool) -> (r: Result<
    GroupPlanRequest,
    &'static str,
>)
    ensures
        coded(r) == group_request_in(params@, reference_valid),
        r is Ok ==> {
            &&& field(params@, "qualifiedName"@) == Some(JsonView::Text(r->Ok_0.qualified_name@))
            &&& field(params@, "target"@) == Some(
                JsonView::Text(
                    if r->Ok_0.enable {
                        "enable"@
                    } else {
                        "disable"@
                    },
                ),
            )
        },
{
    let allowed: [&'static str; 2] = ["qualifiedName", "target"];
    assert(texts(allowed@) =~= seq!["qualifiedName"@, "target"@]);
    if let Err(code) = require_only_params(params, allowed.as_slice()) {
        return Err(code);
    }
    let name = match required_string(params, "qualifiedName") {
        Ok(name) => name,
        Err(code) => return Err(code),
    };
    let target = match required_string(params, "target") {
        Ok(target) => target,
        Err(code) => return Err(code),
    };
    let enable = same_text(target, "enable");
    if !enable && !same_text(target, "disable") {
        return Err("invalid-group-target");
    }
    if !reference_valid {
        return Err("invalid-group-reference");
    }
    Ok(GroupPlanRequest { qualified_name: name.to_owned(), enable })
}

/// Keeps a plan for a group for review, where it has an operation.
pub fn review_group_plan<P, A>(
    plans: &mut TextMap<ReviewedPlan<P, A>>,
    operation_id: &Option<String>,
    plan: P,
    plan_fingerprint: &str,
    actionable: bool,
    now_unix: i64,
) -> (r: Result<(), &'static str>)
    requires
        old(plans).wf(),
    ensures
        final(plans).wf(),
        match *operation_id {
            None => r is Ok && *final(plans) == *old(plans),
            Some(id) => if old(plans)@.contains_key(id@) || old(plans).keys().len()
                < MAX_REVIEWED_CONTROL_PLANS {
                r is Ok && final(plans)@ == old(plans)@.insert(
                    id@,
                    fresh(plan, plan_fingerprint@, actionable, now_unix),
                )
            } else {
                r is Err && r->Err_0@ == limit_code(PlanFamily::Group) && *final(plans) == *old(
                    plans,
                )
            },
        },
{
    match operation_id {
        None => Ok(()),
        Some(id) => remember_plan(
            plans,
            PlanFamily::Group,
            id.as_str(),
            plan,
            plan_fingerprint,
            actionable,
            now_unix,
        ),
    }
}

/// The one text in parameters with one key.
pub open spec fn only_text_in(params: JsonView, key: Seq<char>) -> Result<Seq<char>, Seq<char>> {
    match params_error(params, seq![key]) {
        Some(code) => Err(code),
        None => required_text(params, key),
    }
}

fn only_text<'a>(params: &'a Json, key: &'static str) -> (r: Result<&'a str, &'static str>)
    ensures
        match only_text_in(params@, key@) {
            Ok(text) => r is Ok && r->Ok_0@ == text,
            Err(code) => r is Err && r->Err_0@ == code,
        },
{
    let allowed: [&'static str; 1] = [key];
    assert(texts(allowed@) =~= seq![key@]);
    if let Err(code) = require_only_params(params, allowed.as_slice()) {
        return Err(code);
    }
    required_string(params, key)
}

/// Reads which backup is to be restored.
pub fn plan_restore(params: &Json) -> (r: Result<String, &'static str>)
    ensures
        coded(r) == only_text_in(params@, "backupId"@),
        r is Ok ==> field(params@, "backupId"@) == Some(JsonView::Text(r->Ok_0@)),
{
    match only_text(params, "backupId") {
        Ok(id) => Ok(id.to_owned()),
        Err(code) => Err(code),
    }
}

/// The response to the plan of a restore.
pub open spec fn planned_restore_view(operation_id: Seq<char>, plan: JsonView) -> JsonView {
    JsonView::Object(seq![("operationId"@, JsonView::Text(operation_id)), ("plan"@, plan)])
}

/// The response to the plan of a restore: each part under its own name, and
/// nothing else.
pub proof fn law_shown_planned_restore(operation_id: Seq<char>, plan: JsonView)
    ensures
        ({
            let shown = planned_restore_view(operation_id, plan);
            &&& shows_only(shown, 2)
            &&& shows(shown, "operationId"@, JsonView::Text(operation_id))
            &&& shows(shown, "plan"@, plan)
        }),
{
    let shown = planned_restore_view(operation_id, plan);
    lemma_shows_all(shown);
    let at = shown->Object_0;
    assert(at[0] == at[0] && at[1] == at[1]);
}

/// The response to the plan of a restore.
pub fn planned_restore(operation_id: &str, plan: Json) -> (value: Json)
    ensures
        value@ == planned_restore_view(operation_id@, plan@),
{
    let ghost expected = planned_restore_view(operation_id@, plan@)->Object_0;
    let mut out = ObjectBuilder::new();
    out.put_text("operationId", operation_id);
    out.put("plan", plan);
    assert(out@ =~= expected);
    out.finish()
}

/// The first package with an id.
pub open spec fn package_with(packages: Seq<PluginPackage>, logical_id: Seq<char>) -> Option<
    PluginPackage,
>
    decreases packages.len(),
{
    if packages.len() == 0 {
        None
    } else {
        match package_with(packages.drop_last(), logical_id) {
            Some(package) => Some(package),
            None => if packages.last().logical_id@ == logical_id {
                Some(packages.last())
            } else {
                None
            },
        }
    }
}

proof fn lemma_package_with(packages: Seq<PluginPackage>, logical_id: Seq<char>, at: Option<int>)
    requires
        match at {
            Some(at) => 0 <= at < packages.len() && packages[at].logical_id@ == logical_id
                && forall|j: int|
                0 <= j < at ==> (#[trigger] packages[j]).logical_id@ != logical_id,
            None => forall|j: int|
                0 <= j < packages.len() ==> (#[trigger] packages[j]).logical_id@ != logical_id,
        },
    ensures
        package_with(packages, logical_id) == match at {
            Some(at) => Some(packages[at]),
            None => None,
        },
    decreases packages.len(),
{
    if packages.len() > 0 {
        let shorter = packages.drop_last();
        match at {
            None => lemma_package_with(shorter, logical_id, None),
            Some(at) => if at == packages.len() - 1 {
                lemma_package_with(shorter, logical_id, None);
            } else {
                lemma_package_with(shorter, logical_id, Some(at));
            },
        }
    }
}

/// What an inspection of a package is answered, where the packages were read
/// with this result.
pub open spec fn inspection(
    params: JsonView,
    packages: Result<Seq<PluginPackage>, Seq<char>>,
) -> Result<JsonView, Seq<char>> {
    match (only_text_in(params, "logicalId"@), packages) {
        (Err(code), _) => Err(code),
        (Ok(_), Err(code)) => Err(code),
        (Ok(id), Ok(packages)) => match package_with(packages, id) {
            Some(package) => Ok(
                single_view("package"@, redacted_agent_plugin_summary_view(package)),
            ),
            None => Err("agent-plugin-not-found"@),
        },
    }
}

/// What the read of packages came to.
pub open spec fn read_packages(packages: Result<&Vec<PluginPackage>, BridgeStage>) -> Result<
    Seq<PluginPackage>,
    Seq<char>,
> {
    match packages {
        Ok(packages) => Ok(packages@),
        Err(stage) => Err(failure_code(stage)),
    }
}

/// Answers an inspection of a package.
pub fn inspect_agent_plugin(
    params: &Json,
    packages: Result<&Vec<PluginPackage>, BridgeStage>,
) -> (r: Result<Json, &'static str>)
    requires
        packages is Ok ==> forall|i: int|
            0 <= i < packages->Ok_0@.len() ==> countable(#[trigger] packages->Ok_0@[i]),
    ensures
        coded(r) == inspection(params@, read_packages(packages)),
{
    let id = match only_text(params, "logicalId") {
        Ok(id) => id,
        Err(code) => return Err(code),
    };
    let packages = match packages {
        Ok(packages) => packages,
        Err(stage) => return Err(stage.code()),
    };
    match find_package(packages, id) {
        Some(at) => {
            proof {
                lemma_package_with(packages@, id@, Some(at as int));
            }
            Ok(single("package", redacted_agent_plugin_summary(&packages[at])))
        },
        None => {
            proof {
                lemma_package_with(packages@, id@, None);
            }
            Err("agent-plugin-not-found")
        },
    }
}

/// A package that is to be switched on or off, and for which providers.
pub struct AgentPluginPlanRequest {
    pub logical_id: String,
    pub target_enabled: bool,
    pub reach: ProviderReachInput,
    pub selected_provider: Option<String>,
}

pub struct PluginRequestView {
    pub logical_id: Seq<char>,
    pub target_enabled: bool,
    pub reach: ReachView,
    pub selected_provider: Option<Seq<char>>,
}

impl View for AgentPluginPlanRequest {
    type V = PluginRequestView;

    open spec fn view(&self) -> PluginRequestView {
        PluginRequestView {
            logical_id: self.logical_id@,
            target_enabled: self.target_enabled,
            reach: self.reach@,
            selected_provider: optional(self.selected_provider),
        }
    }
}

/// What a target means, if it is one.
pub open spec fn target_of(target: Seq<char>) -> Option<bool> {
    if target == "on"@ || target == "enable"@ {
        Some(true)
    } else if target == "off"@ || target == "disable"@ {
        Some(false)
    } else {
        None
    }
}

/// The provider in the parameters. `provider` is the one that its text names,
/// if there is such a provider.
pub open spec fn selected_in(params: JsonView, provider: Option<Seq<char>>) -> Result<
    Option<Seq<char>>,
    Seq<char>,
> {
    match field(params, "selectedProvider"@) {
        None => Ok(None),
        Some(value) => match text_in(Some(value)) {
            Some(text) => if !bounded(text) {
                Err("invalid-params"@)
            } else if provider is None {
                Err("invalid-selected-provider"@)
            } else {
                Ok(provider)
            },
            None => Err("invalid-params"@),
        },
    }
}

/// The reach in the parameters.
pub open spec fn reach_in(params: JsonView, selected: Option<Seq<char>>) -> Result<
    ReachView,
    Seq<char>,
> {
    match required_text(params, "reach"@) {
        Err(code) => Err(code),
        Ok(reach) => if reach == "all"@ {
            if selected is None {
                Ok(ReachView::All)
            } else {
                Err("provider-conflicts-with-all-reach"@)
            }
        } else if reach == "selected"@ {
            match selected {
                Some(provider) => Ok(ReachView::Selected(provider)),
                None => Err("selected-provider-required"@),
            }
        } else {
            Err("invalid-agent-plugin-reach"@)
        },
    }
}

/// What came of looking a package up and of starting a request for it.
pub open spec fn package_found(
    packages: Result<Seq<PluginPackage>, Seq<char>>,
    started: Result<(), BulkTogglePlanError>,
    logical_id: Seq<char>,
) -> Result<(), Seq<char>> {
    match packages {
        Err(code) => Err(code),
        Ok(packages) => match (package_with(packages, logical_id), started) {
            (None, _) => Err("agent-plugin-not-found"@),
            (Some(_), Err(error)) => Err(plan_error_code_text(error)),
            (Some(_), Ok(())) => Ok(()),
        },
    }
}

/// The plan in the parameters, where the packages were read with this result and
/// a request for the package was started.
pub open spec fn plugin_request_in(
    params: JsonView,
    packages: Result<Seq<PluginPackage>, Seq<char>>,
    started: Result<(), BulkTogglePlanError>,
    provider: Option<Seq<char>>,
) -> Result<PluginRequestView, Seq<char>> {
    match params_error(params, seq!["logicalId"@, "target"@, "reach"@, "selectedProvider"@]) {
        Some(code) => Err(code),
        None => match (required_text(params, "logicalId"@), required_text(params, "target"@)) {
            (Err(code), _) => Err(code),
            (Ok(_), Err(code)) => Err(code),
            (Ok(id), Ok(target)) => match (target_of(target), package_found(packages, started, id)) {
                (None, _) => Err("invalid-agent-plugin-target"@),
                (Some(_), Err(code)) => Err(code),
                (Some(enabled), Ok(_)) => match selected_in(params, provider) {
                    Err(code) => Err(code),
                    Ok(selected) => match reach_in(params, selected) {
                        Err(code) => Err(code),
                        Ok(reach) => Ok(
                            PluginRequestView {
                                logical_id: id,
                                target_enabled: enabled,
                                reach,
                                selected_provider: selected,
                            },
                        ),
                    },
                },
            },
        },
    }
}

fn read_target(target: &str) -> (r: Option<bool>)
    ensures
        r == target_of(target@),
{
    if same_text(target, "on") || same_text(target, "enable") {
        Some(true)
    } else if same_text(target, "off") || same_text(target, "disable") {
        Some(false)
    } else {
        None
    }
}

fn read_selected(params: &Json, provider: &Option<String>) -> (r: Result<
    Option<String>,
    &'static str,
>)
    ensures
        match selected_in(params@, optional(*provider)) {
            Ok(selected) => r is Ok && optional(r->Ok_0) == selected,
            Err(code) => r is Err && r->Err_0@ == code,
        },
{
    let value = match params.get("selectedProvider") {
        None => return Ok(None),
        Some(value) => value,
    };
    match value.as_text() {
        None => Err("invalid-params"),
        Some(text) => {
            if text.is_empty() || byte_len(text) > MAX_PARAMETER_BYTES {
                return Err("invalid-params");
            }
            match provider {
                Some(provider) => Ok(Some(provider.clone())),
                None => Err("invalid-selected-provider"),
            }
        },
    }
}

fn read_reach(params: &Json, selected: &Option<String>) -> (r: Result<
    ProviderReachInput,
    &'static str,
>)
    ensures
        coded(r) == reach_in(params@, optional(*selected)),
{
    let reach = match required_string(params, "reach") {
        Ok(reach) => reach,
        Err(code) => return Err(code),
    };
    if same_text(reach, "all") {
        if selected.is_none() {
            Ok(ProviderReachInput::All)
        } else {
            Err("provider-conflicts-with-all-reach")
        }
    } else if same_text(reach, "selected") {
        match selected {
            Some(provider) => Ok(ProviderReachInput::Selected { provider: provider.clone() }),
            None => Err("selected-provider-required"),
        }
    } else {
        Err("invalid-agent-plugin-reach")
    }
}

/// Reads which package is to be planned. `started` is what came of starting a
/// request for it, `provider` the provider that the parameter names, if there is
/// such a provider.
pub fn plan_agent_plugin(
    params: &Json,
    packages: Result<&Vec<PluginPackage>, BridgeStage>,
    started: Result<(), BulkTogglePlanError>,
    provider: &Option<String>,
) -> (r: Result<AgentPluginPlanRequest, &'static str>)
    ensures
        coded(r) == plugin_request_in(
            params@,
            read_packages(packages),
            started,
            optional(*provider),
        ),
        r is Ok ==> {
            let target = text_in(field(params@, "target"@));
            &&& field(params@, "logicalId"@) == Some(JsonView::Text(r->Ok_0.logical_id@))
            &&& r->Ok_0.target_enabled <==> target == Some("on"@) || target == Some("enable"@)
            &&& !r->Ok_0.target_enabled ==> target == Some("off"@) || target == Some("disable"@)
            &&& field(params@, "reach"@) == Some(
                JsonView::Text(
                    if r->Ok_0.reach is All {
                        "all"@
                    } else {
                        "selected"@
                    },
                ),
            )
            &&& r->Ok_0.reach is All <==> r->Ok_0.selected_provider is None
        },
{
    let allowed: [&'static str; 4] = ["logicalId", "target", "reach", "selectedProvider"];
    assert(texts(allowed@) =~= seq!["logicalId"@, "target"@, "reach"@, "selectedProvider"@]);
    if let Err(code) = require_only_params(params, allowed.as_slice()) {
        return Err(code);
    }
    let id = match required_string(params, "logicalId") {
        Ok(id) => id,
        Err(code) => return Err(code),
    };
    let target = match required_string(params, "target") {
        Ok(target) => target,
        Err(code) => return Err(code),
    };
    let target_enabled = match read_target(target) {
        Some(enabled) => enabled,
        None => return Err("invalid-agent-plugin-target"),
    };
    let packages = match packages {
        Ok(packages) => packages,
        Err(stage) => return Err(stage.code()),
    };
    match find_package(packages, id) {
        Some(at) => {
            proof {
                lemma_package_with(packages@, id@, Some(at as int));
            }
        },
        None => {
            proof {
                lemma_package_with(packages@, id@, None);
            }
            return Err("agent-plugin-not-found");
        },
    }
    if let Err(error) = started {
        return Err(agent_plugin_plan_error_code(error));
    }
    let selected_provider = match read_selected(params, provider) {
        Ok(selected) => selected,
        Err(code) => return Err(code),
    };
    let reach = match read_reach(params, &selected_provider) {
        Ok(reach) => reach,
        Err(code) => return Err(code),
    };
    Ok(
        AgentPluginPlanRequest {
            logical_id: id.to_owned(),
            target_enabled,
            reach,
            selected_provider,
        },
    )
}

/// Whether a plan for a package would change anything.
pub fn agent_plugin_plan_actionable(lifecycle: ProviderReachLifecycle, writes: u64) -> (r: bool)
    ensures
        r == ((lifecycle is Applied || lifecycle is Partial) && writes > 0),
{
    match lifecycle {
        ProviderReachLifecycle::Applied | ProviderReachLifecycle::Partial => writes > 0,
        _ => false,
    }
}

/// The response to a plan for a package that was carried out: shown with the
/// package as it is then, or as it was reviewed where it cannot be read again.
pub open spec fn applied_plugin_view(
    reviewed: PluginPackage,
    refreshed: Option<PluginPackage>,
    result: PackageResult,
) -> JsonView {
    JsonView::Object(
        seq![
            (
                "result"@,
                redacted_agent_plugin_apply_view(
                    match refreshed {
                        Some(package) => package,
                        None => reviewed,
                    },
                    result,
                ),
            ),
            (
                "refreshStatus"@,
                JsonView::Text(
                    if refreshed is Some {
                        "complete"@
                    } else {
                        "unavailable"@
                    },
                ),
            ),
        ],
    )
}

/// The response to a plan for a package that was carried out: shown with the
/// package as it is then, or as it was reviewed where it cannot be read again:
/// each part under its own name, and nothing else.
pub proof fn law_shown_applied_plugin(
    reviewed: PluginPackage,
    refreshed: Option<PluginPackage>,
    result: PackageResult,
)
    ensures
        ({
            let shown = applied_plugin_view(reviewed, refreshed, result);
            &&& shows_only(shown, 2)
            &&& shows(
                shown,
                "result"@,
                redacted_agent_plugin_apply_view(
                    match refreshed {
                        Some(package) => package,
                        None => reviewed,
                    },
                    result,
                ),
            )
            &&& shows(
                shown,
                "refreshStatus"@,
                JsonView::Text(
                    if refreshed is Some {
                        "complete"@
                    } else {
                        "unavailable"@
                    },
                ),
            )
        }),
{
    let shown = applied_plugin_view(reviewed, refreshed, result);
    lemma_shows_all(shown);
    let at = shown->Object_0;
    assert(at[0] == at[0] && at[1] == at[1]);
}

/// The response to a plan for a package that was carried out.
pub fn applied_agent_plugin(
    reviewed: &PluginPackage,
    refreshed: Option<&PluginPackage>,
    result: &PackageResult,
) -> (value: Json)
    ensures
        value@ == applied_plugin_view(*reviewed, seen(refreshed), *result),
{
    let mut out = ObjectBuilder::new();
    match refreshed {
        Some(package) => {
            out.put("result", redacted_agent_plugin_apply(package, result));
            out.put_text("refreshStatus", "complete");
        },
        None => {
            out.put("result", redacted_agent_plugin_apply(reviewed, result));
            out.put_text("refreshStatus", "unavailable");
        },
    }
    assert(out@ =~= applied_plugin_view(*reviewed, seen(refreshed), *result)->Object_0);
    out.finish()
}

} // verus!
