//! What the gateway commands print.
use vstd::prelude::*;

use crate::json::{
    array, item_views, optional_value, text, value_or_null, Json, JsonView, ObjectBuilder,
};
use crate::laws::shown::{lemma_shows_all, shows, shows_only};
use crate::laws::texts::group_occurs;
use crate::text::{joined, occurs, optional};

verus! {

/// How the gateway covers a provider.
pub struct GatewayProvider {
    pub provider: Json,
    pub hook_adapter: Json,
    pub built_in_tools: Json,
    pub gateway_mcp_tools: Json,
}

/// What is shown of how the gateway covers a provider.
pub open spec fn gateway_coverage_view(row: GatewayProvider) -> JsonView {
    JsonView::Object(
        seq![
            ("provider"@, row.provider@),
            ("hookAdapter"@, row.hook_adapter@),
            ("builtInTools"@, row.built_in_tools@),
            ("gatewayMcpTools"@, row.gateway_mcp_tools@),
            ("verificationScope"@, JsonView::Text("fixture-contract"@)),
            ("nativeHostActivation"@, JsonView::Text("pending-live-verification"@)),
        ],
    )
}

/// What is shown of how the gateway covers a provider: each part under its own
/// name, and nothing else.
pub proof fn law_shown_gateway_coverage(row: GatewayProvider)
    ensures
        ({
            let shown = gateway_coverage_view(row);
            &&& shows_only(shown, 6)
            &&& shows(shown, "provider"@, row.provider@)
            &&& shows(shown, "hookAdapter"@, row.hook_adapter@)
            &&& shows(shown, "builtInTools"@, row.built_in_tools@)
            &&& shows(shown, "gatewayMcpTools"@, row.gateway_mcp_tools@)
            &&& shows(shown, "verificationScope"@, JsonView::Text("fixture-contract"@))
            &&& shows(
                shown,
                "nativeHostActivation"@,
                JsonView::Text("pending-live-verification"@),
            )
        }),
{
    let shown = gateway_coverage_view(row);
    lemma_shows_all(shown);
    let at = shown->Object_0;
    assert(at[0] == at[0] && at[1] == at[1] && at[2] == at[2] && at[3] == at[3] && at[4] ==
        at[4] && at[5] == at[5]);
}

/// What is shown of how the gateway covers a provider.
pub fn gateway_coverage(row: &GatewayProvider) -> (value: Json)
    ensures
        value@ == gateway_coverage_view(*row),
{
    let mut out = ObjectBuilder::new();
    out.put("provider", row.provider.duplicate());
    out.put("hookAdapter", row.hook_adapter.duplicate());
    out.put("builtInTools", row.built_in_tools.duplicate());
    out.put("gatewayMcpTools", row.gateway_mcp_tools.duplicate());
    out.put_text("verificationScope", "fixture-contract");
    out.put_text("nativeHostActivation", "pending-live-verification");
    assert(out@ =~= gateway_coverage_view(*row)->Object_0);
    out.finish()
}

/// What is shown of how the gateway covers providers.
pub open spec fn gateway_coverages_views(list: Seq<GatewayProvider>) -> Seq<JsonView> {
    Seq::new(list.len(), |i: int| gateway_coverage_view(list[i]))
}

/// Each of them is shown, in the order in which they stand.
pub proof fn law_each_of_gateway_coverages(list: Seq<GatewayProvider>)
    ensures
        gateway_coverages_views(list).len() == list.len(),
        forall|i: int| 0 <= i < list.len() ==> #[trigger] gateway_coverages_views(list)[i] == gateway_coverage_view(list[i]),
{
}

/// What is shown of how the gateway covers providers.
pub fn gateway_coverages(list: &Vec<GatewayProvider>) -> (values: Vec<Json>)
    ensures
        item_views(values@) == gateway_coverages_views(list@),
{
    let mut values: Vec<Json> = Vec::new();
    let mut i: usize = 0;
    while i < list.len()
        invariant
            i <= list@.len(),
            values@.len() == i,
            forall|j: int|
                0 <= j < i ==> (#[trigger] values@[j])@ == gateway_coverage_view(list@[j]),
        decreases list@.len() - i,
    {
        values.push(gateway_coverage(&list[i]));
        i = i + 1;
    }
    assert(item_views(values@) =~= gateway_coverages_views(list@));
    values
}

/// What runs of the gateway.
pub open spec fn data_plane(fixture_mode: bool) -> Seq<char> {
    if fixture_mode {
        "available-for-fixture-session-launch"@
    } else {
        "implemented-without-live-provider-attachment"@
    }
}

/// What is attached to the gateway in a fixture.
pub open spec fn fixture_attachment(fixture_mode: bool) -> Seq<char> {
    if fixture_mode {
        "verified-contract-runtime-not-observed"@
    } else {
        "not-applicable"@
    }
}

fn data_plane_text(fixture_mode: bool) -> (text: &'static str)
    ensures
        text@ == data_plane(fixture_mode),
{
    if fixture_mode {
        "available-for-fixture-session-launch"
    } else {
        "implemented-without-live-provider-attachment"
    }
}

fn fixture_attachment_text(fixture_mode: bool) -> (text: &'static str)
    ensures
        text@ == fixture_attachment(fixture_mode),
{
    if fixture_mode {
        "verified-contract-runtime-not-observed"
    } else {
        "not-applicable"
    }
}

/// What is known of the gateway at run time; whether configured routing is live is not.
pub open spec fn gateway_runtime_view(fixture_mode: bool, routing_intent_active: bool) -> JsonView {
    JsonView::Object(
        seq![
            ("gatewayDataPlane"@, JsonView::Text(data_plane(fixture_mode))),
            ("fixtureHarnessAttachment"@, JsonView::Text(fixture_attachment(fixture_mode))),
            (
                "liveProviderAttachment"@,
                JsonView::Text("blocked-until-provider-overlay-is-verified"@),
            ),
            ("routingIntentActive"@, JsonView::Bool(routing_intent_active)),
            ("configuredRoutingIsLive"@, JsonView::Null),
            ("runtimeObservation"@, JsonView::Text("not-performed"@)),
            ("nativeMcpReferences"@, JsonView::Text("not-managed"@)),
        ],
    )
}

/// What is known of the gateway at run time; whether configured routing is live
/// is not: each part under its own name, and nothing else.
pub proof fn law_shown_gateway_runtime(fixture_mode: bool, routing_intent_active: bool)
    ensures
        ({
            let shown = gateway_runtime_view(fixture_mode, routing_intent_active);
            &&& shows_only(shown, 7)
            &&& shows(shown, "gatewayDataPlane"@, JsonView::Text(data_plane(fixture_mode)))
            &&& shows(
                shown,
                "fixtureHarnessAttachment"@,
                JsonView::Text(fixture_attachment(fixture_mode)),
            )
            &&& shows(
                shown,
                "liveProviderAttachment"@,
                JsonView::Text("blocked-until-provider-overlay-is-verified"@),
            )
            &&& shows(shown, "routingIntentActive"@, JsonView::Bool(routing_intent_active))
            &&& shows(shown, "configuredRoutingIsLive"@, JsonView::Null)
            &&& shows(shown, "runtimeObservation"@, JsonView::Text("not-performed"@))
            &&& shows(shown, "nativeMcpReferences"@, JsonView::Text("not-managed"@))
        }),
{
    let shown = gateway_runtime_view(fixture_mode, routing_intent_active);
    lemma_shows_all(shown);
    let at = shown->Object_0;
    assert(at[0] == at[0] && at[1] == at[1] && at[2] == at[2] && at[3] == at[3] && at[4] ==
        at[4] && at[5] == at[5] && at[6] == at[6]);
}

/// What is known of the gateway at run time; whether configured routing is live is not.
pub fn gateway_runtime(fixture_mode: bool, routing_intent_active: bool) -> (value: Json)
    ensures
        value@ == gateway_runtime_view(fixture_mode, routing_intent_active),
{
    let mut out = ObjectBuilder::new();
    out.put("gatewayDataPlane", text(data_plane_text(fixture_mode)));
    out.put("fixtureHarnessAttachment", text(fixture_attachment_text(fixture_mode)));
    out.put_text("liveProviderAttachment", "blocked-until-provider-overlay-is-verified");
    out.put("routingIntentActive", Json::Bool(routing_intent_active));
    out.put("configuredRoutingIsLive", Json::Null);
    out.put_text("runtimeObservation", "not-performed");
    out.put_text("nativeMcpReferences", "not-managed");
    assert(out@ =~= gateway_runtime_view(fixture_mode, routing_intent_active)->Object_0);
    out.finish()
}

/// The state of the gateway for a target.
pub struct GatewayState {
    pub target: Json,
    pub mode: Option<Json>,
    pub policy: Option<Json>,
    pub routing_active: bool,
    pub providers: Vec<GatewayProvider>,
}

/// What is shown of the gateway.
pub open spec fn gateway_status_view(state: GatewayState, fixture_mode: bool) -> JsonView {
    JsonView::Object(
        seq![
            ("status"@, JsonView::Text("ok"@)),
            ("target"@, state.target@),
            ("mode"@, value_or_null(optional(state.mode))),
            ("policy"@, value_or_null(optional(state.policy))),
            ("providerCoverage"@, JsonView::Array(gateway_coverages_views(state.providers@))),
            (
                "runtime"@,
                gateway_runtime_view(fixture_mode, state.mode is Some && state.routing_active),
            ),
        ],
    )
}

/// What is shown of the gateway: each part under its own name, and nothing
/// else.
pub proof fn law_shown_gateway_status(state: GatewayState, fixture_mode: bool)
    ensures
        ({
            let shown = gateway_status_view(state, fixture_mode);
            &&& shows_only(shown, 6)
            &&& shows(shown, "status"@, JsonView::Text("ok"@))
            &&& shows(shown, "target"@, state.target@)
            &&& shows(shown, "mode"@, value_or_null(optional(state.mode)))
            &&& shows(shown, "policy"@, value_or_null(optional(state.policy)))
            &&& shows(
                shown,
                "providerCoverage"@,
                JsonView::Array(gateway_coverages_views(state.providers@)),
            )
            &&& shows(
                shown,
                "runtime"@,
                gateway_runtime_view(fixture_mode, state.mode is Some && state.routing_active),
            )
        }),
{
    let shown = gateway_status_view(state, fixture_mode);
    lemma_shows_all(shown);
    let at = shown->Object_0;
    assert(at[0] == at[0] && at[1] == at[1] && at[2] == at[2] && at[3] == at[3] && at[4] ==
        at[4] && at[5] == at[5]);
}

/// What is shown of the gateway.
pub fn gateway_status(state: &GatewayState, fixture_mode: bool) -> (value: Json)
    ensures
        value@ == gateway_status_view(*state, fixture_mode),
{
    let mut out = ObjectBuilder::new();
    out.put_text("status", "ok");
    out.put("target", state.target.duplicate());
    out.put("mode", optional_value(&state.mode));
    out.put("policy", optional_value(&state.policy));
    out.put("providerCoverage", array(gateway_coverages(&state.providers)));
    out.put("runtime", gateway_runtime(fixture_mode, state.mode.is_some() && state.routing_active));
    assert(out@ =~= gateway_status_view(*state, fixture_mode)->Object_0);
    out.finish()
}

/// How far the gateway has come for a target: its installation and its routing.
pub open spec fn gateway_lifecycle(mode: Option<(Seq<char>, Seq<char>)>) -> Seq<char> {
    match mode {
        Some((installation, routing)) => installation + "/"@ + routing,
        None => "detached/off"@,
    }
}

/// The installation and the routing of the gateway.
pub struct GatewayMode {
    pub installation: String,
    pub routing: String,
}

/// The line for the gateway.
pub fn gateway_status_line(target: &str, mode: &Option<GatewayMode>) -> (line: String)
    ensures
        line@ == "gateway "@ + target@ + " "@ + gateway_lifecycle(
            match *mode {
                Some(mode) => Some((mode.installation@, mode.routing@)),
                None => None,
            },
        ),
{
    let mut line = joined("gateway ", target);
    line.push_str(" ");
    match mode {
        Some(mode) => {
            let ghost start = line@;
            line.push_str(mode.installation.as_str());
            line.push_str("/");
            line.push_str(mode.routing.as_str());
            assert(line@ =~= start + gateway_lifecycle(Some((mode.installation@, mode.routing@))));
        },
        None => {
            line.push_str("detached/off");
        },
    }
    line
}

/// A plan for the gateway.
pub struct GatewayPlan {
    pub plan_fingerprint: String,
    pub blocked_reason: Option<String>,
    pub action: String,
    pub mode: Json,
    pub policy: Json,
    pub native_views: Json,
}

/// The status of a plan.
pub open spec fn gateway_plan_word(blocked: bool) -> Seq<char> {
    if blocked {
        "blocked"@
    } else {
        "planned"@
    }
}

fn gateway_plan_text(blocked: bool) -> (word: &'static str)
    ensures
        word@ == gateway_plan_word(blocked),
{
    if blocked {
        "blocked"
    } else {
        "planned"
    }
}

/// What an operation on the gateway tells of its plan.
pub open spec fn gateway_plan_detail_view(plan: GatewayPlan) -> JsonView {
    JsonView::Object(
        seq![
            ("modePlan"@, plan.mode@),
            ("policyPlan"@, plan.policy@),
            ("nativeViewPlan"@, plan.native_views@),
            ("nativeMcpReferences"@, JsonView::Text("not-managed"@)),
        ],
    )
}

/// What an operation on the gateway tells of its plan: each part under its own
/// name, and nothing else.
pub proof fn law_shown_gateway_plan_detail(plan: GatewayPlan)
    ensures
        ({
            let shown = gateway_plan_detail_view(plan);
            &&& shows_only(shown, 4)
            &&& shows(shown, "modePlan"@, plan.mode@)
            &&& shows(shown, "policyPlan"@, plan.policy@)
            &&& shows(shown, "nativeViewPlan"@, plan.native_views@)
            &&& shows(shown, "nativeMcpReferences"@, JsonView::Text("not-managed"@))
        }),
{
    let shown = gateway_plan_detail_view(plan);
    lemma_shows_all(shown);
    let at = shown->Object_0;
    assert(at[0] == at[0] && at[1] == at[1] && at[2] == at[2] && at[3] == at[3]);
}

/// What an operation on the gateway tells of its plan.
pub fn gateway_plan_detail(plan: &GatewayPlan) -> (value: Json)
    ensures
        value@ == gateway_plan_detail_view(*plan),
{
    let mut out = ObjectBuilder::new();
    out.put("modePlan", plan.mode.duplicate());
    out.put("policyPlan", plan.policy.duplicate());
    out.put("nativeViewPlan", plan.native_views.duplicate());
    out.put_text("nativeMcpReferences", "not-managed");
    assert(out@ =~= gateway_plan_detail_view(*plan)->Object_0);
    out.finish()
}

/// What is shown of a plan for the gateway.
pub open spec fn gateway_plan_view(plan: GatewayPlan, operation: Json) -> JsonView {
    JsonView::Object(
        seq![
            ("status"@, JsonView::Text(gateway_plan_word(plan.blocked_reason is Some))),
            ("operation"@, operation@),
            ("planFingerprint"@, JsonView::Text(plan.plan_fingerprint@)),
            ("modePlan"@, plan.mode@),
            ("policyPlan"@, plan.policy@),
            ("nativeViewPlan"@, plan.native_views@),
            ("nativeMcpReferences"@, JsonView::Text("not-managed"@)),
        ],
    )
}

/// What is shown of a plan for the gateway: each part under its own name, and
/// nothing else.
pub proof fn law_shown_gateway_plan(plan: GatewayPlan, operation: Json)
    ensures
        ({
            let shown = gateway_plan_view(plan, operation);
            &&& shows_only(shown, 7)
            &&& shows(
                shown,
                "status"@,
                JsonView::Text(gateway_plan_word(plan.blocked_reason is Some)),
            )
            &&& shows(shown, "operation"@, operation@)
            &&& shows(shown, "planFingerprint"@, JsonView::Text(plan.plan_fingerprint@))
            &&& shows(shown, "modePlan"@, plan.mode@)
            &&& shows(shown, "policyPlan"@, plan.policy@)
            &&& shows(shown, "nativeViewPlan"@, plan.native_views@)
            &&& shows(shown, "nativeMcpReferences"@, JsonView::Text("not-managed"@))
        }),
{
    let shown = gateway_plan_view(plan, operation);
    lemma_shows_all(shown);
    let at = shown->Object_0;
    assert(at[0] == at[0] && at[1] == at[1] && at[2] == at[2] && at[3] == at[3] && at[4] ==
        at[4] && at[5] == at[5] && at[6] == at[6]);
}

/// What is shown of a plan for the gateway.
pub fn gateway_plan(plan: &GatewayPlan, operation: &Json) -> (value: Json)
    ensures
        value@ == gateway_plan_view(*plan, *operation),
{
    let mut out = ObjectBuilder::new();
    out.put("status", text(gateway_plan_text(plan.blocked_reason.is_some())));
    out.put("operation", operation.duplicate());
    out.put_text("planFingerprint", plan.plan_fingerprint.as_str());
    out.put("modePlan", plan.mode.duplicate());
    out.put("policyPlan", plan.policy.duplicate());
    out.put("nativeViewPlan", plan.native_views.duplicate());
    out.put_text("nativeMcpReferences", "not-managed");
    assert(out@ =~= gateway_plan_view(*plan, *operation)->Object_0);
    out.finish()
}

/// The line for a plan for the gateway: why it is blocked, or that it is
/// planned.
pub fn gateway_plan_line(plan: &GatewayPlan) -> (line: String)
    ensures
        line@ == "gateway "@ + plan.action@ + " "@ + (match plan.blocked_reason {
            Some(reason) => reason@,
            None => "planned"@,
        }) + " fingerprint="@ + plan.plan_fingerprint@,
{
    let mut line = joined("gateway ", plan.action.as_str());
    line.push_str(" ");
    match &plan.blocked_reason {
        Some(reason) => line.push_str(reason.as_str()),
        None => line.push_str("planned"),
    }
    line.push_str(" fingerprint=");
    line.push_str(plan.plan_fingerprint.as_str());
    line
}

/// What came of a change to the gateway.
pub struct GatewayResult {
    pub plan_fingerprint: String,
    pub mode: Json,
    pub policy: Json,
    pub native_views: Json,
}

/// What an operation on the gateway tells of its result.
pub open spec fn gateway_result_detail_view(result: GatewayResult) -> JsonView {
    JsonView::Object(
        seq![
            ("mode"@, result.mode@),
            ("policy"@, result.policy@),
            ("nativeViews"@, result.native_views@),
            ("nativeMcpReferences"@, JsonView::Text("not-managed"@)),
        ],
    )
}

/// What an operation on the gateway tells of its result: each part under its
/// own name, and nothing else.
pub proof fn law_shown_gateway_result_detail(result: GatewayResult)
    ensures
        ({
            let shown = gateway_result_detail_view(result);
            &&& shows_only(shown, 4)
            &&& shows(shown, "mode"@, result.mode@)
            &&& shows(shown, "policy"@, result.policy@)
            &&& shows(shown, "nativeViews"@, result.native_views@)
            &&& shows(shown, "nativeMcpReferences"@, JsonView::Text("not-managed"@))
        }),
{
    let shown = gateway_result_detail_view(result);
    lemma_shows_all(shown);
    let at = shown->Object_0;
    assert(at[0] == at[0] && at[1] == at[1] && at[2] == at[2] && at[3] == at[3]);
}

/// What an operation on the gateway tells of its result.
pub fn gateway_result_detail(result: &GatewayResult) -> (value: Json)
    ensures
        value@ == gateway_result_detail_view(*result),
{
    let mut out = ObjectBuilder::new();
    out.put("mode", result.mode.duplicate());
    out.put("policy", result.policy.duplicate());
    out.put("nativeViews", result.native_views.duplicate());
    out.put_text("nativeMcpReferences", "not-managed");
    assert(out@ =~= gateway_result_detail_view(*result)->Object_0);
    out.finish()
}

/// What is shown of a change to the gateway.
pub open spec fn gateway_result_view(result: GatewayResult, operation: Json) -> JsonView {
    JsonView::Object(
        seq![
            ("status"@, JsonView::Text("applied"@)),
            ("operation"@, operation@),
            ("planFingerprint"@, JsonView::Text(result.plan_fingerprint@)),
            ("mode"@, result.mode@),
            ("policy"@, result.policy@),
            ("nativeViews"@, result.native_views@),
            ("nativeMcpReferences"@, JsonView::Text("not-managed"@)),
        ],
    )
}

/// What is shown of a change to the gateway: each part under its own name, and
/// nothing else.
pub proof fn law_shown_gateway_result(result: GatewayResult, operation: Json)
    ensures
        ({
            let shown = gateway_result_view(result, operation);
            &&& shows_only(shown, 7)
            &&& shows(shown, "status"@, JsonView::Text("applied"@))
            &&& shows(shown, "operation"@, operation@)
            &&& shows(shown, "planFingerprint"@, JsonView::Text(result.plan_fingerprint@))
            &&& shows(shown, "mode"@, result.mode@)
            &&& shows(shown, "policy"@, result.policy@)
            &&& shows(shown, "nativeViews"@, result.native_views@)
            &&& shows(shown, "nativeMcpReferences"@, JsonView::Text("not-managed"@))
        }),
{
    let shown = gateway_result_view(result, operation);
    lemma_shows_all(shown);
    let at = shown->Object_0;
    assert(at[0] == at[0] && at[1] == at[1] && at[2] == at[2] && at[3] == at[3] && at[4] ==
        at[4] && at[5] == at[5] && at[6] == at[6]);
}

/// What is shown of a change to the gateway.
pub fn gateway_result(result: &GatewayResult, operation: &Json) -> (value: Json)
    ensures
        value@ == gateway_result_view(*result, *operation),
{
    let mut out = ObjectBuilder::new();
    out.put_text("status", "applied");
    out.put("operation", operation.duplicate());
    out.put_text("planFingerprint", result.plan_fingerprint.as_str());
    out.put("mode", result.mode.duplicate());
    out.put("policy", result.policy.duplicate());
    out.put("nativeViews", result.native_views.duplicate());
    out.put_text("nativeMcpReferences", "not-managed");
    assert(out@ =~= gateway_result_view(*result, *operation)->Object_0);
    out.finish()
}

/// The line for a change to the gateway.
pub open spec fn gateway_result_line_text(action: Seq<char>, activation: Seq<char>) -> Seq<char> {
    "gateway "@ + action + " applied; activation="@ + activation
        + " nativeMcpReferences=not-managed"@
}

/// The line for a change to the gateway: each part stands with its label.
pub proof fn law_line_of_gateway_result(action: Seq<char>, activation: Seq<char>)
    ensures
        ({
            let line = gateway_result_line_text(action, activation);
            &&& occurs(line, "gateway "@ + action)
            &&& occurs(line, " applied; activation="@ + activation)
            &&& occurs(line, activation + " nativeMcpReferences=not-managed"@)
        }),
{
    broadcast use group_occurs;

}

/// The line for a change to the gateway.
pub fn gateway_result_line(action: &str, activation: &str) -> (line: String)
    ensures
        line@ == gateway_result_line_text(action@, activation@),
{
    let mut line = String::new();
    line.push_str("gateway ");
    line.push_str(action);
    line.push_str(" applied; activation=");
    line.push_str(activation);
    line.push_str(" nativeMcpReferences=not-managed");
    assert(line@ =~= gateway_result_line_text(action@, activation@));
    line
}

/// What a command means by its scope.
#[derive(Debug, Clone, Copy, PartialEq, Eq, Structural)]
pub enum GatewayScopeArg {
    Global,
    Repository,
    Workspace,
}

/// Where the gateway is changed: for everyone, a repository or a workspace, and
/// for one provider or all.
pub struct GatewayTarget {
    pub repository_key: Option<String>,
    pub workspace_key: Option<String>,
    pub provider: Option<String>,
}

/// The target of a command on the gateway.
pub fn gateway_target(
    scope: GatewayScopeArg,
    provider: &Option<String>,
    repository_key: &str,
    workspace_key: &str,
) -> (target: GatewayTarget)
    ensures
        optional(target.repository_key) == (if scope is Global {
            None
        } else {
            Some(repository_key@)
        }),
        optional(target.workspace_key) == (if scope is Workspace {
            Some(workspace_key@)
        } else {
            None
        }),
        optional(target.provider) == optional(*provider),
{
    GatewayTarget {
        repository_key: match scope {
            GatewayScopeArg::Global => None,
            _ => Some(repository_key.to_owned()),
        },
        workspace_key: match scope {
            GatewayScopeArg::Workspace => Some(workspace_key.to_owned()),
            _ => None,
        },
        provider: match provider {
            Some(provider) => Some(provider.clone()),
            None => None,
        },
    }
}

} // verus!
