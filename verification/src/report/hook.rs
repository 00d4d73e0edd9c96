//! What the hook commands print.
use vstd::prelude::*;

use crate::json::{compact_json, compact_text};
use crate::json::{array, duplicate_items, item_views, Json, JsonView, ObjectBuilder};
use crate::laws::shown::{lemma_shows_all, shows, shows_only};
use crate::laws::texts::group_occurs;
use crate::text::{bool_text, bool_word, joined, occurs, optional, string_views};

verus! {

/// A hook, and whether it is trusted.
pub struct HookListing {
    pub id: Option<String>,
    pub item: Json,
    pub trusted: bool,
}

/// What is shown of a hook.
pub open spec fn hook_value_view(hook: HookListing) -> JsonView {
    JsonView::Object(
        seq![
            ("item"@, hook.item@),
            ("storedTrustDecision"@, JsonView::Bool(hook.trusted)),
        ],
    )
}

/// What is shown of a hook: each part under its own name, and nothing else.
pub proof fn law_shown_hook(hook: HookListing)
    ensures
        ({
            let shown = hook_value_view(hook);
            &&& shows_only(shown, 2)
            &&& shows(shown, "item"@, hook.item@)
            &&& shows(shown, "storedTrustDecision"@, JsonView::Bool(hook.trusted))
        }),
{
    let shown = hook_value_view(hook);
    lemma_shows_all(shown);
    let at = shown->Object_0;
    assert(at[0] == at[0] && at[1] == at[1]);
}

/// What is shown of a hook.
pub fn hook_value(hook: &HookListing) -> (value: Json)
    ensures
        value@ == hook_value_view(*hook),
{
    let mut out = ObjectBuilder::new();
    out.put("item", hook.item.duplicate());
    out.put("storedTrustDecision", Json::Bool(hook.trusted));
    assert(out@ =~= hook_value_view(*hook)->Object_0);
    out.finish()
}

/// What is shown of hooks.
pub open spec fn hook_values_views(list: Seq<HookListing>) -> Seq<JsonView> {
    Seq::new(list.len(), |i: int| hook_value_view(list[i]))
}

/// Each of them is shown, in the order in which they stand.
pub proof fn law_each_of_hook_values(list: Seq<HookListing>)
    ensures
        hook_values_views(list).len() == list.len(),
        forall|i: int| 0 <= i < list.len() ==> #[trigger] hook_values_views(list)[i] == hook_value_view(list[i]),
{
}

/// What is shown of hooks.
pub fn hook_values(list: &Vec<HookListing>) -> (values: Vec<Json>)
    ensures
        item_views(values@) == hook_values_views(list@),
{
    let mut values: Vec<Json> = Vec::new();
    let mut i: usize = 0;
    while i < list.len()
        invariant
            i <= list@.len(),
            values@.len() == i,
            forall|j: int| 0 <= j < i ==> (#[trigger] values@[j])@ == hook_value_view(list@[j]),
        decreases list@.len() - i,
    {
        values.push(hook_value(&list[i]));
        i = i + 1;
    }
    assert(item_views(values@) =~= hook_values_views(list@));
    values
}

/// The hooks.
pub open spec fn hook_list_view(hooks: Vec<HookListing>) -> JsonView {
    JsonView::Object(
        seq![
            ("status"@, JsonView::Text("ok"@)),
            ("hooks"@, JsonView::Array(hook_values_views(hooks@))),
        ],
    )
}

/// The hooks: each part under its own name, and nothing else.
pub proof fn law_shown_hook_list(hooks: Vec<HookListing>)
    ensures
        ({
            let shown = hook_list_view(hooks);
            &&& shows_only(shown, 2)
            &&& shows(shown, "status"@, JsonView::Text("ok"@))
            &&& shows(shown, "hooks"@, JsonView::Array(hook_values_views(hooks@)))
        }),
{
    let shown = hook_list_view(hooks);
    lemma_shows_all(shown);
    let at = shown->Object_0;
    assert(at[0] == at[0] && at[1] == at[1]);
}

/// The hooks.
pub fn hook_list(hooks: &Vec<HookListing>) -> (value: Json)
    ensures
        value@ == hook_list_view(*hooks),
{
    let mut out = ObjectBuilder::new();
    out.put_text("status", "ok");
    out.put("hooks", array(hook_values(hooks)));
    assert(out@ =~= hook_list_view(*hooks)->Object_0);
    out.finish()
}

/// The id of a hook, or that it is unknown.
pub open spec fn known_id(id: Option<Seq<char>>) -> Seq<char> {
    match id {
        Some(id) => id,
        None => "unknown"@,
    }
}

fn show_id(id: &Option<String>) -> (text: &str)
    ensures
        text@ == known_id(optional(*id)),
{
    match id {
        Some(id) => id.as_str(),
        None => "unknown",
    }
}

/// The line for a hook.
pub open spec fn hook_line_text(hook: HookListing) -> Seq<char> {
    known_id(optional(hook.id)) + " stored-trust="@ + bool_word(hook.trusted)
}

/// The line for a hook: each part stands with its label.
pub proof fn law_line_of_hook(hook: HookListing)
    ensures
        ({
            let line = hook_line_text(hook);
            &&& occurs(line, known_id(optional(hook.id)))
            &&& occurs(line, " stored-trust="@ + bool_word(hook.trusted))
        }),
{
    broadcast use group_occurs;

}

/// The line for a hook.
pub fn hook_line(hook: &HookListing) -> (line: String)
    ensures
        line@ == hook_line_text(*hook),
{
    let mut line = String::new();
    line.push_str(show_id(&hook.id));
    line.push_str(" stored-trust=");
    line.push_str(bool_text(hook.trusted));
    assert(line@ =~= hook_line_text(*hook));
    line
}

/// The lines for hooks.
pub open spec fn hook_lines_texts(list: Seq<HookListing>) -> Seq<Seq<char>> {
    if list.len() == 0 {
        seq!["No hooks."@]
    } else {
        Seq::new(list.len(), |i: int| hook_line_text(list[i]))
    }
}

/// Each stands on a line of its own, in order; where there are none, that is
/// said.
pub proof fn law_lines_of_hook(list: Seq<HookListing>)
    ensures
        list.len() > 0 ==> hook_lines_texts(list).len() == list.len(),
        forall|i: int|
            0 <= i < list.len() ==> #[trigger] hook_lines_texts(list)[i] == hook_line_text(list[i]),
        list.len() == 0 ==> hook_lines_texts(list) == seq!["No hooks."@],
{
}

/// The lines for hooks.
pub fn hook_lines(list: &Vec<HookListing>) -> (lines: Vec<String>)
    ensures
        string_views(lines@) == hook_lines_texts(list@),
{
    let mut lines: Vec<String> = Vec::new();
    if list.len() == 0 {
        lines.push("No hooks.".to_owned());
        assert(string_views(lines@) =~= hook_lines_texts(list@));
        return lines;
    }
    let mut i: usize = 0;
    while i < list.len()
        invariant
            i <= list@.len(),
            lines@.len() == i,
            forall|j: int| 0 <= j < i ==> (#[trigger] lines@[j])@ == hook_line_text(list@[j]),
        decreases list@.len() - i,
    {
        lines.push(hook_line(&list[i]));
        i = i + 1;
    }
    assert(string_views(lines@) =~= hook_lines_texts(list@));
    lines
}

/// How hooks cover a provider.
pub struct HookProvider {
    pub provider: Json,
    pub adapter: Json,
    pub built_in_tools: Json,
    pub gateway_mcp_tools: Json,
    pub native_events: Json,
    pub managed_asset: bool,
    pub installations: Vec<Json>,
}

/// The installations that are shown: only a provider with a managed asset has
/// any.
pub open spec fn shown_installations(row: HookProvider) -> Seq<JsonView> {
    if row.managed_asset {
        item_views(row.installations@)
    } else {
        seq![]
    }
}

fn show_installations(row: &HookProvider) -> (values: Vec<Json>)
    ensures
        item_views(values@) == shown_installations(*row),
{
    if row.managed_asset {
        duplicate_items(&row.installations)
    } else {
        let values: Vec<Json> = Vec::new();
        assert(item_views(values@) =~= seq![]);
        values
    }
}

/// What is shown of how hooks cover a provider.
pub open spec fn hook_coverage_view(row: HookProvider) -> JsonView {
    JsonView::Object(
        seq![
            ("provider"@, row.provider@),
            ("adapter"@, row.adapter@),
            ("builtInTools"@, row.built_in_tools@),
            ("gatewayMcpTools"@, row.gateway_mcp_tools@),
            ("nativeEvents"@, row.native_events@),
            ("managedAsset"@, JsonView::Bool(row.managed_asset)),
            ("verificationScope"@, JsonView::Text("fixture-contract"@)),
            ("nativeHostActivation"@, JsonView::Text("pending-live-verification"@)),
            ("managedBridgeInstallations"@, JsonView::Array(shown_installations(row))),
        ],
    )
}

/// What is shown of how hooks cover a provider: each part under its own name,
/// and nothing else.
pub proof fn law_shown_hook_coverage(row: HookProvider)
    ensures
        ({
            let shown = hook_coverage_view(row);
            &&& shows_only(shown, 9)
            &&& shows(shown, "provider"@, row.provider@)
            &&& shows(shown, "adapter"@, row.adapter@)
            &&& shows(shown, "builtInTools"@, row.built_in_tools@)
            &&& shows(shown, "gatewayMcpTools"@, row.gateway_mcp_tools@)
            &&& shows(shown, "nativeEvents"@, row.native_events@)
            &&& shows(shown, "managedAsset"@, JsonView::Bool(row.managed_asset))
            &&& shows(shown, "verificationScope"@, JsonView::Text("fixture-contract"@))
            &&& shows(
                shown,
                "nativeHostActivation"@,
                JsonView::Text("pending-live-verification"@),
            )
            &&& shows(
                shown,
                "managedBridgeInstallations"@,
                JsonView::Array(shown_installations(row)),
            )
        }),
{
    let shown = hook_coverage_view(row);
    lemma_shows_all(shown);
    let at = shown->Object_0;
    assert(at[0] == at[0] && at[1] == at[1] && at[2] == at[2] && at[3] == at[3] && at[4] ==
        at[4] && at[5] == at[5] && at[6] == at[6] && at[7] == at[7] && at[8] == at[8]);
}

/// What is shown of how hooks cover a provider.
pub fn hook_coverage(row: &HookProvider) -> (value: Json)
    ensures
        value@ == hook_coverage_view(*row),
{
    let mut out = ObjectBuilder::new();
    out.put("provider", row.provider.duplicate());
    out.put("adapter", row.adapter.duplicate());
    out.put("builtInTools", row.built_in_tools.duplicate());
    out.put("gatewayMcpTools", row.gateway_mcp_tools.duplicate());
    out.put("nativeEvents", row.native_events.duplicate());
    out.put("managedAsset", Json::Bool(row.managed_asset));
    out.put_text("verificationScope", "fixture-contract");
    out.put_text("nativeHostActivation", "pending-live-verification");
    out.put("managedBridgeInstallations", array(show_installations(row)));
    assert(out@ =~= hook_coverage_view(*row)->Object_0);
    out.finish()
}

/// What is shown of how hooks cover providers.
pub open spec fn hook_coverages_views(list: Seq<HookProvider>) -> Seq<JsonView> {
    Seq::new(list.len(), |i: int| hook_coverage_view(list[i]))
}

/// Each of them is shown, in the order in which they stand.
pub proof fn law_each_of_hook_coverages(list: Seq<HookProvider>)
    ensures
        hook_coverages_views(list).len() == list.len(),
        forall|i: int| 0 <= i < list.len() ==> #[trigger] hook_coverages_views(list)[i] == hook_coverage_view(list[i]),
{
}

/// What is shown of how hooks cover providers.
pub fn hook_coverages(list: &Vec<HookProvider>) -> (values: Vec<Json>)
    ensures
        item_views(values@) == hook_coverages_views(list@),
{
    let mut values: Vec<Json> = Vec::new();
    let mut i: usize = 0;
    while i < list.len()
        invariant
            i <= list@.len(),
            values@.len() == i,
            forall|j: int| 0 <= j < i ==> (#[trigger] values@[j])@ == hook_coverage_view(list@[j]),
        decreases list@.len() - i,
    {
        values.push(hook_coverage(&list[i]));
        i = i + 1;
    }
    assert(item_views(values@) =~= hook_coverages_views(list@));
    values
}

/// How hooks cover providers.
pub open spec fn hook_coverage_list_view(rows: Vec<HookProvider>) -> JsonView {
    JsonView::Object(
        seq![
            ("status"@, JsonView::Text("ok"@)),
            ("coverage"@, JsonView::Array(hook_coverages_views(rows@))),
        ],
    )
}

/// How hooks cover providers: each part under its own name, and nothing else.
pub proof fn law_shown_hook_coverage_list(rows: Vec<HookProvider>)
    ensures
        ({
            let shown = hook_coverage_list_view(rows);
            &&& shows_only(shown, 2)
            &&& shows(shown, "status"@, JsonView::Text("ok"@))
            &&& shows(shown, "coverage"@, JsonView::Array(hook_coverages_views(rows@)))
        }),
{
    let shown = hook_coverage_list_view(rows);
    lemma_shows_all(shown);
    let at = shown->Object_0;
    assert(at[0] == at[0] && at[1] == at[1]);
}

/// How hooks cover providers.
pub fn hook_coverage_list(rows: &Vec<HookProvider>) -> (value: Json)
    ensures
        value@ == hook_coverage_list_view(*rows),
{
    let mut out = ObjectBuilder::new();
    out.put_text("status", "ok");
    out.put("coverage", array(hook_coverages(rows)));
    assert(out@ =~= hook_coverage_list_view(*rows)->Object_0);
    out.finish()
}

/// The line for how hooks cover a provider, each part as compact JSON.
pub open spec fn hook_coverage_text(row: HookProvider) -> Option<Seq<char>> {
    match (
        compact_text(row.provider@),
        compact_text(row.built_in_tools@),
        compact_text(row.gateway_mcp_tools@),
    ) {
        (Some(provider), Some(built_in), Some(gateway)) => Some(
            provider + " built-in="@ + built_in + " gateway-mcp="@ + gateway,
        ),
        _ => None,
    }
}

/// The line for how hooks cover a provider.
pub fn hook_coverage_line(row: &HookProvider) -> (line: Option<String>)
    ensures
        optional(line) == hook_coverage_text(*row),
{
    match (
        compact_json(&row.provider),
        compact_json(&row.built_in_tools),
        compact_json(&row.gateway_mcp_tools),
    ) {
        (Some(provider), Some(built_in), Some(gateway)) => {
            let mut line = joined(provider.as_str(), " built-in=");
            line.push_str(built_in.as_str());
            line.push_str(" gateway-mcp=");
            line.push_str(gateway.as_str());
            Some(line)
        },
        _ => None,
    }
}

/// The plan to trust a hook.
pub open spec fn hook_trust_plan_view(
    hook: Json,
    expectation: Json,
    plan_fingerprint: Seq<char>,
) -> JsonView {
    JsonView::Object(
        seq![
            ("status"@, JsonView::Text("planned"@)),
            ("hook"@, hook@),
            ("expectation"@, expectation@),
            ("planFingerprint"@, JsonView::Text(plan_fingerprint)),
            ("activation"@, JsonView::Text("next-session-only"@)),
            ("humanApprovalRequired"@, JsonView::Bool(true)),
        ],
    )
}

/// The plan to trust a hook: each part under its own name, and nothing else.
pub proof fn law_shown_hook_trust_plan(
    hook: Json,
    expectation: Json,
    plan_fingerprint: Seq<char>,
)
    ensures
        ({
            let shown = hook_trust_plan_view(hook, expectation, plan_fingerprint);
            &&& shows_only(shown, 6)
            &&& shows(shown, "status"@, JsonView::Text("planned"@))
            &&& shows(shown, "hook"@, hook@)
            &&& shows(shown, "expectation"@, expectation@)
            &&& shows(shown, "planFingerprint"@, JsonView::Text(plan_fingerprint))
            &&& shows(shown, "activation"@, JsonView::Text("next-session-only"@))
            &&& shows(shown, "humanApprovalRequired"@, JsonView::Bool(true))
        }),
{
    let shown = hook_trust_plan_view(hook, expectation, plan_fingerprint);
    lemma_shows_all(shown);
    let at = shown->Object_0;
    assert(at[0] == at[0] && at[1] == at[1] && at[2] == at[2] && at[3] == at[3] && at[4] ==
        at[4] && at[5] == at[5]);
}

/// The plan to trust a hook.
pub fn hook_trust_plan(hook: &Json, expectation: &Json, plan_fingerprint: &str) -> (value: Json)
    ensures
        value@ == hook_trust_plan_view(*hook, *expectation, plan_fingerprint@),
{
    let mut out = ObjectBuilder::new();
    out.put_text("status", "planned");
    out.put("hook", hook.duplicate());
    out.put("expectation", expectation.duplicate());
    out.put_text("planFingerprint", plan_fingerprint);
    out.put_text("activation", "next-session-only");
    out.put("humanApprovalRequired", Json::Bool(true));
    assert(out@ =~= hook_trust_plan_view(*hook, *expectation, plan_fingerprint@)->Object_0);
    out.finish()
}

/// The line for the plan to trust a hook.
pub open spec fn hook_trust_plan_line_text(
    id: Seq<char>,
    plan_fingerprint: Seq<char>,
) -> Seq<char> {
    "planned hook trust "@ + id + " fingerprint="@ + plan_fingerprint
        + " activation=next-session-only"@
}

/// The line for the plan to trust a hook: each part stands with its label.
pub proof fn law_line_of_hook_trust_plan(id: Seq<char>, plan_fingerprint: Seq<char>)
    ensures
        ({
            let line = hook_trust_plan_line_text(id, plan_fingerprint);
            &&& occurs(line, "planned hook trust "@ + id)
            &&& occurs(line, " fingerprint="@ + plan_fingerprint)
            &&& occurs(line, plan_fingerprint + " activation=next-session-only"@)
        }),
{
    broadcast use group_occurs;

}

/// The line for the plan to trust a hook.
pub fn hook_trust_plan_line(id: &str, plan_fingerprint: &str) -> (line: String)
    ensures
        line@ == hook_trust_plan_line_text(id@, plan_fingerprint@),
{
    let mut line = String::new();
    line.push_str("planned hook trust ");
    line.push_str(id);
    line.push_str(" fingerprint=");
    line.push_str(plan_fingerprint);
    line.push_str(" activation=next-session-only");
    assert(line@ =~= hook_trust_plan_line_text(id@, plan_fingerprint@));
    line
}

/// The line for a hook that is trusted.
pub fn hook_trust_line() -> (line: &'static str)
    ensures
        line@ == "hook trusted for profile; activation=next-session-only"@,
{
    "hook trusted for profile; activation=next-session-only"
}

/// A hook that is trusted.
pub open spec fn hook_trust_result_view(trust: Json) -> JsonView {
    JsonView::Object(
        seq![
            ("status"@, JsonView::Text("trusted"@)),
            ("trust"@, trust@),
            ("activation"@, JsonView::Text("next-session-only"@)),
        ],
    )
}

/// A hook that is trusted: each part under its own name, and nothing else.
pub proof fn law_shown_hook_trust_result(trust: Json)
    ensures
        ({
            let shown = hook_trust_result_view(trust);
            &&& shows_only(shown, 3)
            &&& shows(shown, "status"@, JsonView::Text("trusted"@))
            &&& shows(shown, "trust"@, trust@)
            &&& shows(shown, "activation"@, JsonView::Text("next-session-only"@))
        }),
{
    let shown = hook_trust_result_view(trust);
    lemma_shows_all(shown);
    let at = shown->Object_0;
    assert(at[0] == at[0] && at[1] == at[1] && at[2] == at[2]);
}

/// A hook that is trusted.
pub fn hook_trust_result(trust: &Json) -> (value: Json)
    ensures
        value@ == hook_trust_result_view(*trust),
{
    let mut out = ObjectBuilder::new();
    out.put_text("status", "trusted");
    out.put("trust", trust.duplicate());
    out.put_text("activation", "next-session-only");
    assert(out@ =~= hook_trust_result_view(*trust)->Object_0);
    out.finish()
}

} // verus!
