//! What the commands over many targets print.
use vstd::prelude::*;

use crate::json::{compact_json, compact_text};
use crate::commands::toggle::{lifecycle_name, lifecycle_text, ProviderReachLifecycle};
use crate::json::{field, text, text_field, text_in, Json, JsonView, ObjectBuilder};
use crate::laws::shown::{lemma_shows_all, shows, shows_only};
use crate::text::{joined, optional, string_views};

verus! {

/// A plan over many targets.
pub struct BulkPlan {
    pub lifecycle: ProviderReachLifecycle,
    pub operation_id: String,
    pub plan_fingerprint: String,
    pub provider_reach: Json,
    pub provider_coverage: Json,
    pub acknowledgement: Json,
    pub lifecycle_value: Json,
    pub selector: Json,
    pub matched: Json,
    pub included: Json,
    pub blocked: Json,
}

/// What is shown of a plan without a handoff.
pub open spec fn bulk_plan_view(plan: BulkPlan) -> JsonView {
    JsonView::Object(
        seq![
            ("statusVersion"@, JsonView::Unsigned(2)),
            ("status"@, JsonView::Text(lifecycle_text(plan.lifecycle))),
            ("operationId"@, JsonView::Text(plan.operation_id@)),
            ("planFingerprint"@, JsonView::Text(plan.plan_fingerprint@)),
            ("providerReach"@, plan.provider_reach@),
            ("providerCoverage"@, plan.provider_coverage@),
            ("acknowledgement"@, plan.acknowledgement@),
            ("lifecycle"@, plan.lifecycle_value@),
            ("selector"@, plan.selector@),
            ("matched"@, plan.matched@),
            ("included"@, plan.included@),
            ("blocked"@, plan.blocked@),
        ],
    )
}

/// What is shown of a plan without a handoff: each part under its own name, and
/// nothing else.
pub proof fn law_shown_bulk_plan(plan: BulkPlan)
    ensures
        ({
            let shown = bulk_plan_view(plan);
            &&& shows_only(shown, 12)
            &&& shows(shown, "statusVersion"@, JsonView::Unsigned(2))
            &&& shows(shown, "status"@, JsonView::Text(lifecycle_text(plan.lifecycle)))
            &&& shows(shown, "operationId"@, JsonView::Text(plan.operation_id@))
            &&& shows(shown, "planFingerprint"@, JsonView::Text(plan.plan_fingerprint@))
            &&& shows(shown, "providerReach"@, plan.provider_reach@)
            &&& shows(shown, "providerCoverage"@, plan.provider_coverage@)
            &&& shows(shown, "acknowledgement"@, plan.acknowledgement@)
            &&& shows(shown, "lifecycle"@, plan.lifecycle_value@)
            &&& shows(shown, "selector"@, plan.selector@)
            &&& shows(shown, "matched"@, plan.matched@)
            &&& shows(shown, "included"@, plan.included@)
            &&& shows(shown, "blocked"@, plan.blocked@)
        }),
{
    let shown = bulk_plan_view(plan);
    lemma_shows_all(shown);
    let at = shown->Object_0;
    assert(at[0] == at[0] && at[1] == at[1] && at[2] == at[2] && at[3] == at[3] && at[4] ==
        at[4] && at[5] == at[5] && at[6] == at[6] && at[7] == at[7] && at[8] == at[8] && at[9]
        == at[9] && at[10] == at[10] && at[11] == at[11]);
}

/// What is shown of a plan without a handoff.
pub fn bulk_plan(plan: &BulkPlan) -> (value: Json)
    ensures
        value@ == bulk_plan_view(*plan),
{
    let mut out = ObjectBuilder::new();
    out.put("statusVersion", Json::Unsigned(2));
    out.put("status", text(lifecycle_name(plan.lifecycle)));
    out.put_text("operationId", plan.operation_id.as_str());
    out.put_text("planFingerprint", plan.plan_fingerprint.as_str());
    out.put("providerReach", plan.provider_reach.duplicate());
    out.put("providerCoverage", plan.provider_coverage.duplicate());
    out.put("acknowledgement", plan.acknowledgement.duplicate());
    out.put("lifecycle", plan.lifecycle_value.duplicate());
    out.put("selector", plan.selector.duplicate());
    out.put("matched", plan.matched.duplicate());
    out.put("included", plan.included.duplicate());
    out.put("blocked", plan.blocked.duplicate());
    assert(out@ =~= bulk_plan_view(*plan)->Object_0);
    out.finish()
}

/// What is shown of a plan with its handoff.
pub open spec fn sealed_bulk_plan_view(plan: BulkPlan, handoff: Json) -> JsonView {
    JsonView::Object(
        seq![
            ("statusVersion"@, JsonView::Unsigned(2)),
            ("status"@, JsonView::Text(lifecycle_text(plan.lifecycle))),
            ("operationId"@, JsonView::Text(plan.operation_id@)),
            ("planFingerprint"@, JsonView::Text(plan.plan_fingerprint@)),
            ("providerReach"@, plan.provider_reach@),
            ("providerCoverage"@, plan.provider_coverage@),
            ("acknowledgement"@, plan.acknowledgement@),
            ("lifecycle"@, plan.lifecycle_value@),
            ("selector"@, plan.selector@),
            ("matched"@, plan.matched@),
            ("included"@, plan.included@),
            ("blocked"@, plan.blocked@),
            ("handoff"@, handoff@),
        ],
    )
}

/// What is shown of a plan with its handoff: each part under its own name, and
/// nothing else.
pub proof fn law_shown_sealed_bulk_plan(plan: BulkPlan, handoff: Json)
    ensures
        ({
            let shown = sealed_bulk_plan_view(plan, handoff);
            &&& shows_only(shown, 13)
            &&& shows(shown, "statusVersion"@, JsonView::Unsigned(2))
            &&& shows(shown, "status"@, JsonView::Text(lifecycle_text(plan.lifecycle)))
            &&& shows(shown, "operationId"@, JsonView::Text(plan.operation_id@))
            &&& shows(shown, "planFingerprint"@, JsonView::Text(plan.plan_fingerprint@))
            &&& shows(shown, "providerReach"@, plan.provider_reach@)
            &&& shows(shown, "providerCoverage"@, plan.provider_coverage@)
            &&& shows(shown, "acknowledgement"@, plan.acknowledgement@)
            &&& shows(shown, "lifecycle"@, plan.lifecycle_value@)
            &&& shows(shown, "selector"@, plan.selector@)
            &&& shows(shown, "matched"@, plan.matched@)
            &&& shows(shown, "included"@, plan.included@)
            &&& shows(shown, "blocked"@, plan.blocked@)
            &&& shows(shown, "handoff"@, handoff@)
        }),
{
    let shown = sealed_bulk_plan_view(plan, handoff);
    lemma_shows_all(shown);
    let at = shown->Object_0;
    assert(at[0] == at[0] && at[1] == at[1] && at[2] == at[2] && at[3] == at[3] && at[4] ==
        at[4] && at[5] == at[5] && at[6] == at[6] && at[7] == at[7] && at[8] == at[8] && at[9]
        == at[9] && at[10] == at[10] && at[11] == at[11] && at[12] == at[12]);
}

/// What is shown of a plan with its handoff.
pub fn sealed_bulk_plan(plan: &BulkPlan, handoff: &Json) -> (value: Json)
    ensures
        value@ == sealed_bulk_plan_view(*plan, *handoff),
{
    let mut out = ObjectBuilder::new();
    out.put("statusVersion", Json::Unsigned(2));
    out.put("status", text(lifecycle_name(plan.lifecycle)));
    out.put_text("operationId", plan.operation_id.as_str());
    out.put_text("planFingerprint", plan.plan_fingerprint.as_str());
    out.put("providerReach", plan.provider_reach.duplicate());
    out.put("providerCoverage", plan.provider_coverage.duplicate());
    out.put("acknowledgement", plan.acknowledgement.duplicate());
    out.put("lifecycle", plan.lifecycle_value.duplicate());
    out.put("selector", plan.selector.duplicate());
    out.put("matched", plan.matched.duplicate());
    out.put("included", plan.included.duplicate());
    out.put("blocked", plan.blocked.duplicate());
    out.put("handoff", handoff.duplicate());
    assert(out@ =~= sealed_bulk_plan_view(*plan, *handoff)->Object_0);
    out.finish()
}

/// What came of a plan over many targets.
pub struct BulkResult {
    pub lifecycle: ProviderReachLifecycle,
    pub operation_id: String,
    pub plan_fingerprint: String,
    pub provider_reach: Json,
    pub provider_coverage: Json,
    pub lifecycle_value: Json,
    pub items: Json,
}

/// What is shown of a plan that was carried out.
pub open spec fn bulk_result_view(result: BulkResult) -> JsonView {
    JsonView::Object(
        seq![
            ("statusVersion"@, JsonView::Unsigned(2)),
            ("status"@, JsonView::Text(lifecycle_text(result.lifecycle))),
            ("operationId"@, JsonView::Text(result.operation_id@)),
            ("planFingerprint"@, JsonView::Text(result.plan_fingerprint@)),
            ("providerReach"@, result.provider_reach@),
            ("providerCoverage"@, result.provider_coverage@),
            ("lifecycle"@, result.lifecycle_value@),
            ("items"@, result.items@),
        ],
    )
}

/// What is shown of a plan that was carried out: each part under its own name,
/// and nothing else.
pub proof fn law_shown_bulk_result(result: BulkResult)
    ensures
        ({
            let shown = bulk_result_view(result);
            &&& shows_only(shown, 8)
            &&& shows(shown, "statusVersion"@, JsonView::Unsigned(2))
            &&& shows(shown, "status"@, JsonView::Text(lifecycle_text(result.lifecycle)))
            &&& shows(shown, "operationId"@, JsonView::Text(result.operation_id@))
            &&& shows(shown, "planFingerprint"@, JsonView::Text(result.plan_fingerprint@))
            &&& shows(shown, "providerReach"@, result.provider_reach@)
            &&& shows(shown, "providerCoverage"@, result.provider_coverage@)
            &&& shows(shown, "lifecycle"@, result.lifecycle_value@)
            &&& shows(shown, "items"@, result.items@)
        }),
{
    let shown = bulk_result_view(result);
    lemma_shows_all(shown);
    let at = shown->Object_0;
    assert(at[0] == at[0] && at[1] == at[1] && at[2] == at[2] && at[3] == at[3] && at[4] ==
        at[4] && at[5] == at[5] && at[6] == at[6] && at[7] == at[7]);
}

/// What is shown of a plan that was carried out.
pub fn bulk_result(result: &BulkResult) -> (value: Json)
    ensures
        value@ == bulk_result_view(*result),
{
    let mut out = ObjectBuilder::new();
    out.put("statusVersion", Json::Unsigned(2));
    out.put("status", text(lifecycle_name(result.lifecycle)));
    out.put_text("operationId", result.operation_id.as_str());
    out.put_text("planFingerprint", result.plan_fingerprint.as_str());
    out.put("providerReach", result.provider_reach.duplicate());
    out.put("providerCoverage", result.provider_coverage.duplicate());
    out.put("lifecycle", result.lifecycle_value.duplicate());
    out.put("items", result.items.duplicate());
    assert(out@ =~= bulk_result_view(*result)->Object_0);
    out.finish()
}

/// The result with which an operation ended: the reach and the coverage that it
/// had in the end, and all that is shown of it.
pub struct BulkOutcome {
    pub provider_reach: Json,
    pub provider_coverage: Json,
    pub value: Json,
}

/// An operation over many targets, as it was recorded: what was planned, and
/// the result once it has ended.
pub struct BulkOperation {
    pub lifecycle: ProviderReachLifecycle,
    pub operation_id: String,
    pub plan_fingerprint: String,
    pub provider_reach: Json,
    pub provider_coverage: Json,
    pub acknowledgement: Json,
    pub lifecycle_value: Json,
    pub result: Option<BulkOutcome>,
}

/// The reach of an operation: that of its result, or the planned one.
pub open spec fn recorded_reach(operation: BulkOperation) -> JsonView {
    match operation.result {
        Some(result) => result.provider_reach@,
        None => operation.provider_reach@,
    }
}

/// The coverage of an operation: that of its result, or the planned one.
pub open spec fn recorded_coverage(operation: BulkOperation) -> JsonView {
    match operation.result {
        Some(result) => result.provider_coverage@,
        None => operation.provider_coverage@,
    }
}

/// The result of an operation, or that there is none.
pub open spec fn recorded_result(operation: BulkOperation) -> JsonView {
    match operation.result {
        Some(result) => result.value@,
        None => JsonView::Null,
    }
}

/// What is shown of an operation that was recorded. What its result says goes
/// before what was planned.
pub open spec fn bulk_status_view(operation: BulkOperation) -> JsonView {
    JsonView::Object(
        seq![
            ("statusVersion"@, JsonView::Unsigned(2)),
            ("status"@, JsonView::Text(lifecycle_text(operation.lifecycle))),
            ("operationId"@, JsonView::Text(operation.operation_id@)),
            ("planFingerprint"@, JsonView::Text(operation.plan_fingerprint@)),
            ("providerReach"@, recorded_reach(operation)),
            ("providerCoverage"@, recorded_coverage(operation)),
            ("acknowledgement"@, operation.acknowledgement@),
            ("lifecycle"@, operation.lifecycle_value@),
            ("result"@, recorded_result(operation)),
        ],
    )
}

/// What is shown of an operation that was recorded. What its result says goes
/// before what was planned: each part under its own name, and nothing else.
pub proof fn law_shown_bulk_status(operation: BulkOperation)
    ensures
        ({
            let shown = bulk_status_view(operation);
            &&& shows_only(shown, 9)
            &&& shows(shown, "statusVersion"@, JsonView::Unsigned(2))
            &&& shows(shown, "status"@, JsonView::Text(lifecycle_text(operation.lifecycle)))
            &&& shows(shown, "operationId"@, JsonView::Text(operation.operation_id@))
            &&& shows(shown, "planFingerprint"@, JsonView::Text(operation.plan_fingerprint@))
            &&& shows(shown, "providerReach"@, recorded_reach(operation))
            &&& shows(shown, "providerCoverage"@, recorded_coverage(operation))
            &&& shows(shown, "acknowledgement"@, operation.acknowledgement@)
            &&& shows(shown, "lifecycle"@, operation.lifecycle_value@)
            &&& shows(shown, "result"@, recorded_result(operation))
        }),
{
    let shown = bulk_status_view(operation);
    lemma_shows_all(shown);
    let at = shown->Object_0;
    assert(at[0] == at[0] && at[1] == at[1] && at[2] == at[2] && at[3] == at[3] && at[4] ==
        at[4] && at[5] == at[5] && at[6] == at[6] && at[7] == at[7] && at[8] == at[8]);
}

/// What is shown of an operation that was recorded.
pub fn bulk_status(operation: &BulkOperation) -> (value: Json)
    ensures
        value@ == bulk_status_view(*operation),
{
    let mut out = ObjectBuilder::new();
    out.put("statusVersion", Json::Unsigned(2));
    out.put("status", text(lifecycle_name(operation.lifecycle)));
    out.put_text("operationId", operation.operation_id.as_str());
    out.put_text("planFingerprint", operation.plan_fingerprint.as_str());
    let (reach, coverage, result) = match &operation.result {
        Some(result) => (
            result.provider_reach.duplicate(),
            result.provider_coverage.duplicate(),
            result.value.duplicate(),
        ),
        None => (
            operation.provider_reach.duplicate(),
            operation.provider_coverage.duplicate(),
            Json::Null,
        ),
    };
    out.put("providerReach", reach);
    out.put("providerCoverage", coverage);
    out.put("acknowledgement", operation.acknowledgement.duplicate());
    out.put("lifecycle", operation.lifecycle_value.duplicate());
    out.put("result", result);
    assert(out@ =~= bulk_status_view(*operation)->Object_0);
    out.finish()
}

/// The commands over many targets that show something.
#[derive(Debug, Clone, Copy, PartialEq, Eq, Structural)]
pub enum BulkCommand {
    Plan,
    Apply,
    Status,
}

/// The title over what a command shows.
pub open spec fn bulk_title(command: BulkCommand) -> Seq<char> {
    match command {
        BulkCommand::Plan => "bulk plan"@,
        BulkCommand::Apply => "bulk apply"@,
        BulkCommand::Status => "bulk status"@,
    }
}

impl BulkCommand {
    /// The title over what a command shows.
    pub fn title(self) -> (title: &'static str)
        ensures
            title@ == bulk_title(self),
    {
        match self {
            BulkCommand::Plan => "bulk plan",
            BulkCommand::Apply => "bulk apply",
            BulkCommand::Status => "bulk status",
        }
    }
}

/// The text of a member, or that it is unknown.
pub open spec fn known(value: JsonView, key: Seq<char>) -> Seq<char> {
    match text_in(field(value, key)) {
        Some(text) => text,
        None => "unknown"@,
    }
}

/// The text of a member, or that it is unknown.
pub fn known_text<'a>(value: &'a Json, key: &str) -> (text: &'a str)
    ensures
        text@ == known(value@, key@),
{
    match text_field(value, key) {
        Some(text) => text,
        None => "unknown",
    }
}

/// A line with a member of a value, where it is a text.
pub open spec fn member_line(value: JsonView, key: Seq<char>) -> Seq<Seq<char>> {
    match text_in(field(value, key)) {
        Some(text) => seq![key + ": "@ + text],
        None => seq![],
    }
}

/// The lines for a value with a title, but for the last.
pub open spec fn value_lines(
    value: JsonView,
    title: Seq<char>,
    reach: Seq<char>,
) -> Seq<Seq<char>> {
    seq![title + ": "@ + known(value, "status"@)] + member_line(value, "operationId"@)
        + member_line(value, "planFingerprint"@) + seq!["providerReach: "@ + reach]
}

/// Adds a line with a member of a value, where it is a text.
pub fn push_member_line(lines: &mut Vec<String>, value: &Json, key: &str)
    ensures
        string_views(final(lines)@) == string_views(old(lines)@) + member_line(value@, key@),
{
    let ghost before = string_views(lines@);
    match text_field(value, key) {
        Some(text) => {
            let mut line = joined(key, ": ");
            line.push_str(text);
            lines.push(line);
            assert(string_views(lines@) =~= before.push(key@ + ": "@ + text@));
        },
        None => {
            assert(string_views(lines@) =~= before + seq![]);
        },
    }
}

/// The reach in a value as compact JSON; one that is missing is null.
pub open spec fn shown_reach(value: JsonView) -> Option<Seq<char>> {
    compact_text(
        match field(value, "providerReach"@) {
            Some(reach) => reach,
            None => JsonView::Null,
        },
    )
}

/// The reach in a value as compact JSON.
pub fn reach_text(value: &Json) -> (text: Option<String>)
    ensures
        optional(text) == shown_reach(value@),
{
    match value.get("providerReach") {
        Some(reach) => compact_json(reach),
        None => compact_json(&Json::Null),
    }
}

/// The lines for people: what came of the command, its operation, its plan, and
/// the reach as compact JSON.
pub fn print_value(value: &Json, title: &str, reach: &str) -> (lines: Vec<String>)
    ensures
        string_views(lines@) == value_lines(value@, title@, reach@),
{
    let mut lines: Vec<String> = Vec::new();
    let mut first = joined(title, ": ");
    first.push_str(known_text(value, "status"));
    lines.push(first);
    assert(string_views(lines@) =~= seq![title@ + ": "@ + known(value@, "status"@)]);
    push_member_line(&mut lines, value, "operationId");
    push_member_line(&mut lines, value, "planFingerprint");
    let ghost before = string_views(lines@);
    lines.push(joined("providerReach: ", reach));
    assert(string_views(lines@) =~= before.push("providerReach: "@ + reach@));
    assert(string_views(lines@) =~= value_lines(value@, title@, reach@));
    lines
}

} // verus!
