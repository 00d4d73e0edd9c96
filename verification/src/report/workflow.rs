//! What the workflow commands print.
use vstd::prelude::*;

use crate::laws::shown::{lemma_shows_all, shows, shows_only};
use crate::laws::texts::group_occurs;
use crate::report::{human_action, human_action_view};
use crate::json::{array, duplicate_items, item_views, Json, JsonView, ObjectBuilder};
use crate::ordering::{entry_views, in_order, sort_entries, EntryView, OrderedEntry};
use crate::text::{decimal_of, occurs, string_views, to_decimal};

verus! {

/// A workflow as it is listed.
pub struct WorkflowListing {
    pub scope: String,
    pub display_name: String,
    pub modes: u64,
    pub value: Json,
}

pub struct WorkflowListingView {
    pub scope: Seq<char>,
    pub display_name: Seq<char>,
    pub modes: u64,
    pub value: JsonView,
}

impl View for WorkflowListing {
    type V = WorkflowListingView;

    open spec fn view(&self) -> WorkflowListingView {
        WorkflowListingView {
            scope: self.scope@,
            display_name: self.display_name@,
            modes: self.modes,
            value: self.value@,
        }
    }
}

/// The workflows as values.
pub open spec fn workflow_list_values(workflows: Seq<EntryView<WorkflowListingView>>) -> Seq<
    JsonView,
> {
    Seq::new(workflows.len(), |i: int| workflows[i].2.value)
}

/// The line for a workflow.
pub open spec fn workflow_list_line(workflow: EntryView<WorkflowListingView>) -> Seq<char> {
    workflow.0 + " "@ + workflow.2.scope + " "@ + workflow.2.display_name + " modes="@ + decimal_of(
        workflow.2.modes as nat,
    )
}

/// The line for a workflow: each part stands with its label.
pub proof fn law_line_of_workflow_list(workflow: EntryView<WorkflowListingView>)
    ensures
        ({
            let line = workflow_list_line(workflow);
            &&& occurs(line, workflow.0)
            &&& occurs(line, workflow.0 + " "@ + workflow.2.scope)
            &&& occurs(line, workflow.2.scope + " "@ + workflow.2.display_name)
            &&& occurs(line, " modes="@ + decimal_of(workflow.2.modes as nat))
        }),
{
    broadcast use group_occurs;

}

/// The lines for workflows.
pub open spec fn workflow_list_lines(workflows: Seq<EntryView<WorkflowListingView>>) -> Seq<
    Seq<char>,
> {
    if workflows.len() == 0 {
        seq!["No workflows."@]
    } else {
        Seq::new(workflows.len(), |i: int| workflow_list_line(workflows[i]))
    }
}

/// Each stands on a line of its own, in order; where there are none, that is
/// said.
pub proof fn law_lines_of_workflow_list(workflows: Seq<EntryView<WorkflowListingView>>)
    ensures
        workflows.len() > 0 ==> workflow_list_lines(workflows).len() == workflows.len(),
        forall|i: int|
            0 <= i < workflows.len() ==> #[trigger] workflow_list_lines(workflows)[i] == workflow_list_line(workflows[i]),
        workflows.len() == 0 ==> workflow_list_lines(workflows) == seq!["No workflows."@],
{
}

/// The value of a list of workflows.
pub open spec fn workflow_list_view(workflows: Seq<EntryView<WorkflowListingView>>) -> JsonView {
    JsonView::Object(
        seq![
            ("status"@, JsonView::Text("ok"@)),
            ("workflows"@, JsonView::Array(workflow_list_values(workflows))),
        ],
    )
}

/// The value of a list of workflows: each part under its own name, and nothing
/// else.
pub proof fn law_shown_workflow_list(workflows: Seq<EntryView<WorkflowListingView>>)
    ensures
        ({
            let shown = workflow_list_view(workflows);
            &&& shows_only(shown, 2)
            &&& shows(shown, "status"@, JsonView::Text("ok"@))
            &&& shows(shown, "workflows"@, JsonView::Array(workflow_list_values(workflows)))
        }),
{
    let shown = workflow_list_view(workflows);
    lemma_shows_all(shown);
    let at = shown->Object_0;
    assert(at[0] == at[0] && at[1] == at[1]);
}

/// Lists workflows by their ids, and those of one id by where they are from.
pub fn list_workflows(workflows: Vec<OrderedEntry<WorkflowListing>>) -> (report: (
    Json,
    Vec<String>,
))
    ensures
        report.0@ == workflow_list_view(in_order(entry_views(workflows@))),
        string_views(report.1@) == workflow_list_lines(in_order(entry_views(workflows@))),
{
    let sorted = sort_entries(workflows);
    let ghost entries = entry_views(sorted@);
    let mut values: Vec<Json> = Vec::new();
    let mut lines: Vec<String> = Vec::new();
    let mut i: usize = 0;
    while i < sorted.len()
        invariant
            i <= sorted@.len(),
            entries == entry_views(sorted@),
            values@.len() == i,
            lines@.len() == i,
            forall|j: int| 0 <= j < i ==> (#[trigger] values@[j])@ == entries[j].2.value,
            forall|j: int| 0 <= j < i ==> (#[trigger] lines@[j])@ == workflow_list_line(entries[j]),
        decreases sorted@.len() - i,
    {
        values.push(sorted[i].value.value.duplicate());
        let mut line = sorted[i].key.clone();
        line.push_str(" ");
        line.push_str(sorted[i].value.scope.as_str());
        line.push_str(" ");
        line.push_str(sorted[i].value.display_name.as_str());
        line.push_str(" modes=");
        line.push_str(to_decimal(sorted[i].value.modes).as_str());
        assert(line@ =~= workflow_list_line(entries[i as int]));
        lines.push(line);
        i = i + 1;
    }
    if sorted.len() == 0 {
        lines.push("No workflows.".to_owned());
    }
    assert(item_views(values@) =~= workflow_list_values(entries));
    assert(string_views(lines@) =~= workflow_list_lines(entries));
    let mut out = ObjectBuilder::new();
    out.put_text("status", "ok");
    out.put("workflows", array(values));
    assert(out@ =~= workflow_list_view(entries)->Object_0);
    (out.finish(), lines)
}

/// One workflow.
pub open spec fn workflow_value_view(workflow: Json) -> JsonView {
    JsonView::Object(
        seq![
            ("status"@, JsonView::Text("ok"@)),
            ("workflow"@, workflow@),
        ],
    )
}

/// One workflow: each part under its own name, and nothing else.
pub proof fn law_shown_workflow(workflow: Json)
    ensures
        ({
            let shown = workflow_value_view(workflow);
            &&& shows_only(shown, 2)
            &&& shows(shown, "status"@, JsonView::Text("ok"@))
            &&& shows(shown, "workflow"@, workflow@)
        }),
{
    let shown = workflow_value_view(workflow);
    lemma_shows_all(shown);
    let at = shown->Object_0;
    assert(at[0] == at[0] && at[1] == at[1]);
}

/// One workflow.
pub fn workflow_value(workflow: &Json) -> (value: Json)
    ensures
        value@ == workflow_value_view(*workflow),
{
    let mut out = ObjectBuilder::new();
    out.put_text("status", "ok");
    out.put("workflow", workflow.duplicate());
    assert(out@ =~= workflow_value_view(*workflow)->Object_0);
    out.finish()
}

/// The lines for one workflow.
pub open spec fn workflow_line_text(
    id: Seq<char>,
    scope: Seq<char>,
    display_name: Seq<char>,
    baseline: Seq<char>,
    entry_mode: Seq<char>,
    modes: u64,
) -> Seq<char> {
    id + " ("@ + scope + ")\n  name: "@ + display_name + "\n  baseline: "@ + baseline
        + "\n  entry: "@ + entry_mode + "\n  modes: "@ + decimal_of(modes as nat)
}

/// The lines for one workflow: each part stands with its label.
pub proof fn law_line_of_workflow(
    id: Seq<char>,
    scope: Seq<char>,
    display_name: Seq<char>,
    baseline: Seq<char>,
    entry_mode: Seq<char>,
    modes: u64,
)
    ensures
        ({
            let line = workflow_line_text(id, scope, display_name, baseline, entry_mode, modes);
            &&& occurs(line, id)
            &&& occurs(line, " ("@ + scope)
            &&& occurs(line, ")\n  name: "@ + display_name)
            &&& occurs(line, "\n  baseline: "@ + baseline)
            &&& occurs(line, "\n  entry: "@ + entry_mode)
            &&& occurs(line, "\n  modes: "@ + decimal_of(modes as nat))
        }),
{
    broadcast use group_occurs;

}

/// The lines for one workflow.
pub fn workflow_line(
    id: &str,
    scope: &str,
    display_name: &str,
    baseline: &str,
    entry_mode: &str,
    modes: u64,
) -> (line: String)
    ensures
        line@ == workflow_line_text(id@, scope@, display_name@, baseline@, entry_mode@, modes),
{
    let mut line = String::new();
    line.push_str(id);
    line.push_str(" (");
    line.push_str(scope);
    line.push_str(")\n  name: ");
    line.push_str(display_name);
    line.push_str("\n  baseline: ");
    line.push_str(baseline);
    line.push_str("\n  entry: ");
    line.push_str(entry_mode);
    line.push_str("\n  modes: ");
    line.push_str(to_decimal(modes).as_str());
    assert(line@ =~= workflow_line_text(id@, scope@, display_name@, baseline@, entry_mode@, modes));
    line
}

/// A workflow that was compiled for a provider.
pub struct ValidRevision {
    pub provider: Json,
    pub digest: String,
    pub capability_count: u64,
    pub system_controls: Json,
    pub baseline_digest: String,
    pub envelope_digest: String,
}

/// What is shown of a workflow that was compiled for a provider.
pub open spec fn valid_revision_view(revision: ValidRevision) -> JsonView {
    JsonView::Object(
        seq![
            ("provider"@, revision.provider@),
            ("workflowRevision"@, JsonView::Text(revision.digest@)),
            ("capabilityCount"@, JsonView::Unsigned(revision.capability_count)),
            ("systemControls"@, revision.system_controls@),
            ("baselineProfileDigest"@, JsonView::Text(revision.baseline_digest@)),
            ("maximumEnvelopeDigest"@, JsonView::Text(revision.envelope_digest@)),
        ],
    )
}

/// What is shown of a workflow that was compiled for a provider: each part
/// under its own name, and nothing else.
pub proof fn law_shown_valid_revision(revision: ValidRevision)
    ensures
        ({
            let shown = valid_revision_view(revision);
            &&& shows_only(shown, 6)
            &&& shows(shown, "provider"@, revision.provider@)
            &&& shows(shown, "workflowRevision"@, JsonView::Text(revision.digest@))
            &&& shows(shown, "capabilityCount"@, JsonView::Unsigned(revision.capability_count))
            &&& shows(shown, "systemControls"@, revision.system_controls@)
            &&& shows(shown, "baselineProfileDigest"@, JsonView::Text(revision.baseline_digest@))
            &&& shows(shown, "maximumEnvelopeDigest"@, JsonView::Text(revision.envelope_digest@))
        }),
{
    let shown = valid_revision_view(revision);
    lemma_shows_all(shown);
    let at = shown->Object_0;
    assert(at[0] == at[0] && at[1] == at[1] && at[2] == at[2] && at[3] == at[3] && at[4] ==
        at[4] && at[5] == at[5]);
}

/// What is shown of a workflow that was compiled for a provider.
pub fn valid_revision(revision: &ValidRevision) -> (value: Json)
    ensures
        value@ == valid_revision_view(*revision),
{
    let mut out = ObjectBuilder::new();
    out.put("provider", revision.provider.duplicate());
    out.put_text("workflowRevision", revision.digest.as_str());
    out.put("capabilityCount", Json::Unsigned(revision.capability_count));
    out.put("systemControls", revision.system_controls.duplicate());
    out.put_text("baselineProfileDigest", revision.baseline_digest.as_str());
    out.put_text("maximumEnvelopeDigest", revision.envelope_digest.as_str());
    assert(out@ =~= valid_revision_view(*revision)->Object_0);
    out.finish()
}

/// What is shown of a workflow that was compiled for providers.
pub open spec fn valid_revisions_views(list: Seq<ValidRevision>) -> Seq<JsonView> {
    Seq::new(list.len(), |i: int| valid_revision_view(list[i]))
}

/// Each of them is shown, in the order in which they stand.
pub proof fn law_each_of_valid_revisions(list: Seq<ValidRevision>)
    ensures
        valid_revisions_views(list).len() == list.len(),
        forall|i: int| 0 <= i < list.len() ==> #[trigger] valid_revisions_views(list)[i] == valid_revision_view(list[i]),
{
}

/// What is shown of a workflow that was compiled for providers.
pub fn valid_revisions(list: &Vec<ValidRevision>) -> (values: Vec<Json>)
    ensures
        item_views(values@) == valid_revisions_views(list@),
{
    let mut values: Vec<Json> = Vec::new();
    let mut i: usize = 0;
    while i < list.len()
        invariant
            i <= list@.len(),
            values@.len() == i,
            forall|j: int| 0 <= j < i ==> (#[trigger] values@[j])@ == valid_revision_view(list@[j]),
        decreases list@.len() - i,
    {
        values.push(valid_revision(&list[i]));
        i = i + 1;
    }
    assert(item_views(values@) =~= valid_revisions_views(list@));
    values
}

/// A workflow that is valid.
pub open spec fn valid_workflow_view(workflow: Json, revisions: Vec<ValidRevision>) -> JsonView {
    JsonView::Object(
        seq![
            ("status"@, JsonView::Text("valid"@)),
            ("workflow"@, workflow@),
            ("revisions"@, JsonView::Array(valid_revisions_views(revisions@))),
        ],
    )
}

/// A workflow that is valid: each part under its own name, and nothing else.
pub proof fn law_shown_valid_workflow(workflow: Json, revisions: Vec<ValidRevision>)
    ensures
        ({
            let shown = valid_workflow_view(workflow, revisions);
            &&& shows_only(shown, 3)
            &&& shows(shown, "status"@, JsonView::Text("valid"@))
            &&& shows(shown, "workflow"@, workflow@)
            &&& shows(shown, "revisions"@, JsonView::Array(valid_revisions_views(revisions@)))
        }),
{
    let shown = valid_workflow_view(workflow, revisions);
    lemma_shows_all(shown);
    let at = shown->Object_0;
    assert(at[0] == at[0] && at[1] == at[1] && at[2] == at[2]);
}

/// A workflow that is valid.
pub fn valid_workflow(workflow: &Json, revisions: &Vec<ValidRevision>) -> (value: Json)
    ensures
        value@ == valid_workflow_view(*workflow, *revisions),
{
    let mut out = ObjectBuilder::new();
    out.put_text("status", "valid");
    out.put("workflow", workflow.duplicate());
    out.put("revisions", array(valid_revisions(revisions)));
    assert(out@ =~= valid_workflow_view(*workflow, *revisions)->Object_0);
    out.finish()
}

/// The line for a workflow that is valid.
pub open spec fn valid_workflow_line_text(
    id: Seq<char>,
    providers: u64,
    entry_mode: Seq<char>,
    modes: u64,
) -> Seq<char> {
    "valid workflow "@ + id + " providers="@ + decimal_of(providers as nat) + " entry="@
        + entry_mode + " modes="@ + decimal_of(modes as nat)
}

/// The line for a workflow that is valid: each part stands with its label.
pub proof fn law_line_of_valid_workflow(
    id: Seq<char>,
    providers: u64,
    entry_mode: Seq<char>,
    modes: u64,
)
    ensures
        ({
            let line = valid_workflow_line_text(id, providers, entry_mode, modes);
            &&& occurs(line, "valid workflow "@ + id)
            &&& occurs(line, " providers="@ + decimal_of(providers as nat))
            &&& occurs(line, " entry="@ + entry_mode)
            &&& occurs(line, " modes="@ + decimal_of(modes as nat))
        }),
{
    broadcast use group_occurs;

}

/// The line for a workflow that is valid.
pub fn valid_workflow_line(id: &str, providers: u64, entry_mode: &str, modes: u64) -> (line: String)
    ensures
        line@ == valid_workflow_line_text(id@, providers, entry_mode@, modes),
{
    let mut line = String::new();
    line.push_str("valid workflow ");
    line.push_str(id);
    line.push_str(" providers=");
    line.push_str(to_decimal(providers).as_str());
    line.push_str(" entry=");
    line.push_str(entry_mode);
    line.push_str(" modes=");
    line.push_str(to_decimal(modes).as_str());
    assert(line@ =~= valid_workflow_line_text(id@, providers, entry_mode@, modes));
    line
}

/// A proposal of a workflow that was compiled.
pub open spec fn compiled_proposal_view(proposal: Json, candidates: Vec<Json>) -> JsonView {
    JsonView::Object(
        seq![
            ("proposal"@, proposal@),
            ("candidates"@, JsonView::Array(item_views(candidates@))),
            (
                "humanAction"@,
                human_action_view(
                    "confirm-workflow-session"@,
                    "Choose this workflow explicitly when launching a session; this proposal never changes active exposure."@,
                ),
            ),
        ],
    )
}

/// A proposal of a workflow that was compiled: each part under its own name,
/// and nothing else.
pub proof fn law_shown_compiled_proposal(proposal: Json, candidates: Vec<Json>)
    ensures
        ({
            let shown = compiled_proposal_view(proposal, candidates);
            &&& shows_only(shown, 3)
            &&& shows(shown, "proposal"@, proposal@)
            &&& shows(shown, "candidates"@, JsonView::Array(item_views(candidates@)))
            &&& shows(
                shown,
                "humanAction"@,
                human_action_view(
                    "confirm-workflow-session"@,
                    "Choose this workflow explicitly when launching a session; this proposal never changes active exposure."@,
                ),
            )
        }),
{
    let shown = compiled_proposal_view(proposal, candidates);
    lemma_shows_all(shown);
    let at = shown->Object_0;
    assert(at[0] == at[0] && at[1] == at[1] && at[2] == at[2]);
}

/// A proposal of a workflow that was compiled.
pub fn compiled_proposal(proposal: &Json, candidates: &Vec<Json>) -> (value: Json)
    ensures
        value@ == compiled_proposal_view(*proposal, *candidates),
{
    let mut out = ObjectBuilder::new();
    out.put("proposal", proposal.duplicate());
    out.put("candidates", array(duplicate_items(candidates)));
    out.put(
        "humanAction",
        human_action(
            "confirm-workflow-session",
            "Choose this workflow explicitly when launching a session; this proposal never changes active exposure.",
        ),
    );
    assert(out@ =~= compiled_proposal_view(*proposal, *candidates)->Object_0);
    out.finish()
}

/// A proposal with its status.
pub open spec fn workflow_proposal_view(status: Seq<char>, proposal: Json) -> JsonView {
    JsonView::Object(
        seq![
            ("status"@, JsonView::Text(status)),
            ("proposal"@, proposal@),
        ],
    )
}

/// A proposal with its status: each part under its own name, and nothing else.
pub proof fn law_shown_workflow_proposal(status: Seq<char>, proposal: Json)
    ensures
        ({
            let shown = workflow_proposal_view(status, proposal);
            &&& shows_only(shown, 2)
            &&& shows(shown, "status"@, JsonView::Text(status))
            &&& shows(shown, "proposal"@, proposal@)
        }),
{
    let shown = workflow_proposal_view(status, proposal);
    lemma_shows_all(shown);
    let at = shown->Object_0;
    assert(at[0] == at[0] && at[1] == at[1]);
}

/// A proposal with its status.
pub fn workflow_proposal(status: &str, proposal: &Json) -> (value: Json)
    ensures
        value@ == workflow_proposal_view(status@, *proposal),
{
    let mut out = ObjectBuilder::new();
    out.put_text("status", status);
    out.put("proposal", proposal.duplicate());
    assert(out@ =~= workflow_proposal_view(status@, *proposal)->Object_0);
    out.finish()
}

/// The line for a proposal.
pub open spec fn workflow_proposal_line_text(status: Seq<char>) -> Seq<char> {
    "workflow proposal "@ + status + "; confirmation required"@
}

/// The line for a proposal: each part stands with its label.
pub proof fn law_line_of_workflow_proposal(status: Seq<char>)
    ensures
        ({
            let line = workflow_proposal_line_text(status);
            &&& occurs(line, "workflow proposal "@ + status)
            &&& occurs(line, status + "; confirmation required"@)
        }),
{
    broadcast use group_occurs;

}

/// The line for a proposal.
pub fn workflow_proposal_line(status: &str) -> (line: String)
    ensures
        line@ == workflow_proposal_line_text(status@),
{
    let mut line = String::new();
    line.push_str("workflow proposal ");
    line.push_str(status);
    line.push_str("; confirmation required");
    assert(line@ =~= workflow_proposal_line_text(status@));
    line
}

/// The plan of a change to a workflow.
pub open spec fn workflow_change_plan_view(operation: Json, plan: Json) -> JsonView {
    JsonView::Object(
        seq![
            ("status"@, JsonView::Text("planned"@)),
            ("operation"@, operation@),
            ("plan"@, plan@),
        ],
    )
}

/// The plan of a change to a workflow: each part under its own name, and
/// nothing else.
pub proof fn law_shown_workflow_change_plan(operation: Json, plan: Json)
    ensures
        ({
            let shown = workflow_change_plan_view(operation, plan);
            &&& shows_only(shown, 3)
            &&& shows(shown, "status"@, JsonView::Text("planned"@))
            &&& shows(shown, "operation"@, operation@)
            &&& shows(shown, "plan"@, plan@)
        }),
{
    let shown = workflow_change_plan_view(operation, plan);
    lemma_shows_all(shown);
    let at = shown->Object_0;
    assert(at[0] == at[0] && at[1] == at[1] && at[2] == at[2]);
}

/// The plan of a change to a workflow.
pub fn workflow_change_plan(operation: &Json, plan: &Json) -> (value: Json)
    ensures
        value@ == workflow_change_plan_view(*operation, *plan),
{
    let mut out = ObjectBuilder::new();
    out.put_text("status", "planned");
    out.put("operation", operation.duplicate());
    out.put("plan", plan.duplicate());
    assert(out@ =~= workflow_change_plan_view(*operation, *plan)->Object_0);
    out.finish()
}

/// The line for the plan of a change to a workflow.
pub open spec fn workflow_change_plan_line_text(
    workflow_id: Seq<char>,
    action: Seq<char>,
    plan_fingerprint: Seq<char>,
) -> Seq<char> {
    "workflow "@ + workflow_id + " planned action="@ + action + " fingerprint="@ + plan_fingerprint
}

/// The line for the plan of a change to a workflow: each part stands with its
/// label.
pub proof fn law_line_of_workflow_change_plan(
    workflow_id: Seq<char>,
    action: Seq<char>,
    plan_fingerprint: Seq<char>,
)
    ensures
        ({
            let line = workflow_change_plan_line_text(workflow_id, action, plan_fingerprint);
            &&& occurs(line, "workflow "@ + workflow_id)
            &&& occurs(line, " planned action="@ + action)
            &&& occurs(line, " fingerprint="@ + plan_fingerprint)
        }),
{
    broadcast use group_occurs;

}

/// The line for the plan of a change to a workflow.
pub fn workflow_change_plan_line(
    workflow_id: &str,
    action: &str,
    plan_fingerprint: &str,
) -> (line: String)
    ensures
        line@ == workflow_change_plan_line_text(workflow_id@, action@, plan_fingerprint@),
{
    let mut line = String::new();
    line.push_str("workflow ");
    line.push_str(workflow_id);
    line.push_str(" planned action=");
    line.push_str(action);
    line.push_str(" fingerprint=");
    line.push_str(plan_fingerprint);
    assert(line@ =~= workflow_change_plan_line_text(workflow_id@, action@, plan_fingerprint@));
    line
}

/// What an operation tells of a change to a workflow.
pub open spec fn workflow_change_detail_view(result: Json, decision_digest: Seq<char>) -> JsonView {
    JsonView::Object(
        seq![
            ("result"@, result@),
            ("decisionDigest"@, JsonView::Text(decision_digest)),
        ],
    )
}

/// What an operation tells of a change to a workflow: each part under its own
/// name, and nothing else.
pub proof fn law_shown_workflow_change_detail(result: Json, decision_digest: Seq<char>)
    ensures
        ({
            let shown = workflow_change_detail_view(result, decision_digest);
            &&& shows_only(shown, 2)
            &&& shows(shown, "result"@, result@)
            &&& shows(shown, "decisionDigest"@, JsonView::Text(decision_digest))
        }),
{
    let shown = workflow_change_detail_view(result, decision_digest);
    lemma_shows_all(shown);
    let at = shown->Object_0;
    assert(at[0] == at[0] && at[1] == at[1]);
}

/// What an operation tells of a change to a workflow.
pub fn workflow_change_detail(result: &Json, decision_digest: &str) -> (value: Json)
    ensures
        value@ == workflow_change_detail_view(*result, decision_digest@),
{
    let mut out = ObjectBuilder::new();
    out.put("result", result.duplicate());
    out.put_text("decisionDigest", decision_digest);
    assert(out@ =~= workflow_change_detail_view(*result, decision_digest@)->Object_0);
    out.finish()
}

/// A workflow that was changed.
pub open spec fn workflow_change_result_view(
    operation: Json,
    plan_fingerprint: Seq<char>,
    result: Json,
) -> JsonView {
    JsonView::Object(
        seq![
            ("status"@, JsonView::Text("applied"@)),
            ("operation"@, operation@),
            ("planFingerprint"@, JsonView::Text(plan_fingerprint)),
            ("result"@, result@),
        ],
    )
}

/// A workflow that was changed: each part under its own name, and nothing else.
pub proof fn law_shown_workflow_change_result(
    operation: Json,
    plan_fingerprint: Seq<char>,
    result: Json,
)
    ensures
        ({
            let shown = workflow_change_result_view(operation, plan_fingerprint, result);
            &&& shows_only(shown, 4)
            &&& shows(shown, "status"@, JsonView::Text("applied"@))
            &&& shows(shown, "operation"@, operation@)
            &&& shows(shown, "planFingerprint"@, JsonView::Text(plan_fingerprint))
            &&& shows(shown, "result"@, result@)
        }),
{
    let shown = workflow_change_result_view(operation, plan_fingerprint, result);
    lemma_shows_all(shown);
    let at = shown->Object_0;
    assert(at[0] == at[0] && at[1] == at[1] && at[2] == at[2] && at[3] == at[3]);
}

/// A workflow that was changed.
pub fn workflow_change_result(
    operation: &Json,
    plan_fingerprint: &str,
    result: &Json,
) -> (value: Json)
    ensures
        value@ == workflow_change_result_view(*operation, plan_fingerprint@, *result),
{
    let mut out = ObjectBuilder::new();
    out.put_text("status", "applied");
    out.put("operation", operation.duplicate());
    out.put_text("planFingerprint", plan_fingerprint);
    out.put("result", result.duplicate());
    assert(out@ =~= workflow_change_result_view(*operation, plan_fingerprint@, *result)->Object_0);
    out.finish()
}

/// The line for a workflow that was changed.
pub open spec fn workflow_change_result_line_text(workflow_id: Seq<char>) -> Seq<char> {
    "workflow "@ + workflow_id + " applied; activation=next-session-only"@
}

/// The line for a workflow that was changed: each part stands with its label.
pub proof fn law_line_of_workflow_change_result(workflow_id: Seq<char>)
    ensures
        ({
            let line = workflow_change_result_line_text(workflow_id);
            &&& occurs(line, "workflow "@ + workflow_id)
            &&& occurs(line, workflow_id + " applied; activation=next-session-only"@)
        }),
{
    broadcast use group_occurs;

}

/// The line for a workflow that was changed.
pub fn workflow_change_result_line(workflow_id: &str) -> (line: String)
    ensures
        line@ == workflow_change_result_line_text(workflow_id@),
{
    let mut line = String::new();
    line.push_str("workflow ");
    line.push_str(workflow_id);
    line.push_str(" applied; activation=next-session-only");
    assert(line@ =~= workflow_change_result_line_text(workflow_id@));
    line
}

} // verus!
