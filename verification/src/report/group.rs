//! What the group commands print.
use vstd::prelude::*;

use crate::json::{pretty_json, pretty_text};
use crate::json::{array, duplicate_items, item_views, Json, JsonView, ObjectBuilder};
use crate::laws::shown::{lemma_shows_all, shows, shows_only};
use crate::laws::texts::group_occurs;
use crate::text::{bool_text, bool_word, decimal_of, occurs, optional, string_views, to_decimal};

verus! {

/// A group as it is listed.
pub struct GroupListing {
    pub qualified_name: String,
    pub state: String,
    pub revision: String,
    pub members: u64,
    pub compatible: bool,
}

/// The groups and what is wrong with them.
pub open spec fn group_list_view(groups: Vec<Json>, warnings: Vec<Json>) -> JsonView {
    JsonView::Object(
        seq![
            ("status"@, JsonView::Text("ok"@)),
            ("groups"@, JsonView::Array(item_views(groups@))),
            ("warnings"@, JsonView::Array(item_views(warnings@))),
        ],
    )
}

/// The groups and what is wrong with them: each part under its own name, and
/// nothing else.
pub proof fn law_shown_group_list(groups: Vec<Json>, warnings: Vec<Json>)
    ensures
        ({
            let shown = group_list_view(groups, warnings);
            &&& shows_only(shown, 3)
            &&& shows(shown, "status"@, JsonView::Text("ok"@))
            &&& shows(shown, "groups"@, JsonView::Array(item_views(groups@)))
            &&& shows(shown, "warnings"@, JsonView::Array(item_views(warnings@)))
        }),
{
    let shown = group_list_view(groups, warnings);
    lemma_shows_all(shown);
    let at = shown->Object_0;
    assert(at[0] == at[0] && at[1] == at[1] && at[2] == at[2]);
}

/// The groups and what is wrong with them.
pub fn group_list(groups: &Vec<Json>, warnings: &Vec<Json>) -> (value: Json)
    ensures
        value@ == group_list_view(*groups, *warnings),
{
    let mut out = ObjectBuilder::new();
    out.put_text("status", "ok");
    out.put("groups", array(duplicate_items(groups)));
    out.put("warnings", array(duplicate_items(warnings)));
    assert(out@ =~= group_list_view(*groups, *warnings)->Object_0);
    out.finish()
}

/// The line for a group.
pub open spec fn group_line_text(group: GroupListing) -> Seq<char> {
    group.qualified_name@ + " state="@ + group.state@ + " revision="@ + group.revision@
        + " members="@ + decimal_of(group.members as nat) + " compatible="@
        + bool_word(group.compatible)
}

/// The line for a group: each part stands with its label.
pub proof fn law_line_of_group(group: GroupListing)
    ensures
        ({
            let line = group_line_text(group);
            &&& occurs(line, group.qualified_name@)
            &&& occurs(line, " state="@ + group.state@)
            &&& occurs(line, " revision="@ + group.revision@)
            &&& occurs(line, " members="@ + decimal_of(group.members as nat))
            &&& occurs(line, " compatible="@ + bool_word(group.compatible))
        }),
{
    broadcast use group_occurs;

}

/// The line for a group.
pub fn group_line(group: &GroupListing) -> (line: String)
    ensures
        line@ == group_line_text(*group),
{
    let mut line = String::new();
    line.push_str(group.qualified_name.as_str());
    line.push_str(" state=");
    line.push_str(group.state.as_str());
    line.push_str(" revision=");
    line.push_str(group.revision.as_str());
    line.push_str(" members=");
    line.push_str(to_decimal(group.members).as_str());
    line.push_str(" compatible=");
    line.push_str(bool_text(group.compatible));
    assert(line@ =~= group_line_text(*group));
    line
}

/// The lines for groups.
pub open spec fn group_lines_texts(list: Seq<GroupListing>) -> Seq<Seq<char>> {
    if list.len() == 0 {
        seq!["No inventory groups are defined."@]
    } else {
        Seq::new(list.len(), |i: int| group_line_text(list[i]))
    }
}

/// Each stands on a line of its own, in order; where there are none, that is
/// said.
pub proof fn law_lines_of_group(list: Seq<GroupListing>)
    ensures
        list.len() > 0 ==> group_lines_texts(list).len() == list.len(),
        forall|i: int|
            0 <= i < list.len() ==> #[trigger] group_lines_texts(list)[i] == group_line_text(list[i]),
        list.len() == 0 ==> group_lines_texts(list) == seq!["No inventory groups are defined."@],
{
}

/// The lines for groups.
pub fn group_lines(list: &Vec<GroupListing>) -> (lines: Vec<String>)
    ensures
        string_views(lines@) == group_lines_texts(list@),
{
    let mut lines: Vec<String> = Vec::new();
    if list.len() == 0 {
        lines.push("No inventory groups are defined.".to_owned());
        assert(string_views(lines@) =~= group_lines_texts(list@));
        return lines;
    }
    let mut i: usize = 0;
    while i < list.len()
        invariant
            i <= list@.len(),
            lines@.len() == i,
            forall|j: int| 0 <= j < i ==> (#[trigger] lines@[j])@ == group_line_text(list@[j]),
        decreases list@.len() - i,
    {
        lines.push(group_line(&list[i]));
        i = i + 1;
    }
    assert(string_views(lines@) =~= group_lines_texts(list@));
    lines
}

/// The line for a warning.
pub open spec fn group_warning_line_text(code: Seq<char>, message: Seq<char>) -> Seq<char> {
    "warning: "@ + code + ": "@ + message
}

/// The line for a warning: each part stands with its label.
pub proof fn law_line_of_group_warning(code: Seq<char>, message: Seq<char>)
    ensures
        ({
            let line = group_warning_line_text(code, message);
            &&& occurs(line, "warning: "@ + code)
            &&& occurs(line, ": "@ + message)
        }),
{
    broadcast use group_occurs;

}

/// The line for a warning.
pub fn group_warning_line(code: &str, message: &str) -> (line: String)
    ensures
        line@ == group_warning_line_text(code@, message@),
{
    let mut line = String::new();
    line.push_str("warning: ");
    line.push_str(code);
    line.push_str(": ");
    line.push_str(message);
    assert(line@ =~= group_warning_line_text(code@, message@));
    line
}

/// The line for a change to a definition that is only planned.
pub open spec fn definition_plan_line_text(plan_fingerprint: Seq<char>) -> Seq<char> {
    "planned group definition change fingerprint="@ + plan_fingerprint
}

/// The line for a change to a definition that is only planned: each part stands
/// with its label.
pub proof fn law_line_of_definition_plan(plan_fingerprint: Seq<char>)
    ensures
        ({
            let line = definition_plan_line_text(plan_fingerprint);
            &&& occurs(line, "planned group definition change fingerprint="@ + plan_fingerprint)
        }),
{
    broadcast use group_occurs;

}

/// The line for a change to a definition that is only planned.
pub fn definition_plan_line(plan_fingerprint: &str) -> (line: String)
    ensures
        line@ == definition_plan_line_text(plan_fingerprint@),
{
    let mut line = String::new();
    line.push_str("planned group definition change fingerprint=");
    line.push_str(plan_fingerprint);
    assert(line@ =~= definition_plan_line_text(plan_fingerprint@));
    line
}

/// What a new definition would be.
pub open spec fn create_preview_view(scope: Seq<char>, definition: Json) -> JsonView {
    JsonView::Object(
        seq![
            ("change"@, JsonView::Text("create"@)),
            ("scope"@, JsonView::Text(scope)),
            ("definition"@, definition@),
        ],
    )
}

/// What a new definition would be: each part under its own name, and nothing
/// else.
pub proof fn law_shown_create_preview(scope: Seq<char>, definition: Json)
    ensures
        ({
            let shown = create_preview_view(scope, definition);
            &&& shows_only(shown, 3)
            &&& shows(shown, "change"@, JsonView::Text("create"@))
            &&& shows(shown, "scope"@, JsonView::Text(scope))
            &&& shows(shown, "definition"@, definition@)
        }),
{
    let shown = create_preview_view(scope, definition);
    lemma_shows_all(shown);
    let at = shown->Object_0;
    assert(at[0] == at[0] && at[1] == at[1] && at[2] == at[2]);
}

/// What a new definition would be.
pub fn create_preview(scope: &str, definition: &Json) -> (value: Json)
    ensures
        value@ == create_preview_view(scope@, *definition),
{
    let mut out = ObjectBuilder::new();
    out.put_text("change", "create");
    out.put_text("scope", scope);
    out.put("definition", definition.duplicate());
    assert(out@ =~= create_preview_view(scope@, *definition)->Object_0);
    out.finish()
}

/// What a definition is and would be.
pub open spec fn edit_preview_view(before: Json, after: Json) -> JsonView {
    JsonView::Object(
        seq![
            ("change"@, JsonView::Text("edit"@)),
            ("before"@, before@),
            ("after"@, after@),
        ],
    )
}

/// What a definition is and would be: each part under its own name, and nothing
/// else.
pub proof fn law_shown_edit_preview(before: Json, after: Json)
    ensures
        ({
            let shown = edit_preview_view(before, after);
            &&& shows_only(shown, 3)
            &&& shows(shown, "change"@, JsonView::Text("edit"@))
            &&& shows(shown, "before"@, before@)
            &&& shows(shown, "after"@, after@)
        }),
{
    let shown = edit_preview_view(before, after);
    lemma_shows_all(shown);
    let at = shown->Object_0;
    assert(at[0] == at[0] && at[1] == at[1] && at[2] == at[2]);
}

/// What a definition is and would be.
pub fn edit_preview(before: &Json, after: &Json) -> (value: Json)
    ensures
        value@ == edit_preview_view(*before, *after),
{
    let mut out = ObjectBuilder::new();
    out.put_text("change", "edit");
    out.put("before", before.duplicate());
    out.put("after", after.duplicate());
    assert(out@ =~= edit_preview_view(*before, *after)->Object_0);
    out.finish()
}

/// What a definition is called and would be called.
pub open spec fn rename_preview_view(before: Json, after: Json) -> JsonView {
    JsonView::Object(
        seq![
            ("change"@, JsonView::Text("rename"@)),
            ("before"@, before@),
            ("after"@, after@),
        ],
    )
}

/// What a definition is called and would be called: each part under its own
/// name, and nothing else.
pub proof fn law_shown_rename_preview(before: Json, after: Json)
    ensures
        ({
            let shown = rename_preview_view(before, after);
            &&& shows_only(shown, 3)
            &&& shows(shown, "change"@, JsonView::Text("rename"@))
            &&& shows(shown, "before"@, before@)
            &&& shows(shown, "after"@, after@)
        }),
{
    let shown = rename_preview_view(before, after);
    lemma_shows_all(shown);
    let at = shown->Object_0;
    assert(at[0] == at[0] && at[1] == at[1] && at[2] == at[2]);
}

/// What a definition is called and would be called.
pub fn rename_preview(before: &Json, after: &Json) -> (value: Json)
    ensures
        value@ == rename_preview_view(*before, *after),
{
    let mut out = ObjectBuilder::new();
    out.put_text("change", "rename");
    out.put("before", before.duplicate());
    out.put("after", after.duplicate());
    assert(out@ =~= rename_preview_view(*before, *after)->Object_0);
    out.finish()
}

/// Which definition would go.
pub open spec fn delete_preview_view(before: Json) -> JsonView {
    JsonView::Object(
        seq![
            ("change"@, JsonView::Text("delete"@)),
            ("before"@, before@),
        ],
    )
}

/// Which definition would go: each part under its own name, and nothing else.
pub proof fn law_shown_delete_preview(before: Json)
    ensures
        ({
            let shown = delete_preview_view(before);
            &&& shows_only(shown, 2)
            &&& shows(shown, "change"@, JsonView::Text("delete"@))
            &&& shows(shown, "before"@, before@)
        }),
{
    let shown = delete_preview_view(before);
    lemma_shows_all(shown);
    let at = shown->Object_0;
    assert(at[0] == at[0] && at[1] == at[1]);
}

/// Which definition would go.
pub fn delete_preview(before: &Json) -> (value: Json)
    ensures
        value@ == delete_preview_view(*before),
{
    let mut out = ObjectBuilder::new();
    out.put_text("change", "delete");
    out.put("before", before.duplicate());
    assert(out@ =~= delete_preview_view(*before)->Object_0);
    out.finish()
}

/// Which definition would come back.
pub open spec fn restore_preview_view(history: Json) -> JsonView {
    JsonView::Object(
        seq![
            ("change"@, JsonView::Text("restore-definition"@)),
            ("history"@, history@),
        ],
    )
}

/// Which definition would come back: each part under its own name, and nothing
/// else.
pub proof fn law_shown_restore_preview(history: Json)
    ensures
        ({
            let shown = restore_preview_view(history);
            &&& shows_only(shown, 2)
            &&& shows(shown, "change"@, JsonView::Text("restore-definition"@))
            &&& shows(shown, "history"@, history@)
        }),
{
    let shown = restore_preview_view(history);
    lemma_shows_all(shown);
    let at = shown->Object_0;
    assert(at[0] == at[0] && at[1] == at[1]);
}

/// Which definition would come back.
pub fn restore_preview(history: &Json) -> (value: Json)
    ensures
        value@ == restore_preview_view(*history),
{
    let mut out = ObjectBuilder::new();
    out.put_text("change", "restore-definition");
    out.put("history", history.duplicate());
    assert(out@ =~= restore_preview_view(*history)->Object_0);
    out.finish()
}

/// An approval that was recorded.
pub struct ApprovalArtifact {
    pub operation_id: String,
    pub plan_fingerprint: String,
    pub artifact_id: String,
    pub expires_at: Json,
}

/// What is shown of an approval.
pub open spec fn approval_report_view(artifact: ApprovalArtifact) -> JsonView {
    JsonView::Object(
        seq![
            ("operationId"@, JsonView::Text(artifact.operation_id@)),
            ("planFingerprint"@, JsonView::Text(artifact.plan_fingerprint@)),
            ("approvalArtifact"@, JsonView::Text(artifact.artifact_id@)),
            ("expiresAtUnix"@, artifact.expires_at@),
        ],
    )
}

/// What is shown of an approval: each part under its own name, and nothing
/// else.
pub proof fn law_shown_approval_report(artifact: ApprovalArtifact)
    ensures
        ({
            let shown = approval_report_view(artifact);
            &&& shows_only(shown, 4)
            &&& shows(shown, "operationId"@, JsonView::Text(artifact.operation_id@))
            &&& shows(shown, "planFingerprint"@, JsonView::Text(artifact.plan_fingerprint@))
            &&& shows(shown, "approvalArtifact"@, JsonView::Text(artifact.artifact_id@))
            &&& shows(shown, "expiresAtUnix"@, artifact.expires_at@)
        }),
{
    let shown = approval_report_view(artifact);
    lemma_shows_all(shown);
    let at = shown->Object_0;
    assert(at[0] == at[0] && at[1] == at[1] && at[2] == at[2] && at[3] == at[3]);
}

/// What is shown of an approval.
pub fn approval_report(artifact: &ApprovalArtifact) -> (value: Json)
    ensures
        value@ == approval_report_view(*artifact),
{
    let mut out = ObjectBuilder::new();
    out.put_text("operationId", artifact.operation_id.as_str());
    out.put_text("planFingerprint", artifact.plan_fingerprint.as_str());
    out.put_text("approvalArtifact", artifact.artifact_id.as_str());
    out.put("expiresAtUnix", artifact.expires_at.duplicate());
    assert(out@ =~= approval_report_view(*artifact)->Object_0);
    out.finish()
}

/// What a command on groups shows.
#[derive(Debug, Clone, Copy, PartialEq, Eq, Structural)]
pub enum GroupOutcome {
    Shown,
    Created,
    Updated,
    Renamed,
    Deleted,
    History,
    Restored,
    Planned,
    Approved,
    Operation,
}

/// The status of what a command on groups shows.
pub open spec fn outcome_status(outcome: GroupOutcome) -> Seq<char> {
    match outcome {
        GroupOutcome::Shown => "group"@,
        GroupOutcome::Created => "created"@,
        GroupOutcome::Updated => "updated"@,
        GroupOutcome::Renamed => "renamed"@,
        GroupOutcome::Deleted => "deleted"@,
        GroupOutcome::History => "history"@,
        GroupOutcome::Restored => "restored"@,
        GroupOutcome::Planned => "plan"@,
        GroupOutcome::Approved => "approved"@,
        GroupOutcome::Operation => "operation"@,
    }
}

impl GroupOutcome {
    /// The status of what a command on groups shows.
    pub fn status(self) -> (status: &'static str)
        ensures
            status@ == outcome_status(self),
    {
        match self {
            GroupOutcome::Shown => "group",
            GroupOutcome::Created => "created",
            GroupOutcome::Updated => "updated",
            GroupOutcome::Renamed => "renamed",
            GroupOutcome::Deleted => "deleted",
            GroupOutcome::History => "history",
            GroupOutcome::Restored => "restored",
            GroupOutcome::Planned => "plan",
            GroupOutcome::Approved => "approved",
            GroupOutcome::Operation => "operation",
        }
    }
}

/// What came of a command, with its status.
pub open spec fn group_result_view(outcome: GroupOutcome, result: Json) -> JsonView {
    JsonView::Object(
        seq![
            ("status"@, JsonView::Text(outcome_status(outcome))),
            ("result"@, result@),
        ],
    )
}

/// What came of a command, with its status: each part under its own name, and
/// nothing else.
pub proof fn law_shown_group_result(outcome: GroupOutcome, result: Json)
    ensures
        ({
            let shown = group_result_view(outcome, result);
            &&& shows_only(shown, 2)
            &&& shows(shown, "status"@, JsonView::Text(outcome_status(outcome)))
            &&& shows(shown, "result"@, result@)
        }),
{
    let shown = group_result_view(outcome, result);
    lemma_shows_all(shown);
    let at = shown->Object_0;
    assert(at[0] == at[0] && at[1] == at[1]);
}

/// What came of a command, with its status.
pub fn group_result(outcome: GroupOutcome, result: &Json) -> (value: Json)
    ensures
        value@ == group_result_view(outcome, *result),
{
    let mut out = ObjectBuilder::new();
    out.put_text("status", outcome.status());
    out.put("result", result.duplicate());
    assert(out@ =~= group_result_view(outcome, *result)->Object_0);
    out.finish()
}

/// What a command on groups prints: for a program with its status, for people
/// without.
pub open spec fn shown_result(json: bool, outcome: GroupOutcome, result: Json) -> JsonView {
    if json {
        group_result_view(outcome, result)
    } else {
        result@
    }
}

/// What a command on groups prints.
pub fn render_json_or_debug(json: bool, outcome: GroupOutcome, result: &Json) -> (text: Option<
    String,
>)
    ensures
        optional(text) == pretty_text(shown_result(json, outcome, *result)),
{
    if json {
        pretty_json(&group_result(outcome, result))
    } else {
        pretty_json(result)
    }
}

} // verus!
