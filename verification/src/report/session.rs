//! What the session commands print.
use vstd::prelude::*;

use crate::json::{Json, JsonView, ObjectBuilder};
use crate::laws::shown::{lemma_shows_all, shows, shows_only};
use crate::laws::texts::group_occurs;
use crate::text::{bool_text, bool_word, join_texts, joined_with, occurs, string_views};

verus! {

/// A session as its lease shows it.
pub struct LeaseSummary {
    pub session_id: String,
    pub provider: String,
    pub repository_key: String,
    pub workspace_key: String,
    pub profile_digest: Json,
    pub desired_revision: String,
    pub observed_revision: String,
    pub live_status: Json,
    pub isolation: Json,
    pub coverage: Json,
    pub lifecycle: Json,
    pub lifecycle_word: String,
    pub in_flight_calls: Json,
}

/// What is shown of a session.
pub open spec fn session_summary_view(lease: LeaseSummary) -> JsonView {
    JsonView::Object(
        seq![
            ("sessionId"@, JsonView::Text(lease.session_id@)),
            ("provider"@, JsonView::Text(lease.provider@)),
            ("repositoryKey"@, JsonView::Text(lease.repository_key@)),
            ("workspaceKey"@, JsonView::Text(lease.workspace_key@)),
            ("profileDigest"@, lease.profile_digest@),
            ("desiredExposureRevision"@, JsonView::Text(lease.desired_revision@)),
            ("observedExposureRevision"@, JsonView::Text(lease.observed_revision@)),
            ("liveStatus"@, lease.live_status@),
            ("isolation"@, lease.isolation@),
            ("coverage"@, lease.coverage@),
            ("lifecycle"@, lease.lifecycle@),
            ("inFlightCalls"@, lease.in_flight_calls@),
        ],
    )
}

/// What is shown of a session: each part under its own name, and nothing else.
pub proof fn law_shown_session_summary(lease: LeaseSummary)
    ensures
        ({
            let shown = session_summary_view(lease);
            &&& shows_only(shown, 12)
            &&& shows(shown, "sessionId"@, JsonView::Text(lease.session_id@))
            &&& shows(shown, "provider"@, JsonView::Text(lease.provider@))
            &&& shows(shown, "repositoryKey"@, JsonView::Text(lease.repository_key@))
            &&& shows(shown, "workspaceKey"@, JsonView::Text(lease.workspace_key@))
            &&& shows(shown, "profileDigest"@, lease.profile_digest@)
            &&& shows(shown, "desiredExposureRevision"@, JsonView::Text(lease.desired_revision@))
            &&& shows(
                shown,
                "observedExposureRevision"@,
                JsonView::Text(lease.observed_revision@),
            )
            &&& shows(shown, "liveStatus"@, lease.live_status@)
            &&& shows(shown, "isolation"@, lease.isolation@)
            &&& shows(shown, "coverage"@, lease.coverage@)
            &&& shows(shown, "lifecycle"@, lease.lifecycle@)
            &&& shows(shown, "inFlightCalls"@, lease.in_flight_calls@)
        }),
{
    let shown = session_summary_view(lease);
    lemma_shows_all(shown);
    let at = shown->Object_0;
    assert(at[0] == at[0] && at[1] == at[1] && at[2] == at[2] && at[3] == at[3] && at[4] ==
        at[4] && at[5] == at[5] && at[6] == at[6] && at[7] == at[7] && at[8] == at[8] && at[9]
        == at[9] && at[10] == at[10] && at[11] == at[11]);
}

/// What is shown of a session.
pub fn session_summary(lease: &LeaseSummary) -> (value: Json)
    ensures
        value@ == session_summary_view(*lease),
{
    let mut out = ObjectBuilder::new();
    out.put_text("sessionId", lease.session_id.as_str());
    out.put_text("provider", lease.provider.as_str());
    out.put_text("repositoryKey", lease.repository_key.as_str());
    out.put_text("workspaceKey", lease.workspace_key.as_str());
    out.put("profileDigest", lease.profile_digest.duplicate());
    out.put_text("desiredExposureRevision", lease.desired_revision.as_str());
    out.put_text("observedExposureRevision", lease.observed_revision.as_str());
    out.put("liveStatus", lease.live_status.duplicate());
    out.put("isolation", lease.isolation.duplicate());
    out.put("coverage", lease.coverage.duplicate());
    out.put("lifecycle", lease.lifecycle.duplicate());
    out.put("inFlightCalls", lease.in_flight_calls.duplicate());
    assert(out@ =~= session_summary_view(*lease)->Object_0);
    out.finish()
}

/// The line for a session.
pub open spec fn session_line_text(lease: LeaseSummary) -> Seq<char> {
    lease.session_id@ + " "@ + lease.provider@ + " "@ + lease.workspace_key@ + " "@
        + lease.lifecycle_word@
}

/// The line for a session: each part stands with its label.
pub proof fn law_line_of_session(lease: LeaseSummary)
    ensures
        ({
            let line = session_line_text(lease);
            &&& occurs(line, lease.session_id@)
            &&& occurs(line, " "@ + lease.provider@)
            &&& occurs(line, " "@ + lease.workspace_key@)
            &&& occurs(line, " "@ + lease.lifecycle_word@)
            &&& occurs(line, lease.session_id@ + " "@ + lease.provider@)
            &&& occurs(line, lease.provider@ + " "@ + lease.workspace_key@)
            &&& occurs(line, lease.workspace_key@ + " "@ + lease.lifecycle_word@)
        }),
{
    broadcast use group_occurs;

}

/// The line for a session.
pub fn session_line(lease: &LeaseSummary) -> (line: String)
    ensures
        line@ == session_line_text(*lease),
{
    let mut line = String::new();
    line.push_str(lease.session_id.as_str());
    line.push_str(" ");
    line.push_str(lease.provider.as_str());
    line.push_str(" ");
    line.push_str(lease.workspace_key.as_str());
    line.push_str(" ");
    line.push_str(lease.lifecycle_word.as_str());
    assert(line@ =~= session_line_text(*lease));
    line
}

/// The lines for sessions.
pub open spec fn session_lines_texts(list: Seq<LeaseSummary>) -> Seq<Seq<char>> {
    if list.len() == 0 {
        seq!["No active sessions."@]
    } else {
        Seq::new(list.len(), |i: int| session_line_text(list[i]))
    }
}

/// Each stands on a line of its own, in order; where there are none, that is
/// said.
pub proof fn law_lines_of_session(list: Seq<LeaseSummary>)
    ensures
        list.len() > 0 ==> session_lines_texts(list).len() == list.len(),
        forall|i: int|
            0 <= i < list.len() ==> #[trigger] session_lines_texts(list)[i] == session_line_text(list[i]),
        list.len() == 0 ==> session_lines_texts(list) == seq!["No active sessions."@],
{
}

/// The lines for sessions.
pub fn session_lines(list: &Vec<LeaseSummary>) -> (lines: Vec<String>)
    ensures
        string_views(lines@) == session_lines_texts(list@),
{
    let mut lines: Vec<String> = Vec::new();
    if list.len() == 0 {
        lines.push("No active sessions.".to_owned());
        assert(string_views(lines@) =~= session_lines_texts(list@));
        return lines;
    }
    let mut i: usize = 0;
    while i < list.len()
        invariant
            i <= list@.len(),
            lines@.len() == i,
            forall|j: int| 0 <= j < i ==> (#[trigger] lines@[j])@ == session_line_text(list@[j]),
        decreases list@.len() - i,
    {
        lines.push(session_line(&list[i]));
        i = i + 1;
    }
    assert(string_views(lines@) =~= session_lines_texts(list@));
    lines
}

/// What came of a session.
pub struct LaunchReport {
    pub session_id: String,
    pub provider: String,
    pub child_exit: String,
    pub cleanup_complete: bool,
    pub cleanup_failures: Vec<String>,
    pub degradation: Vec<String>,
}

/// The line for a session that ended.
pub open spec fn launch_line_text(report: LaunchReport) -> Seq<char> {
    "session "@ + report.session_id@ + " "@ + report.provider@ + " exit="@ + report.child_exit@
        + " isolation=connection-scoped cleanup="@ + bool_word(report.cleanup_complete)
        + " cleanup_failures="@ + joined_with(string_views(report.cleanup_failures@), ","@)
        + " degradation="@ + joined_with(string_views(report.degradation@), ","@)
}

/// The line for a session that ended: each part stands with its label.
pub proof fn law_line_of_launch(report: LaunchReport)
    ensures
        ({
            let line = launch_line_text(report);
            &&& occurs(line, "session "@ + report.session_id@)
            &&& occurs(line, " "@ + report.provider@)
            &&& occurs(line, report.session_id@ + " "@ + report.provider@)
            &&& occurs(line, " exit="@ + report.child_exit@)
            &&& occurs(
                line,
                " isolation=connection-scoped cleanup="@ + bool_word(report.cleanup_complete),
            )
            &&& occurs(
                line,
                " cleanup_failures="@ + joined_with(string_views(report.cleanup_failures@), ","@),
            )
            &&& occurs(
                line,
                " degradation="@ + joined_with(string_views(report.degradation@), ","@),
            )
        }),
{
    broadcast use group_occurs;

}

/// The line for a session that ended.
pub fn launch_line(report: &LaunchReport) -> (line: String)
    ensures
        line@ == launch_line_text(*report),
{
    let mut line = String::new();
    line.push_str("session ");
    line.push_str(report.session_id.as_str());
    line.push_str(" ");
    line.push_str(report.provider.as_str());
    line.push_str(" exit=");
    line.push_str(report.child_exit.as_str());
    line.push_str(" isolation=connection-scoped cleanup=");
    line.push_str(bool_text(report.cleanup_complete));
    line.push_str(" cleanup_failures=");
    line.push_str(join_texts(&report.cleanup_failures, ",").as_str());
    line.push_str(" degradation=");
    line.push_str(join_texts(&report.degradation, ",").as_str());
    assert(line@ =~= launch_line_text(*report));
    line
}

/// The plan to end a session.
pub open spec fn session_end_plan_view(operation: Json, plan: Json) -> JsonView {
    JsonView::Object(
        seq![
            ("status"@, JsonView::Text("planned"@)),
            ("operation"@, operation@),
            ("plan"@, plan@),
            ("humanApprovalRequired"@, JsonView::Bool(true)),
        ],
    )
}

/// The plan to end a session: each part under its own name, and nothing else.
pub proof fn law_shown_session_end_plan(operation: Json, plan: Json)
    ensures
        ({
            let shown = session_end_plan_view(operation, plan);
            &&& shows_only(shown, 4)
            &&& shows(shown, "status"@, JsonView::Text("planned"@))
            &&& shows(shown, "operation"@, operation@)
            &&& shows(shown, "plan"@, plan@)
            &&& shows(shown, "humanApprovalRequired"@, JsonView::Bool(true))
        }),
{
    let shown = session_end_plan_view(operation, plan);
    lemma_shows_all(shown);
    let at = shown->Object_0;
    assert(at[0] == at[0] && at[1] == at[1] && at[2] == at[2] && at[3] == at[3]);
}

/// The plan to end a session.
pub fn session_end_plan(operation: &Json, plan: &Json) -> (value: Json)
    ensures
        value@ == session_end_plan_view(*operation, *plan),
{
    let mut out = ObjectBuilder::new();
    out.put_text("status", "planned");
    out.put("operation", operation.duplicate());
    out.put("plan", plan.duplicate());
    out.put("humanApprovalRequired", Json::Bool(true));
    assert(out@ =~= session_end_plan_view(*operation, *plan)->Object_0);
    out.finish()
}

/// The line for the plan to end a session.
pub open spec fn session_end_plan_line_text(
    session_id: Seq<char>,
    plan_fingerprint: Seq<char>,
) -> Seq<char> {
    "planned session end "@ + session_id + " fingerprint="@ + plan_fingerprint + " activation=live"@
}

/// The line for the plan to end a session: each part stands with its label.
pub proof fn law_line_of_session_end_plan(session_id: Seq<char>, plan_fingerprint: Seq<char>)
    ensures
        ({
            let line = session_end_plan_line_text(session_id, plan_fingerprint);
            &&& occurs(line, "planned session end "@ + session_id)
            &&& occurs(line, " fingerprint="@ + plan_fingerprint)
            &&& occurs(line, plan_fingerprint + " activation=live"@)
        }),
{
    broadcast use group_occurs;

}

/// The line for the plan to end a session.
pub fn session_end_plan_line(session_id: &str, plan_fingerprint: &str) -> (line: String)
    ensures
        line@ == session_end_plan_line_text(session_id@, plan_fingerprint@),
{
    let mut line = String::new();
    line.push_str("planned session end ");
    line.push_str(session_id);
    line.push_str(" fingerprint=");
    line.push_str(plan_fingerprint);
    line.push_str(" activation=live");
    assert(line@ =~= session_end_plan_line_text(session_id@, plan_fingerprint@));
    line
}

/// A session that is ending.
pub open spec fn session_end_result_view(operation: Json, result: Json) -> JsonView {
    JsonView::Object(
        seq![
            ("status"@, JsonView::Text("applied"@)),
            ("operation"@, operation@),
            ("result"@, result@),
        ],
    )
}

/// A session that is ending: each part under its own name, and nothing else.
pub proof fn law_shown_session_end_result(operation: Json, result: Json)
    ensures
        ({
            let shown = session_end_result_view(operation, result);
            &&& shows_only(shown, 3)
            &&& shows(shown, "status"@, JsonView::Text("applied"@))
            &&& shows(shown, "operation"@, operation@)
            &&& shows(shown, "result"@, result@)
        }),
{
    let shown = session_end_result_view(operation, result);
    lemma_shows_all(shown);
    let at = shown->Object_0;
    assert(at[0] == at[0] && at[1] == at[1] && at[2] == at[2]);
}

/// A session that is ending.
pub fn session_end_result(operation: &Json, result: &Json) -> (value: Json)
    ensures
        value@ == session_end_result_view(*operation, *result),
{
    let mut out = ObjectBuilder::new();
    out.put_text("status", "applied");
    out.put("operation", operation.duplicate());
    out.put("result", result.duplicate());
    assert(out@ =~= session_end_result_view(*operation, *result)->Object_0);
    out.finish()
}

/// The line for a session that is ending.
pub open spec fn session_end_result_line_text(
    session_id: Seq<char>,
    status: Seq<char>,
) -> Seq<char> {
    "session "@ + session_id + " "@ + status + "; owner cleanup pending"@
}

/// The line for a session that is ending: each part stands with its label.
pub proof fn law_line_of_session_end_result(session_id: Seq<char>, status: Seq<char>)
    ensures
        ({
            let line = session_end_result_line_text(session_id, status);
            &&& occurs(line, session_id + " "@ + status)
            &&& occurs(line, "session "@ + session_id)
            &&& occurs(line, " "@ + status)
            &&& occurs(line, status + "; owner cleanup pending"@)
        }),
{
    broadcast use group_occurs;

}

/// The line for a session that is ending.
pub fn session_end_result_line(session_id: &str, status: &str) -> (line: String)
    ensures
        line@ == session_end_result_line_text(session_id@, status@),
{
    let mut line = String::new();
    line.push_str("session ");
    line.push_str(session_id);
    line.push_str(" ");
    line.push_str(status);
    line.push_str("; owner cleanup pending");
    assert(line@ =~= session_end_result_line_text(session_id@, status@));
    line
}

} // verus!
