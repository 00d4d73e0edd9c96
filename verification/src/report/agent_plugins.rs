//! What the agent plugin commands print.
use vstd::prelude::*;

use crate::agent_plugin::{
    countable, package_apply_value, package_apply_value_view, package_detail_value,
    package_detail_value_view, package_guidance, package_guidance_text, package_plan_value,
    package_plan_value_view, package_summary_value, package_summary_value_view, seen,
    AgentPluginAccess, PackagePlan, PackageResult, PluginPackage,
};
use crate::json::{
    array, extended, field, item_views, text, with_member, Json, JsonView, ObjectBuilder,
};
use crate::laws::shown::{lemma_shows_all, shows, shows_only};
use crate::laws::texts::group_occurs;
use crate::report::toggle::{known, known_text, member_line, push_member_line};
use crate::text::{decimal_of, joined, occurs, string_views, to_decimal};

verus! {

/// What is shown of packages in a list.
pub open spec fn summary_views(packages: Seq<PluginPackage>) -> Seq<JsonView> {
    Seq::new(packages.len(), |i: int| package_summary_value_view(packages[i]))
}

fn show_summaries(packages: &Vec<PluginPackage>) -> (values: Vec<Json>)
    requires
        forall|i: int| 0 <= i < packages@.len() ==> countable(#[trigger] packages@[i]),
    ensures
        item_views(values@) == summary_views(packages@),
{
    let mut values: Vec<Json> = Vec::new();
    let mut i: usize = 0;
    while i < packages.len()
        invariant
            i <= packages@.len(),
            forall|i: int| 0 <= i < packages@.len() ==> countable(#[trigger] packages@[i]),
            values@.len() == i,
            forall|j: int|
                0 <= j < i ==> (#[trigger] values@[j])@ == package_summary_value_view(packages@[j]),
        decreases packages@.len() - i,
    {
        values.push(package_summary_value(&packages[i]));
        i = i + 1;
    }
    assert(item_views(values@) =~= summary_views(packages@));
    values
}

/// The packages.
pub open spec fn package_list_view(packages: Seq<PluginPackage>, complete: bool) -> JsonView {
    JsonView::Object(
        seq![
            ("statusVersion"@, JsonView::Unsigned(1)),
            ("status"@, JsonView::Text("ok"@)),
            ("inventoryComplete"@, JsonView::Bool(complete)),
            ("packageCount"@, JsonView::Unsigned(packages.len() as u64)),
            ("packages"@, JsonView::Array(summary_views(packages))),
        ],
    )
}

/// The packages: each part under its own name, and nothing else.
pub proof fn law_shown_package_list(packages: Seq<PluginPackage>, complete: bool)
    ensures
        ({
            let shown = package_list_view(packages, complete);
            &&& shows_only(shown, 5)
            &&& shows(shown, "statusVersion"@, JsonView::Unsigned(1))
            &&& shows(shown, "status"@, JsonView::Text("ok"@))
            &&& shows(shown, "inventoryComplete"@, JsonView::Bool(complete))
            &&& shows(shown, "packageCount"@, JsonView::Unsigned(packages.len() as u64))
            &&& shows(shown, "packages"@, JsonView::Array(summary_views(packages)))
        }),
{
    let shown = package_list_view(packages, complete);
    lemma_shows_all(shown);
    let at = shown->Object_0;
    assert(at[0] == at[0] && at[1] == at[1] && at[2] == at[2] && at[3] == at[3] && at[4] ==
        at[4]);
}

/// The packages.
pub fn package_list(packages: &Vec<PluginPackage>, complete: bool) -> (value: Json)
    requires
        forall|i: int| 0 <= i < packages@.len() ==> countable(#[trigger] packages@[i]),
    ensures
        value@ == package_list_view(packages@, complete),
{
    let mut out = ObjectBuilder::new();
    out.put("statusVersion", Json::Unsigned(1));
    out.put_text("status", "ok");
    out.put("inventoryComplete", Json::Bool(complete));
    out.put("packageCount", Json::Unsigned(packages.len() as u64));
    out.put("packages", array(show_summaries(packages)));
    assert(out@ =~= package_list_view(packages@, complete)->Object_0);
    out.finish()
}

/// The line for a package.
pub open spec fn package_line_text(package: PluginPackage) -> Seq<char> {
    "["@ + package.state@ + "] "@ + package.name@ + " ("@ + package.logical_id@ + ") instances="@
        + decimal_of(package.instances@.len() as nat) + " access="@ + package.access@
}

/// The line for a package: each part stands with its label.
pub proof fn law_line_of_package(package: PluginPackage)
    ensures
        ({
            let line = package_line_text(package);
            &&& occurs(line, "["@ + package.state@)
            &&& occurs(line, "] "@ + package.name@)
            &&& occurs(line, " ("@ + package.logical_id@)
            &&& occurs(line, ") instances="@ + decimal_of(package.instances@.len() as nat))
            &&& occurs(line, " access="@ + package.access@)
        }),
{
    broadcast use group_occurs;

}

/// The line for a package.
pub fn package_line(package: &PluginPackage) -> (line: String)
    ensures
        line@ == package_line_text(*package),
{
    let mut line = String::new();
    line.push_str("[");
    line.push_str(package.state.as_str());
    line.push_str("] ");
    line.push_str(package.name.as_str());
    line.push_str(" (");
    line.push_str(package.logical_id.as_str());
    line.push_str(") instances=");
    line.push_str(to_decimal(package.instances.len() as u64).as_str());
    line.push_str(" access=");
    line.push_str(package.access.as_str());
    assert(line@ =~= package_line_text(*package));
    line
}

/// The line for how many packages there are.
pub open spec fn package_count_line_text(count: u64) -> Seq<char> {
    "Agent Plugins: "@ + decimal_of(count as nat) + " logical package(s)"@
}

/// The line for how many packages there are: each part stands with its label.
pub proof fn law_line_of_package_count(count: u64)
    ensures
        ({
            let line = package_count_line_text(count);
            &&& occurs(line, "Agent Plugins: "@ + decimal_of(count as nat))
            &&& occurs(line, decimal_of(count as nat) + " logical package(s)"@)
        }),
{
    broadcast use group_occurs;

}

/// The line for how many packages there are.
pub fn package_count_line(count: u64) -> (line: String)
    ensures
        line@ == package_count_line_text(count),
{
    let mut line = String::new();
    line.push_str("Agent Plugins: ");
    line.push_str(to_decimal(count).as_str());
    line.push_str(" logical package(s)");
    assert(line@ =~= package_count_line_text(count));
    line
}

/// The lines for packages: how many there are, each of them, or that there are
/// none.
pub open spec fn package_list_lines(packages: Seq<PluginPackage>) -> Seq<Seq<char>> {
    seq![package_count_line_text(packages.len() as u64)] + (if packages.len() == 0 {
        seq!["No Agent Plugin packages were derived from fresh discovery."@]
    } else {
        Seq::new(packages.len(), |i: int| package_line_text(packages[i]))
    })
}

/// The lines for packages.
pub fn print_list(packages: &Vec<PluginPackage>) -> (lines: Vec<String>)
    ensures
        string_views(lines@) == package_list_lines(packages@),
{
    let mut lines: Vec<String> = Vec::new();
    lines.push(package_count_line(packages.len() as u64));
    let mut i: usize = 0;
    while i < packages.len()
        invariant
            i <= packages@.len(),
            lines@.len() == i + 1,
            lines@[0]@ == package_count_line_text(packages@.len() as u64),
            forall|j: int|
                1 <= j < i + 1 ==> (#[trigger] lines@[j])@ == package_line_text(packages@[j - 1]),
        decreases packages@.len() - i,
    {
        lines.push(package_line(&packages[i]));
        i = i + 1;
    }
    if packages.len() == 0 {
        lines.push("No Agent Plugin packages were derived from fresh discovery.".to_owned());
    }
    assert(string_views(lines@) =~= package_list_lines(packages@));
    lines
}

/// One package, with what to do about it.
pub open spec fn package_report_view(
    package: PluginPackage,
    access: AgentPluginAccess,
) -> JsonView {
    JsonView::Object(
        seq![
            ("statusVersion"@, JsonView::Unsigned(1)),
            ("status"@, JsonView::Text("ok"@)),
            ("package"@, package_detail_value_view(package)),
            ("guidance"@, JsonView::Text(package_guidance_text(access))),
        ],
    )
}

/// One package, with what to do about it: each part under its own name, and
/// nothing else.
pub proof fn law_shown_package_report(package: PluginPackage, access: AgentPluginAccess)
    ensures
        ({
            let shown = package_report_view(package, access);
            &&& shows_only(shown, 4)
            &&& shows(shown, "statusVersion"@, JsonView::Unsigned(1))
            &&& shows(shown, "status"@, JsonView::Text("ok"@))
            &&& shows(shown, "package"@, package_detail_value_view(package))
            &&& shows(shown, "guidance"@, JsonView::Text(package_guidance_text(access)))
        }),
{
    let shown = package_report_view(package, access);
    lemma_shows_all(shown);
    let at = shown->Object_0;
    assert(at[0] == at[0] && at[1] == at[1] && at[2] == at[2] && at[3] == at[3]);
}

/// One package, with what to do about it.
pub fn package_report(package: &PluginPackage, access: AgentPluginAccess) -> (value: Json)
    requires
        countable(*package),
    ensures
        value@ == package_report_view(*package, access),
{
    let mut out = ObjectBuilder::new();
    out.put("statusVersion", Json::Unsigned(1));
    out.put_text("status", "ok");
    out.put("package", package_detail_value(package));
    out.put_text("guidance", package_guidance(access));
    assert(out@ =~= package_report_view(*package, access)->Object_0);
    out.finish()
}

/// A handoff of a plan.
pub struct SealedHandoff {
    pub operation_id: String,
    pub plan_fingerprint: String,
    pub expires_at: Json,
}

/// What is shown of a handoff.
pub open spec fn handoff_report_view(handoff: SealedHandoff) -> JsonView {
    JsonView::Object(
        seq![
            ("operationId"@, JsonView::Text(handoff.operation_id@)),
            ("planFingerprint"@, JsonView::Text(handoff.plan_fingerprint@)),
            ("expiresAtUnix"@, handoff.expires_at@),
        ],
    )
}

/// What is shown of a handoff: each part under its own name, and nothing else.
pub proof fn law_shown_handoff_report(handoff: SealedHandoff)
    ensures
        ({
            let shown = handoff_report_view(handoff);
            &&& shows_only(shown, 3)
            &&& shows(shown, "operationId"@, JsonView::Text(handoff.operation_id@))
            &&& shows(shown, "planFingerprint"@, JsonView::Text(handoff.plan_fingerprint@))
            &&& shows(shown, "expiresAtUnix"@, handoff.expires_at@)
        }),
{
    let shown = handoff_report_view(handoff);
    lemma_shows_all(shown);
    let at = shown->Object_0;
    assert(at[0] == at[0] && at[1] == at[1] && at[2] == at[2]);
}

/// What is shown of a handoff.
pub fn handoff_report(handoff: &SealedHandoff) -> (value: Json)
    ensures
        value@ == handoff_report_view(*handoff),
{
    let mut out = ObjectBuilder::new();
    out.put_text("operationId", handoff.operation_id.as_str());
    out.put_text("planFingerprint", handoff.plan_fingerprint.as_str());
    out.put("expiresAtUnix", handoff.expires_at.duplicate());
    assert(out@ =~= handoff_report_view(*handoff)->Object_0);
    out.finish()
}

/// What is shown of a plan, with its handoff where one was sealed.
pub open spec fn planned_package_view(
    package: PluginPackage,
    plan: PackagePlan,
    handoff: Option<SealedHandoff>,
) -> JsonView {
    match handoff {
        Some(handoff) => extended(
            package_plan_value_view(package, plan),
            "handoff"@,
            handoff_report_view(handoff),
        ),
        None => package_plan_value_view(package, plan),
    }
}

/// What is shown of a plan, with its handoff where one was sealed.
pub fn planned_package(
    package: &PluginPackage,
    plan: &PackagePlan,
    handoff: &Option<SealedHandoff>,
) -> (value: Json)
    requires
        countable(*package),
    ensures
        value@ == planned_package_view(*package, *plan, *handoff),
{
    let value = package_plan_value(package, plan);
    match handoff {
        Some(handoff) => with_member(value, "handoff", handoff_report(handoff)),
        None => value,
    }
}

/// What is shown of a plan that was carried out: with the package as it is then,
/// or as it was reviewed where it cannot be read again.
pub open spec fn applied_package_view(
    reviewed: PluginPackage,
    refreshed: Option<PluginPackage>,
    result: PackageResult,
) -> JsonView {
    match refreshed {
        Some(package) => extended(
            package_apply_value_view(package, result),
            "refreshStatus"@,
            JsonView::Text("complete"@),
        ),
        None => extended(
            package_apply_value_view(reviewed, result),
            "refreshStatus"@,
            JsonView::Text("failed-run-status"@),
        ),
    }
}

/// What is shown of a plan that was carried out.
pub fn applied_package(
    reviewed: &PluginPackage,
    refreshed: Option<&PluginPackage>,
    result: &PackageResult,
) -> (value: Json)
    requires
        countable(*reviewed),
        refreshed is Some ==> countable(*refreshed->0),
    ensures
        value@ == applied_package_view(*reviewed, seen(refreshed), *result),
{
    match refreshed {
        Some(package) => with_member(
            package_apply_value(package, result),
            "refreshStatus",
            text("complete"),
        ),
        None => with_member(
            package_apply_value(reviewed, result),
            "refreshStatus",
            text("failed-run-status"),
        ),
    }
}

/// The line for the package in a value.
pub open spec fn package_part(value: JsonView) -> Seq<Seq<char>> {
    match field(value, "package"@) {
        Some(package) => seq![
            "package: "@ + known(package, "name"@) + " ("@ + known(package, "logicalId"@)
                + ") state="@ + known(package, "state"@) + " access="@ + known(package, "access"@),
        ],
        None => seq![],
    }
}

/// The line for the reach in a value, where it has one.
pub open spec fn reach_part(value: JsonView, reach: Seq<char>) -> Seq<Seq<char>> {
    match field(value, "providerReach"@) {
        None => seq![],
        Some(JsonView::Null) => seq![],
        Some(_) => seq!["providerReach: "@ + reach],
    }
}

/// The lines for a value about a package.
pub open spec fn package_value_lines(value: JsonView, title: Seq<char>, reach: Seq<char>) -> Seq<
    Seq<char>,
> {
    seq![title + ": "@ + known(value, "status"@)] + package_part(value) + member_line(
        value,
        "operationId"@,
    ) + member_line(value, "planFingerprint"@) + reach_part(value, reach) + member_line(
        value,
        "guidance"@,
    )
}

fn is_null(value: &Json) -> (r: bool)
    ensures
        r == (value@ is Null),
{
    match value {
        Json::Null => true,
        _ => false,
    }
}

/// The lines for people about a package; `reach` is the reach as compact JSON.
pub fn print_package_value(value: &Json, title: &str, reach: &str) -> (lines: Vec<String>)
    ensures
        string_views(lines@) == package_value_lines(value@, title@, reach@),
{
    let mut lines: Vec<String> = Vec::new();
    let mut first = joined(title, ": ");
    first.push_str(known_text(value, "status"));
    lines.push(first);
    assert(string_views(lines@) =~= seq![title@ + ": "@ + known(value@, "status"@)]);
    let ghost start = string_views(lines@);
    match value.get("package") {
        Some(package) => {
            let mut line = joined("package: ", known_text(package, "name"));
            line.push_str(" (");
            line.push_str(known_text(package, "logicalId"));
            line.push_str(") state=");
            line.push_str(known_text(package, "state"));
            line.push_str(" access=");
            line.push_str(known_text(package, "access"));
            assert(line@ =~= package_part(value@)[0]);
            lines.push(line);
            assert(string_views(lines@) =~= start + package_part(value@));
        },
        None => {
            assert(string_views(lines@) =~= start + package_part(value@));
        },
    }
    push_member_line(&mut lines, value, "operationId");
    push_member_line(&mut lines, value, "planFingerprint");
    let ghost middle = string_views(lines@);
    match value.get("providerReach") {
        Some(found) => {
            if is_null(found) {
                assert(string_views(lines@) =~= middle + reach_part(value@, reach@));
            } else {
                lines.push(joined("providerReach: ", reach));
                assert(string_views(lines@) =~= middle + reach_part(value@, reach@));
            }
        },
        None => {
            assert(string_views(lines@) =~= middle + reach_part(value@, reach@));
        },
    }
    push_member_line(&mut lines, value, "guidance");
    assert(string_views(lines@) =~= package_value_lines(value@, title@, reach@));
    lines
}

} // verus!
