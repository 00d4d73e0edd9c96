//! What the catalog commands print.
use vstd::prelude::*;

use crate::json::{array, item_views, Json, JsonView, ObjectBuilder};
use crate::laws::shown::{lemma_shows_all, shows, shows_only};
use crate::laws::texts::group_occurs;
use crate::text::{bool_text, bool_word, decimal_of, occurs, outcome, string_views, to_decimal};

verus! {

/// A capability of the catalog.
pub struct CatalogRecord {
    pub id: String,
    pub kind: String,
    pub providers: u64,
    pub active: bool,
    pub fingerprint: String,
    pub value: Json,
}

/// Capabilities as values.
pub open spec fn record_values(records: Seq<CatalogRecord>) -> Seq<JsonView> {
    Seq::new(records.len(), |i: int| records[i].value@)
}

fn show_records(records: &Vec<CatalogRecord>) -> (values: Vec<Json>)
    ensures
        item_views(values@) == record_values(records@),
{
    let mut values: Vec<Json> = Vec::new();
    let mut i: usize = 0;
    while i < records.len()
        invariant
            i <= records@.len(),
            values@.len() == i,
            forall|j: int| 0 <= j < i ==> (#[trigger] values@[j])@ == records@[j].value@,
        decreases records@.len() - i,
    {
        values.push(records[i].value.duplicate());
        i = i + 1;
    }
    assert(item_views(values@) =~= record_values(records@));
    values
}

/// The capabilities of the catalog.
pub open spec fn catalog_list_view(records: Vec<CatalogRecord>) -> JsonView {
    JsonView::Object(
        seq![
            ("status"@, JsonView::Text("ok"@)),
            ("capabilities"@, JsonView::Array(record_values(records@))),
        ],
    )
}

/// The capabilities of the catalog: each part under its own name, and nothing
/// else.
pub proof fn law_shown_catalog_list(records: Vec<CatalogRecord>)
    ensures
        ({
            let shown = catalog_list_view(records);
            &&& shows_only(shown, 2)
            &&& shows(shown, "status"@, JsonView::Text("ok"@))
            &&& shows(shown, "capabilities"@, JsonView::Array(record_values(records@)))
        }),
{
    let shown = catalog_list_view(records);
    lemma_shows_all(shown);
    let at = shown->Object_0;
    assert(at[0] == at[0] && at[1] == at[1]);
}

/// The capabilities of the catalog.
pub fn catalog_list(records: &Vec<CatalogRecord>) -> (value: Json)
    ensures
        value@ == catalog_list_view(*records),
{
    let mut out = ObjectBuilder::new();
    out.put_text("status", "ok");
    out.put("capabilities", array(show_records(records)));
    assert(out@ =~= catalog_list_view(*records)->Object_0);
    out.finish()
}

/// The line for a capability in a list.
pub open spec fn catalog_line_text(record: CatalogRecord) -> Seq<char> {
    record.id@ + " "@ + record.kind@ + " providers="@ + decimal_of(record.providers as nat)
        + " active="@ + bool_word(record.active)
}

/// The line for a capability in a list: each part stands with its label.
pub proof fn law_line_of_catalog(record: CatalogRecord)
    ensures
        ({
            let line = catalog_line_text(record);
            &&& occurs(line, record.id@)
            &&& occurs(line, record.id@ + " "@ + record.kind@)
            &&& occurs(line, " providers="@ + decimal_of(record.providers as nat))
            &&& occurs(line, " active="@ + bool_word(record.active))
        }),
{
    broadcast use group_occurs;

}

/// The line for a capability in a list.
pub fn catalog_line(record: &CatalogRecord) -> (line: String)
    ensures
        line@ == catalog_line_text(*record),
{
    let mut line = String::new();
    line.push_str(record.id.as_str());
    line.push_str(" ");
    line.push_str(record.kind.as_str());
    line.push_str(" providers=");
    line.push_str(to_decimal(record.providers).as_str());
    line.push_str(" active=");
    line.push_str(bool_text(record.active));
    assert(line@ =~= catalog_line_text(*record));
    line
}

/// The lines for the capabilities of the catalog.
pub open spec fn catalog_lines_texts(list: Seq<CatalogRecord>) -> Seq<Seq<char>> {
    if list.len() == 0 {
        seq!["No capabilities."@]
    } else {
        Seq::new(list.len(), |i: int| catalog_line_text(list[i]))
    }
}

/// Each stands on a line of its own, in order; where there are none, that is
/// said.
pub proof fn law_lines_of_catalog(list: Seq<CatalogRecord>)
    ensures
        list.len() > 0 ==> catalog_lines_texts(list).len() == list.len(),
        forall|i: int|
            0 <= i < list.len() ==> #[trigger] catalog_lines_texts(list)[i] == catalog_line_text(list[i]),
        list.len() == 0 ==> catalog_lines_texts(list) == seq!["No capabilities."@],
{
}

/// The lines for the capabilities of the catalog.
pub fn catalog_lines(list: &Vec<CatalogRecord>) -> (lines: Vec<String>)
    ensures
        string_views(lines@) == catalog_lines_texts(list@),
{
    let mut lines: Vec<String> = Vec::new();
    if list.len() == 0 {
        lines.push("No capabilities.".to_owned());
        assert(string_views(lines@) =~= catalog_lines_texts(list@));
        return lines;
    }
    let mut i: usize = 0;
    while i < list.len()
        invariant
            i <= list@.len(),
            lines@.len() == i,
            forall|j: int| 0 <= j < i ==> (#[trigger] lines@[j])@ == catalog_line_text(list@[j]),
        decreases list@.len() - i,
    {
        lines.push(catalog_line(&list[i]));
        i = i + 1;
    }
    assert(string_views(lines@) =~= catalog_lines_texts(list@));
    lines
}

/// One capability.
pub open spec fn catalog_record_view(record: CatalogRecord) -> JsonView {
    JsonView::Object(
        seq![
            ("status"@, JsonView::Text("ok"@)),
            ("capability"@, record.value@),
        ],
    )
}

/// One capability: each part under its own name, and nothing else.
pub proof fn law_shown_catalog_record(record: CatalogRecord)
    ensures
        ({
            let shown = catalog_record_view(record);
            &&& shows_only(shown, 2)
            &&& shows(shown, "status"@, JsonView::Text("ok"@))
            &&& shows(shown, "capability"@, record.value@)
        }),
{
    let shown = catalog_record_view(record);
    lemma_shows_all(shown);
    let at = shown->Object_0;
    assert(at[0] == at[0] && at[1] == at[1]);
}

/// One capability.
pub fn catalog_record(record: &CatalogRecord) -> (value: Json)
    ensures
        value@ == catalog_record_view(*record),
{
    let mut out = ObjectBuilder::new();
    out.put_text("status", "ok");
    out.put("capability", record.value.duplicate());
    assert(out@ =~= catalog_record_view(*record)->Object_0);
    out.finish()
}

/// The line for one capability.
pub open spec fn catalog_record_line_text(record: CatalogRecord) -> Seq<char> {
    record.id@ + " "@ + record.kind@ + " providers="@ + decimal_of(record.providers as nat)
        + " fingerprint="@ + record.fingerprint@
}

/// The line for one capability: each part stands with its label.
pub proof fn law_line_of_catalog_record(record: CatalogRecord)
    ensures
        ({
            let line = catalog_record_line_text(record);
            &&& occurs(line, record.id@)
            &&& occurs(line, record.id@ + " "@ + record.kind@)
            &&& occurs(line, " providers="@ + decimal_of(record.providers as nat))
            &&& occurs(line, " fingerprint="@ + record.fingerprint@)
        }),
{
    broadcast use group_occurs;

}

/// The line for one capability.
pub fn catalog_record_line(record: &CatalogRecord) -> (line: String)
    ensures
        line@ == catalog_record_line_text(*record),
{
    let mut line = String::new();
    line.push_str(record.id.as_str());
    line.push_str(" ");
    line.push_str(record.kind.as_str());
    line.push_str(" providers=");
    line.push_str(to_decimal(record.providers).as_str());
    line.push_str(" fingerprint=");
    line.push_str(record.fingerprint.as_str());
    assert(line@ =~= catalog_record_line_text(*record));
    line
}

/// The plan of an adoption.
pub open spec fn adoption_plan_view(
    item: Json,
    record: CatalogRecord,
    transition: Json,
    plan_fingerprint: Seq<char>,
) -> JsonView {
    JsonView::Object(
        seq![
            ("status"@, JsonView::Text("planned"@)),
            ("item"@, item@),
            ("capability"@, record.value@),
            ("transition"@, transition@),
            ("planFingerprint"@, JsonView::Text(plan_fingerprint)),
            ("activation"@, JsonView::Text("next-session-only"@)),
            ("humanApprovalRequired"@, JsonView::Bool(true)),
        ],
    )
}

/// The plan of an adoption: each part under its own name, and nothing else.
pub proof fn law_shown_adoption_plan(
    item: Json,
    record: CatalogRecord,
    transition: Json,
    plan_fingerprint: Seq<char>,
)
    ensures
        ({
            let shown = adoption_plan_view(item, record, transition, plan_fingerprint);
            &&& shows_only(shown, 7)
            &&& shows(shown, "status"@, JsonView::Text("planned"@))
            &&& shows(shown, "item"@, item@)
            &&& shows(shown, "capability"@, record.value@)
            &&& shows(shown, "transition"@, transition@)
            &&& shows(shown, "planFingerprint"@, JsonView::Text(plan_fingerprint))
            &&& shows(shown, "activation"@, JsonView::Text("next-session-only"@))
            &&& shows(shown, "humanApprovalRequired"@, JsonView::Bool(true))
        }),
{
    let shown = adoption_plan_view(item, record, transition, plan_fingerprint);
    lemma_shows_all(shown);
    let at = shown->Object_0;
    assert(at[0] == at[0] && at[1] == at[1] && at[2] == at[2] && at[3] == at[3] && at[4] ==
        at[4] && at[5] == at[5] && at[6] == at[6]);
}

/// The plan of an adoption.
pub fn adoption_plan(
    item: &Json,
    record: &CatalogRecord,
    transition: &Json,
    plan_fingerprint: &str,
) -> (value: Json)
    ensures
        value@ == adoption_plan_view(*item, *record, *transition, plan_fingerprint@),
{
    let mut out = ObjectBuilder::new();
    out.put_text("status", "planned");
    out.put("item", item.duplicate());
    out.put("capability", record.value.duplicate());
    out.put("transition", transition.duplicate());
    out.put_text("planFingerprint", plan_fingerprint);
    out.put_text("activation", "next-session-only");
    out.put("humanApprovalRequired", Json::Bool(true));
    assert(out@ =~= adoption_plan_view(*item, *record, *transition, plan_fingerprint@)->Object_0);
    out.finish()
}

/// The line for the plan of an adoption.
pub open spec fn adoption_plan_line_text(
    record: CatalogRecord,
    plan_fingerprint: Seq<char>,
) -> Seq<char> {
    "planned adoption "@ + record.id@ + " fingerprint="@ + plan_fingerprint
        + " activation=next-session-only"@
}

/// The line for the plan of an adoption: each part stands with its label.
pub proof fn law_line_of_adoption_plan(record: CatalogRecord, plan_fingerprint: Seq<char>)
    ensures
        ({
            let line = adoption_plan_line_text(record, plan_fingerprint);
            &&& occurs(line, "planned adoption "@ + record.id@)
            &&& occurs(line, " fingerprint="@ + plan_fingerprint)
            &&& occurs(line, plan_fingerprint + " activation=next-session-only"@)
        }),
{
    broadcast use group_occurs;

}

/// The line for the plan of an adoption.
pub fn adoption_plan_line(record: &CatalogRecord, plan_fingerprint: &str) -> (line: String)
    ensures
        line@ == adoption_plan_line_text(*record, plan_fingerprint@),
{
    let mut line = String::new();
    line.push_str("planned adoption ");
    line.push_str(record.id.as_str());
    line.push_str(" fingerprint=");
    line.push_str(plan_fingerprint);
    line.push_str(" activation=next-session-only");
    assert(line@ =~= adoption_plan_line_text(*record, plan_fingerprint@));
    line
}

/// What came of an adoption.
pub open spec fn adoption_result_view(status: Seq<char>, result: Json) -> JsonView {
    JsonView::Object(
        seq![
            ("status"@, JsonView::Text(status)),
            ("result"@, result@),
            ("activation"@, JsonView::Text("next-session-only"@)),
        ],
    )
}

/// What came of an adoption: each part under its own name, and nothing else.
pub proof fn law_shown_adoption_result(status: Seq<char>, result: Json)
    ensures
        ({
            let shown = adoption_result_view(status, result);
            &&& shows_only(shown, 3)
            &&& shows(shown, "status"@, JsonView::Text(status))
            &&& shows(shown, "result"@, result@)
            &&& shows(shown, "activation"@, JsonView::Text("next-session-only"@))
        }),
{
    let shown = adoption_result_view(status, result);
    lemma_shows_all(shown);
    let at = shown->Object_0;
    assert(at[0] == at[0] && at[1] == at[1] && at[2] == at[2]);
}

/// What came of an adoption.
pub fn adoption_result(status: &str, result: &Json) -> (value: Json)
    ensures
        value@ == adoption_result_view(status@, *result),
{
    let mut out = ObjectBuilder::new();
    out.put_text("status", status);
    out.put("result", result.duplicate());
    out.put_text("activation", "next-session-only");
    assert(out@ =~= adoption_result_view(status@, *result)->Object_0);
    out.finish()
}

/// The line for what came of an adoption.
pub open spec fn adoption_result_line_text(
    status: Seq<char>,
    outcome: Seq<char>,
    backup_id: Seq<char>,
) -> Seq<char> {
    "catalog adoption "@ + status + "; outcome="@ + outcome
        + " activation=next-session-only backup="@ + backup_id
}

/// The line for what came of an adoption: each part stands with its label.
pub proof fn law_line_of_adoption_result(
    status: Seq<char>,
    outcome: Seq<char>,
    backup_id: Seq<char>,
)
    ensures
        ({
            let line = adoption_result_line_text(status, outcome, backup_id);
            &&& occurs(line, "catalog adoption "@ + status)
            &&& occurs(line, "; outcome="@ + outcome)
            &&& occurs(line, " activation=next-session-only backup="@ + backup_id)
        }),
{
    broadcast use group_occurs;

}

/// The line for what came of an adoption.
pub fn adoption_result_line(status: &str, outcome: &str, backup_id: &str) -> (line: String)
    ensures
        line@ == adoption_result_line_text(status@, outcome@, backup_id@),
{
    let mut line = String::new();
    line.push_str("catalog adoption ");
    line.push_str(status);
    line.push_str("; outcome=");
    line.push_str(outcome);
    line.push_str(" activation=next-session-only backup=");
    line.push_str(backup_id);
    assert(line@ =~= adoption_result_line_text(status@, outcome@, backup_id@));
    line
}

} // verus!
