//! Workflows of the desktop: drafts, proposals under review, launches, and what
//! is shown of the session that runs.
use vstd::prelude::*;

use crate::bridge_request::{
    coded, optional_bounded_string, optional_param, params_error, require_only_params,
    required_string, required_text, texts,
};
use crate::commands::profile::ProfileSourceScope;
use crate::commands::session::{PinnedProfile, PinnedView};
use crate::json::{
    array, duplicate_items, field, found_text, item_views, optional_text, signed_field, signed_in, text,
    text_in, text_or_null, unsigned_field, unsigned_in, Json, JsonView, ObjectBuilder,
};
use crate::laws::shown::{lemma_shows_all, shows, shows_only};
use crate::ordering::{distinct_texts, text_set};
use crate::reviewed_plans::Reviewed;
use crate::text::{byte_len, joined, optional, same_text, string_views, utf8_len};
use crate::text_map::{lemma_text_le_reflexive, text_le, text_lt, TextMap};

verus! {

/// A mode of a workflow and its profile.
pub struct WorkflowModeDraft {
    pub name: String,
    pub profile_id: String,
}

/// A workflow that was composed in this session.
pub struct WorkflowDraft {
    pub workflow_id: String,
    pub display_name: String,
    pub description: Option<String>,
    pub provider: String,
    pub baseline_profile_id: String,
    pub entry_mode: String,
    pub modes: Vec<WorkflowModeDraft>,
    pub workflow_revision: String,
}

/// The modes of a workflow as names and profiles.
pub open spec fn mode_views(modes: Seq<WorkflowModeDraft>) -> Seq<(Seq<char>, Seq<char>)> {
    Seq::new(modes.len(), |i: int| (modes[i].name@, modes[i].profile_id@))
}

pub struct DraftView {
    pub workflow_id: Seq<char>,
    pub display_name: Seq<char>,
    pub description: Option<Seq<char>>,
    pub provider: Seq<char>,
    pub baseline_profile_id: Seq<char>,
    pub entry_mode: Seq<char>,
    pub modes: Seq<(Seq<char>, Seq<char>)>,
    pub workflow_revision: Seq<char>,
}

impl View for WorkflowDraft {
    type V = DraftView;

    open spec fn view(&self) -> DraftView {
        DraftView {
            workflow_id: self.workflow_id@,
            display_name: self.display_name@,
            description: optional(self.description),
            provider: self.provider@,
            baseline_profile_id: self.baseline_profile_id@,
            entry_mode: self.entry_mode@,
            modes: mode_views(self.modes@),
            workflow_revision: self.workflow_revision@,
        }
    }
}

/// The parameters of a composition.
pub open spec fn compose_keys() -> Seq<Seq<char>> {
    seq![
        "workflowId"@,
        "displayName"@,
        "description"@,
        "provider"@,
        "baselineProfileId"@,
        "entryMode"@,
        "modes"@,
    ]
}

/// One mode in the parameters.
pub open spec fn mode_in(value: JsonView) -> Result<(Seq<char>, Seq<char>), Seq<char>> {
    match params_error(value, seq!["name"@, "profileId"@]) {
        Some(code) => Err(code),
        None => match (required_text(value, "name"@), required_text(value, "profileId"@)) {
            (Err(code), _) => Err(code),
            (Ok(_), Err(code)) => Err(code),
            (Ok(name), Ok(profile)) => Ok((name, profile)),
        },
    }
}

/// The modes in a list, or what is wrong with the first bad one.
pub open spec fn modes_in(list: Seq<JsonView>) -> Result<Seq<(Seq<char>, Seq<char>)>, Seq<char>>
    decreases list.len(),
{
    if list.len() == 0 {
        Ok(seq![])
    } else {
        match modes_in(list.drop_last()) {
            Err(code) => Err(code),
            Ok(before) => match mode_in(list.last()) {
                Err(code) => Err(code),
                Ok(mode) => Ok(before.push(mode)),
            },
        }
    }
}

/// The draft in the parameters, as far as it can be read without compiling it.
pub open spec fn draft_in(params: JsonView, provider_known: bool) -> Result<DraftView, Seq<char>> {
    match params_error(params, compose_keys()) {
        Some(code) => Err(code),
        None => match required_text(params, "provider"@) {
            Err(code) => Err(code),
            Ok(provider) => if !provider_known {
                Err("invalid-workflow-provider"@)
            } else {
                match field(params, "modes"@) {
                    Some(JsonView::Array(list)) => match modes_in(list) {
                        Err(code) => Err(code),
                        Ok(modes) => match (
                            required_text(params, "workflowId"@),
                            required_text(params, "displayName"@),
                            optional_param(params, "description"@),
                            required_text(params, "baselineProfileId"@),
                            required_text(params, "entryMode"@),
                        ) {
                            (Err(code), _, _, _, _) => Err(code),
                            (Ok(_), Err(code), _, _, _) => Err(code),
                            (Ok(_), Ok(_), Err(code), _, _) => Err(code),
                            (Ok(_), Ok(_), Ok(_), Err(code), _) => Err(code),
                            (Ok(_), Ok(_), Ok(_), Ok(_), Err(code)) => Err(code),
                            (Ok(id), Ok(name), Ok(description), Ok(baseline), Ok(entry)) => Ok(
                                DraftView {
                                    workflow_id: id,
                                    display_name: name,
                                    description,
                                    provider,
                                    baseline_profile_id: baseline,
                                    entry_mode: entry,
                                    modes,
                                    workflow_revision: seq![],
                                },
                            ),
                        },
                    },
                    _ => Err("invalid-workflow-modes"@),
                }
            },
        },
    }
}

fn read_mode(value: &Json) -> (r: Result<WorkflowModeDraft, &'static str>)
    ensures
        match mode_in(value@) {
            Ok((name, profile)) => r is Ok && r->Ok_0.name@ == name && r->Ok_0.profile_id@
                == profile,
            Err(code) => r is Err && r->Err_0@ == code,
        },
{
    let allowed: [&'static str; 2] = ["name", "profileId"];
    assert(texts(allowed@) =~= seq!["name"@, "profileId"@]);
    if let Err(code) = require_only_params(value, allowed.as_slice()) {
        return Err(code);
    }
    let name = match required_string(value, "name") {
        Ok(name) => name,
        Err(code) => return Err(code),
    };
    match required_string(value, "profileId") {
        Ok(profile) => Ok(
            WorkflowModeDraft { name: name.to_owned(), profile_id: profile.to_owned() },
        ),
        Err(code) => Err(code),
    }
}

/// Modes that could be read stand in the list one by one.
pub proof fn lemma_modes_by_index(list: Seq<JsonView>)
    ensures
        modes_in(list) is Ok ==> {
            &&& modes_in(list)->Ok_0.len() == list.len()
            &&& forall|i: int|
                0 <= i < list.len() ==> {
                    let mode = #[trigger] modes_in(list)->Ok_0[i];
                    &&& field(list[i], "name"@) == Some(JsonView::Text(mode.0))
                    &&& field(list[i], "profileId"@) == Some(JsonView::Text(mode.1))
                }
        },
    decreases list.len(),
{
    if list.len() > 0 {
        lemma_modes_by_index(list.drop_last());
        if modes_in(list) is Ok {
            let before = modes_in(list.drop_last())->Ok_0;
            assert forall|i: int| 0 <= i < list.len() implies {
                let mode = #[trigger] modes_in(list)->Ok_0[i];
                &&& field(list[i], "name"@) == Some(JsonView::Text(mode.0))
                &&& field(list[i], "profileId"@) == Some(JsonView::Text(mode.1))
            } by {
                if i < list.len() - 1 {
                    assert(modes_in(list)->Ok_0[i] == before[i]);
                    assert(list.drop_last()[i] == list[i]);
                }
            }
        }
    }
}

proof fn lemma_modes_stop(list: Seq<JsonView>, n: int)
    requires
        0 <= n <= list.len(),
        modes_in(list.take(n)) is Err,
    ensures
        modes_in(list) == modes_in(list.take(n)),
    decreases list.len(),
{
    if n == list.len() {
        assert(list.take(n) =~= list);
    } else {
        assert(list.drop_last().take(n) =~= list.take(n));
        lemma_modes_stop(list.drop_last(), n);
    }
}

fn read_modes(list: &Vec<Json>) -> (r: Result<Vec<WorkflowModeDraft>, &'static str>)
    ensures
        match modes_in(item_views(list@)) {
            Ok(modes) => r is Ok && mode_views(r->Ok_0@) == modes,
            Err(code) => r is Err && r->Err_0@ == code,
        },
{
    let ghost views = item_views(list@);
    let mut modes: Vec<WorkflowModeDraft> = Vec::new();
    let mut i: usize = 0;
    assert(views.take(0) =~= seq![]);
    assert(mode_views(modes@) =~= seq![]);
    while i < list.len()
        invariant
            i <= list@.len(),
            views == item_views(list@),
            modes_in(views.take(i as int)) == Ok::<Seq<(Seq<char>, Seq<char>)>, Seq<char>>(
                mode_views(modes@),
            ),
        decreases list@.len() - i,
    {
        assert(views.take(i + 1).drop_last() =~= views.take(i as int));
        match read_mode(&list[i]) {
            Err(code) => {
                proof {
                    lemma_modes_stop(views, i + 1);
                }
                return Err(code);
            },
            Ok(mode) => {
                let ghost before = mode_views(modes@);
                let ghost added = (mode.name@, mode.profile_id@);
                modes.push(mode);
                assert(mode_views(modes@) =~= before.push(added));
            },
        }
        i = i + 1;
    }
    assert(views.take(i as int) =~= views);
    Ok(modes)
}

/// Reads a draft from the parameters. Its revision is empty until it is
/// compiled.
pub fn compose_workflow(params: &Json, provider_known: bool) -> (r: Result<
    WorkflowDraft,
    &'static str,
>)
    ensures
        coded(r) == draft_in(params@, provider_known),
        r is Ok ==> {
            &&& field(params@, "workflowId"@) == Some(JsonView::Text(r->Ok_0.workflow_id@))
            &&& field(params@, "displayName"@) == Some(JsonView::Text(r->Ok_0.display_name@))
            &&& field(params@, "provider"@) == Some(JsonView::Text(r->Ok_0.provider@))
            &&& field(params@, "baselineProfileId"@) == Some(
                JsonView::Text(r->Ok_0.baseline_profile_id@),
            )
            &&& field(params@, "entryMode"@) == Some(JsonView::Text(r->Ok_0.entry_mode@))
            &&& field(params@, "modes"@) is Some
            &&& field(params@, "modes"@)->0 is Array
            &&& r->Ok_0.modes@.len() == field(params@, "modes"@)->0->Array_0.len()
            &&& forall|i: int|
                0 <= i < r->Ok_0.modes@.len() ==> {
                    let value = field(params@, "modes"@)->0->Array_0[i];
                    let mode = #[trigger] r->Ok_0.modes@[i];
                    &&& field(value, "name"@) == Some(JsonView::Text(mode.name@))
                    &&& field(value, "profileId"@) == Some(JsonView::Text(mode.profile_id@))
                }
        },
{
    let allowed: [&'static str; 7] = [
        "workflowId",
        "displayName",
        "description",
        "provider",
        "baselineProfileId",
        "entryMode",
        "modes",
    ];
    assert(texts(allowed@) =~= compose_keys());
    if let Err(code) = require_only_params(params, allowed.as_slice()) {
        return Err(code);
    }
    let provider = match required_string(params, "provider") {
        Ok(provider) => provider,
        Err(code) => return Err(code),
    };
    if !provider_known {
        return Err("invalid-workflow-provider");
    }
    let list = match params.get("modes") {
        None => return Err("invalid-workflow-modes"),
        Some(value) => match value.as_array() {
            None => return Err("invalid-workflow-modes"),
            Some(list) => list,
        },
    };
    let modes = match read_modes(list) {
        Ok(modes) => modes,
        Err(code) => return Err(code),
    };
    let workflow_id = match required_string(params, "workflowId") {
        Ok(value) => value,
        Err(code) => return Err(code),
    };
    let display_name = match required_string(params, "displayName") {
        Ok(value) => value,
        Err(code) => return Err(code),
    };
    let description = match optional_bounded_string(params, "description") {
        Ok(value) => value,
        Err(code) => return Err(code),
    };
    let baseline_profile_id = match required_string(params, "baselineProfileId") {
        Ok(value) => value,
        Err(code) => return Err(code),
    };
    let entry_mode = match required_string(params, "entryMode") {
        Ok(value) => value,
        Err(code) => return Err(code),
    };
    let draft = WorkflowDraft {
        workflow_id: workflow_id.to_owned(),
        display_name: display_name.to_owned(),
        description: match description {
            Some(text) => Some(text.to_owned()),
            None => None,
        },
        provider: provider.to_owned(),
        baseline_profile_id: baseline_profile_id.to_owned(),
        entry_mode: entry_mode.to_owned(),
        modes,
        workflow_revision: String::new(),
    };
    assert(draft@.workflow_revision =~= seq![]);
    proof {
        lemma_modes_by_index(item_views(list@));
        assert(forall|i: int|
            0 <= i < draft.modes@.len() ==> mode_views(draft.modes@)[i] == (
                (#[trigger] draft.modes@[i]).name@,
                draft.modes@[i].profile_id@,
            ));
    }
    Ok(draft)
}

/// What is shown of a mode.
pub open spec fn mode_value_view(mode: WorkflowModeDraft) -> JsonView {
    JsonView::Object(
        seq![
            ("name"@, JsonView::Text(mode.name@)),
            ("profileId"@, JsonView::Text(mode.profile_id@)),
        ],
    )
}

/// What is shown of a mode: each part under its own name, and nothing else.
pub proof fn law_shown_mode(mode: WorkflowModeDraft)
    ensures
        ({
            let shown = mode_value_view(mode);
            &&& shows_only(shown, 2)
            &&& shows(shown, "name"@, JsonView::Text(mode.name@))
            &&& shows(shown, "profileId"@, JsonView::Text(mode.profile_id@))
        }),
{
    let shown = mode_value_view(mode);
    lemma_shows_all(shown);
    let at = shown->Object_0;
    assert(at[0] == at[0] && at[1] == at[1]);
}

/// What is shown of a mode.
pub fn mode_value(mode: &WorkflowModeDraft) -> (value: Json)
    ensures
        value@ == mode_value_view(*mode),
{
    let mut out = ObjectBuilder::new();
    out.put_text("name", mode.name.as_str());
    out.put_text("profileId", mode.profile_id.as_str());
    assert(out@ =~= mode_value_view(*mode)->Object_0);
    out.finish()
}

/// What is shown of modes.
pub open spec fn mode_values_views(list: Seq<WorkflowModeDraft>) -> Seq<JsonView> {
    Seq::new(list.len(), |i: int| mode_value_view(list[i]))
}

/// Each of them is shown, in the order in which they stand.
pub proof fn law_each_of_mode_values(list: Seq<WorkflowModeDraft>)
    ensures
        mode_values_views(list).len() == list.len(),
        forall|i: int| 0 <= i < list.len() ==> #[trigger] mode_values_views(list)[i] == mode_value_view(list[i]),
{
}

/// What is shown of modes.
pub fn mode_values(list: &Vec<WorkflowModeDraft>) -> (values: Vec<Json>)
    ensures
        item_views(values@) == mode_values_views(list@),
{
    let mut values: Vec<Json> = Vec::new();
    let mut i: usize = 0;
    while i < list.len()
        invariant
            i <= list@.len(),
            values@.len() == i,
            forall|j: int| 0 <= j < i ==> (#[trigger] values@[j])@ == mode_value_view(list@[j]),
        decreases list@.len() - i,
    {
        values.push(mode_value(&list[i]));
        i = i + 1;
    }
    assert(item_views(values@) =~= mode_values_views(list@));
    values
}

/// What is shown of modes that are known by their names and profiles.
pub open spec fn shown_modes(modes: Seq<(Seq<char>, Seq<char>)>) -> Seq<JsonView> {
    Seq::new(
        modes.len(),
        |i: int|
            JsonView::Object(
                seq![
                    ("name"@, JsonView::Text(modes[i].0)),
                    ("profileId"@, JsonView::Text(modes[i].1)),
                ],
            ),
    )
}

/// What is shown of a draft.
pub open spec fn draft_value(draft: DraftView) -> JsonView {
    JsonView::Object(
        seq![
            ("workflowId"@, JsonView::Text(draft.workflow_id)),
            ("displayName"@, JsonView::Text(draft.display_name)),
            ("description"@, text_or_null(draft.description)),
            ("provider"@, JsonView::Text(draft.provider)),
            ("baselineProfileId"@, JsonView::Text(draft.baseline_profile_id)),
            ("entryMode"@, JsonView::Text(draft.entry_mode)),
            ("modes"@, JsonView::Array(shown_modes(draft.modes))),
            ("workflowRevision"@, JsonView::Text(draft.workflow_revision)),
        ],
    )
}

/// What is shown of a draft: each part under its own name, and nothing else.
pub proof fn law_shown_draft(draft: DraftView)
    ensures
        ({
            let shown = draft_value(draft);
            &&& shows_only(shown, 8)
            &&& shows(shown, "workflowId"@, JsonView::Text(draft.workflow_id))
            &&& shows(shown, "displayName"@, JsonView::Text(draft.display_name))
            &&& shows(shown, "description"@, text_or_null(draft.description))
            &&& shows(shown, "provider"@, JsonView::Text(draft.provider))
            &&& shows(shown, "baselineProfileId"@, JsonView::Text(draft.baseline_profile_id))
            &&& shows(shown, "entryMode"@, JsonView::Text(draft.entry_mode))
            &&& shows(shown, "modes"@, JsonView::Array(shown_modes(draft.modes)))
            &&& shows(shown, "workflowRevision"@, JsonView::Text(draft.workflow_revision))
        }),
{
    let shown = draft_value(draft);
    lemma_shows_all(shown);
    let at = shown->Object_0;
    assert(at[0] == at[0] && at[1] == at[1] && at[2] == at[2] && at[3] == at[3] && at[4] ==
        at[4] && at[5] == at[5] && at[6] == at[6] && at[7] == at[7]);
}

/// What is shown of a draft.
pub fn workflow_draft_value(draft: &WorkflowDraft) -> (value: Json)
    ensures
        value@ == draft_value(draft@),
{
    let modes = mode_values(&draft.modes);
    assert(item_views(modes@) =~= shown_modes(draft@.modes));
    let mut out = ObjectBuilder::new();
    out.put_text("workflowId", draft.workflow_id.as_str());
    out.put_text("displayName", draft.display_name.as_str());
    out.put("description", optional_text(&draft.description));
    out.put_text("provider", draft.provider.as_str());
    out.put_text("baselineProfileId", draft.baseline_profile_id.as_str());
    out.put_text("entryMode", draft.entry_mode.as_str());
    out.put("modes", array(modes));
    out.put_text("workflowRevision", draft.workflow_revision.as_str());
    assert(out@ =~= draft_value(draft@)->Object_0);
    out.finish()
}

/// An empty array.
fn empty_array() -> (value: Json)
    ensures
        value@ == JsonView::Array(seq![]),
{
    let items: Vec<Json> = Vec::new();
    assert(item_views(items@) =~= seq![]);
    array(items)
}

/// The response to a composition.
pub open spec fn composed_view(draft: DraftView) -> JsonView {
    JsonView::Object(
        seq![
            ("status"@, JsonView::Text("composed"@)),
            ("workflowRevision"@, JsonView::Text(draft.workflow_revision)),
            ("workflow"@, draft_value(draft)),
            ("errors"@, JsonView::Array(seq![])),
        ],
    )
}

/// The response to a composition: each part under its own name, and nothing
/// else.
pub proof fn law_shown_composed(draft: DraftView)
    ensures
        ({
            let shown = composed_view(draft);
            &&& shows_only(shown, 4)
            &&& shows(shown, "status"@, JsonView::Text("composed"@))
            &&& shows(shown, "workflowRevision"@, JsonView::Text(draft.workflow_revision))
            &&& shows(shown, "workflow"@, draft_value(draft))
            &&& shows(shown, "errors"@, JsonView::Array(seq![]))
        }),
{
    let shown = composed_view(draft);
    lemma_shows_all(shown);
    let at = shown->Object_0;
    assert(at[0] == at[0] && at[1] == at[1] && at[2] == at[2] && at[3] == at[3]);
}

/// Keeps a draft under its id, once it is known to be valid.
pub fn store_workflow(
    workflows: &mut TextMap<WorkflowDraft>,
    draft: WorkflowDraft,
    definition_digest: Option<String>,
) -> (r: Result<Json, &'static str>)
    requires
        old(workflows).wf(),
    ensures
        final(workflows).wf(),
        match definition_digest {
            None => r is Err && r->Err_0@ == "invalid-workflow-definition"@ && *final(workflows)
                == *old(workflows),
            Some(digest) => {
                let stored = DraftView { workflow_revision: digest@, ..draft@ };
                &&& r is Ok
                &&& r->Ok_0@ == composed_view(stored)
                &&& final(workflows)@ == old(workflows)@.insert(draft@.workflow_id, stored)
            },
        },
{
    let digest = match definition_digest {
        None => return Err("invalid-workflow-definition"),
        Some(digest) => digest,
    };
    let stored = WorkflowDraft {
        workflow_id: draft.workflow_id.clone(),
        display_name: draft.display_name,
        description: draft.description,
        provider: draft.provider,
        baseline_profile_id: draft.baseline_profile_id,
        entry_mode: draft.entry_mode,
        modes: draft.modes,
        workflow_revision: digest,
    };
    let mut out = ObjectBuilder::new();
    out.put_text("status", "composed");
    out.put_text("workflowRevision", stored.workflow_revision.as_str());
    out.put("workflow", workflow_draft_value(&stored));
    out.put("errors", empty_array());
    assert(out@ =~= composed_view(stored@)->Object_0);
    workflows.insert(draft.workflow_id.as_str(), stored);
    Ok(out.finish())
}

/// The workflow that a request asks to validate.
pub open spec fn validated_id(
    workflows: Map<Seq<char>, DraftView>,
    params: JsonView,
    provider_known: bool,
) -> Result<Seq<char>, Seq<char>> {
    match params_error(params, seq!["workflowId"@, "provider"@, "workflowRevision"@]) {
        Some(code) => Err(code),
        None => match (required_text(params, "workflowId"@), required_text(params, "provider"@)) {
            (Err(code), _) => Err(code),
            (Ok(_), Err(code)) => Err(code),
            (Ok(id), Ok(_)) => if !provider_known {
                Err("invalid-workflow-provider"@)
            } else if !workflows.contains_key(id) {
                Err("workflow-draft-unavailable"@)
            } else {
                match optional_param(params, "workflowRevision"@) {
                    Err(code) => Err(code),
                    Ok(Some(revision)) => if revision != workflows[id].workflow_revision {
                        Err("workflow-revision-mismatch"@)
                    } else {
                        Ok(id)
                    },
                    Ok(None) => Ok(id),
                }
            },
        },
    }
}

/// The workflow that a request asks to validate.
pub fn validate_workflow(
    workflows: &TextMap<WorkflowDraft>,
    params: &Json,
    provider_known: bool,
) -> (r: Result<String, &'static str>)
    requires
        workflows.wf(),
    ensures
        coded(r) == validated_id(workflows@, params@, provider_known),
{
    let allowed: [&'static str; 3] = ["workflowId", "provider", "workflowRevision"];
    assert(texts(allowed@) =~= seq!["workflowId"@, "provider"@, "workflowRevision"@]);
    if let Err(code) = require_only_params(params, allowed.as_slice()) {
        return Err(code);
    }
    let id = match required_string(params, "workflowId") {
        Ok(id) => id,
        Err(code) => return Err(code),
    };
    if let Err(code) = required_string(params, "provider") {
        return Err(code);
    }
    if !provider_known {
        return Err("invalid-workflow-provider");
    }
    let draft = match workflows.get(id) {
        Some(draft) => draft,
        None => return Err("workflow-draft-unavailable"),
    };
    match optional_bounded_string(params, "workflowRevision") {
        Err(code) => Err(code),
        Ok(None) => Ok(id.to_owned()),
        Ok(Some(revision)) => {
            if same_text(revision, draft.workflow_revision.as_str()) {
                Ok(id.to_owned())
            } else {
                Err("workflow-revision-mismatch")
            }
        },
    }
}

/// A profile that a mode of a workflow puts in force.
pub struct EffectiveProfile {
    pub mode: String,
    pub profile_id: String,
    pub digest: String,
}

/// A compiled workflow: what it is shown as, and the profiles of its modes.
pub struct CompiledWorkflow {
    pub revision_digest: String,
    pub entry_mode: String,
    pub profiles: Vec<EffectiveProfile>,
    pub provider: String,
    pub capability_count: u64,
    pub reload_limitation: Json,
    pub definition_digest: Option<String>,
}

/// The response to a validation.
pub open spec fn validated_view(
    draft: DraftView,
    compiled: CompiledWorkflow,
    definition_digest: Seq<char>,
) -> JsonView {
    JsonView::Object(
        seq![
            ("status"@, JsonView::Text("valid"@)),
            ("valid"@, JsonView::Bool(true)),
            ("workflow"@, draft_value(draft)),
            ("workflowRevision"@, JsonView::Text(compiled.revision_digest@)),
            ("provider"@, JsonView::Text(compiled.provider@)),
            ("capabilityCount"@, JsonView::Unsigned(compiled.capability_count)),
            ("reloadLimitation"@, compiled.reload_limitation@),
            ("errors"@, JsonView::Array(seq![])),
            ("definitionDigest"@, JsonView::Text(definition_digest)),
        ],
    )
}

/// The response to a validation: each part under its own name, and nothing
/// else.
pub proof fn law_shown_validated(
    draft: DraftView,
    compiled: CompiledWorkflow,
    definition_digest: Seq<char>,
)
    ensures
        ({
            let shown = validated_view(draft, compiled, definition_digest);
            &&& shows_only(shown, 9)
            &&& shows(shown, "status"@, JsonView::Text("valid"@))
            &&& shows(shown, "valid"@, JsonView::Bool(true))
            &&& shows(shown, "workflow"@, draft_value(draft))
            &&& shows(shown, "workflowRevision"@, JsonView::Text(compiled.revision_digest@))
            &&& shows(shown, "provider"@, JsonView::Text(compiled.provider@))
            &&& shows(shown, "capabilityCount"@, JsonView::Unsigned(compiled.capability_count))
            &&& shows(shown, "reloadLimitation"@, compiled.reload_limitation@)
            &&& shows(shown, "errors"@, JsonView::Array(seq![]))
            &&& shows(shown, "definitionDigest"@, JsonView::Text(definition_digest))
        }),
{
    let shown = validated_view(draft, compiled, definition_digest);
    lemma_shows_all(shown);
    let at = shown->Object_0;
    assert(at[0] == at[0] && at[1] == at[1] && at[2] == at[2] && at[3] == at[3] && at[4] ==
        at[4] && at[5] == at[5] && at[6] == at[6] && at[7] == at[7] && at[8] == at[8]);
}

/// The response to a validation, where the definition has a digest.
pub fn validated_workflow(draft: &WorkflowDraft, compiled: &CompiledWorkflow) -> (r: Result<
    Json,
    &'static str,
>)
    ensures
        coded(r) == match compiled.definition_digest {
            Some(digest) => Ok(validated_view(draft@, *compiled, digest@)),
            None => Err("workflow-validation-failed"@),
        },
{
    let digest = match &compiled.definition_digest {
        Some(digest) => digest.as_str(),
        None => return Err("workflow-validation-failed"),
    };
    let mut out = ObjectBuilder::new();
    out.put_text("status", "valid");
    out.put("valid", Json::Bool(true));
    out.put("workflow", workflow_draft_value(draft));
    out.put_text("workflowRevision", compiled.revision_digest.as_str());
    out.put_text("provider", compiled.provider.as_str());
    out.put("capabilityCount", Json::Unsigned(compiled.capability_count));
    out.put("reloadLimitation", compiled.reload_limitation.duplicate());
    out.put("errors", empty_array());
    out.put_text("definitionDigest", digest);
    assert(out@ =~= validated_view(draft@, *compiled, digest@)->Object_0);
    Ok(out.finish())
}

/// Whether a workflow is the first one, by id, for a provider.
pub open spec fn first_for_provider(
    workflows: Map<Seq<char>, DraftView>,
    provider: Seq<char>,
    id: Seq<char>,
) -> bool {
    &&& workflows.contains_key(id)
    &&& workflows[id].provider == provider
    &&& forall|other: Seq<char>| #[trigger]
        workflows.contains_key(other) && workflows[other].provider == provider && other != id
            ==> text_lt(id, other)
}

/// Whether no workflow is for a provider.
pub open spec fn none_for_provider(
    workflows: Map<Seq<char>, DraftView>,
    provider: Seq<char>,
) -> bool {
    forall|id: Seq<char>| #[trigger]
        workflows.contains_key(id) ==> workflows[id].provider != provider
}

/// The workflow that a proposal is for.
pub open spec fn proposes(
    workflows: Map<Seq<char>, DraftView>,
    params: JsonView,
    provider: Option<Seq<char>>,
    r: Result<Seq<char>, Seq<char>>,
) -> bool {
    match params_error(params, seq!["prompt"@, "workflowId"@, "provider"@]) {
        Some(code) => r == Err::<Seq<char>, Seq<char>>(code),
        None => match (
            required_text(params, "prompt"@),
            optional_param(params, "workflowId"@),
            optional_param(params, "provider"@),
        ) {
            (Err(code), _, _) => r == Err::<Seq<char>, Seq<char>>(code),
            (Ok(_), Err(code), _) => r == Err::<Seq<char>, Seq<char>>(code),
            (Ok(_), Ok(_), Err(code)) => r == Err::<Seq<char>, Seq<char>>(code),
            (Ok(_), Ok(id), Ok(given)) => if given is None || provider is None {
                r == Err::<Seq<char>, Seq<char>>("workflow-provider-required"@)
            } else {
                match id {
                    Some(id) => if workflows.contains_key(id) {
                        r == Ok::<Seq<char>, Seq<char>>(id)
                    } else {
                        r == Err::<Seq<char>, Seq<char>>("workflow-draft-unavailable"@)
                    },
                    None => if none_for_provider(workflows, provider->0) {
                        r == Err::<Seq<char>, Seq<char>>("workflow-selection-required"@)
                    } else {
                        r is Ok && first_for_provider(workflows, provider->0, r->Ok_0)
                    },
                }
            },
        },
    }
}

fn find_for_provider(workflows: &TextMap<WorkflowDraft>, provider: &str) -> (r: Option<String>)
    requires
        workflows.wf(),
    ensures
        match r {
            Some(id) => first_for_provider(workflows@, provider@, id@),
            None => none_for_provider(workflows@, provider@),
        },
{
    proof {
        workflows.law_keys();
    }
    let mut i: usize = 0;
    while i < workflows.len()
        invariant
            workflows.wf(),
            i <= workflows.keys().len(),
            forall|j: int|
                0 <= j < i ==> workflows@[#[trigger] workflows.keys()[j]].provider != provider@,
        decreases workflows.keys().len() - i,
    {
        let draft = workflows.value_at(i);
        if same_text(draft.provider.as_str(), provider) {
            let id = workflows.key_at(i).to_owned();
            proof {
                workflows.law_keys();
                let keys = workflows.keys();
                assert forall|other: Seq<char>| #[trigger]
                    workflows@.contains_key(other) && workflows@[other].provider == provider@
                        && other != id@ implies text_lt(id@, other) by {
                    assert(keys.contains(other));
                    let k = choose|k: int| 0 <= k < keys.len() && keys[k] == other;
                    assert(k > i) by {
                        if k < i {
                            assert(workflows@[keys[k]].provider != provider@);
                        }
                    }
                    assert(text_lt(keys[i as int], keys[k]));
                }
            }
            return Some(id);
        }
        i = i + 1;
    }
    proof {
        workflows.law_keys();
        let keys = workflows.keys();
        assert forall|id: Seq<char>| #[trigger]
            workflows@.contains_key(id) implies workflows@[id].provider != provider@ by {
            assert(keys.contains(id));
            let k = choose|k: int| 0 <= k < keys.len() && keys[k] == id;
            assert(workflows@[keys[k]].provider != provider@);
        }
    }
    None
}

/// The workflow that a proposal is for: the one that is named, or the first
/// one, by id, for the provider. `provider` is the provider that the
/// parameter names, if there is such a provider.
pub fn propose_workflow(
    workflows: &TextMap<WorkflowDraft>,
    params: &Json,
    provider: &Option<String>,
) -> (r: Result<String, &'static str>)
    requires
        workflows.wf(),
    ensures
        proposes(workflows@, params@, optional(*provider), coded(r)),
{
    let allowed: [&'static str; 3] = ["prompt", "workflowId", "provider"];
    assert(texts(allowed@) =~= seq!["prompt"@, "workflowId"@, "provider"@]);
    if let Err(code) = require_only_params(params, allowed.as_slice()) {
        return Err(code);
    }
    if let Err(code) = required_string(params, "prompt") {
        return Err(code);
    }
    let id = match optional_bounded_string(params, "workflowId") {
        Ok(id) => id,
        Err(code) => return Err(code),
    };
    let given = match optional_bounded_string(params, "provider") {
        Ok(given) => given,
        Err(code) => return Err(code),
    };
    if given.is_none() {
        return Err("workflow-provider-required");
    }
    let provider = match provider {
        Some(provider) => provider,
        None => return Err("workflow-provider-required"),
    };
    match id {
        Some(id) => {
            if workflows.contains_key(id) {
                Ok(id.to_owned())
            } else {
                Err("workflow-draft-unavailable")
            }
        },
        None => match find_for_provider(workflows, provider.as_str()) {
            Some(id) => {
                assert(!none_for_provider(workflows@, provider@)) by {
                    assert(workflows@.contains_key(id@));
                }
                Ok(id)
            },
            None => Err("workflow-selection-required"),
        },
    }
}

/// A proposal to launch a workflow.
pub struct WorkflowProposal {
    pub proposal_id: String,
    pub proposal_fingerprint: String,
    pub prompt_digest: String,
    pub workflow_id: String,
    pub entry_mode: String,
    pub provider: String,
    pub repository_key: String,
    pub workspace_key: String,
    pub catalog_revision: String,
    pub workflow_revision: String,
    pub capability_count: u64,
    pub gateway_required: bool,
}

pub struct ProposalView {
    pub proposal_id: Seq<char>,
    pub proposal_fingerprint: Seq<char>,
    pub prompt_digest: Seq<char>,
    pub workflow_id: Seq<char>,
    pub entry_mode: Seq<char>,
    pub provider: Seq<char>,
    pub repository_key: Seq<char>,
    pub workspace_key: Seq<char>,
    pub catalog_revision: Seq<char>,
    pub workflow_revision: Seq<char>,
    pub capability_count: u64,
    pub gateway_required: bool,
}

impl View for WorkflowProposal {
    type V = ProposalView;

    open spec fn view(&self) -> ProposalView {
        ProposalView {
            proposal_id: self.proposal_id@,
            proposal_fingerprint: self.proposal_fingerprint@,
            prompt_digest: self.prompt_digest@,
            workflow_id: self.workflow_id@,
            entry_mode: self.entry_mode@,
            provider: self.provider@,
            repository_key: self.repository_key@,
            workspace_key: self.workspace_key@,
            catalog_revision: self.catalog_revision@,
            workflow_revision: self.workflow_revision@,
            capability_count: self.capability_count,
            gateway_required: self.gateway_required,
        }
    }
}

/// A proposal under review.
pub struct ReviewedWorkflowLaunch {
    pub proposal: WorkflowProposal,
    pub reviewed_at_unix: i64,
}

impl View for ReviewedWorkflowLaunch {
    type V = (ProposalView, i64);

    open spec fn view(&self) -> (ProposalView, i64) {
        (self.proposal@, self.reviewed_at_unix)
    }
}

impl Reviewed for ReviewedWorkflowLaunch {
    open spec fn reviewed_at(seen: (ProposalView, i64)) -> i64 {
        seen.1
    }

    fn reviewed_at_unix(&self) -> (at: i64) {
        self.reviewed_at_unix
    }
}

/// Keeps a proposal for review.
pub fn remember_proposal(
    launches: &mut TextMap<ReviewedWorkflowLaunch>,
    proposal: WorkflowProposal,
    now_unix: i64,
)
    requires
        old(launches).wf(),
    ensures
        final(launches).wf(),
        final(launches)@ == old(launches)@.insert(proposal@.proposal_id, (proposal@, now_unix)),
{
    let id = proposal.proposal_id.clone();
    launches.insert(id.as_str(), ReviewedWorkflowLaunch { proposal, reviewed_at_unix: now_unix });
}

/// The response to a proposal.
pub open spec fn proposed_view(proposal: JsonView, draft: DraftView) -> JsonView {
    JsonView::Object(
        seq![
            ("status"@, JsonView::Text("proposed"@)),
            ("proposal"@, proposal),
            (
                "candidates"@,
                JsonView::Array(
                    seq![
                        JsonView::Object(
                            seq![
                                ("workflowId"@, JsonView::Text(draft.workflow_id)),
                                ("displayName"@, JsonView::Text(draft.display_name)),
                                ("scope"@, JsonView::Text("desktop-draft"@)),
                                ("score"@, JsonView::Unsigned(1)),
                                ("entryMode"@, JsonView::Text(draft.entry_mode)),
                            ],
                        ),
                    ],
                ),
            ),
            ("confirmationRequired"@, JsonView::Bool(true)),
            ("nextAction"@, JsonView::Text("confirm-workflow-session"@)),
        ],
    )
}

/// The response to a proposal: each part under its own name, and nothing else.
pub proof fn law_shown_proposed(proposal: JsonView, draft: DraftView)
    ensures
        ({
            let shown = proposed_view(proposal, draft);
            &&& shows_only(shown, 5)
            &&& shows(shown, "status"@, JsonView::Text("proposed"@))
            &&& shows(shown, "proposal"@, proposal)
            &&& shows(
                shown,
                "candidates"@,
                JsonView::Array(
                    seq![
                        JsonView::Object(
                            seq![
                                ("workflowId"@, JsonView::Text(draft.workflow_id)),
                                ("displayName"@, JsonView::Text(draft.display_name)),
                                ("scope"@, JsonView::Text("desktop-draft"@)),
                                ("score"@, JsonView::Unsigned(1)),
                                ("entryMode"@, JsonView::Text(draft.entry_mode)),
                            ],
                        ),
                    ],
                ),
            )
            &&& shows(shown, "confirmationRequired"@, JsonView::Bool(true))
            &&& shows(shown, "nextAction"@, JsonView::Text("confirm-workflow-session"@))
        }),
{
    let shown = proposed_view(proposal, draft);
    lemma_shows_all(shown);
    let at = shown->Object_0;
    assert(at[0] == at[0] && at[1] == at[1] && at[2] == at[2] && at[3] == at[3] && at[4] ==
        at[4]);
}

/// The response to a proposal; the proposal itself is shown as it is.
pub fn proposed_workflow(proposal: Json, draft: &WorkflowDraft) -> (value: Json)
    ensures
        value@ == proposed_view(proposal@, draft@),
{
    let ghost expected = proposed_view(proposal@, draft@)->Object_0;
    let mut candidate = ObjectBuilder::new();
    candidate.put_text("workflowId", draft.workflow_id.as_str());
    candidate.put_text("displayName", draft.display_name.as_str());
    candidate.put_text("scope", "desktop-draft");
    candidate.put("score", Json::Unsigned(1));
    candidate.put_text("entryMode", draft.entry_mode.as_str());
    assert(candidate@ =~= expected[2].1->Array_0[0]->Object_0);
    let mut candidates: Vec<Json> = Vec::new();
    candidates.push(candidate.finish());
    assert(item_views(candidates@) =~= expected[2].1->Array_0);
    let mut out = ObjectBuilder::new();
    out.put_text("status", "proposed");
    out.put("proposal", proposal);
    out.put("candidates", array(candidates));
    out.put("confirmationRequired", Json::Bool(true));
    out.put_text("nextAction", "confirm-workflow-session");
    assert(out@ =~= expected);
    out.finish()
}

pub const MAX_COMMAND_PARTS: usize = 128;

pub const MAX_COMMAND_PART_BYTES: usize = 16384;

/// A part of a host command: not empty, at most 16 KiB.
pub open spec fn command_part(value: JsonView) -> Option<Seq<char>> {
    match text_in(Some(value)) {
        Some(part) => if part.len() > 0 && utf8_len(part) <= MAX_COMMAND_PART_BYTES {
            Some(part)
        } else {
            None
        },
        None => None,
    }
}

/// The host command in the parameters.
pub open spec fn command_in(params: JsonView) -> Result<Seq<Seq<char>>, Seq<char>> {
    match field(params, "hostCommand"@) {
        Some(JsonView::Array(list)) => if list.len() == 0 || list.len() > MAX_COMMAND_PARTS {
            Err("workflow-host-command-required"@)
        } else if forall|i: int| 0 <= i < list.len() ==> command_part(#[trigger] list[i]) is Some {
            Ok(Seq::new(list.len(), |i: int| command_part(list[i])->0))
        } else {
            Err("invalid-workflow-host-command"@)
        },
        _ => Err("workflow-host-command-required"@),
    }
}

/// Whether a list of texts is what was expected.
pub open spec fn lists(
    r: Result<Vec<String>, &'static str>,
    expected: Result<Seq<Seq<char>>, Seq<char>>,
) -> bool {
    match expected {
        Ok(list) => r is Ok && string_views(r->Ok_0@) == list,
        Err(code) => r is Err && r->Err_0@ == code,
    }
}

/// Reads the host command from the parameters.
pub fn workflow_host_command(params: &Json) -> (r: Result<Vec<String>, &'static str>)
    ensures
        lists(r, command_in(params@)),
{
    let list = match params.get("hostCommand") {
        None => return Err("workflow-host-command-required"),
        Some(value) => match value.as_array() {
            None => return Err("workflow-host-command-required"),
            Some(list) => list,
        },
    };
    let ghost views = item_views(list@);
    if list.len() == 0 || list.len() > MAX_COMMAND_PARTS {
        return Err("workflow-host-command-required");
    }
    let mut parts: Vec<String> = Vec::new();
    let mut i: usize = 0;
    while i < list.len()
        invariant
            i <= list@.len(),
            views == item_views(list@),
            field(params@, "hostCommand"@) == Some(JsonView::Array(views)),
            0 < views.len() <= MAX_COMMAND_PARTS,
            parts@.len() == i,
            forall|j: int|
                0 <= j < i ==> command_part(#[trigger] views[j]) is Some && parts@[j]@
                    == command_part(views[j])->0,
        decreases list@.len() - i,
    {
        assert(views[i as int] == list@[i as int]@);
        assert(command_part(views[i as int]) is None ==> command_in(params@) == Err::<
            Seq<Seq<char>>,
            Seq<char>,
        >("invalid-workflow-host-command"@));
        match list[i].as_text() {
            None => return Err("invalid-workflow-host-command"),
            Some(part) => {
                if part.is_empty() || byte_len(part) > MAX_COMMAND_PART_BYTES {
                    return Err("invalid-workflow-host-command");
                }
                parts.push(part.to_owned());
            },
        }
        i = i + 1;
    }
    assert(string_views(parts@) =~= command_in(params@)->Ok_0);
    Ok(parts)
}

/// What a launch needs.
pub struct LaunchRequest {
    pub proposal_id: String,
    pub workflow_id: String,
    pub command: Vec<String>,
}

/// The launch in the parameters: its proposal, its workflow and its command.
pub open spec fn launch_in(
    launches: Map<Seq<char>, (ProposalView, i64)>,
    workflows: Map<Seq<char>, DraftView>,
    session_active: bool,
    params: JsonView,
) -> Result<(Seq<char>, Seq<char>, Seq<Seq<char>>), Seq<char>> {
    match params_error(params, seq!["proposalId"@, "proposalFingerprint"@, "hostCommand"@]) {
        Some(code) => Err(code),
        None => match (
            required_text(params, "proposalId"@),
            required_text(params, "proposalFingerprint"@),
        ) {
            (Err(code), _) => Err(code),
            (Ok(_), Err(code)) => Err(code),
            (Ok(id), Ok(fingerprint)) => if !launches.contains_key(id) {
                Err("workflow-proposal-unavailable"@)
            } else if launches[id].0.proposal_fingerprint != fingerprint {
                Err("workflow-proposal-fingerprint-mismatch"@)
            } else if session_active {
                Err("workflow-session-already-active"@)
            } else {
                match command_in(params) {
                    Err(code) => Err(code),
                    Ok(command) => if !workflows.contains_key(launches[id].0.workflow_id) {
                        Err("workflow-draft-unavailable"@)
                    } else {
                        Ok((id, launches[id].0.workflow_id, command))
                    },
                }
            },
        },
    }
}

/// Reads what a launch needs: a proposal that was reviewed, under its own
/// fingerprint, while no session runs.
pub fn launch_workflow(
    launches: &TextMap<ReviewedWorkflowLaunch>,
    workflows: &TextMap<WorkflowDraft>,
    session_id: &Option<String>,
    params: &Json,
) -> (r: Result<LaunchRequest, &'static str>)
    requires
        launches.wf(),
        workflows.wf(),
    ensures
        match launch_in(launches@, workflows@, session_id is Some, params@) {
            Ok((proposal, workflow, command)) => r is Ok && r->Ok_0.proposal_id@ == proposal
                && r->Ok_0.workflow_id@ == workflow && string_views(r->Ok_0.command@) == command,
            Err(code) => r is Err && r->Err_0@ == code,
        },
        r is Ok ==> {
            &&& field(params@, "proposalId"@) == Some(JsonView::Text(r->Ok_0.proposal_id@))
            &&& launches@.contains_key(r->Ok_0.proposal_id@)
            &&& field(params@, "proposalFingerprint"@) == Some(
                JsonView::Text(launches@[r->Ok_0.proposal_id@].0.proposal_fingerprint),
            )
            &&& r->Ok_0.workflow_id@ == launches@[r->Ok_0.proposal_id@].0.workflow_id
            &&& session_id is None
        },
{
    let allowed: [&'static str; 3] = ["proposalId", "proposalFingerprint", "hostCommand"];
    assert(texts(allowed@) =~= seq!["proposalId"@, "proposalFingerprint"@, "hostCommand"@]);
    if let Err(code) = require_only_params(params, allowed.as_slice()) {
        return Err(code);
    }
    let id = match required_string(params, "proposalId") {
        Ok(id) => id,
        Err(code) => return Err(code),
    };
    let fingerprint = match required_string(params, "proposalFingerprint") {
        Ok(fingerprint) => fingerprint,
        Err(code) => return Err(code),
    };
    let reviewed = match launches.get(id) {
        Some(reviewed) => reviewed,
        None => return Err("workflow-proposal-unavailable"),
    };
    if !same_text(reviewed.proposal.proposal_fingerprint.as_str(), fingerprint) {
        return Err("workflow-proposal-fingerprint-mismatch");
    }
    if session_id.is_some() {
        return Err("workflow-session-already-active");
    }
    let command = match workflow_host_command(params) {
        Ok(command) => command,
        Err(code) => return Err(code),
    };
    if !workflows.contains_key(reviewed.proposal.workflow_id.as_str()) {
        return Err("workflow-draft-unavailable");
    }
    Ok(
        LaunchRequest {
            proposal_id: id.to_owned(),
            workflow_id: reviewed.proposal.workflow_id.clone(),
            command,
        },
    )
}

/// What is in force when a proposal is launched.
pub struct CurrentWorkflow {
    pub workflow_id: String,
    pub entry_mode: String,
    pub provider: String,
    pub repository_key: String,
    pub workspace_key: String,
    pub catalog_revision: String,
    pub workflow_revision: String,
    pub capability_count: u64,
}

/// Whether a proposal is still about what is in force.
pub open spec fn proposal_current(proposal: ProposalView, current: CurrentWorkflow) -> bool {
    &&& current.workflow_id@ == proposal.workflow_id
    &&& current.entry_mode@ == proposal.entry_mode
    &&& current.provider@ == proposal.provider
    &&& current.repository_key@ == proposal.repository_key
    &&& current.workspace_key@ == proposal.workspace_key
    &&& current.catalog_revision@ == proposal.catalog_revision
    &&& current.workflow_revision@ == proposal.workflow_revision
    &&& current.capability_count == proposal.capability_count
    &&& proposal.gateway_required
}

/// Whether a proposal may be launched: nothing that it was reviewed with has
/// changed.
pub fn validate_reviewed_workflow(
    proposal: &WorkflowProposal,
    current: &CurrentWorkflow,
) -> (r: Result<
    (),
    &'static str,
>)
    ensures
        r is Ok == proposal_current(proposal@, *current),
        r is Err ==> r->Err_0@ == "workflow-proposal-stale"@,
{
    if !same_text(current.workflow_id.as_str(), proposal.workflow_id.as_str()) || !same_text(
        current.entry_mode.as_str(),
        proposal.entry_mode.as_str(),
    ) || !same_text(current.provider.as_str(), proposal.provider.as_str()) || !same_text(
        current.repository_key.as_str(),
        proposal.repository_key.as_str(),
    ) || !same_text(current.workspace_key.as_str(), proposal.workspace_key.as_str()) || !same_text(
        current.catalog_revision.as_str(),
        proposal.catalog_revision.as_str(),
    ) || !same_text(
        current.workflow_revision.as_str(),
        proposal.workflow_revision.as_str(),
    ) || current.capability_count != proposal.capability_count || !proposal.gateway_required {
        Err("workflow-proposal-stale")
    } else {
        Ok(())
    }
}

/// What compiling, proposing, launching or steering a workflow does outside of
/// the bridge.
#[derive(Debug, Clone, Copy, PartialEq, Eq, Structural)]
pub enum WorkflowStage {
    ValidateDefinition,
    Discover,
    BuildCatalog,
    LoadProfile,
    CompileProfile,
    LoadPolicy,
    CompileLocks,
    CompileWorkflow,
    WorkspaceIdentity,
    BuildProposal,
    CompareProposal,
    MaterializeRevision,
    EntryProfile,
    SessionKey,
    BackupKey,
    Spawn,
    Confirm,
    Establish,
    ReadSession,
    ReadOperations,
    EnterMode,
    CancelTransition,
}

/// The code of a stage that failed.
pub open spec fn stage_code(stage: WorkflowStage) -> Seq<char> {
    match stage {
        WorkflowStage::ValidateDefinition => "workflow-validation-failed"@,
        WorkflowStage::Discover => "discovery-unavailable"@,
        WorkflowStage::BuildCatalog => "catalog-unavailable"@,
        WorkflowStage::LoadProfile => "workflow-profile-unavailable"@,
        WorkflowStage::CompileProfile => "workflow-profile-invalid"@,
        WorkflowStage::LoadPolicy => "workflow-policy-unavailable"@,
        WorkflowStage::CompileLocks => "workflow-policy-invalid"@,
        WorkflowStage::CompileWorkflow => "workflow-validation-failed"@,
        WorkflowStage::WorkspaceIdentity => "workspace-identity-unavailable"@,
        WorkflowStage::BuildProposal => "workflow-proposal-invalid"@,
        WorkflowStage::CompareProposal => "workflow-proposal-stale"@,
        WorkflowStage::MaterializeRevision => "workflow-revision-unavailable"@,
        WorkflowStage::EntryProfile => "workflow-entry-profile-missing"@,
        WorkflowStage::SessionKey => "workflow-session-authority-unavailable"@,
        WorkflowStage::BackupKey => "workflow-backup-authority-unavailable"@,
        WorkflowStage::Spawn => "workflow-launch-failed"@,
        WorkflowStage::Confirm => "workflow-launch-unconfirmed"@,
        WorkflowStage::Establish => "workflow-launch-failed"@,
        WorkflowStage::ReadSession => "workflow-session-unavailable"@,
        WorkflowStage::ReadOperations => "workflow-operation-history-unavailable"@,
        WorkflowStage::EnterMode => "workflow-transition-blocked"@,
        WorkflowStage::CancelTransition => "workflow-cancel-blocked"@,
    }
}

impl WorkflowStage {
    /// The code of a stage that failed.
    pub fn code(self) -> (code: &'static str)
        ensures
            code@ == stage_code(self),
    {
        match self {
            WorkflowStage::ValidateDefinition => "workflow-validation-failed",
            WorkflowStage::Discover => "discovery-unavailable",
            WorkflowStage::BuildCatalog => "catalog-unavailable",
            WorkflowStage::LoadProfile => "workflow-profile-unavailable",
            WorkflowStage::CompileProfile => "workflow-profile-invalid",
            WorkflowStage::LoadPolicy => "workflow-policy-unavailable",
            WorkflowStage::CompileLocks => "workflow-policy-invalid",
            WorkflowStage::CompileWorkflow => "workflow-validation-failed",
            WorkflowStage::WorkspaceIdentity => "workspace-identity-unavailable",
            WorkflowStage::BuildProposal => "workflow-proposal-invalid",
            WorkflowStage::CompareProposal => "workflow-proposal-stale",
            WorkflowStage::MaterializeRevision => "workflow-revision-unavailable",
            WorkflowStage::EntryProfile => "workflow-entry-profile-missing",
            WorkflowStage::SessionKey => "workflow-session-authority-unavailable",
            WorkflowStage::BackupKey => "workflow-backup-authority-unavailable",
            WorkflowStage::Spawn => "workflow-launch-failed",
            WorkflowStage::Confirm => "workflow-launch-unconfirmed",
            WorkflowStage::Establish => "workflow-launch-failed",
            WorkflowStage::ReadSession => "workflow-session-unavailable",
            WorkflowStage::ReadOperations => "workflow-operation-history-unavailable",
            WorkflowStage::EnterMode => "workflow-transition-blocked",
            WorkflowStage::CancelTransition => "workflow-cancel-blocked",
        }
    }
}

/// Loading and compiling each of the profiles.
pub open spec fn profile_stages(profiles: nat) -> Seq<WorkflowStage>
    decreases profiles,
{
    if profiles == 0 {
        seq![]
    } else {
        profile_stages((profiles - 1) as nat) + seq![
            WorkflowStage::LoadProfile,
            WorkflowStage::CompileProfile,
        ]
    }
}

/// The stages of compiling a workflow with this many profiles.
pub open spec fn compile_stages_for(profiles: nat) -> Seq<WorkflowStage> {
    seq![
        WorkflowStage::ValidateDefinition,
        WorkflowStage::Discover,
        WorkflowStage::BuildCatalog,
    ] + profile_stages(profiles) + seq![
        WorkflowStage::LoadPolicy,
        WorkflowStage::CompileLocks,
        WorkflowStage::CompileWorkflow,
    ]
}

/// The stages of proposing a workflow.
pub open spec fn proposal_stages_for(profiles: nat) -> Seq<WorkflowStage> {
    compile_stages_for(profiles) + seq![
        WorkflowStage::WorkspaceIdentity,
        WorkflowStage::Discover,
        WorkflowStage::BuildCatalog,
        WorkflowStage::BuildProposal,
    ]
}

/// The stages of launching a workflow, up to the session.
pub open spec fn launch_stages_for(profiles: nat) -> Seq<WorkflowStage> {
    compile_stages_for(profiles) + seq![
        WorkflowStage::WorkspaceIdentity,
        WorkflowStage::Discover,
        WorkflowStage::BuildCatalog,
        WorkflowStage::CompareProposal,
        WorkflowStage::MaterializeRevision,
        WorkflowStage::LoadPolicy,
        WorkflowStage::CompileLocks,
        WorkflowStage::EntryProfile,
        WorkflowStage::SessionKey,
        WorkflowStage::BackupKey,
        WorkflowStage::WorkspaceIdentity,
        WorkflowStage::Spawn,
        WorkflowStage::Confirm,
        WorkflowStage::Establish,
    ]
}

/// The stages of compiling a workflow with this many profiles.
pub fn compile_stages(profiles: usize) -> (stages: Vec<WorkflowStage>)
    ensures
        stages@ == compile_stages_for(profiles as nat),
{
    let mut stages: Vec<WorkflowStage> = Vec::new();
    stages.push(WorkflowStage::ValidateDefinition);
    stages.push(WorkflowStage::Discover);
    stages.push(WorkflowStage::BuildCatalog);
    let ghost start = stages@;
    assert(start =~= seq![
        WorkflowStage::ValidateDefinition,
        WorkflowStage::Discover,
        WorkflowStage::BuildCatalog,
    ]);
    let mut i: usize = 0;
    assert(stages@ =~= start + profile_stages(0));
    while i < profiles
        invariant
            i <= profiles,
            stages@ == start + profile_stages(i as nat),
        decreases profiles - i,
    {
        stages.push(WorkflowStage::LoadProfile);
        stages.push(WorkflowStage::CompileProfile);
        i = i + 1;
        assert(stages@ =~= start + profile_stages(i as nat));
    }
    stages.push(WorkflowStage::LoadPolicy);
    stages.push(WorkflowStage::CompileLocks);
    stages.push(WorkflowStage::CompileWorkflow);
    assert(stages@ =~= compile_stages_for(profiles as nat));
    stages
}

/// The stages of proposing a workflow.
pub fn proposal_stages(profiles: usize) -> (stages: Vec<WorkflowStage>)
    ensures
        stages@ == proposal_stages_for(profiles as nat),
{
    let mut stages = compile_stages(profiles);
    stages.push(WorkflowStage::WorkspaceIdentity);
    stages.push(WorkflowStage::Discover);
    stages.push(WorkflowStage::BuildCatalog);
    stages.push(WorkflowStage::BuildProposal);
    assert(stages@ =~= proposal_stages_for(profiles as nat));
    stages
}

/// The stages of launching a workflow, up to the session.
pub fn launch_stages(profiles: usize) -> (stages: Vec<WorkflowStage>)
    ensures
        stages@ == launch_stages_for(profiles as nat),
{
    let mut stages = compile_stages(profiles);
    stages.push(WorkflowStage::WorkspaceIdentity);
    stages.push(WorkflowStage::Discover);
    stages.push(WorkflowStage::BuildCatalog);
    stages.push(WorkflowStage::CompareProposal);
    stages.push(WorkflowStage::MaterializeRevision);
    stages.push(WorkflowStage::LoadPolicy);
    stages.push(WorkflowStage::CompileLocks);
    stages.push(WorkflowStage::EntryProfile);
    stages.push(WorkflowStage::SessionKey);
    stages.push(WorkflowStage::BackupKey);
    stages.push(WorkflowStage::WorkspaceIdentity);
    stages.push(WorkflowStage::Spawn);
    stages.push(WorkflowStage::Confirm);
    stages.push(WorkflowStage::Establish);
    assert(stages@ =~= launch_stages_for(profiles as nat));
    stages
}

/// What follows a stage: the next one, the end, or the code that answers the
/// request.
pub open spec fn stage_outcome(stages: Seq<WorkflowStage>, at: int, done: bool) -> Result<
    Option<int>,
    Seq<char>,
> {
    if !done {
        Err(stage_code(stages[at]))
    } else if at + 1 < stages.len() {
        Ok(Some(at + 1))
    } else {
        Ok(None)
    }
}

/// What follows a stage.
pub fn next_stage(stages: &Vec<WorkflowStage>, at: usize, done: bool) -> (r: Result<
    Option<usize>,
    &'static str,
>)
    requires
        at < stages@.len(),
    ensures
        match (stage_outcome(stages@, at as int, done), r) {
            (Err(code), Err(given)) => given@ == code,
            (Ok(Some(next)), Ok(Some(given))) => given == next,
            (Ok(None), Ok(None)) => true,
            _ => false,
        },
{
    if !done {
        return Err(stages[at].code());
    }
    let count: usize = stages.len();
    if at < count - 1 {
        Ok(Some(at + 1))
    } else {
        Ok(None)
    }
}

/// The profiles that a workflow needs: of its baseline and of its modes, each
/// once, in order.
pub open spec fn needed_profiles(
    baseline_profile_id: Seq<char>,
    modes: Seq<(Seq<char>, Seq<char>)>,
) -> Seq<Seq<char>> {
    text_set(seq![baseline_profile_id] + Seq::new(modes.len(), |i: int| modes[i].1))
}

/// The profiles that a workflow needs.
pub fn workflow_profile_ids(baseline_profile_id: &str, modes: &Vec<WorkflowModeDraft>) -> (ids: Vec<
    String,
>)
    ensures
        string_views(ids@) == needed_profiles(baseline_profile_id@, mode_views(modes@)),
{
    let mut ids: Vec<String> = Vec::new();
    ids.push(baseline_profile_id.to_owned());
    let ghost views = mode_views(modes@);
    let ghost all = seq![baseline_profile_id@] + Seq::new(views.len(), |i: int| views[i].1);
    let mut i: usize = 0;
    while i < modes.len()
        invariant
            i <= modes@.len(),
            views == mode_views(modes@),
            all == seq![baseline_profile_id@] + Seq::new(views.len(), |i: int| views[i].1),
            ids@.len() == i + 1,
            forall|j: int| 0 <= j < ids@.len() ==> (#[trigger] ids@[j])@ == all[j],
        decreases modes@.len() - i,
    {
        ids.push(modes[i].profile_id.clone());
        i = i + 1;
    }
    assert(string_views(ids@) =~= all);
    distinct_texts(&ids)
}

/// What is said of a profile that a workflow needs and that is not there.
pub fn missing_profile(profile_id: &str) -> (message: String)
    ensures
        message@ == "profile not found: "@ + profile_id@,
{
    joined("profile not found: ", profile_id)
}

/// What the workspace said of a profile.
#[derive(Debug, Clone, Copy, PartialEq, Eq, Structural)]
pub enum WorkspaceProfile {
    Unreadable,
    Missing,
    Present,
}

/// Where a profile is taken from.
#[derive(Debug, Clone, Copy, PartialEq, Eq, Structural)]
pub enum ProfileOrigin {
    Workspace,
    Global,
}

/// Where a profile is taken from: the workspace, or the global store where the
/// workspace has none. A global store that cannot be read has none either.
pub fn profile_origin(workspace: WorkspaceProfile, global_present: bool) -> (r: Result<
    ProfileOrigin,
    &'static str,
>)
    ensures
        match workspace {
            WorkspaceProfile::Present => r is Ok && r->Ok_0 is Workspace,
            WorkspaceProfile::Missing => if global_present {
                r is Ok && r->Ok_0 is Global
            } else {
                r is Err && r->Err_0@ == stage_code(WorkflowStage::LoadProfile)
            },
            WorkspaceProfile::Unreadable => r is Err && r->Err_0@ == stage_code(
                WorkflowStage::LoadProfile,
            ),
        },
{
    match workspace {
        WorkspaceProfile::Present => Ok(ProfileOrigin::Workspace),
        WorkspaceProfile::Missing => {
            if global_present {
                Ok(ProfileOrigin::Global)
            } else {
                Err(WorkflowStage::LoadProfile.code())
            }
        },
        WorkspaceProfile::Unreadable => Err(WorkflowStage::LoadProfile.code()),
    }
}

/// Under which name a proposal owns the revision that is launched.
pub fn launch_owner(proposal_id: &str) -> (name: String)
    ensures
        name@ == "desktop-workflow-"@ + proposal_id@,
{
    joined("desktop-workflow-", proposal_id)
}

/// What a session is told of the workflow that it runs.
pub struct WorkflowLaunch {
    pub workflow_id: String,
    pub workflow_revision: String,
    pub entry_mode: String,
    pub catalog_revision: String,
    pub proposal_id: String,
    pub proposal_fingerprint: String,
    pub prompt_digest: String,
    pub capability_count: u64,
}

/// Whether a session is told of a proposal what was reviewed.
pub open spec fn launches_proposal(launch: WorkflowLaunch, proposal: ProposalView) -> bool {
    &&& launch.workflow_id@ == proposal.workflow_id
    &&& launch.workflow_revision@ == proposal.workflow_revision
    &&& launch.entry_mode@ == proposal.entry_mode
    &&& launch.catalog_revision@ == proposal.catalog_revision
    &&& launch.proposal_id@ == proposal.proposal_id
    &&& launch.proposal_fingerprint@ == proposal.proposal_fingerprint
    &&& launch.prompt_digest@ == proposal.prompt_digest
    &&& launch.capability_count == proposal.capability_count
}

/// What a session is told of the workflow that it runs.
pub fn workflow_launch(proposal: &WorkflowProposal) -> (launch: WorkflowLaunch)
    ensures
        launches_proposal(launch, proposal@),
{
    WorkflowLaunch {
        workflow_id: proposal.workflow_id.clone(),
        workflow_revision: proposal.workflow_revision.clone(),
        entry_mode: proposal.entry_mode.clone(),
        catalog_revision: proposal.catalog_revision.clone(),
        proposal_id: proposal.proposal_id.clone(),
        proposal_fingerprint: proposal.proposal_fingerprint.clone(),
        prompt_digest: proposal.prompt_digest.clone(),
        capability_count: proposal.capability_count,
    }
}

/// How long a session may take to be established, in seconds.
pub const LAUNCH_TIMEOUT_SECONDS: u64 = 15;

/// What a session is pinned to when it starts: the profile of a mode, under the
/// digest of the workflow.
pub open spec fn pin_of(
    profiles: Seq<EffectiveProfile>,
    mode: Seq<char>,
    revision_digest: Seq<char>,
) -> Option<PinnedView>
    decreases profiles.len(),
{
    if profiles.len() == 0 {
        None
    } else if profiles.first().mode@ == mode {
        Some(
            PinnedView::Profile {
                profile_id: profiles.first().profile_id@,
                profile_digest: profiles.first().digest@,
                origin_scope: ProfileSourceScope::Session,
                definition_digest: revision_digest,
            },
        )
    } else {
        pin_of(profiles.drop_first(), mode, revision_digest)
    }
}

/// What a session is pinned to when it starts: the profile of the mode in which
/// the workflow is entered.
pub fn pinned_entry(compiled: &CompiledWorkflow) -> (r: Result<PinnedProfile, WorkflowStage>)
    ensures
        match pin_of(compiled.profiles@, compiled.entry_mode@, compiled.revision_digest@) {
            Some(pinned) => r is Ok && r->Ok_0@ == pinned,
            None => r == Err::<PinnedProfile, WorkflowStage>(WorkflowStage::EntryProfile),
        },
{
    let profiles = &compiled.profiles;
    let mut i: usize = 0;
    assert(profiles@.skip(0) =~= profiles@);
    while i < profiles.len()
        invariant
            i <= profiles@.len(),
            profiles@ == compiled.profiles@,
            pin_of(profiles@.skip(i as int), compiled.entry_mode@, compiled.revision_digest@)
                == pin_of(profiles@, compiled.entry_mode@, compiled.revision_digest@),
        decreases profiles@.len() - i,
    {
        assert(profiles@.skip(i as int).drop_first() =~= profiles@.skip(i as int + 1));
        if same_text(profiles[i].mode.as_str(), compiled.entry_mode.as_str()) {
            return Ok(
                PinnedProfile::Profile {
                    profile_id: profiles[i].profile_id.clone(),
                    profile_digest: profiles[i].digest.clone(),
                    origin_scope: ProfileSourceScope::Session,
                    definition_digest: compiled.revision_digest.clone(),
                },
            );
        }
        i = i + 1;
    }
    Err(WorkflowStage::EntryProfile)
}

/// What a session exposes from its start: the revision, and the profile that it
/// is pinned to.
pub struct PinnedExposure {
    pub revision: String,
    pub profile: PinnedProfile,
}

/// What a session exposes from its start. Its revision is the digest of the
/// profile of the mode in which the workflow is entered.
pub fn pinned_exposure(compiled: &CompiledWorkflow) -> (r: Result<PinnedExposure, WorkflowStage>)
    ensures
        match pin_of(compiled.profiles@, compiled.entry_mode@, compiled.revision_digest@) {
            Some(pinned) => r is Ok && r->Ok_0.profile@ == pinned && pinned is Profile
                && r->Ok_0.revision@ == pinned->profile_digest,
            None => r == Err::<PinnedExposure, WorkflowStage>(WorkflowStage::EntryProfile),
        },
{
    proof {
        lemma_pins_a_profile(compiled.profiles@, compiled.entry_mode@, compiled.revision_digest@);
    }
    match pinned_entry(compiled) {
        Err(stage) => Err(stage),
        Ok(profile) => {
            let revision = match &profile {
                PinnedProfile::Profile { profile_digest, .. } => profile_digest.clone(),
                _ => return Err(WorkflowStage::EntryProfile),
            };
            Ok(PinnedExposure { revision, profile })
        },
    }
}

proof fn lemma_pins_a_profile(
    profiles: Seq<EffectiveProfile>,
    mode: Seq<char>,
    revision_digest: Seq<char>,
)
    ensures
        match pin_of(profiles, mode, revision_digest) {
            Some(pinned) => pinned is Profile && exists|i: int|
                0 <= i < profiles.len() && (#[trigger] profiles[i]).mode@ == mode
                    && profiles[i].digest@ == pinned->profile_digest,
            None => forall|i: int|
                0 <= i < profiles.len() ==> (#[trigger] profiles[i]).mode@ != mode,
        },
    decreases profiles.len(),
{
    if profiles.len() > 0 {
        let rest = profiles.drop_first();
        lemma_pins_a_profile(rest, mode, revision_digest);
        if profiles[0].mode@ != mode {
            match pin_of(rest, mode, revision_digest) {
                Some(pinned) => {
                    let i = choose|i: int|
                        0 <= i < rest.len() && (#[trigger] rest[i]).mode@ == mode
                            && rest[i].digest@ == pinned->profile_digest;
                    assert(profiles[i + 1] == rest[i]);
                },
                None => {
                    assert forall|i: int| 0 <= i < profiles.len() implies (
                    #[trigger] profiles[i]).mode@ != mode by {
                        if i > 0 {
                            assert(rest[i - 1] == profiles[i]);
                        }
                    }
                },
            }
        }
    }
}

/// Records a session that was launched: it becomes the one of the bridge, and
/// its proposal is spent.
pub fn record_launch(
    launches: &mut TextMap<ReviewedWorkflowLaunch>,
    session: &mut Option<String>,
    proposal_id: &str,
    session_id: &str,
)
    requires
        old(launches).wf(),
    ensures
        final(launches).wf(),
        final(launches)@ == old(launches)@.remove(proposal_id@),
        optional(*final(session)) == Some(session_id@),
{
    *session = Some(session_id.to_owned());
    launches.remove(proposal_id);
}

/// How an exposure is live.
#[derive(Debug, Clone, Copy, PartialEq, Eq, Structural)]
pub enum LiveExposureStatus {
    ReloadRequired,
    NextSessionOnly,
    Unknown,
    Other,
}

/// A mode and the revision of its profile.
pub struct ModeRevision {
    pub mode: String,
    pub revision: String,
}

/// Whether the modes are in the order of their names, each once.
pub open spec fn modes_in_order(revisions: Seq<ModeRevision>) -> bool {
    forall|i: int, j: int|
        0 <= i < j < revisions.len() ==> text_lt(
            (#[trigger] revisions[i]).mode@,
            (#[trigger] revisions[j]).mode@,
        )
}

/// The workflow that a session runs; its modes are in the order of their
/// names, each once, as `modes_in_order` says.
pub struct LeaseWorkflow {
    pub workflow_id: String,
    pub proposal_id: String,
    pub active_mode: String,
    pub profile_revisions: Vec<ModeRevision>,
}

/// A session as its lease shows it.
pub struct WorkflowLease {
    pub session_id: String,
    pub repository_key: String,
    pub workspace_key: String,
    pub active: bool,
    pub workflow: Option<LeaseWorkflow>,
    pub desired_revision: String,
    pub observed_revision: String,
    /// Whether what is desired is what is observed, in every respect.
    pub exposures_agree: bool,
    pub live: LiveExposureStatus,
    pub live_status: Json,
    pub state_sequence: u64,
    pub admission_open: bool,
}

/// The first mode with a revision.
pub open spec fn mode_with(revisions: Seq<ModeRevision>, revision: Seq<char>) -> Option<Seq<char>>
    decreases revisions.len(),
{
    if revisions.len() == 0 {
        None
    } else if revisions[0].revision@ == revision {
        Some(revisions[0].mode@)
    } else {
        mode_with(revisions.skip(1), revision)
    }
}

/// The mode that is observed: the first one whose revision is exposed.
pub open spec fn observed_mode(lease: WorkflowLease) -> Option<Seq<char>> {
    match lease.workflow {
        None => None,
        Some(workflow) => mode_with(workflow.profile_revisions@, lease.observed_revision@),
    }
}

/// The mode that is observed, whatever mode is wanted.
pub fn observed_workflow_mode(lease: &WorkflowLease) -> (mode: Option<&str>)
    ensures
        found_text(mode) == observed_mode(*lease),
{
    match &lease.workflow {
        None => None,
        Some(workflow) => {
            let revisions = &workflow.profile_revisions;
            let mut i: usize = 0;
            assert(revisions@.skip(0) =~= revisions@);
            while i < revisions.len()
                invariant
                    i <= revisions@.len(),
                    observed_mode(*lease) == mode_with(
                        revisions@.skip(i as int),
                        lease.observed_revision@,
                    ),
                decreases revisions@.len() - i,
            {
                assert(revisions@.skip(i as int)[0] == revisions@[i as int]);
                if same_text(revisions[i].revision.as_str(), lease.observed_revision.as_str()) {
                    return Some(revisions[i].mode.as_str());
                }
                assert(revisions@.skip(i as int).skip(1) =~= revisions@.skip(i + 1));
                i = i + 1;
            }
            None
        },
    }
}

proof fn lemma_mode_with(revisions: Seq<ModeRevision>, revision: Seq<char>)
    ensures
        match mode_with(revisions, revision) {
            None => forall|j: int|
                0 <= j < revisions.len() ==> (#[trigger] revisions[j]).revision@ != revision,
            Some(mode) => exists|i: int|
                0 <= i < revisions.len() && (#[trigger] revisions[i]).revision@ == revision
                    && revisions[i].mode@ == mode && forall|j: int|
                    0 <= j < i ==> (#[trigger] revisions[j]).revision@ != revision,
        },
    decreases revisions.len(),
{
    if revisions.len() > 0 && revisions[0].revision@ != revision {
        let rest = revisions.skip(1);
        lemma_mode_with(rest, revision);
        match mode_with(rest, revision) {
            None => {
                assert forall|j: int| 0 <= j < revisions.len() implies (
                #[trigger] revisions[j]).revision@ != revision by {
                    if j > 0 {
                        assert(rest[j - 1] == revisions[j]);
                    }
                }
            },
            Some(mode) => {
                let i = choose|i: int|
                    0 <= i < rest.len() && (#[trigger] rest[i]).revision@ == revision
                        && rest[i].mode@ == mode && forall|j: int|
                        0 <= j < i ==> (#[trigger] rest[j]).revision@ != revision;
                assert(revisions[i + 1] == rest[i]);
                assert forall|j: int| 0 <= j < i + 1 implies (
                #[trigger] revisions[j]).revision@ != revision by {
                    if j > 0 {
                        assert(rest[j - 1] == revisions[j]);
                    }
                }
            },
        }
    }
}

/// Where the modes are in the order of their names, the mode that is observed is
/// the least of those whose revision is exposed; none is observed only where
/// there is none.
pub proof fn law_observed_mode_is_least(lease: WorkflowLease)
    requires
        lease.workflow is Some,
        modes_in_order(lease.workflow->0.profile_revisions@),
    ensures
        ({
            let revisions = lease.workflow->0.profile_revisions@;
            match observed_mode(lease) {
                None => forall|j: int|
                    0 <= j < revisions.len() ==> (#[trigger] revisions[j]).revision@
                        != lease.observed_revision@,
                Some(mode) => {
                    &&& exists|i: int|
                        0 <= i < revisions.len() && (#[trigger] revisions[i]).mode@ == mode
                            && revisions[i].revision@ == lease.observed_revision@
                    &&& forall|j: int|
                        0 <= j < revisions.len() && (#[trigger] revisions[j]).revision@
                            == lease.observed_revision@ ==> text_le(mode, revisions[j].mode@)
                },
            }
        }),
{
    let revisions = lease.workflow->0.profile_revisions@;
    let revision = lease.observed_revision@;
    lemma_mode_with(revisions, revision);
    if let Some(mode) = mode_with(revisions, revision) {
        let i = choose|i: int|
            0 <= i < revisions.len() && (#[trigger] revisions[i]).revision@ == revision
                && revisions[i].mode@ == mode && forall|j: int|
                0 <= j < i ==> (#[trigger] revisions[j]).revision@ != revision;
        lemma_text_le_reflexive(mode);
        assert forall|j: int|
            0 <= j < revisions.len() && (#[trigger] revisions[j]).revision@ == revision implies
        text_le(mode, revisions[j].mode@) by {
            if i < j {
                assert(text_lt(revisions[i].mode@, revisions[j].mode@));
            }
        }
    }
}

/// A session that was launched shows a mode: where its lease lists the modes of
/// the workflow with the digests of their profiles, and exposes the revision
/// that it was launched with, the mode that is observed is the one in which the
/// workflow is entered, or a lesser one with the same profile.
pub proof fn law_launched_mode_is_observed(compiled: CompiledWorkflow, lease: WorkflowLease)
    requires
        pin_of(compiled.profiles@, compiled.entry_mode@, compiled.revision_digest@) is Some,
        lease.workflow is Some,
        modes_in_order(lease.workflow->0.profile_revisions@),
        lists_modes(lease.workflow->0.profile_revisions@, compiled.profiles@),
        lease.observed_revision@ == pin_of(
            compiled.profiles@,
            compiled.entry_mode@,
            compiled.revision_digest@,
        )->0->profile_digest,
    ensures
        observed_mode(lease) is Some,
        text_le(observed_mode(lease)->0, compiled.entry_mode@),
{
    let revisions = lease.workflow->0.profile_revisions@;
    let profiles = compiled.profiles@;
    lemma_pins_a_profile(profiles, compiled.entry_mode@, compiled.revision_digest@);
    law_observed_mode_is_least(lease);
    let i = choose|i: int|
        0 <= i < profiles.len() && (#[trigger] profiles[i]).mode@ == compiled.entry_mode@
            && profiles[i].digest@ == lease.observed_revision@;
    let j = choose|j: int|
        0 <= j < revisions.len() && (#[trigger] revisions[j]).mode@ == profiles[i].mode@
            && revisions[j].revision@ == profiles[i].digest@;
    assert(revisions[j].revision@ == lease.observed_revision@);
}

/// Whether the modes of a lease are those of a workflow, each with the digest of
/// its profile.
pub open spec fn lists_modes(
    revisions: Seq<ModeRevision>,
    profiles: Seq<EffectiveProfile>,
) -> bool {
    forall|i: int|
        0 <= i < profiles.len() ==> exists|j: int|
            0 <= j < revisions.len() && (#[trigger] revisions[j]).mode@ == (
            #[trigger] profiles[i]).mode@ && revisions[j].revision@ == profiles[i].digest@
}

/// Whether a session needs recovery: what is desired is not observed and will
/// not come by itself.
pub open spec fn needs_recovery(lease: WorkflowLease) -> bool {
    !lease.exposures_agree && !(lease.live is Other)
}

/// Whether a session needs recovery.
pub fn workflow_recovery_required(lease: &WorkflowLease) -> (r: bool)
    ensures
        r == needs_recovery(*lease),
{
    !lease.exposures_agree && lease.live != LiveExposureStatus::Other
}

/// Whether a session may be taken for the one of the bridge.
pub open spec fn lease_matches(
    lease: WorkflowLease,
    repository_key: Seq<char>,
    workspace_key: Seq<char>,
) -> bool {
    lease.active && lease.workflow is Some && lease.repository_key@ == repository_key
        && lease.workspace_key@ == workspace_key
}

/// The place of the session with an id.
pub open spec fn is_session_at(
    leases: Seq<WorkflowLease>,
    id: Seq<char>,
    at: Option<usize>,
) -> bool {
    match at {
        Some(i) => i < leases.len() && leases[i as int].session_id@ == id && forall|j: int|
            0 <= j < i ==> (#[trigger] leases[j]).session_id@ != id,
        None => forall|j: int| 0 <= j < leases.len() ==> (#[trigger] leases[j]).session_id@ != id,
    }
}

/// Finds the session with an id.
pub fn find_session(leases: &Vec<WorkflowLease>, id: &str) -> (at: Option<usize>)
    ensures
        is_session_at(leases@, id@, at),
{
    let mut i: usize = 0;
    while i < leases.len()
        invariant
            i <= leases@.len(),
            forall|j: int| 0 <= j < i ==> (#[trigger] leases@[j]).session_id@ != id@,
        decreases leases@.len() - i,
    {
        if same_text(leases[i].session_id.as_str(), id) {
            return Some(i);
        }
        i = i + 1;
    }
    None
}

/// The session of the bridge.
pub fn current_workflow_session(
    leases: &Vec<WorkflowLease>,
    session_id: &Option<String>,
) -> (r: Result<
    usize,
    &'static str,
>)
    ensures
        match *session_id {
            None => r is Err && r->Err_0@ == "workflow-session-unavailable"@,
            Some(id) => match r {
                Ok(at) => is_session_at(leases@, id@, Some(at)),
                Err(code) => code@ == "workflow-session-unavailable"@ && is_session_at(
                    leases@,
                    id@,
                    None,
                ),
            },
        },
{
    match session_id {
        None => Err("workflow-session-unavailable"),
        Some(id) => match find_session(leases, id.as_str()) {
            Some(at) => Ok(at),
            None => Err("workflow-session-unavailable"),
        },
    }
}

/// Finds the session of the bridge, or the one that it may take: an active
/// workflow session of this workspace. Where there is more than one, nothing
/// is chosen.
pub fn discover_current_workflow_session(
    leases: &Vec<WorkflowLease>,
    session_id: &Option<String>,
    repository_key: &str,
    workspace_key: &str,
) -> (r: Result<Option<usize>, &'static str>)
    ensures
        match *session_id {
            Some(id) => r is Ok && is_session_at(leases@, id@, r->Ok_0),
            None => match r {
                Ok(None) => forall|j: int|
                    0 <= j < leases@.len() ==> !lease_matches(
                        #[trigger] leases@[j],
                        repository_key@,
                        workspace_key@,
                    ),
                Ok(Some(at)) => at < leases@.len() && forall|j: int|
                    0 <= j < leases@.len() ==> (lease_matches(
                        #[trigger] leases@[j],
                        repository_key@,
                        workspace_key@,
                    ) <==> j == at),
                Err(code) => code@ == "workflow-session-selection-required"@ && exists|i: int, j: int|
                    0 <= i < j < leases@.len() && lease_matches(
                        #[trigger] leases@[i],
                        repository_key@,
                        workspace_key@,
                    ) && lease_matches(#[trigger] leases@[j], repository_key@, workspace_key@),
            },
        },
{
    if let Some(id) = session_id {
        return Ok(find_session(leases, id.as_str()));
    }
    let mut selected: Option<usize> = None;
    let mut i: usize = 0;
    while i < leases.len()
        invariant
            i <= leases@.len(),
            session_id is None,
            match selected {
                None => forall|j: int|
                    0 <= j < i ==> !lease_matches(
                        #[trigger] leases@[j],
                        repository_key@,
                        workspace_key@,
                    ),
                Some(at) => at < i && forall|j: int|
                    0 <= j < i ==> (lease_matches(
                        #[trigger] leases@[j],
                        repository_key@,
                        workspace_key@,
                    ) <==> j == at),
            },
        decreases leases@.len() - i,
    {
        let lease = &leases[i];
        let found = lease.active && lease.workflow.is_some() && same_text(
            lease.repository_key.as_str(),
            repository_key,
        ) && same_text(lease.workspace_key.as_str(), workspace_key);
        assert(found == lease_matches(leases@[i as int], repository_key@, workspace_key@));
        if found {
            if let Some(at) = selected {
                assert(lease_matches(leases@[at as int], repository_key@, workspace_key@));
                return Err("workflow-session-selection-required");
            }
            selected = Some(i);
        }
        i = i + 1;
    }
    Ok(selected)
}

/// The workflow of a session, as texts that may be missing.
pub open spec fn lease_workflow_text(
    lease: WorkflowLease,
    of: spec_fn(LeaseWorkflow) -> Seq<char>,
) -> Option<Seq<char>> {
    match lease.workflow {
        Some(workflow) => Some(of(workflow)),
        None => None,
    }
}

fn text_value(value: Option<&str>) -> (out: Json)
    ensures
        out@ == text_or_null(found_text(value)),
{
    match value {
        Some(value) => text(value),
        None => Json::Null,
    }
}

/// What is shown of a session.
pub open spec fn session_view(lease: WorkflowLease, operations: Seq<JsonView>) -> JsonView {
    JsonView::Object(
        seq![
            ("sessionId"@, JsonView::Text(lease.session_id@)),
            (
                "workflowId"@,
                text_or_null(lease_workflow_text(lease, |w: LeaseWorkflow| w.workflow_id@)),
            ),
            (
                "proposalId"@,
                text_or_null(lease_workflow_text(lease, |w: LeaseWorkflow| w.proposal_id@)),
            ),
            ("activeMode"@, text_or_null(observed_mode(lease))),
            (
                "desiredMode"@,
                text_or_null(lease_workflow_text(lease, |w: LeaseWorkflow| w.active_mode@)),
            ),
            ("observedMode"@, text_or_null(observed_mode(lease))),
            ("desiredExposureRevision"@, JsonView::Text(lease.desired_revision@)),
            ("observedExposureRevision"@, JsonView::Text(lease.observed_revision@)),
            ("stateSequence"@, JsonView::Unsigned(lease.state_sequence)),
            ("liveStatus"@, lease.live_status@),
            ("admissionOpen"@, JsonView::Bool(lease.admission_open)),
            ("operationHistory"@, JsonView::Array(operations)),
        ],
    )
}

/// What is shown of a session: each part under its own name, and nothing else.
pub proof fn law_shown_session(lease: WorkflowLease, operations: Seq<JsonView>)
    ensures
        ({
            let shown = session_view(lease, operations);
            &&& shows_only(shown, 12)
            &&& shows(shown, "sessionId"@, JsonView::Text(lease.session_id@))
            &&& shows(
                shown,
                "workflowId"@,
                text_or_null(lease_workflow_text(lease, |w: LeaseWorkflow| w.workflow_id@)),
            )
            &&& shows(
                shown,
                "proposalId"@,
                text_or_null(lease_workflow_text(lease, |w: LeaseWorkflow| w.proposal_id@)),
            )
            &&& shows(shown, "activeMode"@, text_or_null(observed_mode(lease)))
            &&& shows(
                shown,
                "desiredMode"@,
                text_or_null(lease_workflow_text(lease, |w: LeaseWorkflow| w.active_mode@)),
            )
            &&& shows(shown, "observedMode"@, text_or_null(observed_mode(lease)))
            &&& shows(shown, "desiredExposureRevision"@, JsonView::Text(lease.desired_revision@))
            &&& shows(
                shown,
                "observedExposureRevision"@,
                JsonView::Text(lease.observed_revision@),
            )
            &&& shows(shown, "stateSequence"@, JsonView::Unsigned(lease.state_sequence))
            &&& shows(shown, "liveStatus"@, lease.live_status@)
            &&& shows(shown, "admissionOpen"@, JsonView::Bool(lease.admission_open))
            &&& shows(shown, "operationHistory"@, JsonView::Array(operations))
        }),
{
    let shown = session_view(lease, operations);
    lemma_shows_all(shown);
    let at = shown->Object_0;
    assert(at[0] == at[0] && at[1] == at[1] && at[2] == at[2] && at[3] == at[3] && at[4] ==
        at[4] && at[5] == at[5] && at[6] == at[6] && at[7] == at[7] && at[8] == at[8] && at[9]
        == at[9] && at[10] == at[10] && at[11] == at[11]);
}

/// What is shown of a session: the mode that is active is the one that is
/// observed.
pub fn workflow_session_value(lease: &WorkflowLease, operations: &Vec<Json>) -> (value: Json)
    ensures
        value@ == session_view(*lease, item_views(operations@)),
{
    let (workflow_id, proposal_id, desired): (Option<&str>, Option<&str>, Option<&str>) =
        match &lease.workflow {
        Some(workflow) => (
            Some(workflow.workflow_id.as_str()),
            Some(workflow.proposal_id.as_str()),
            Some(workflow.active_mode.as_str()),
        ),
        None => (None, None, None),
    };
    let mut out = ObjectBuilder::new();
    out.put_text("sessionId", lease.session_id.as_str());
    out.put("workflowId", text_value(workflow_id));
    out.put("proposalId", text_value(proposal_id));
    out.put("activeMode", text_value(observed_workflow_mode(lease)));
    out.put("desiredMode", text_value(desired));
    out.put("observedMode", text_value(observed_workflow_mode(lease)));
    out.put_text("desiredExposureRevision", lease.desired_revision.as_str());
    out.put_text("observedExposureRevision", lease.observed_revision.as_str());
    out.put("stateSequence", Json::Unsigned(lease.state_sequence));
    out.put("liveStatus", lease.live_status.duplicate());
    out.put("admissionOpen", Json::Bool(lease.admission_open));
    out.put("operationHistory", array(duplicate_items(operations)));
    assert(out@ =~= session_view(*lease, item_views(operations@))->Object_0);
    out.finish()
}

/// What is shown of the state of a session, or of having none.
pub open spec fn status_view(lease: Option<WorkflowLease>) -> JsonView {
    match lease {
        None => JsonView::Object(
            seq![
                ("activeMode"@, JsonView::Null),
                ("desiredMode"@, JsonView::Null),
                ("observedMode"@, JsonView::Null),
                ("stateSequence"@, JsonView::Null),
                ("liveStatus"@, JsonView::Text("no-session"@)),
                ("admissionOpen"@, JsonView::Bool(false)),
                ("recoveryRequired"@, JsonView::Bool(false)),
            ],
        ),
        Some(lease) => JsonView::Object(
            seq![
                ("sessionId"@, JsonView::Text(lease.session_id@)),
                (
                    "workflowId"@,
                    text_or_null(lease_workflow_text(lease, |w: LeaseWorkflow| w.workflow_id@)),
                ),
                ("activeMode"@, text_or_null(observed_mode(lease))),
                (
                    "desiredMode"@,
                    text_or_null(lease_workflow_text(lease, |w: LeaseWorkflow| w.active_mode@)),
                ),
                ("observedMode"@, text_or_null(observed_mode(lease))),
                ("stateSequence"@, JsonView::Unsigned(lease.state_sequence)),
                ("liveStatus"@, lease.live_status@),
                ("admissionOpen"@, JsonView::Bool(lease.admission_open)),
                ("recoveryRequired"@, JsonView::Bool(needs_recovery(lease))),
            ],
        ),
    }
}

/// What an optional reference refers to.
pub open spec fn seen_lease(lease: Option<&WorkflowLease>) -> Option<WorkflowLease> {
    match lease {
        Some(lease) => Some(*lease),
        None => None,
    }
}

/// What is shown of the state of a session, or of having none.
pub fn workflow_status_value(lease: Option<&WorkflowLease>) -> (value: Json)
    ensures
        value@ == status_view(seen_lease(lease)),
{
    let mut out = ObjectBuilder::new();
    match lease {
        None => {
            out.put("activeMode", Json::Null);
            out.put("desiredMode", Json::Null);
            out.put("observedMode", Json::Null);
            out.put("stateSequence", Json::Null);
            out.put_text("liveStatus", "no-session");
            out.put("admissionOpen", Json::Bool(false));
            out.put("recoveryRequired", Json::Bool(false));
        },
        Some(lease) => {
            let (workflow_id, desired): (Option<&str>, Option<&str>) = match &lease.workflow {
                Some(workflow) => (
                    Some(workflow.workflow_id.as_str()),
                    Some(workflow.active_mode.as_str()),
                ),
                None => (None, None),
            };
            out.put_text("sessionId", lease.session_id.as_str());
            out.put("workflowId", text_value(workflow_id));
            out.put("activeMode", text_value(observed_workflow_mode(lease)));
            out.put("desiredMode", text_value(desired));
            out.put("observedMode", text_value(observed_workflow_mode(lease)));
            out.put("stateSequence", Json::Unsigned(lease.state_sequence));
            out.put("liveStatus", lease.live_status.duplicate());
            out.put("admissionOpen", Json::Bool(lease.admission_open));
            out.put("recoveryRequired", Json::Bool(workflow_recovery_required(lease)));
        },
    }
    assert(out@ =~= status_view(seen_lease(lease))->Object_0);
    out.finish()
}

/// A transition that a request asks for.
pub struct TransitionRequest {
    pub operation_id: String,
    pub operation_fingerprint: String,
    pub source_state_sequence: u64,
    pub target_mode: String,
    pub requested_at_unix: i64,
}

pub struct TransitionView {
    pub operation_id: Seq<char>,
    pub operation_fingerprint: Seq<char>,
    pub source_state_sequence: u64,
    pub target_mode: Seq<char>,
    pub requested_at_unix: i64,
}

impl View for TransitionRequest {
    type V = TransitionView;

    open spec fn view(&self) -> TransitionView {
        TransitionView {
            operation_id: self.operation_id@,
            operation_fingerprint: self.operation_fingerprint@,
            source_state_sequence: self.source_state_sequence,
            target_mode: self.target_mode@,
            requested_at_unix: self.requested_at_unix,
        }
    }
}

/// Whether a workflow has a mode.
pub open spec fn has_mode(revisions: Seq<ModeRevision>, mode: Seq<char>) -> bool {
    exists|i: int| 0 <= i < revisions.len() && (#[trigger] revisions[i]).mode@ == mode
}

/// The parameters of a transition.
pub open spec fn transition_keys() -> Seq<Seq<char>> {
    seq![
        "operationId"@,
        "operationFingerprint"@,
        "sourceStateSequence"@,
        "targetMode"@,
        "requestedAtUnix"@,
    ]
}

/// The transition in the parameters, for a session that was read with this
/// result.
pub open spec fn transition_in(
    session_known: bool,
    lease: Result<WorkflowLease, Seq<char>>,
    params: JsonView,
) -> Result<TransitionView, Seq<char>> {
    match params_error(params, transition_keys()) {
        Some(code) => Err(code),
        None => if !session_known {
            Err("workflow-session-unavailable"@)
        } else {
            match (required_text(params, "targetMode"@), lease) {
                (Err(code), _) => Err(code),
                (Ok(_), Err(code)) => Err(code),
                (Ok(mode), Ok(lease)) => match lease.workflow {
                    None => Err("workflow-session-unavailable"@),
                    Some(workflow) => if !has_mode(workflow.profile_revisions@, mode) {
                        Err("workflow-expansion-requires-review"@)
                    } else {
                        match (
                            unsigned_in(field(params, "sourceStateSequence"@)),
                            signed_in(field(params, "requestedAtUnix"@)),
                            required_text(params, "operationId"@),
                            required_text(params, "operationFingerprint"@),
                        ) {
                            (None, _, _, _) => Err("invalid-workflow-transition"@),
                            (Some(_), None, _, _) => Err("invalid-workflow-transition"@),
                            (Some(_), Some(_), Err(code), _) => Err(code),
                            (Some(_), Some(_), Ok(_), Err(code)) => Err(code),
                            (Some(sequence), Some(at), Ok(id), Ok(fingerprint)) => Ok(
                                TransitionView {
                                    operation_id: id,
                                    operation_fingerprint: fingerprint,
                                    source_state_sequence: sequence,
                                    target_mode: mode,
                                    requested_at_unix: at,
                                },
                            ),
                        }
                    },
                },
            }
        },
    }
}

fn knows_mode(revisions: &Vec<ModeRevision>, mode: &str) -> (r: bool)
    ensures
        r == has_mode(revisions@, mode@),
{
    let mut i: usize = 0;
    while i < revisions.len()
        invariant
            i <= revisions@.len(),
            forall|j: int| 0 <= j < i ==> (#[trigger] revisions@[j]).mode@ != mode@,
        decreases revisions@.len() - i,
    {
        if same_text(revisions[i].mode.as_str(), mode) {
            return true;
        }
        i = i + 1;
    }
    false
}

/// What the read of a session came to.
pub open spec fn read_lease(lease: Result<&WorkflowLease, &'static str>) -> Result<
    WorkflowLease,
    Seq<char>,
> {
    match lease {
        Ok(lease) => Ok(*lease),
        Err(code) => Err(code@),
    }
}

/// Reads a transition: only to a mode that the workflow was launched with.
pub fn transition_workflow(
    session_known: bool,
    lease: Result<&WorkflowLease, &'static str>,
    params: &Json,
) -> (r: Result<TransitionRequest, &'static str>)
    ensures
        coded(r) == transition_in(session_known, read_lease(lease), params@),
        r is Ok ==> {
            &&& field(params@, "targetMode"@) == Some(JsonView::Text(r->Ok_0.target_mode@))
            &&& field(params@, "operationId"@) == Some(JsonView::Text(r->Ok_0.operation_id@))
            &&& field(params@, "operationFingerprint"@) == Some(
                JsonView::Text(r->Ok_0.operation_fingerprint@),
            )
            &&& field(params@, "sourceStateSequence"@) == Some(
                JsonView::Unsigned(r->Ok_0.source_state_sequence),
            )
            &&& signed_in(field(params@, "requestedAtUnix"@)) == Some(r->Ok_0.requested_at_unix)
        },
{
    let allowed: [&'static str; 5] = [
        "operationId",
        "operationFingerprint",
        "sourceStateSequence",
        "targetMode",
        "requestedAtUnix",
    ];
    assert(texts(allowed@) =~= transition_keys());
    if let Err(code) = require_only_params(params, allowed.as_slice()) {
        return Err(code);
    }
    if !session_known {
        return Err("workflow-session-unavailable");
    }
    let mode = match required_string(params, "targetMode") {
        Ok(mode) => mode,
        Err(code) => return Err(code),
    };
    let lease = match lease {
        Ok(lease) => lease,
        Err(code) => return Err(code),
    };
    match &lease.workflow {
        None => return Err("workflow-session-unavailable"),
        Some(workflow) => {
            if !knows_mode(&workflow.profile_revisions, mode) {
                return Err("workflow-expansion-requires-review");
            }
        },
    }
    let source_state_sequence: u64 = match unsigned_field(params, "sourceStateSequence") {
        Some(sequence) => sequence,
        None => return Err("invalid-workflow-transition"),
    };
    let requested_at_unix: i64 = match signed_field(params, "requestedAtUnix") {
        Some(at) => at,
        None => return Err("invalid-workflow-transition"),
    };
    let operation_id = match required_string(params, "operationId") {
        Ok(id) => id,
        Err(code) => return Err(code),
    };
    let operation_fingerprint = match required_string(params, "operationFingerprint") {
        Ok(fingerprint) => fingerprint,
        Err(code) => return Err(code),
    };
    Ok(
        TransitionRequest {
            operation_id: operation_id.to_owned(),
            operation_fingerprint: operation_fingerprint.to_owned(),
            source_state_sequence,
            target_mode: mode.to_owned(),
            requested_at_unix,
        },
    )
}

/// The transition in a request to cancel one.
pub open spec fn cancelled_in(
    params: JsonView,
    session_known: bool,
) -> Result<Seq<char>, Seq<char>> {
    match params_error(params, seq!["operationId"@]) {
        Some(code) => Err(code),
        None => match required_text(params, "operationId"@) {
            Err(code) => Err(code),
            Ok(id) => if session_known {
                Ok(id)
            } else {
                Err("workflow-session-unavailable"@)
            },
        },
    }
}

/// Reads which transition is to be cancelled.
pub fn cancel_workflow_transition(params: &Json, session_known: bool) -> (r: Result<
    String,
    &'static str,
>)
    ensures
        coded(r) == cancelled_in(params@, session_known),
{
    let allowed: [&'static str; 1] = ["operationId"];
    assert(texts(allowed@) =~= seq!["operationId"@]);
    if let Err(code) = require_only_params(params, allowed.as_slice()) {
        return Err(code);
    }
    match required_string(params, "operationId") {
        Err(code) => Err(code),
        Ok(id) => {
            if session_known {
                Ok(id.to_owned())
            } else {
                Err("workflow-session-unavailable")
            }
        },
    }
}

/// The response to a launch.
pub open spec fn launched_view(
    session_id: Seq<char>,
    lease: WorkflowLease,
    operations: Seq<JsonView>,
) -> JsonView {
    JsonView::Object(
        seq![
            ("status"@, JsonView::Text("launched"@)),
            ("sessionId"@, JsonView::Text(session_id)),
            ("session"@, session_view(lease, operations)),
            ("nextAction"@, JsonView::Text("inspect-workflow-status"@)),
        ],
    )
}

/// The response to a launch: each part under its own name, and nothing else.
pub proof fn law_shown_launched(
    session_id: Seq<char>,
    lease: WorkflowLease,
    operations: Seq<JsonView>,
)
    ensures
        ({
            let shown = launched_view(session_id, lease, operations);
            &&& shows_only(shown, 4)
            &&& shows(shown, "status"@, JsonView::Text("launched"@))
            &&& shows(shown, "sessionId"@, JsonView::Text(session_id))
            &&& shows(shown, "session"@, session_view(lease, operations))
            &&& shows(shown, "nextAction"@, JsonView::Text("inspect-workflow-status"@))
        }),
{
    let shown = launched_view(session_id, lease, operations);
    lemma_shows_all(shown);
    let at = shown->Object_0;
    assert(at[0] == at[0] && at[1] == at[1] && at[2] == at[2] && at[3] == at[3]);
}

/// The response to a launch.
pub fn launched_workflow(session_id: &str, lease: &WorkflowLease, operations: &Vec<Json>) -> (value:
    Json)
    ensures
        value@ == launched_view(session_id@, *lease, item_views(operations@)),
{
    let mut out = ObjectBuilder::new();
    out.put_text("status", "launched");
    out.put_text("sessionId", session_id);
    out.put("session", workflow_session_value(lease, operations));
    out.put_text("nextAction", "inspect-workflow-status");
    assert(out@ =~= launched_view(session_id@, *lease, item_views(operations@))->Object_0);
    out.finish()
}

/// What a gateway answered: its result, or all that it said.
pub open spec fn gateway_result(answer: JsonView) -> JsonView {
    match field(answer, "result"@) {
        Some(result) => result,
        None => answer,
    }
}

/// The response to a transition.
pub open spec fn transitioned_view(
    answer: JsonView,
    lease: WorkflowLease,
    operations: Seq<JsonView>,
) -> JsonView {
    JsonView::Object(
        seq![
            ("result"@, gateway_result(answer)),
            ("session"@, session_view(lease, operations)),
            ("status"@, status_view(Some(lease))),
        ],
    )
}

/// The response to a transition: each part under its own name, and nothing
/// else.
pub proof fn law_shown_transitioned(
    answer: JsonView,
    lease: WorkflowLease,
    operations: Seq<JsonView>,
)
    ensures
        ({
            let shown = transitioned_view(answer, lease, operations);
            &&& shows_only(shown, 3)
            &&& shows(shown, "result"@, gateway_result(answer))
            &&& shows(shown, "session"@, session_view(lease, operations))
            &&& shows(shown, "status"@, status_view(Some(lease)))
        }),
{
    let shown = transitioned_view(answer, lease, operations);
    lemma_shows_all(shown);
    let at = shown->Object_0;
    assert(at[0] == at[0] && at[1] == at[1] && at[2] == at[2]);
}

/// The response to a transition.
pub fn transitioned_workflow(
    answer: &Json,
    lease: &WorkflowLease,
    operations: &Vec<Json>,
) -> (value:
    Json)
    ensures
        value@ == transitioned_view(answer@, *lease, item_views(operations@)),
{
    let result = match answer.get("result") {
        Some(result) => result.duplicate(),
        None => answer.duplicate(),
    };
    let mut out = ObjectBuilder::new();
    out.put("result", result);
    out.put("session", workflow_session_value(lease, operations));
    out.put("status", workflow_status_value(Some(lease)));
    assert(out@ =~= transitioned_view(answer@, *lease, item_views(operations@))->Object_0);
    out.finish()
}

/// The response to a cancellation.
pub open spec fn cancelled_view(
    operation_id: Seq<char>,
    lease: WorkflowLease,
    operations: Seq<JsonView>,
) -> JsonView {
    JsonView::Object(
        seq![
            ("status"@, JsonView::Text("cancelled"@)),
            ("operationId"@, JsonView::Text(operation_id)),
            ("session"@, session_view(lease, operations)),
        ],
    )
}

/// The response to a cancellation: each part under its own name, and nothing
/// else.
pub proof fn law_shown_cancelled(
    operation_id: Seq<char>,
    lease: WorkflowLease,
    operations: Seq<JsonView>,
)
    ensures
        ({
            let shown = cancelled_view(operation_id, lease, operations);
            &&& shows_only(shown, 3)
            &&& shows(shown, "status"@, JsonView::Text("cancelled"@))
            &&& shows(shown, "operationId"@, JsonView::Text(operation_id))
            &&& shows(shown, "session"@, session_view(lease, operations))
        }),
{
    let shown = cancelled_view(operation_id, lease, operations);
    lemma_shows_all(shown);
    let at = shown->Object_0;
    assert(at[0] == at[0] && at[1] == at[1] && at[2] == at[2]);
}

/// The response to a cancellation.
pub fn cancelled_transition(
    operation_id: &str,
    lease: &WorkflowLease,
    operations: &Vec<Json>,
) -> (value:
    Json)
    ensures
        value@ == cancelled_view(operation_id@, *lease, item_views(operations@)),
{
    let mut out = ObjectBuilder::new();
    out.put_text("status", "cancelled");
    out.put_text("operationId", operation_id);
    out.put("session", workflow_session_value(lease, operations));
    assert(out@ =~= cancelled_view(operation_id@, *lease, item_views(operations@))->Object_0);
    out.finish()
}

/// Takes a session that was found for the one of the bridge, where it has none.
pub fn adopt_session(session: &mut Option<String>, lease: Option<&WorkflowLease>)
    ensures
        optional(*final(session)) == match *old(session) {
            Some(id) => Some(id@),
            None => match seen_lease(lease) {
                Some(lease) => Some(lease.session_id@),
                None => None,
            },
        },
{
    if session.is_none() {
        match lease {
            Some(lease) => *session = Some(lease.session_id.clone()),
            None => {},
        }
    }
}

/// The response to an observation.
pub open spec fn observed_view(lease: WorkflowLease, operations: Seq<JsonView>) -> JsonView {
    JsonView::Object(
        seq![
            ("session"@, session_view(lease, operations)),
            ("status"@, status_view(Some(lease))),
        ],
    )
}

/// The response to an observation: each part under its own name, and nothing
/// else.
pub proof fn law_shown_observed(lease: WorkflowLease, operations: Seq<JsonView>)
    ensures
        ({
            let shown = observed_view(lease, operations);
            &&& shows_only(shown, 2)
            &&& shows(shown, "session"@, session_view(lease, operations))
            &&& shows(shown, "status"@, status_view(Some(lease)))
        }),
{
    let shown = observed_view(lease, operations);
    lemma_shows_all(shown);
    let at = shown->Object_0;
    assert(at[0] == at[0] && at[1] == at[1]);
}

/// The response to an observation, which takes no parameters.
pub fn observe_workflow(params: &Json, lease: &WorkflowLease, operations: &Vec<Json>) -> (r: Result<
    Json,
    &'static str,
>)
    ensures
        coded(r) == match params_error(params@, seq![]) {
            Some(code) => Err(code),
            None => Ok(observed_view(*lease, item_views(operations@))),
        },
{
    let allowed: [&'static str; 0] = [];
    assert(texts(allowed@) =~= seq![]);
    if let Err(code) = require_only_params(params, allowed.as_slice()) {
        return Err(code);
    }
    let mut out = ObjectBuilder::new();
    out.put("session", workflow_session_value(lease, operations));
    out.put("status", workflow_status_value(Some(lease)));
    assert(out@ =~= observed_view(*lease, item_views(operations@))->Object_0);
    Ok(out.finish())
}

/// Whether recovery is required: by the session, or because a transition is
/// pending.
pub open spec fn recovery_pending(lease: Option<WorkflowLease>, operations: Seq<JsonView>) -> bool {
    (lease is Some && needs_recovery(lease->0)) || operations.len() > 0
}

fn is_recovery_pending(lease: Option<&WorkflowLease>, operations: &Vec<Json>) -> (r: bool)
    ensures
        r == recovery_pending(seen_lease(lease), item_views(operations@)),
{
    let required = match lease {
        Some(lease) => workflow_recovery_required(lease),
        None => false,
    };
    required || operations.len() > 0
}

/// A session where there is one, and nothing where there is none.
pub open spec fn optional_session_view(
    lease: Option<WorkflowLease>,
    operations: Seq<JsonView>,
) -> JsonView {
    match lease {
        Some(lease) => session_view(lease, operations),
        None => JsonView::Null,
    }
}

fn optional_session(lease: Option<&WorkflowLease>, operations: &Vec<Json>) -> (value: Json)
    ensures
        value@ == optional_session_view(seen_lease(lease), item_views(operations@)),
{
    match lease {
        Some(lease) => workflow_session_value(lease, operations),
        None => Json::Null,
    }
}

/// The response to a question about recovery.
pub open spec fn recovery_view(
    lease: Option<WorkflowLease>,
    operations: Seq<JsonView>,
) -> JsonView {
    let required = recovery_pending(lease, operations);
    JsonView::Object(
        seq![
            (
                "status"@,
                JsonView::Text(
                    if required {
                        "recovery-required"@
                    } else {
                        "ready"@
                    },
                ),
            ),
            ("recoveryRequired"@, JsonView::Bool(required)),
            ("operations"@, JsonView::Array(operations)),
            ("session"@, optional_session_view(lease, operations)),
            (
                "message"@,
                JsonView::Text(
                    if required {
                        "Inspect the pending transition before choosing cancel or relaunch."@
                    } else {
                        "No workflow recovery is required."@
                    },
                ),
            ),
        ],
    )
}

/// The response to a question about recovery.
pub fn workflow_recovery(lease: Option<&WorkflowLease>, operations: &Vec<Json>) -> (value: Json)
    ensures
        value@ == recovery_view(seen_lease(lease), item_views(operations@)),
{
    let required = is_recovery_pending(lease, operations);
    let mut out = ObjectBuilder::new();
    if required {
        out.put_text("status", "recovery-required");
    } else {
        out.put_text("status", "ready");
    }
    out.put("recoveryRequired", Json::Bool(required));
    out.put("operations", array(duplicate_items(operations)));
    out.put("session", optional_session(lease, operations));
    if required {
        out.put_text(
            "message",
            "Inspect the pending transition before choosing cancel or relaunch.",
        );
    } else {
        out.put_text("message", "No workflow recovery is required.");
    }
    assert(out@ =~= recovery_view(seen_lease(lease), item_views(operations@))->Object_0);
    out.finish()
}

/// The id of the workflow that a status selects: the one that runs, or the
/// only one.
pub open spec fn selected_id(
    lease: Option<WorkflowLease>,
    keys: Seq<Seq<char>>,
) -> Option<Seq<char>> {
    if lease is Some && lease->0.workflow is Some {
        Some(lease->0.workflow->0.workflow_id@)
    } else if keys.len() == 1 {
        Some(keys[0])
    } else {
        None
    }
}

/// The drafts in the order of their ids.
pub open spec fn draft_values(workflows: Map<Seq<char>, DraftView>, keys: Seq<Seq<char>>) -> Seq<
    JsonView,
> {
    Seq::new(keys.len(), |i: int| draft_value(workflows[keys[i]]))
}

/// The response to a question about the state of workflows.
pub open spec fn workflows_view(
    workflows: Map<Seq<char>, DraftView>,
    keys: Seq<Seq<char>>,
    lease: Option<WorkflowLease>,
    operations: Seq<JsonView>,
) -> JsonView {
    let selected = selected_id(lease, keys);
    JsonView::Object(
        seq![
            ("status"@, status_view(lease)),
            ("session"@, optional_session_view(lease, operations)),
            (
                "workflow"@,
                if selected is Some && workflows.contains_key(selected->0) {
                    draft_value(workflows[selected->0])
                } else {
                    JsonView::Null
                },
            ),
            ("workflows"@, JsonView::Array(draft_values(workflows, keys))),
            ("selectedWorkflowId"@, text_or_null(selected)),
            ("operations"@, JsonView::Array(operations)),
            ("recoveryRequired"@, JsonView::Bool(recovery_pending(lease, operations))),
        ],
    )
}

/// The response to a question about the state of workflows.
pub fn workflow_status(
    workflows: &TextMap<WorkflowDraft>,
    lease: Option<&WorkflowLease>,
    operations: &Vec<Json>,
) -> (value: Json)
    requires
        workflows.wf(),
    ensures
        value@ == workflows_view(
            workflows@,
            workflows.keys(),
            seen_lease(lease),
            item_views(operations@),
        ),
{
    let mut values: Vec<Json> = Vec::new();
    let mut i: usize = 0;
    while i < workflows.len()
        invariant
            workflows.wf(),
            i <= workflows.keys().len(),
            values@.len() == i,
            forall|j: int|
                0 <= j < i ==> (#[trigger] values@[j])@ == draft_values(
                    workflows@,
                    workflows.keys(),
                )[j],
        decreases workflows.keys().len() - i,
    {
        values.push(workflow_draft_value(workflows.value_at(i)));
        i = i + 1;
    }
    assert(item_views(values@) =~= draft_values(workflows@, workflows.keys()));
    let running: Option<&str> = match lease {
        Some(lease) => match &lease.workflow {
            Some(workflow) => Some(workflow.workflow_id.as_str()),
            None => None,
        },
        None => None,
    };
    let selected: Option<&str> = match running {
        Some(id) => Some(id),
        None => {
            if workflows.len() == 1 {
                Some(workflows.key_at(0))
            } else {
                None
            }
        },
    };
    let workflow = match selected {
        Some(id) => match workflows.get(id) {
            Some(draft) => workflow_draft_value(draft),
            None => Json::Null,
        },
        None => Json::Null,
    };
    let mut out = ObjectBuilder::new();
    out.put("status", workflow_status_value(lease));
    out.put("session", optional_session(lease, operations));
    out.put("workflow", workflow);
    out.put("workflows", array(values));
    out.put("selectedWorkflowId", text_value(selected));
    out.put("operations", array(duplicate_items(operations)));
    out.put("recoveryRequired", Json::Bool(is_recovery_pending(lease, operations)));
    assert(out@ =~= workflows_view(
        workflows@,
        workflows.keys(),
        seen_lease(lease),
        item_views(operations@),
    )->Object_0);
    out.finish()
}

/// A proposal is launched once: after its launch was recorded, it is gone, and
/// while the session runs no other is launched.
pub proof fn law_proposals_launch_once(
    launches: Map<Seq<char>, (ProposalView, i64)>,
    workflows: Map<Seq<char>, DraftView>,
    params: JsonView,
)
    requires
        launch_in(launches, workflows, false, params) is Ok,
    ensures
        launch_in(
            launches.remove(launch_in(launches, workflows, false, params)->Ok_0.0),
            workflows,
            false,
            params,
        ) == Err::<(Seq<char>, Seq<char>, Seq<Seq<char>>), Seq<char>>(
            "workflow-proposal-unavailable"@,
        ),
        launch_in(launches, workflows, true, params) == Err::<
            (Seq<char>, Seq<char>, Seq<Seq<char>>),
            Seq<char>,
        >("workflow-session-already-active"@),
{
}

/// No session is started for a proposal before it was compared with what is in
/// force, whatever the workflow needs.
pub proof fn law_launch_compares_first(profiles: nat, at: int)
    requires
        0 <= at < launch_stages_for(profiles).len(),
        launch_stages_for(profiles)[at] == WorkflowStage::Spawn,
    ensures
        exists|k: int|
            0 <= k < at && #[trigger] launch_stages_for(profiles)[k]
                == WorkflowStage::CompareProposal,
{
    lemma_profile_stages(profiles);
    let compile = compile_stages_for(profiles);
    let stages = launch_stages_for(profiles);
    if at < compile.len() {
        assert(stages[at] == compile[at]);
    }
    assert(stages[compile.len() as int + 3] == WorkflowStage::CompareProposal);
}

proof fn lemma_profile_stages(profiles: nat)
    ensures
        profile_stages(profiles).len() == 2 * profiles,
        forall|i: int|
            0 <= i < profile_stages(profiles).len() ==> {
                ||| #[trigger] profile_stages(profiles)[i] == WorkflowStage::LoadProfile
                ||| profile_stages(profiles)[i] == WorkflowStage::CompileProfile
            },
    decreases profiles,
{
    if profiles > 0 {
        lemma_profile_stages((profiles - 1) as nat);
    }
}

/// A launch compiles the workflow anew, as the proposal did.
pub proof fn law_launch_recompiles(profiles: nat)
    ensures
        launch_stages_for(profiles).take(compile_stages_for(profiles).len() as int)
            == compile_stages_for(profiles),
        proposal_stages_for(profiles).take(compile_stages_for(profiles).len() as int)
            == compile_stages_for(profiles),
{
    let n = compile_stages_for(profiles).len() as int;
    assert(launch_stages_for(profiles).take(n) =~= compile_stages_for(profiles));
    assert(proposal_stages_for(profiles).take(n) =~= compile_stages_for(profiles));
}

} // verus!
