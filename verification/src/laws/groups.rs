//! Group definitions: what a change takes from its request, and what is shown of
//! it.
use vstd::prelude::*;

use crate::bridge_stage::BridgeStage;
use crate::commands::group::{scope_name, GroupScope};
use crate::group_definition::{
    action_kind, action_scope, change_in, change_outcome, definition_plan_view, history_answer,
    named_change, planned_change, prior_definition_in, redacted_definition_history_view, scope_in,
    ActionView, DefinitionChangeAction, DefinitionFacts, DefinitionReview, HistoryRecord,
    StoreAnswer, WrittenGroup,
};
use crate::json::{field, JsonView};
use crate::laws::shown::{gives_text, lemma_shows_all, only_keys, shows, shows_only};
use crate::text::{optional, utf8_len};

verus! {

/// Whether a parameter names a scope.
pub open spec fn gives_scope(params: JsonView, scope: GroupScope) -> bool {
    field(params, "scope"@) == Some(
        JsonView::Text(
            match scope {
                GroupScope::Personal => "personal"@,
                GroupScope::Repository => "repository"@,
            },
        ),
    )
}

/// A change is the one that was asked for: the action that is named, on the group
/// that exists under the name, with the new name, the definition, the record and
/// the revision that were given, and under the fingerprint of what it leads to.
pub proof fn law_change_is_as_asked<D>(
    params: JsonView,
    facts: DefinitionFacts<D>,
    action: DefinitionChangeAction<D>,
    fingerprint: Seq<char>,
)
    requires
        change_in(params, facts) == Ok::<(ActionView<D>, Seq<char>), Seq<char>>(
            (action@, fingerprint),
        ),
    ensures
        match action {
            DefinitionChangeAction::Create { scope, definition } => {
                &&& gives_text(params, "action"@, "create"@)
                &&& gives_scope(params, scope)
                &&& facts.definition is Some
                &&& definition.name@ == facts.definition->0.name@
                &&& definition.member_count == facts.definition->0.member_count
                &&& definition.definition == facts.definition->0.definition
                &&& facts.members_readable && facts.members_allowed is Ok
                &&& facts.revision is Ok && fingerprint == facts.revision->Ok_0@
            },
            DefinitionChangeAction::Replace {
                scope,
                qualified_name,
                definition,
                expected_revision,
            } => {
                &&& gives_text(params, "action"@, "replace"@)
                &&& facts.existing is Ok
                &&& scope == facts.existing->Ok_0.scope
                &&& qualified_name@ == facts.existing->Ok_0.qualified_name@
                &&& facts.definition is Some
                &&& definition.name@ == facts.definition->0.name@
                &&& definition.member_count == facts.definition->0.member_count
                &&& definition.definition == facts.definition->0.definition
                &&& facts.members_readable && facts.members_allowed is Ok
                &&& optional(facts.expected_revision) == Some(expected_revision@)
                &&& facts.revision is Ok && fingerprint == facts.revision->Ok_0@
            },
            DefinitionChangeAction::Rename {
                scope,
                qualified_name,
                new_name,
                expected_revision,
            } => {
                &&& gives_text(params, "action"@, "rename"@)
                &&& gives_text(params, "newName"@, new_name@)
                &&& facts.existing is Ok
                &&& scope == facts.existing->Ok_0.scope
                &&& qualified_name@ == facts.existing->Ok_0.qualified_name@
                &&& facts.renamed_valid
                &&& optional(facts.expected_revision) == Some(expected_revision@)
                &&& facts.revision is Ok && fingerprint == facts.revision->Ok_0@
            },
            DefinitionChangeAction::Delete { scope, qualified_name, expected_revision } => {
                &&& gives_text(params, "action"@, "delete"@)
                &&& facts.existing is Ok
                &&& scope == facts.existing->Ok_0.scope
                &&& qualified_name@ == facts.existing->Ok_0.qualified_name@
                &&& optional(facts.expected_revision) == Some(expected_revision@)
                &&& fingerprint == facts.existing->Ok_0.revision@
            },
            DefinitionChangeAction::Restore { scope, history_id, revision_before } => {
                &&& gives_text(params, "action"@, "restore"@)
                &&& gives_scope(params, scope)
                &&& gives_text(params, "historyId"@, history_id@)
                &&& facts.history == Ok::<Option<bool>, BridgeStage>(Some(true))
                &&& field(params, "expectedRevision"@) is None ==> revision_before is None
                &&& field(params, "expectedRevision"@) is Some ==> revision_before is Some
                    && optional(revision_before) == optional(facts.expected_revision)
                &&& facts.revision is Ok && fingerprint == facts.revision->Ok_0@
            },
        },
        action is Replace || action is Rename || action is Delete ==> {
            &&& facts.reference matches Some(Some(_))
            &&& field(params, "qualifiedName"@) is Some
            &&& field(params, "expectedRevision"@) is Some
        },
{
    if action is Restore {
        assert(optional(action->Restore_revision_before) == action@->Restore_revision_before);
    }
}

/// Of two requests that differ in their new names alone, each renames to its own.
pub proof fn law_renames_follow_the_request<D>(
    a: JsonView,
    b: JsonView,
    facts: DefinitionFacts<D>,
    first: ActionView<D>,
    second: ActionView<D>,
    fingerprint: Seq<char>,
)
    requires
        change_in(a, facts) == Ok::<(ActionView<D>, Seq<char>), Seq<char>>((first, fingerprint)),
        change_in(b, facts) == Ok::<(ActionView<D>, Seq<char>), Seq<char>>((second, fingerprint)),
        first is Rename,
        second is Rename,
        field(a, "newName"@) != field(b, "newName"@),
    ensures
        first->new_name != second->new_name,
        first->Rename_qualified_name == second->Rename_qualified_name,
{
}

/// What is shown of a change names its action, its scope and its fingerprint,
/// and what it is about, but never the members.
pub proof fn law_change_is_shown_without_members<D>(
    action: DefinitionChangeAction<D>,
    fingerprint: Seq<char>,
)
    ensures
        ({
            let value = definition_plan_view(action@, fingerprint);
            &&& shows(value, "planFingerprint"@, JsonView::Text(fingerprint))
            &&& match action {
                DefinitionChangeAction::Create { scope, definition } => {
                    &&& shows_only(value, 5)
                    &&& shows(value, "action"@, JsonView::Text("create"@))
                    &&& shows(value, "scope"@, JsonView::Text(scope_name(scope)))
                    &&& shows(
                        value,
                        "qualifiedName"@,
                        JsonView::Text(scope_name(scope) + ":"@ + definition.name@),
                    )
                    &&& shows(value, "memberCount"@, JsonView::Unsigned(definition.member_count))
                },
                DefinitionChangeAction::Replace {
                    scope,
                    qualified_name,
                    definition,
                    expected_revision,
                } => {
                    &&& shows_only(value, 6)
                    &&& shows(value, "action"@, JsonView::Text("replace"@))
                    &&& shows(value, "scope"@, JsonView::Text(scope_name(scope)))
                    &&& shows(value, "qualifiedName"@, JsonView::Text(qualified_name@))
                    &&& shows(value, "memberCount"@, JsonView::Unsigned(definition.member_count))
                    &&& shows(value, "expectedRevision"@, JsonView::Text(expected_revision@))
                },
                DefinitionChangeAction::Rename {
                    scope,
                    qualified_name,
                    new_name,
                    expected_revision,
                } => {
                    &&& shows_only(value, 6)
                    &&& shows(value, "action"@, JsonView::Text("rename"@))
                    &&& shows(value, "scope"@, JsonView::Text(scope_name(scope)))
                    &&& shows(value, "qualifiedName"@, JsonView::Text(qualified_name@))
                    &&& shows(value, "newName"@, JsonView::Text(new_name@))
                    &&& shows(value, "expectedRevision"@, JsonView::Text(expected_revision@))
                },
                DefinitionChangeAction::Delete { scope, qualified_name, expected_revision } => {
                    &&& shows_only(value, 5)
                    &&& shows(value, "action"@, JsonView::Text("delete"@))
                    &&& shows(value, "scope"@, JsonView::Text(scope_name(scope)))
                    &&& shows(value, "qualifiedName"@, JsonView::Text(qualified_name@))
                    &&& shows(value, "expectedRevision"@, JsonView::Text(expected_revision@))
                },
                DefinitionChangeAction::Restore { scope, history_id, revision_before } => {
                    &&& shows_only(value, 5)
                    &&& shows(value, "action"@, JsonView::Text("restore"@))
                    &&& shows(value, "scope"@, JsonView::Text(scope_name(scope)))
                    &&& shows(value, "historyId"@, JsonView::Text(history_id@))
                    &&& shows(
                        value,
                        "expectedRevision"@,
                        match revision_before {
                            Some(revision) => JsonView::Text(revision@),
                            None => JsonView::Null,
                        },
                    )
                },
            }
        }),
{
    let value = definition_plan_view(action@, fingerprint);
    lemma_shows_all(value);
    let members = value->Object_0;
    let last = members.len() - 1;
    assert(members[last].0 == "planFingerprint"@);
    assert(members[0].0 == "action"@ && members[1].0 == "scope"@);
    assert(members[2] == members[2] && members[3] == members[3]);
    if members.len() > 5 {
        assert(members[4] == members[4]);
    }
}

/// The names of the scopes.
pub proof fn law_scopes_have_their_names(scope: GroupScope)
    ensures
        scope is Personal ==> scope_name(scope) == "personal"@,
        scope is Repository ==> scope_name(scope) == "repository"@,
{
}

/// A change is planned only while there is room for it and its request holds
/// nothing unknown; it is then the change that the request asks for.
pub proof fn law_plans_are_limited<D>(
    count: nat,
    next: u64,
    params: JsonView,
    facts: DefinitionFacts<D>,
)
    ensures
        match planned_change(count, next, params, facts) {
            Ok(change) => {
                &&& count < 32
                &&& next < u64::MAX
                &&& change_in(params, facts) == Ok::<(ActionView<D>, Seq<char>), Seq<char>>(change)
                &&& only_keys(
                    params,
                    seq![
                        "action"@,
                        "scope"@,
                        "qualifiedName"@,
                        "name"@,
                        "newName"@,
                        "members"@,
                        "expectedRevision"@,
                        "historyId"@,
                    ],
                )
            },
            Err(_) => true,
        },
        count >= 32 && only_keys(params, seq!["action"@]) ==> planned_change(
            count,
            next,
            params,
            facts,
        ) == Err::<(ActionView<D>, Seq<char>), Seq<char>>("group-definition-plan-limit-reached"@),
{
    let all = crate::group_definition::definition_keys();
    if only_keys(params, seq!["action"@]) {
        assert forall|i: int| 0 <= i < params->Object_0.len() implies all.contains(
            (#[trigger] params->Object_0[i]).0,
        ) by {
            assert(seq!["action"@].contains(params->Object_0[i].0));
            assert(all[0] == "action"@);
        }
    }
}

/// A change is carried out under the operation and the fingerprint that the
/// request names, which are those of a plan under review.
pub proof fn law_change_is_named_by_its_review<D>(
    plans: Map<Seq<char>, DefinitionReview<D>>,
    params: JsonView,
)
    ensures
        match named_change(plans, params) {
            Ok(reference) => {
                &&& gives_text(params, "operationId"@, reference.0)
                &&& gives_text(params, "planFingerprint"@, reference.1)
                &&& plans.contains_key(reference.0)
                &&& plans[reference.0].fingerprint == reference.1
            },
            Err(_) => true,
        },
{
}

/// What a change came to is shown with its action and its scope and what the
/// store wrote; a store that refused, or answered another kind of change, blocks
/// it.
pub proof fn law_outcome_is_what_was_written<D>(
    action: DefinitionChangeAction<D>,
    record: WrittenGroup,
    history_id: String,
)
    ensures
        change_outcome(action@, Ok(StoreAnswer::Refused)) == Err::<JsonView, Seq<char>>(
            "group-definition-apply-blocked"@,
        ),
        action is Delete ==> change_outcome(action@, Ok(StoreAnswer::Written(record))) is Err,
        !(action is Delete) ==> {
            let outcome = change_outcome(action@, Ok(StoreAnswer::Written(record)));
            &&& outcome is Ok
            &&& shows_only(outcome->Ok_0, 5)
            &&& shows(outcome->Ok_0, "qualifiedName"@, JsonView::Text(record.qualified_name@))
            &&& shows(outcome->Ok_0, "revision"@, JsonView::Text(record.revision@))
            &&& match action {
                DefinitionChangeAction::Create { scope, .. } => {
                    &&& shows(outcome->Ok_0, "action"@, JsonView::Text("create"@))
                    &&& shows(outcome->Ok_0, "scope"@, JsonView::Text(scope_name(scope)))
                    &&& shows(outcome->Ok_0, "historyId"@, JsonView::Null)
                },
                DefinitionChangeAction::Replace { scope, .. } => {
                    &&& shows(outcome->Ok_0, "action"@, JsonView::Text("replace"@))
                    &&& shows(outcome->Ok_0, "scope"@, JsonView::Text(scope_name(scope)))
                    &&& shows(outcome->Ok_0, "historyId"@, JsonView::Null)
                },
                DefinitionChangeAction::Rename { scope, .. } => {
                    &&& shows(outcome->Ok_0, "action"@, JsonView::Text("rename"@))
                    &&& shows(outcome->Ok_0, "scope"@, JsonView::Text(scope_name(scope)))
                    &&& shows(outcome->Ok_0, "historyId"@, JsonView::Null)
                },
                DefinitionChangeAction::Restore { scope, history_id, .. } => {
                    &&& shows(outcome->Ok_0, "action"@, JsonView::Text("restore"@))
                    &&& shows(outcome->Ok_0, "scope"@, JsonView::Text(scope_name(scope)))
                    &&& shows(outcome->Ok_0, "historyId"@, JsonView::Text(history_id@))
                },
                DefinitionChangeAction::Delete { .. } => true,
            }
        },
        match action {
            DefinitionChangeAction::Delete { scope, qualified_name, .. } => {
                let outcome = change_outcome(action@, Ok(StoreAnswer::Deleted { history_id }));
                &&& outcome is Ok
                &&& shows_only(outcome->Ok_0, 4)
                &&& shows(outcome->Ok_0, "action"@, JsonView::Text("delete"@))
                &&& shows(outcome->Ok_0, "scope"@, JsonView::Text(scope_name(scope)))
                &&& shows(outcome->Ok_0, "qualifiedName"@, JsonView::Text(qualified_name@))
                &&& shows(outcome->Ok_0, "historyId"@, JsonView::Text(history_id@))
            },
            _ => change_outcome(action@, Ok(StoreAnswer::Deleted { history_id })) is Err,
        },
{
    if action is Delete {
        let value = change_outcome(action@, Ok(StoreAnswer::Deleted { history_id }))->Ok_0;
        lemma_shows_all(value);
        let members = value->Object_0;
        assert(members[0] == members[0] && members[1] == members[1] && members[2] == members[2]
            && members[3] == members[3]);
    } else {
        let value = change_outcome(action@, Ok(StoreAnswer::Written(record)))->Ok_0;
        lemma_shows_all(value);
        let members = value->Object_0;
        assert(members[0] == members[0] && members[1] == members[1] && members[2] == members[2]
            && members[3] == members[3] && members[4] == members[4]);
    }
}

/// A record of history is found by its id, the first one that has it, and says
/// whether it holds an earlier definition.
pub proof fn law_history_is_found_by_its_id(records: Seq<HistoryRecord>, id: Seq<char>)
    ensures
        match prior_definition_in(records, id) {
            None => forall|i: int|
                0 <= i < records.len() ==> (#[trigger] records[i]).history_id@ != id,
            Some(held) => exists|i: int|
                0 <= i < records.len() && (#[trigger] records[i]).history_id@ == id
                    && records[i].definition_before_exists == held && forall|j: int|
                    0 <= j < i ==> (#[trigger] records[j]).history_id@ != id,
        },
    decreases records.len(),
{
    if records.len() > 0 {
        let rest = records.drop_first();
        law_history_is_found_by_its_id(rest, id);
        if records[0].history_id@ != id {
            match prior_definition_in(rest, id) {
                None => {
                    assert forall|i: int| 0 <= i < records.len() implies (
                    #[trigger] records[i]).history_id@ != id by {
                        if i > 0 {
                            assert(rest[i - 1] == records[i]);
                        }
                    }
                },
                Some(held) => {
                    let i = choose|i: int|
                        0 <= i < rest.len() && (#[trigger] rest[i]).history_id@ == id
                            && rest[i].definition_before_exists == held && forall|j: int|
                            0 <= j < i ==> (#[trigger] rest[j]).history_id@ != id;
                    assert(records[i + 1] == rest[i]);
                    assert forall|j: int| 0 <= j < i + 1 implies (
                    #[trigger] records[j]).history_id@ != id by {
                        if j > 0 {
                            assert(rest[j - 1] == records[j]);
                        }
                    }
                },
            }
        } else {
            assert(records[0].history_id@ == id);
        }
    }
}

/// A history shows each of its records, in order, with what changed, and never a
/// definition.
pub proof fn law_history_shows_each_record(
    params: JsonView,
    records: Seq<HistoryRecord>,
    i: int,
)
    requires
        0 <= i < records.len(),
        history_answer(params, Ok(records)) is Ok,
    ensures
        ({
            let answer = history_answer(params, Ok(records))->Ok_0;
            let list = answer->Object_0[0].1->Array_0;
            let value = list[i];
            let record = records[i];
            &&& shows_only(answer, 1)
            &&& answer->Object_0[0].0 == "history"@
            &&& list.len() == records.len()
            &&& shows_only(value, 9)
            &&& shows(value, "historyId"@, JsonView::Text(record.history_id@))
            &&& shows(value, "createdAt"@, record.created_at@)
            &&& shows(value, "scope"@, JsonView::Text(scope_name(record.scope)))
            &&& shows(value, "change"@, record.change@)
            &&& shows(
                value,
                "nameBefore"@,
                match record.name_before {
                    Some(name) => JsonView::Text(name@),
                    None => JsonView::Null,
                },
            )
            &&& shows(
                value,
                "nameAfter"@,
                match record.name_after {
                    Some(name) => JsonView::Text(name@),
                    None => JsonView::Null,
                },
            )
            &&& shows(
                value,
                "revisionBefore"@,
                match record.revision_before {
                    Some(revision) => JsonView::Text(revision@),
                    None => JsonView::Null,
                },
            )
            &&& shows(
                value,
                "revisionAfter"@,
                match record.revision_after {
                    Some(revision) => JsonView::Text(revision@),
                    None => JsonView::Null,
                },
            )
            &&& shows(
                value,
                "definitionAfterExists"@,
                JsonView::Bool(record.definition_after_exists),
            )
        }),
{
    let value = redacted_definition_history_view(records[i]);
    lemma_shows_all(value);
    let members = value->Object_0;
    assert(members[0] == members[0] && members[1] == members[1] && members[2] == members[2]
        && members[3] == members[3] && members[4] == members[4] && members[5] == members[5]
        && members[6] == members[6] && members[7] == members[7] && members[8] == members[8]);
}

/// A change that names everything it needs, of a group that is there, is granted
/// as the change that was asked for.
pub proof fn law_whole_changes_are_granted<D>(
    params: JsonView,
    facts: DefinitionFacts<D>,
    action: Seq<char>,
    name: Seq<char>,
    new_name: Seq<char>,
    revision: Seq<char>,
    history: Seq<char>,
    scope: GroupScope,
)
    requires
        gives_text(params, "action"@, action),
        gives_scope(params, scope),
        gives_text(params, "qualifiedName"@, name),
        gives_text(params, "name"@, name),
        gives_text(params, "newName"@, new_name),
        gives_text(params, "expectedRevision"@, revision),
        gives_text(params, "historyId"@, history),
        field(params, "members"@) is Some,
        facts.reference matches Some(Some(_)),
        facts.existing is Ok,
        facts.members_readable,
        facts.members_allowed is Ok,
        facts.definition is Some,
        facts.expected_revision is Some,
        facts.renamed_valid,
        facts.history == Ok::<Option<bool>, BridgeStage>(Some(true)),
        facts.revision is Ok,
    ensures
        action == "create"@ ==> change_in(params, facts) is Ok && change_in(params, facts)->Ok_0.0
            is Create,
        action == "replace"@ ==> change_in(params, facts) is Ok && change_in(params, facts)->Ok_0.0
            is Replace,
        action == "rename"@ ==> change_in(params, facts) is Ok && change_in(params, facts)->Ok_0.0
            is Rename && change_in(params, facts)->Ok_0.0->new_name == new_name,
        action == "delete"@ ==> change_in(params, facts) is Ok && change_in(params, facts)->Ok_0.0
            is Delete,
        action == "restore"@ ==> change_in(params, facts) is Ok && change_in(params, facts)->Ok_0.0
            is Restore && change_in(params, facts)->Ok_0.0->history_id == history,
{
    reveal_strlit("create");
    reveal_strlit("replace");
    reveal_strlit("rename");
    reveal_strlit("delete");
    reveal_strlit("restore");
    reveal_strlit("personal");
    reveal_strlit("repository");
    assert("create"@.len() == 6 && "rename"@.len() == 6 && "delete"@.len() == 6);
    assert("replace"@.len() == 7 && "restore"@.len() == 7);
    assert("create"@[0] == 'c' && "rename"@[0] == 'r' && "delete"@[0] == 'd');
    assert("replace"@[2] == 'p' && "restore"@[2] == 's');
    assert("personal"@.len() == 8 && "repository"@.len() == 10);
    lemma_short("personal"@);
    lemma_short("repository"@);
}

proof fn lemma_short(text: Seq<char>)
    ensures
        utf8_len(text) <= 4 * text.len(),
    decreases text.len(),
{
    if text.len() > 0 {
        lemma_short(text.drop_first());
    }
}

/// A change has the name of its action and the scope of its group.
pub proof fn law_changes_have_names_and_scopes<D>(action: DefinitionChangeAction<D>)
    ensures
        match action {
            DefinitionChangeAction::Create { scope, .. } => action_kind(action@) == "create"@
                && action_scope(action@) == scope,
            DefinitionChangeAction::Replace { scope, .. } => action_kind(action@) == "replace"@
                && action_scope(action@) == scope,
            DefinitionChangeAction::Rename { scope, .. } => action_kind(action@) == "rename"@
                && action_scope(action@) == scope,
            DefinitionChangeAction::Delete { scope, .. } => action_kind(action@) == "delete"@
                && action_scope(action@) == scope,
            DefinitionChangeAction::Restore { scope, .. } => action_kind(action@) == "restore"@
                && action_scope(action@) == scope,
        },
{
}

/// A scope is read from its parameter exactly if that names one.
pub proof fn law_scopes_are_required(params: JsonView, scope: GroupScope)
    ensures
        scope_in(params) == Ok::<GroupScope, Seq<char>>(scope) <==> gives_scope(params, scope),
{
    reveal_strlit("personal");
    reveal_strlit("repository");
    assert("personal"@.len() == 8 && "repository"@.len() == 10);
    lemma_short("personal"@);
    lemma_short("repository"@);
}

} // verus!
