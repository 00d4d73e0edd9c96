//! Changes of group definitions that the desktop asks for: how they are read,
//! reviewed and carried out, and what is shown of them.
use vstd::prelude::*;

use crate::bridge_request::{
    bounded, coded, params_error, require_only_params, required_string, required_text, texts,
};
use crate::bridge_stage::{failure_code, BridgeStage};
use crate::commands::group::{scope_name, scope_named, GroupScope};
use crate::json::{
    array, field, item_views, optional_text, text_in, text_or_null, Json, JsonView,
    ObjectBuilder,
};
use crate::laws::shown::{lemma_shows_all, shows, shows_only};
use crate::reviewed_plans::{
    flag, flag_view, plan_reference, reference_in, PlanReference, Reviewed,
};
use crate::text::{
    byte_len, decimal_is_injective, decimal_of, optional, same_text, to_decimal,
};
use crate::text_map::TextMap;

verus! {

pub const MAX_REVIEWED_DEFINITION_PLANS: usize = 32;

/// A definition, with what is shown of it.
pub struct GroupDefinition<D> {
    pub name: String,
    pub member_count: u64,
    pub definition: D,
}

/// A change of a definition.
pub enum DefinitionChangeAction<D> {
    Create { scope: GroupScope, definition: GroupDefinition<D> },
    Replace {
        scope: GroupScope,
        qualified_name: String,
        definition: GroupDefinition<D>,
        expected_revision: String,
    },
    Rename {
        scope: GroupScope,
        qualified_name: String,
        new_name: String,
        expected_revision: String,
    },
    Delete { scope: GroupScope, qualified_name: String, expected_revision: String },
    Restore { scope: GroupScope, history_id: String, revision_before: Option<String> },
}

/// What a change looks like from outside.
pub enum ActionView<D> {
    Create { scope: GroupScope, name: Seq<char>, member_count: u64, definition: D },
    Replace {
        scope: GroupScope,
        qualified_name: Seq<char>,
        name: Seq<char>,
        member_count: u64,
        definition: D,
        expected_revision: Seq<char>,
    },
    Rename {
        scope: GroupScope,
        qualified_name: Seq<char>,
        new_name: Seq<char>,
        expected_revision: Seq<char>,
    },
    Delete { scope: GroupScope, qualified_name: Seq<char>, expected_revision: Seq<char> },
    Restore { scope: GroupScope, history_id: Seq<char>, revision_before: Option<Seq<char>> },
}

impl<D> View for DefinitionChangeAction<D> {
    type V = ActionView<D>;

    open spec fn view(&self) -> ActionView<D> {
        match self {
            DefinitionChangeAction::Create { scope, definition } => ActionView::Create {
                scope: *scope,
                name: definition.name@,
                member_count: definition.member_count,
                definition: definition.definition,
            },
            DefinitionChangeAction::Replace {
                scope,
                qualified_name,
                definition,
                expected_revision,
            } => ActionView::Replace {
                scope: *scope,
                qualified_name: qualified_name@,
                name: definition.name@,
                member_count: definition.member_count,
                definition: definition.definition,
                expected_revision: expected_revision@,
            },
            DefinitionChangeAction::Rename {
                scope,
                qualified_name,
                new_name,
                expected_revision,
            } => ActionView::Rename {
                scope: *scope,
                qualified_name: qualified_name@,
                new_name: new_name@,
                expected_revision: expected_revision@,
            },
            DefinitionChangeAction::Delete { scope, qualified_name, expected_revision } =>
            ActionView::Delete {
                scope: *scope,
                qualified_name: qualified_name@,
                expected_revision: expected_revision@,
            },
            DefinitionChangeAction::Restore { scope, history_id, revision_before } =>
            ActionView::Restore {
                scope: *scope,
                history_id: history_id@,
                revision_before: optional(*revision_before),
            },
        }
    }
}

/// The name of a change.
pub open spec fn action_kind<D>(action: ActionView<D>) -> Seq<char> {
    match action {
        ActionView::Create { .. } => "create"@,
        ActionView::Replace { .. } => "replace"@,
        ActionView::Rename { .. } => "rename"@,
        ActionView::Delete { .. } => "delete"@,
        ActionView::Restore { .. } => "restore"@,
    }
}

/// The scope of a change.
pub open spec fn action_scope<D>(action: ActionView<D>) -> GroupScope {
    match action {
        ActionView::Create { scope, .. } => scope,
        ActionView::Replace { scope, .. } => scope,
        ActionView::Rename { scope, .. } => scope,
        ActionView::Delete { scope, .. } => scope,
        ActionView::Restore { scope, .. } => scope,
    }
}

impl<D> DefinitionChangeAction<D> {
    /// The name of this change.
    pub fn kind(&self) -> (kind: &'static str)
        ensures
            kind@ == action_kind(self@),
    {
        match self {
            DefinitionChangeAction::Create { .. } => "create",
            DefinitionChangeAction::Replace { .. } => "replace",
            DefinitionChangeAction::Rename { .. } => "rename",
            DefinitionChangeAction::Delete { .. } => "delete",
            DefinitionChangeAction::Restore { .. } => "restore",
        }
    }

    /// The scope of this change.
    pub fn scope(&self) -> (scope: GroupScope)
        ensures
            scope == action_scope(self@),
    {
        match self {
            DefinitionChangeAction::Create { scope, .. } => *scope,
            DefinitionChangeAction::Replace { scope, .. } => *scope,
            DefinitionChangeAction::Rename { scope, .. } => *scope,
            DefinitionChangeAction::Delete { scope, .. } => *scope,
            DefinitionChangeAction::Restore { scope, .. } => *scope,
        }
    }
}

/// A group that exists.
pub struct ExistingGroup {
    pub scope: GroupScope,
    pub qualified_name: String,
    pub revision: String,
}

/// What is known from outside about a change, as far as it is asked for. Each
/// part stands for one question; a stage says where it got no answer.
pub struct DefinitionFacts<D> {
    /// The scope in the qualified name, where that is a reference at all.
    pub reference: Option<Option<GroupScope>>,
    pub existing: Result<ExistingGroup, BridgeStage>,
    /// Whether what is given as members are members at all.
    pub members_readable: bool,
    /// The definition that the name and the members make, if they make one,
    /// with the name and the number of members that it has then.
    pub definition: Option<GroupDefinition<D>>,
    pub members_allowed: Result<(), BridgeStage>,
    /// The expected revision, where it is a revision at all.
    pub expected_revision: Option<String>,
    pub renamed_valid: bool,
    /// Whether the record of history is there, and whether it holds an earlier
    /// definition.
    pub history: Result<Option<bool>, BridgeStage>,
    /// The revision that the change leads to.
    pub revision: Result<String, BridgeStage>,
}

/// The scope in the parameters.
pub open spec fn scope_in(params: JsonView) -> Result<GroupScope, Seq<char>> {
    match required_text(params, "scope"@) {
        Err(code) => Err(code),
        Ok(name) => match scope_named(name) {
            Some(scope) => Ok(scope),
            None => Err("invalid-group-scope"@),
        },
    }
}

/// The group that the parameters name.
pub open spec fn existing_in<D>(params: JsonView, facts: DefinitionFacts<D>) -> Result<
    ExistingGroup,
    Seq<char>,
> {
    match required_text(params, "qualifiedName"@) {
        Err(code) => Err(code),
        Ok(_) => match facts.reference {
            Some(Some(_)) => match facts.existing {
                Ok(existing) => Ok(existing),
                Err(stage) => Err(failure_code(stage)),
            },
            _ => Err("invalid-group-reference"@),
        },
    }
}

/// The definition in the parameters: its name, the number of its members, and
/// what stands behind it.
pub open spec fn definition_in<D>(params: JsonView, facts: DefinitionFacts<D>) -> Result<
    (Seq<char>, u64, D),
    Seq<char>,
> {
    match required_text(params, "name"@) {
        Err(code) => Err(code),
        Ok(_) => if field(params, "members"@) is None {
            Err("invalid-params"@)
        } else if !facts.members_readable {
            Err("invalid-group-members"@)
        } else {
            match facts.definition {
                None => Err("group-definition-invalid"@),
                Some(built) => Ok((built.name@, built.member_count, built.definition)),
            }
        },
    }
}

/// The revision that a change expects.
pub open spec fn expected_in<D>(params: JsonView, facts: DefinitionFacts<D>) -> Result<
    Seq<char>,
    Seq<char>,
> {
    match required_text(params, "expectedRevision"@) {
        Err(code) => Err(code),
        Ok(_) => match facts.expected_revision {
            Some(revision) => Ok(revision@),
            None => Err("invalid-group-revision"@),
        },
    }
}

/// The revision that a restore expects, if it expects one.
pub open spec fn optional_expected_in<D>(params: JsonView, facts: DefinitionFacts<D>) -> Result<
    Option<Seq<char>>,
    Seq<char>,
> {
    match field(params, "expectedRevision"@) {
        None => Ok(None),
        Some(value) => match text_in(Some(value)) {
            None => Err("invalid-params"@),
            Some(text) => if !bounded(text) {
                Err("invalid-params"@)
            } else {
                match facts.expected_revision {
                    Some(revision) => Ok(Some(revision@)),
                    None => Err("invalid-group-revision"@),
                }
            },
        },
    }
}

/// The revision that a change leads to.
pub open spec fn resulting_revision<D>(facts: DefinitionFacts<D>) -> Result<Seq<char>, Seq<char>> {
    match facts.revision {
        Ok(revision) => Ok(revision@),
        Err(stage) => Err(failure_code(stage)),
    }
}

/// The creation in the parameters.
pub open spec fn creation_in<D>(params: JsonView, facts: DefinitionFacts<D>) -> Result<
    (ActionView<D>, Seq<char>),
    Seq<char>,
> {
    match scope_in(params) {
        Err(code) => Err(code),
        Ok(scope) => match definition_in(params, facts) {
            Err(code) => Err(code),
            Ok((name, member_count, definition)) => match (
                facts.members_allowed,
                resulting_revision(facts),
            ) {
                (Err(stage), _) => Err(failure_code(stage)),
                (Ok(_), Err(code)) => Err(code),
                (Ok(_), Ok(revision)) => Ok(
                    (ActionView::Create { scope, name, member_count, definition }, revision),
                ),
            },
        },
    }
}

/// The replacement in the parameters.
pub open spec fn replacement_in<D>(params: JsonView, facts: DefinitionFacts<D>) -> Result<
    (ActionView<D>, Seq<char>),
    Seq<char>,
> {
    match existing_in(params, facts) {
        Err(code) => Err(code),
        Ok(existing) => match definition_in(params, facts) {
            Err(code) => Err(code),
            Ok((name, member_count, definition)) => match facts.members_allowed {
                Err(stage) => Err(failure_code(stage)),
                Ok(_) => match (expected_in(params, facts), resulting_revision(facts)) {
                    (Err(code), _) => Err(code),
                    (Ok(_), Err(code)) => Err(code),
                    (Ok(expected_revision), Ok(revision)) => Ok(
                        (
                            ActionView::Replace {
                                scope: existing.scope,
                                qualified_name: existing.qualified_name@,
                                name,
                                member_count,
                                definition,
                                expected_revision,
                            },
                            revision,
                        ),
                    ),
                },
            },
        },
    }
}

/// The renaming in the parameters.
pub open spec fn renaming_in<D>(params: JsonView, facts: DefinitionFacts<D>) -> Result<
    (ActionView<D>, Seq<char>),
    Seq<char>,
> {
    match existing_in(params, facts) {
        Err(code) => Err(code),
        Ok(existing) => match required_text(params, "newName"@) {
            Err(code) => Err(code),
            Ok(new_name) => match expected_in(params, facts) {
                Err(code) => Err(code),
                Ok(expected_revision) => if !facts.renamed_valid {
                    Err("group-definition-invalid"@)
                } else {
                    match resulting_revision(facts) {
                        Err(code) => Err(code),
                        Ok(revision) => Ok(
                            (
                                ActionView::Rename {
                                    scope: existing.scope,
                                    qualified_name: existing.qualified_name@,
                                    new_name,
                                    expected_revision,
                                },
                                revision,
                            ),
                        ),
                    }
                },
            },
        },
    }
}

/// The deletion in the parameters: it is fingerprinted by the revision that is
/// there.
pub open spec fn deletion_in<D>(params: JsonView, facts: DefinitionFacts<D>) -> Result<
    (ActionView<D>, Seq<char>),
    Seq<char>,
> {
    match existing_in(params, facts) {
        Err(code) => Err(code),
        Ok(existing) => match expected_in(params, facts) {
            Err(code) => Err(code),
            Ok(expected_revision) => Ok(
                (
                    ActionView::Delete {
                        scope: existing.scope,
                        qualified_name: existing.qualified_name@,
                        expected_revision,
                    },
                    existing.revision@,
                ),
            ),
        },
    }
}

/// The restoring in the parameters.
pub open spec fn restoring_in<D>(params: JsonView, facts: DefinitionFacts<D>) -> Result<
    (ActionView<D>, Seq<char>),
    Seq<char>,
> {
    match scope_in(params) {
        Err(code) => Err(code),
        Ok(scope) => match required_text(params, "historyId"@) {
            Err(code) => Err(code),
            Ok(history_id) => match optional_expected_in(params, facts) {
                Err(code) => Err(code),
                Ok(revision_before) => match (facts.history, resulting_revision(facts)) {
                    (Err(stage), _) => Err(failure_code(stage)),
                    (Ok(None), _) => Err("group-definition-history-unavailable"@),
                    (Ok(Some(false)), _) => Err("group-definition-restore-blocked"@),
                    (Ok(Some(true)), Err(code)) => Err(code),
                    (Ok(Some(true)), Ok(revision)) => Ok(
                        (ActionView::Restore { scope, history_id, revision_before }, revision),
                    ),
                },
            },
        },
    }
}

/// The change in the parameters and its fingerprint, or the first thing that is
/// wrong.
pub open spec fn change_in<D>(params: JsonView, facts: DefinitionFacts<D>) -> Result<
    (ActionView<D>, Seq<char>),
    Seq<char>,
> {
    match required_text(params, "action"@) {
        Err(code) => Err(code),
        Ok(action) => if action == "create"@ {
            creation_in(params, facts)
        } else if action == "replace"@ {
            replacement_in(params, facts)
        } else if action == "rename"@ {
            renaming_in(params, facts)
        } else if action == "delete"@ {
            deletion_in(params, facts)
        } else if action == "restore"@ {
            restoring_in(params, facts)
        } else {
            Err("invalid-group-definition-action"@)
        },
    }
}

/// The scope in the parameters.
pub fn required_group_scope(params: &Json) -> (r: Result<GroupScope, &'static str>)
    ensures
        match scope_in(params@) {
            Ok(scope) => r == Ok::<GroupScope, &'static str>(scope),
            Err(code) => r is Err && r->Err_0@ == code,
        },
{
    match required_string(params, "scope") {
        Err(code) => Err(code),
        Ok(name) => match GroupScope::named(name) {
            Some(scope) => Ok(scope),
            None => Err("invalid-group-scope"),
        },
    }
}

fn check_reference(params: &Json, reference: Option<Option<GroupScope>>) -> (r: Result<
    (),
    &'static str,
>)
    ensures
        match required_text(params@, "qualifiedName"@) {
            Err(code) => r is Err && r->Err_0@ == code,
            Ok(_) => match reference {
                Some(Some(_)) => r is Ok,
                _ => r is Err && r->Err_0@ == "invalid-group-reference"@,
            },
        },
{
    match required_string(params, "qualifiedName") {
        Err(code) => Err(code),
        Ok(_) => match reference {
            Some(Some(_)) => Ok(()),
            _ => Err("invalid-group-reference"),
        },
    }
}

/// A definition from the parameters and what they make.
fn definition_from_params<D>(
    params: &Json,
    members_readable: bool,
    definition: Option<GroupDefinition<D>>,
) -> (r: Result<GroupDefinition<D>, &'static str>)
    ensures
        match required_text(params@, "name"@) {
            Err(code) => r is Err && r->Err_0@ == code,
            Ok(_) => if field(params@, "members"@) is None {
                r is Err && r->Err_0@ == "invalid-params"@
            } else if !members_readable {
                r is Err && r->Err_0@ == "invalid-group-members"@
            } else {
                match definition {
                    None => r is Err && r->Err_0@ == "group-definition-invalid"@,
                    Some(built) => r == Ok::<GroupDefinition<D>, &'static str>(built),
                }
            },
        },
{
    if let Err(code) = required_string(params, "name") {
        return Err(code);
    }
    if params.get("members").is_none() {
        return Err("invalid-params");
    }
    if !members_readable {
        return Err("invalid-group-members");
    }
    match definition {
        None => Err("group-definition-invalid"),
        Some(built) => Ok(built),
    }
}

fn required_revision(params: &Json, parsed: Option<String>) -> (r: Result<String, &'static str>)
    ensures
        match required_text(params@, "expectedRevision"@) {
            Err(code) => r is Err && r->Err_0@ == code,
            Ok(_) => match parsed {
                Some(revision) => r == Ok::<String, &'static str>(revision),
                None => r is Err && r->Err_0@ == "invalid-group-revision"@,
            },
        },
{
    match required_string(params, "expectedRevision") {
        Err(code) => Err(code),
        Ok(_) => match parsed {
            Some(revision) => Ok(revision),
            None => Err("invalid-group-revision"),
        },
    }
}

/// Reads a change of a definition from the parameters and what is known from
/// outside, and gives it with its fingerprint.
pub fn definition_change_from_params<D>(params: &Json, facts: DefinitionFacts<D>) -> (r: Result<
    (DefinitionChangeAction<D>, String),
    &'static str,
>)
    ensures
        match change_in(params@, facts) {
            Ok((action, fingerprint)) => r is Ok && r->Ok_0.0@ == action && r->Ok_0.1@
                == fingerprint,
            Err(code) => r is Err && r->Err_0@ == code,
        },
        match r {
            Ok((DefinitionChangeAction::Create { scope, definition }, fingerprint)) => {
                &&& field(params@, "action"@) == Some(JsonView::Text("create"@))
                &&& field(params@, "scope"@) == Some(JsonView::Text(scope_name(scope)))
                &&& facts.definition == Some(definition)
                &&& facts.revision == Ok::<String, BridgeStage>(fingerprint)
            },
            Ok(
                (
                    DefinitionChangeAction::Replace {
                        scope,
                        qualified_name,
                        definition,
                        expected_revision,
                    },
                    fingerprint,
                ),
            ) => {
                &&& field(params@, "action"@) == Some(JsonView::Text("replace"@))
                &&& facts.existing is Ok
                &&& scope == facts.existing->Ok_0.scope
                &&& qualified_name == facts.existing->Ok_0.qualified_name
                &&& facts.definition == Some(definition)
                &&& facts.expected_revision == Some(expected_revision)
                &&& facts.revision == Ok::<String, BridgeStage>(fingerprint)
            },
            Ok(
                (
                    DefinitionChangeAction::Rename {
                        scope,
                        qualified_name,
                        new_name,
                        expected_revision,
                    },
                    fingerprint,
                ),
            ) => {
                &&& field(params@, "action"@) == Some(JsonView::Text("rename"@))
                &&& field(params@, "newName"@) == Some(JsonView::Text(new_name@))
                &&& facts.existing is Ok
                &&& scope == facts.existing->Ok_0.scope
                &&& qualified_name == facts.existing->Ok_0.qualified_name
                &&& facts.expected_revision == Some(expected_revision)
                &&& facts.revision == Ok::<String, BridgeStage>(fingerprint)
            },
            Ok(
                (
                    DefinitionChangeAction::Delete { scope, qualified_name, expected_revision },
                    fingerprint,
                ),
            ) => {
                &&& field(params@, "action"@) == Some(JsonView::Text("delete"@))
                &&& facts.existing is Ok
                &&& scope == facts.existing->Ok_0.scope
                &&& qualified_name == facts.existing->Ok_0.qualified_name
                &&& facts.expected_revision == Some(expected_revision)
                &&& fingerprint == facts.existing->Ok_0.revision
            },
            Ok(
                (
                    DefinitionChangeAction::Restore { scope, history_id, revision_before },
                    fingerprint,
                ),
            ) => {
                &&& field(params@, "action"@) == Some(JsonView::Text("restore"@))
                &&& field(params@, "scope"@) == Some(JsonView::Text(scope_name(scope)))
                &&& field(params@, "historyId"@) == Some(JsonView::Text(history_id@))
                &&& facts.history == Ok::<Option<bool>, BridgeStage>(Some(true))
                &&& facts.revision == Ok::<String, BridgeStage>(fingerprint)
                &&& field(params@, "expectedRevision"@) is None ==> revision_before is None
                &&& field(params@, "expectedRevision"@) is Some ==> revision_before
                    == facts.expected_revision
            },
            Err(_) => true,
        },
{
    let action = match required_string(params, "action") {
        Ok(action) => action,
        Err(code) => return Err(code),
    };
    if same_text(action, "create") {
        let scope = match required_group_scope(params) {
            Ok(scope) => scope,
            Err(code) => return Err(code),
        };
        let definition = match definition_from_params(
            params,
            facts.members_readable,
            facts.definition,
        ) {
            Ok(definition) => definition,
            Err(code) => return Err(code),
        };
        if let Err(stage) = facts.members_allowed {
            return Err(stage.code());
        }
        return match facts.revision {
            Ok(revision) => Ok((DefinitionChangeAction::Create { scope, definition }, revision)),
            Err(stage) => Err(stage.code()),
        };
    }
    if same_text(action, "replace") {
        if let Err(code) = check_reference(params, facts.reference) {
            return Err(code);
        }
        let existing = match facts.existing {
            Ok(existing) => existing,
            Err(stage) => return Err(stage.code()),
        };
        let definition = match definition_from_params(
            params,
            facts.members_readable,
            facts.definition,
        ) {
            Ok(definition) => definition,
            Err(code) => return Err(code),
        };
        if let Err(stage) = facts.members_allowed {
            return Err(stage.code());
        }
        let expected_revision = match required_revision(params, facts.expected_revision) {
            Ok(revision) => revision,
            Err(code) => return Err(code),
        };
        return match facts.revision {
            Ok(revision) => Ok(
                (
                    DefinitionChangeAction::Replace {
                        scope: existing.scope,
                        qualified_name: existing.qualified_name,
                        definition,
                        expected_revision,
                    },
                    revision,
                ),
            ),
            Err(stage) => Err(stage.code()),
        };
    }
    if same_text(action, "rename") {
        if let Err(code) = check_reference(params, facts.reference) {
            return Err(code);
        }
        let existing = match facts.existing {
            Ok(existing) => existing,
            Err(stage) => return Err(stage.code()),
        };
        let new_name = match required_string(params, "newName") {
            Ok(name) => name,
            Err(code) => return Err(code),
        };
        let expected_revision = match required_revision(params, facts.expected_revision) {
            Ok(revision) => revision,
            Err(code) => return Err(code),
        };
        if !facts.renamed_valid {
            return Err("group-definition-invalid");
        }
        return match facts.revision {
            Ok(revision) => Ok(
                (
                    DefinitionChangeAction::Rename {
                        scope: existing.scope,
                        qualified_name: existing.qualified_name,
                        new_name: new_name.to_owned(),
                        expected_revision,
                    },
                    revision,
                ),
            ),
            Err(stage) => Err(stage.code()),
        };
    }
    if same_text(action, "delete") {
        if let Err(code) = check_reference(params, facts.reference) {
            return Err(code);
        }
        let existing = match facts.existing {
            Ok(existing) => existing,
            Err(stage) => return Err(stage.code()),
        };
        let expected_revision = match required_revision(params, facts.expected_revision) {
            Ok(revision) => revision,
            Err(code) => return Err(code),
        };
        return Ok(
            (
                DefinitionChangeAction::Delete {
                    scope: existing.scope,
                    qualified_name: existing.qualified_name,
                    expected_revision,
                },
                existing.revision,
            ),
        );
    }
    if same_text(action, "restore") {
        let scope = match required_group_scope(params) {
            Ok(scope) => scope,
            Err(code) => return Err(code),
        };
        let history_id = match required_string(params, "historyId") {
            Ok(id) => id,
            Err(code) => return Err(code),
        };
        let revision_before = match params.get("expectedRevision") {
            None => None,
            Some(value) => match value.as_text() {
                None => return Err("invalid-params"),
                Some(text) => {
                    if text.is_empty() || byte_len(text)
                        > crate::bridge_request::MAX_PARAMETER_BYTES {
                        return Err("invalid-params");
                    }
                    match facts.expected_revision {
                        Some(revision) => Some(revision),
                        None => return Err("invalid-group-revision"),
                    }
                },
            },
        };
        match facts.history {
            Err(stage) => return Err(stage.code()),
            Ok(None) => return Err("group-definition-history-unavailable"),
            Ok(Some(has_definition)) => {
                if !has_definition {
                    return Err("group-definition-restore-blocked");
                }
            },
        }
        return match facts.revision {
            Ok(revision) => Ok(
                (
                    DefinitionChangeAction::Restore {
                        scope,
                        history_id: history_id.to_owned(),
                        revision_before,
                    },
                    revision,
                ),
            ),
            Err(stage) => Err(stage.code()),
        };
    }
    Err("invalid-group-definition-action")
}

/// A change under review.
pub struct ReviewedDefinitionChange<D> {
    pub action: DefinitionChangeAction<D>,
    pub plan_fingerprint: String,
    pub reviewed_at_unix: i64,
}

pub struct DefinitionReview<D> {
    pub action: ActionView<D>,
    pub fingerprint: Seq<char>,
    pub reviewed_at: i64,
}

impl<D> View for ReviewedDefinitionChange<D> {
    type V = DefinitionReview<D>;

    open spec fn view(&self) -> DefinitionReview<D> {
        DefinitionReview {
            action: self.action@,
            fingerprint: self.plan_fingerprint@,
            reviewed_at: self.reviewed_at_unix,
        }
    }
}

impl<D> Reviewed for ReviewedDefinitionChange<D> {
    open spec fn reviewed_at(seen: DefinitionReview<D>) -> i64 {
        seen.reviewed_at
    }

    fn reviewed_at_unix(&self) -> (at: i64) {
        self.reviewed_at_unix
    }
}

/// What is shown of a change.
pub open spec fn definition_plan_view<D>(
    action: ActionView<D>,
    fingerprint: Seq<char>,
) -> JsonView {
    let start = seq![
        ("action"@, JsonView::Text(action_kind(action))),
        ("scope"@, JsonView::Text(scope_name(action_scope(action)))),
    ];
    let rest = match action {
        ActionView::Create { scope, name, member_count, .. } => seq![
            ("qualifiedName"@, JsonView::Text(scope_name(scope) + ":"@ + name)),
            ("memberCount"@, JsonView::Unsigned(member_count)),
        ],
        ActionView::Replace { qualified_name, member_count, expected_revision, .. } => seq![
            ("qualifiedName"@, JsonView::Text(qualified_name)),
            ("memberCount"@, JsonView::Unsigned(member_count)),
            ("expectedRevision"@, JsonView::Text(expected_revision)),
        ],
        ActionView::Rename { qualified_name, new_name, expected_revision, .. } => seq![
            ("qualifiedName"@, JsonView::Text(qualified_name)),
            ("newName"@, JsonView::Text(new_name)),
            ("expectedRevision"@, JsonView::Text(expected_revision)),
        ],
        ActionView::Delete { qualified_name, expected_revision, .. } => seq![
            ("qualifiedName"@, JsonView::Text(qualified_name)),
            ("expectedRevision"@, JsonView::Text(expected_revision)),
        ],
        ActionView::Restore { history_id, revision_before, .. } => seq![
            ("historyId"@, JsonView::Text(history_id)),
            ("expectedRevision"@, text_or_null(revision_before)),
        ],
    };
    JsonView::Object(start + rest + seq![("planFingerprint"@, JsonView::Text(fingerprint))])
}

/// What is shown of a change: never its members.
pub fn redacted_definition_plan<D>(
    action: &DefinitionChangeAction<D>,
    plan_fingerprint: &str,
) -> (plan:
    Json)
    ensures
        plan@ == definition_plan_view(action@, plan_fingerprint@),
{
    let mut out = ObjectBuilder::new();
    out.put_text("action", action.kind());
    out.put_text("scope", action.scope().as_str());
    match action {
        DefinitionChangeAction::Create { scope, definition } => {
            let mut name = scope.as_str().to_owned();
            name.push_str(":");
            name.push_str(definition.name.as_str());
            out.put_text("qualifiedName", name.as_str());
            out.put("memberCount", Json::Unsigned(definition.member_count));
        },
        DefinitionChangeAction::Replace {
            scope,
            qualified_name,
            definition,
            expected_revision,
        } => {
            out.put_text("qualifiedName", qualified_name.as_str());
            out.put("memberCount", Json::Unsigned(definition.member_count));
            out.put_text("expectedRevision", expected_revision.as_str());
        },
        DefinitionChangeAction::Rename { scope, qualified_name, new_name, expected_revision } => {
            out.put_text("qualifiedName", qualified_name.as_str());
            out.put_text("newName", new_name.as_str());
            out.put_text("expectedRevision", expected_revision.as_str());
        },
        DefinitionChangeAction::Delete { scope, qualified_name, expected_revision } => {
            out.put_text("qualifiedName", qualified_name.as_str());
            out.put_text("expectedRevision", expected_revision.as_str());
        },
        DefinitionChangeAction::Restore { scope, history_id, revision_before } => {
            out.put_text("historyId", history_id.as_str());
            out.put("expectedRevision", optional_text(revision_before));
        },
    }
    out.put_text("planFingerprint", plan_fingerprint);
    assert(out@ =~= definition_plan_view(action@, plan_fingerprint@)->Object_0);
    out.finish()
}

/// The parameters of a change.
pub open spec fn definition_keys() -> Seq<Seq<char>> {
    seq![
        "action"@,
        "scope"@,
        "qualifiedName"@,
        "name"@,
        "newName"@,
        "members"@,
        "expectedRevision"@,
        "historyId"@,
    ]
}

/// The id of the operation with a number.
pub open spec fn definition_operation(number: nat) -> Seq<char> {
    "definition-"@ + decimal_of(number)
}

/// Takes the next operation id; a session has only so many.
pub fn next_definition_operation_id(next: &mut u64) -> (r: Result<String, &'static str>)
    ensures
        if *old(next) == u64::MAX {
            r is Err && r->Err_0@ == "group-definition-session-exhausted"@ && *final(next) == *old(
                next,
            )
        } else {
            *final(next) == *old(next) + 1 && r is Ok && r->Ok_0@ == definition_operation(
                (*old(next) + 1) as nat,
            )
        },
{
    if *next == u64::MAX {
        return Err("group-definition-session-exhausted");
    }
    *next = *next + 1;
    let mut id = "definition-".to_owned();
    id.push_str(to_decimal(*next).as_str());
    Ok(id)
}

/// What a request for a change comes to: the action, its fingerprint and the
/// number of its operation.
pub open spec fn planned_change<D>(
    count: nat,
    next: u64,
    params: JsonView,
    facts: DefinitionFacts<D>,
) -> Result<(ActionView<D>, Seq<char>), Seq<char>> {
    match params_error(params, definition_keys()) {
        Some(code) => Err(code),
        None => if count >= MAX_REVIEWED_DEFINITION_PLANS {
            Err("group-definition-plan-limit-reached"@)
        } else {
            match change_in(params, facts) {
                Err(code) => Err(code),
                Ok(change) => if next == u64::MAX {
                    Err("group-definition-session-exhausted"@)
                } else {
                    Ok(change)
                },
            }
        },
    }
}

/// The response to a planned change.
pub open spec fn planned_view<D>(
    operation_id: Seq<char>,
    action: ActionView<D>,
    fingerprint: Seq<char>,
) -> JsonView {
    JsonView::Object(
        seq![
            ("operationId"@, JsonView::Text(operation_id)),
            ("plan"@, definition_plan_view(action, fingerprint)),
        ],
    )
}

/// The response to a planned change: each part under its own name, and nothing
/// else.
pub proof fn law_shown_planned<D>(
    operation_id: Seq<char>,
    action: ActionView<D>,
    fingerprint: Seq<char>,
)
    ensures
        ({
            let shown = planned_view(operation_id, action, fingerprint);
            &&& shows_only(shown, 2)
            &&& shows(shown, "operationId"@, JsonView::Text(operation_id))
            &&& shows(shown, "plan"@, definition_plan_view(action, fingerprint))
        }),
{
    let shown = planned_view(operation_id, action, fingerprint);
    lemma_shows_all(shown);
    let at = shown->Object_0;
    assert(at[0] == at[0] && at[1] == at[1]);
}

/// Plans a change of a definition and keeps it for review.
pub fn plan_definition_change<D>(
    plans: &mut TextMap<ReviewedDefinitionChange<D>>,
    next: &mut u64,
    params: &Json,
    facts: DefinitionFacts<D>,
    now_unix: i64,
) -> (r: Result<Json, &'static str>)
    requires
        old(plans).wf(),
    ensures
        final(plans).wf(),
        old(plans).keys().len() <= MAX_REVIEWED_DEFINITION_PLANS ==> final(plans).keys().len()
            <= MAX_REVIEWED_DEFINITION_PLANS,
        match planned_change(old(plans).keys().len(), *old(next), params@, facts) {
            Err(code) => r is Err && r->Err_0@ == code && *final(plans) == *old(plans)
                && *final(next) == *old(next),
            Ok((action, fingerprint)) => {
                let id = definition_operation((*old(next) + 1) as nat);
                &&& r is Ok
                &&& r->Ok_0@ == planned_view(id, action, fingerprint)
                &&& *final(next) == *old(next) + 1
                &&& final(plans)@ == old(plans)@.insert(
                    id,
                    DefinitionReview { action, fingerprint, reviewed_at: now_unix },
                )
            },
        },
{
    let allowed: [&'static str; 8] = [
        "action",
        "scope",
        "qualifiedName",
        "name",
        "newName",
        "members",
        "expectedRevision",
        "historyId",
    ];
    assert(texts(allowed@) =~= definition_keys());
    if let Err(code) = require_only_params(params, allowed.as_slice()) {
        return Err(code);
    }
    if plans.len() >= MAX_REVIEWED_DEFINITION_PLANS {
        return Err("group-definition-plan-limit-reached");
    }
    let (action, plan_fingerprint) = match definition_change_from_params(params, facts) {
        Ok(change) => change,
        Err(code) => return Err(code),
    };
    let operation_id = match next_definition_operation_id(next) {
        Ok(id) => id,
        Err(code) => return Err(code),
    };
    let plan = redacted_definition_plan(&action, plan_fingerprint.as_str());
    let mut response = ObjectBuilder::new();
    response.put_text("operationId", operation_id.as_str());
    response.put("plan", plan);
    assert(response@ =~= planned_view(operation_id@, action@, plan_fingerprint@)->Object_0);
    plans.insert(
        operation_id.as_str(),
        ReviewedDefinitionChange { action, plan_fingerprint, reviewed_at_unix: now_unix },
    );
    Ok(response.finish())
}

/// What is wrong with a reference to a change.
pub open spec fn change_error<D>(
    plans: Map<Seq<char>, DefinitionReview<D>>,
    reference: (Seq<char>, Seq<char>),
) -> Option<Seq<char>> {
    if !plans.contains_key(reference.0) {
        Some("group-definition-plan-unavailable"@)
    } else if plans[reference.0].fingerprint != reference.1 {
        Some("plan-fingerprint-mismatch"@)
    } else {
        None
    }
}

/// The change that a request names.
pub open spec fn named_change<D>(
    plans: Map<Seq<char>, DefinitionReview<D>>,
    params: JsonView,
) -> Result<(Seq<char>, Seq<char>), Seq<char>> {
    match reference_in(params) {
        Err(code) => Err(code),
        Ok(reference) => match change_error(plans, reference) {
            Some(code) => Err(code),
            None => Ok(reference),
        },
    }
}

/// The change that a request asks to carry out.
pub fn appliable_change<D>(
    plans: &TextMap<ReviewedDefinitionChange<D>>,
    params: &Json,
) -> (r: Result<
    PlanReference,
    &'static str,
>)
    requires
        plans.wf(),
    ensures
        coded(r) == named_change(plans@, params@),
{
    let reference = match plan_reference(params) {
        Ok(reference) => reference,
        Err(code) => return Err(code),
    };
    match plans.get(reference.operation_id.as_str()) {
        None => Err("group-definition-plan-unavailable"),
        Some(reviewed) => {
            if same_text(
                reviewed.plan_fingerprint.as_str(),
                reference.plan_fingerprint.as_str(),
            ) {
                Ok(reference)
            } else {
                Err("plan-fingerprint-mismatch")
            }
        },
    }
}

/// Ends the carrying out of a change: it leaves the review only where nothing
/// stopped it, neither the sandbox nor the change itself.
pub fn finish_change<D>(
    plans: &mut TextMap<ReviewedDefinitionChange<D>>,
    operation_id: &str,
    sandbox: Result<(), BridgeStage>,
    applied: Result<Json, &'static str>,
) -> (r: Result<Json, &'static str>)
    requires
        old(plans).wf(),
    ensures
        final(plans).wf(),
        match (sandbox, applied) {
            (Err(stage), _) => r is Err && r->Err_0@ == failure_code(stage) && *final(plans)
                == *old(plans),
            (Ok(_), Err(code)) => r == Err::<Json, &'static str>(code) && *final(plans) == *old(
                plans,
            ),
            (Ok(_), Ok(value)) => r == Ok::<Json, &'static str>(value) && final(plans)@ == old(
                plans,
            )@.remove(operation_id@),
        },
{
    if let Err(stage) = sandbox {
        return Err(stage.code());
    }
    match applied {
        Err(code) => Err(code),
        Ok(value) => {
            plans.remove(operation_id);
            Ok(value)
        },
    }
}

/// Forgets a change that a request names.
pub fn discard_definition_change<D>(
    plans: &mut TextMap<ReviewedDefinitionChange<D>>,
    params: &Json,
) -> (r: Result<Json, &'static str>)
    requires
        old(plans).wf(),
    ensures
        final(plans).wf(),
        match named_change(old(plans)@, params@) {
            Err(code) => r is Err && r->Err_0@ == code && *final(plans) == *old(plans),
            Ok(reference) => r is Ok && r->Ok_0@ == flag_view("discarded"@) && final(plans)@ == old(
                plans,
            )@.remove(reference.0),
        },
{
    match appliable_change(plans, params) {
        Err(code) => Err(code),
        Ok(reference) => {
            plans.remove(reference.operation_id.as_str());
            Ok(flag("discarded"))
        },
    }
}

/// A definition after it was written.
pub struct WrittenGroup {
    pub qualified_name: String,
    pub revision: String,
}

/// What is shown of a change that was carried out.
pub open spec fn written_view(
    kind: Seq<char>,
    scope: GroupScope,
    record: WrittenGroup,
    history_id: Option<Seq<char>>,
) -> JsonView {
    JsonView::Object(
        seq![
            ("action"@, JsonView::Text(kind)),
            ("scope"@, JsonView::Text(scope_name(scope))),
            ("qualifiedName"@, JsonView::Text(record.qualified_name@)),
            ("revision"@, JsonView::Text(record.revision@)),
            ("historyId"@, text_or_null(history_id)),
        ],
    )
}

/// What is shown of a change that was carried out.
pub fn change_result(
    kind: &str,
    scope: GroupScope,
    record: &WrittenGroup,
    history_id: &Option<String>,
) -> (value: Json)
    ensures
        value@ == written_view(kind@, scope, *record, optional(*history_id)),
{
    let mut out = ObjectBuilder::new();
    out.put_text("action", kind);
    out.put_text("scope", scope.as_str());
    out.put_text("qualifiedName", record.qualified_name.as_str());
    out.put_text("revision", record.revision.as_str());
    out.put("historyId", optional_text(history_id));
    assert(out@ =~= written_view(kind@, scope, *record, optional(*history_id))->Object_0);
    out.finish()
}

/// What is shown of a deletion that was carried out.
pub open spec fn deletion_result_view(
    scope: GroupScope,
    qualified_name: Seq<char>,
    history_id: Seq<char>,
) -> JsonView {
    JsonView::Object(
        seq![
            ("action"@, JsonView::Text("delete"@)),
            ("scope"@, JsonView::Text(scope_name(scope))),
            ("qualifiedName"@, JsonView::Text(qualified_name)),
            ("historyId"@, JsonView::Text(history_id)),
        ],
    )
}

/// What is shown of a deletion that was carried out.
pub fn deletion_result(scope: GroupScope, qualified_name: &str, history_id: &str) -> (value: Json)
    ensures
        value@ == deletion_result_view(scope, qualified_name@, history_id@),
{
    let mut out = ObjectBuilder::new();
    out.put_text("action", "delete");
    out.put_text("scope", scope.as_str());
    out.put_text("qualifiedName", qualified_name);
    out.put_text("historyId", history_id);
    assert(out@ =~= deletion_result_view(scope, qualified_name@, history_id@)->Object_0);
    out.finish()
}

/// What the store of definitions answered to a change.
pub enum StoreAnswer {
    Written(WrittenGroup),
    Deleted { history_id: String },
    Refused,
}

/// What a change comes to, where the store answered so. An answer that does not
/// belong to the change is no better than a refusal.
pub open spec fn change_outcome<D>(
    action: ActionView<D>,
    answer: Result<StoreAnswer, BridgeStage>,
) -> Result<JsonView, Seq<char>> {
    match answer {
        Err(stage) => Err(failure_code(stage)),
        Ok(StoreAnswer::Refused) => Err("group-definition-apply-blocked"@),
        Ok(StoreAnswer::Deleted { history_id }) => match action {
            ActionView::Delete { scope, qualified_name, .. } => Ok(
                deletion_result_view(scope, qualified_name, history_id@),
            ),
            _ => Err("group-definition-apply-blocked"@),
        },
        Ok(StoreAnswer::Written(record)) => if action is Delete {
            Err("group-definition-apply-blocked"@)
        } else {
            Ok(
                written_view(
                    action_kind(action),
                    action_scope(action),
                    record,
                    match action {
                        ActionView::Restore { history_id, .. } => Some(history_id),
                        _ => None,
                    },
                ),
            )
        },
    }
}

/// What comes of a change that was put to the store of definitions.
pub fn apply_reviewed_definition_change<D>(
    action: &DefinitionChangeAction<D>,
    answer: Result<StoreAnswer, BridgeStage>,
) -> (r: Result<Json, &'static str>)
    ensures
        coded(r) == change_outcome(action@, answer),
{
    match answer {
        Err(stage) => Err(stage.code()),
        Ok(StoreAnswer::Refused) => Err("group-definition-apply-blocked"),
        Ok(StoreAnswer::Deleted { history_id }) => match action {
            DefinitionChangeAction::Delete { scope, qualified_name, .. } => Ok(
                deletion_result(*scope, qualified_name.as_str(), history_id.as_str()),
            ),
            _ => Err("group-definition-apply-blocked"),
        },
        Ok(StoreAnswer::Written(record)) => match action {
            DefinitionChangeAction::Delete { .. } => Err("group-definition-apply-blocked"),
            DefinitionChangeAction::Restore { scope, history_id, .. } => {
                let history = Some(history_id.clone());
                Ok(change_result(action.kind(), *scope, &record, &history))
            },
            _ => Ok(change_result(action.kind(), action.scope(), &record, &None)),
        },
    }
}

/// A record of a definition's history; what it holds beside its id and times is
/// shown as it is.
pub struct HistoryRecord {
    pub history_id: String,
    pub created_at: Json,
    pub scope: GroupScope,
    pub change: Json,
    pub name_before: Option<String>,
    pub name_after: Option<String>,
    pub revision_before: Option<String>,
    pub revision_after: Option<String>,
    pub definition_before_exists: bool,
    pub definition_after_exists: bool,
}

/// Whether the first record with an id holds an earlier definition, where there
/// is such a record.
pub open spec fn prior_definition_in(
    records: Seq<HistoryRecord>,
    history_id: Seq<char>,
) -> Option<bool>
    decreases records.len(),
{
    if records.len() == 0 {
        None
    } else if records.first().history_id@ == history_id {
        Some(records.first().definition_before_exists)
    } else {
        prior_definition_in(records.drop_first(), history_id)
    }
}

/// Whether the first record with an id holds an earlier definition, where there
/// is such a record.
pub fn prior_definition(records: &Vec<HistoryRecord>, history_id: &str) -> (r: Option<bool>)
    ensures
        r == prior_definition_in(records@, history_id@),
{
    let mut i: usize = 0;
    assert(records@.skip(0) =~= records@);
    while i < records.len()
        invariant
            i <= records@.len(),
            prior_definition_in(records@.skip(i as int), history_id@) == prior_definition_in(
                records@,
                history_id@,
            ),
        decreases records@.len() - i,
    {
        assert(records@.skip(i as int).drop_first() =~= records@.skip(i as int + 1));
        if same_text(records[i].history_id.as_str(), history_id) {
            return Some(records[i].definition_before_exists);
        }
        i = i + 1;
    }
    None
}

/// What is shown of a record of history: never the definitions themselves.
pub open spec fn redacted_definition_history_view(record: HistoryRecord) -> JsonView {
    JsonView::Object(
        seq![
            ("historyId"@, JsonView::Text(record.history_id@)),
            ("createdAt"@, record.created_at@),
            ("scope"@, JsonView::Text(scope_name(record.scope))),
            ("change"@, record.change@),
            ("nameBefore"@, text_or_null(optional(record.name_before))),
            ("nameAfter"@, text_or_null(optional(record.name_after))),
            ("revisionBefore"@, text_or_null(optional(record.revision_before))),
            ("revisionAfter"@, text_or_null(optional(record.revision_after))),
            ("definitionAfterExists"@, JsonView::Bool(record.definition_after_exists)),
        ],
    )
}

/// What is shown of a record of history: never the definitions themselves.
pub fn redacted_definition_history(record: &HistoryRecord) -> (value: Json)
    ensures
        value@ == redacted_definition_history_view(*record),
{
    let mut out = ObjectBuilder::new();
    out.put_text("historyId", record.history_id.as_str());
    out.put("createdAt", record.created_at.duplicate());
    out.put_text("scope", record.scope.as_str());
    out.put("change", record.change.duplicate());
    out.put("nameBefore", optional_text(&record.name_before));
    out.put("nameAfter", optional_text(&record.name_after));
    out.put("revisionBefore", optional_text(&record.revision_before));
    out.put("revisionAfter", optional_text(&record.revision_after));
    out.put("definitionAfterExists", Json::Bool(record.definition_after_exists));
    assert(out@ =~= redacted_definition_history_view(*record)->Object_0);
    out.finish()
}

/// What is shown of the records of history.
pub open spec fn history_views(records: Seq<HistoryRecord>) -> Seq<JsonView> {
    Seq::new(records.len(), |i: int| redacted_definition_history_view(records[i]))
}

/// What a request for the history of a scope is answered, where it was read with
/// this result.
pub open spec fn history_answer(
    params: JsonView,
    history: Result<Seq<HistoryRecord>, Seq<char>>,
) -> Result<JsonView, Seq<char>> {
    match params_error(params, seq!["scope"@]) {
        Some(code) => Err(code),
        None => match (scope_in(params), history) {
            (Err(code), _) => Err(code),
            (Ok(_), Err(code)) => Err(code),
            (Ok(_), Ok(records)) => Ok(
                JsonView::Object(seq![("history"@, JsonView::Array(history_views(records)))]),
            ),
        },
    }
}

/// What the read of a history came to.
pub open spec fn read_history(history: Result<&Vec<HistoryRecord>, BridgeStage>) -> Result<
    Seq<HistoryRecord>,
    Seq<char>,
> {
    match history {
        Ok(records) => Ok(records@),
        Err(stage) => Err(failure_code(stage)),
    }
}

/// Answers a request for the history of a scope.
pub fn definition_history(
    params: &Json,
    history: Result<&Vec<HistoryRecord>, BridgeStage>,
) -> (r: Result<Json, &'static str>)
    ensures
        coded(r) == history_answer(params@, read_history(history)),
{
    let allowed: [&'static str; 1] = ["scope"];
    assert(texts(allowed@) =~= seq!["scope"@]);
    if let Err(code) = require_only_params(params, allowed.as_slice()) {
        return Err(code);
    }
    if let Err(code) = required_group_scope(params) {
        return Err(code);
    }
    let records = match history {
        Ok(records) => records,
        Err(stage) => return Err(stage.code()),
    };
    let mut values: Vec<Json> = Vec::new();
    let mut i: usize = 0;
    while i < records.len()
        invariant
            i <= records@.len(),
            values@.len() == i,
            forall|j: int|
                0 <= j < i ==> (#[trigger] values@[j])@ == redacted_definition_history_view(
                    records@[j],
                ),
        decreases records@.len() - i,
    {
        values.push(redacted_definition_history(&records[i]));
        i = i + 1;
    }
    assert(item_views(values@) =~= history_views(records@));
    let mut out = ObjectBuilder::new();
    out.put("history", array(values));
    assert(out@ =~= seq![("history"@, JsonView::Array(history_views(records@)))]);
    Ok(out.finish())
}

/// A change is never carried out under another fingerprint than the one that
/// was shown, and a discarded one not at all.
pub proof fn law_changes_are_reviewed<D>(
    plans: Map<Seq<char>, DefinitionReview<D>>,
    reference: (Seq<char>, Seq<char>),
)
    ensures
        change_error(plans, reference) is None ==> plans.contains_key(reference.0)
            && plans[reference.0].fingerprint == reference.1,
        change_error(plans.remove(reference.0), reference) == Some(
            "group-definition-plan-unavailable"@,
        ),
{
}

/// No two changes of a session have the same operation.
pub proof fn law_operation_ids_are_distinct(a: nat, b: nat)
    requires
        a != b,
    ensures
        definition_operation(a) != definition_operation(b),
{
    if definition_operation(a) == definition_operation(b) {
        let skip = "definition-"@.len() as int;
        assert(definition_operation(a).skip(skip) =~= decimal_of(a));
        assert(definition_operation(b).skip(skip) =~= decimal_of(b));
        decimal_is_injective(a, b);
    }
}

} // verus!
