//! Workflows on the command line: which definition a command means, what a
//! proposal says, and how the commands run.
use vstd::prelude::*;

use crate::commands::flow::{
    advance, blocking, blocks, failing, fails, recovering, recovers, reviewed_first, step_at,
    CommandMove, CommandStatus, CommandStep, MoveView, StepEvent, StepRule,
};
use crate::commands::profile::{choose_definition, chosen_definition, ProfileSourceScope};
use crate::json::{
    array, item_views, optional_text, text_or_null, Json, JsonView, ObjectBuilder,
};
use crate::laws::shown::{lemma_shows_all, shows, shows_only};
use crate::laws::steps::{count_if, stands_before};
use crate::text::{optional, same_text};

verus! {

/// Where a workflow is looked for.
#[derive(Debug, Clone, Copy, PartialEq, Eq, Structural)]
pub enum WorkflowScopeArg {
    Auto,
    Global,
    Workspace,
}

impl WorkflowScopeArg {
    /// Whether the workspace is looked at.
    pub fn allows_workspace(self) -> (r: bool)
        ensures
            r == (self is Auto || self is Workspace),
    {
        matches!(self, WorkflowScopeArg::Auto | WorkflowScopeArg::Workspace)
    }

    /// Whether the global definitions are looked at.
    pub fn allows_global(self) -> (r: bool)
        ensures
            r == (self is Auto || self is Global),
    {
        matches!(self, WorkflowScopeArg::Auto | WorkflowScopeArg::Global)
    }
}

/// What is done to a definition.
#[derive(Debug, Clone, Copy, PartialEq, Eq, Structural)]
pub enum WorkflowMutationActionArg {
    Upsert,
    Delete,
}

/// Finds a workflow's definition in a scope.
pub fn load_definition<T>(
    scope: WorkflowScopeArg,
    workspace: Result<Option<T>, String>,
    global: Result<Option<T>, String>,
) -> (r: Result<Option<(ProfileSourceScope, T)>, String>)
    ensures
        r == chosen_definition(
            scope is Auto || scope is Workspace,
            scope is Auto || scope is Global,
            workspace,
            global,
        ),
{
    choose_definition(scope.allows_workspace(), scope.allows_global(), workspace, global)
}

/// What a command that changes a definition is given.
pub struct MutationArguments {
    pub id: Option<String>,
    pub file_given: bool,
    pub action: WorkflowMutationActionArg,
    pub scope: WorkflowScopeArg,
    pub restore_history_id: Option<String>,
}

/// What is wrong with the arguments of a change.
pub open spec fn mutation_error(
    arguments: MutationArguments,
) -> Option<(CommandStatus, Seq<char>)> {
    if arguments.scope is Workspace {
        Some(
            (
                CommandStatus::Blocked,
                "workflow definition mutation is global-only; workspace definitions are fixed-source"@,
            ),
        )
    } else if arguments.restore_history_id is Some {
        None
    } else if arguments.action is Upsert && arguments.id is None && !arguments.file_given {
        Some((CommandStatus::Failed, "upsert requires --file or --id"@))
    } else if arguments.action is Delete && arguments.id is None {
        Some((CommandStatus::Failed, "delete requires --id"@))
    } else {
        None
    }
}

/// Checks the arguments of a change.
pub fn check_mutation(arguments: &MutationArguments) -> (r: Result<
    (),
    (CommandStatus, &'static str),
>)
    ensures
        match mutation_error(*arguments) {
            Some((status, message)) => r is Err && r->Err_0.0 == status && r->Err_0.1@ == message,
            None => r is Ok,
        },
{
    if !arguments.scope.allows_global() || arguments.scope == WorkflowScopeArg::Workspace {
        return Err(
            (
                CommandStatus::Blocked,
                "workflow definition mutation is global-only; workspace definitions are fixed-source",
            ),
        );
    }
    if arguments.restore_history_id.is_some() {
        return Ok(());
    }
    match arguments.action {
        WorkflowMutationActionArg::Upsert => {
            if arguments.id.is_none() && !arguments.file_given {
                return Err((CommandStatus::Failed, "upsert requires --file or --id"));
            }
        },
        WorkflowMutationActionArg::Delete => {
            if arguments.id.is_none() {
                return Err((CommandStatus::Failed, "delete requires --id"));
            }
        },
    }
    Ok(())
}

/// A definition and its id.
pub struct NamedDefinition<D> {
    pub id: String,
    pub definition: D,
}

/// The change that a command asks for.
pub enum MutationRequest<D> {
    Restore { history_id: String },
    Upsert(NamedDefinition<D>),
    Delete { id: String },
}

/// The change that arguments ask for, with what was read of the file or of the
/// stored definition.
pub open spec fn requested_mutation<D>(
    arguments: MutationArguments,
    from_file: Result<NamedDefinition<D>, String>,
    stored: Result<Option<NamedDefinition<D>>, String>,
    r: Result<MutationRequest<D>, String>,
) -> bool {
    match arguments.restore_history_id {
        Some(history_id) => r matches Ok(MutationRequest::Restore { history_id: h }) && h@
            == history_id@,
        None => match arguments.action {
            WorkflowMutationActionArg::Delete => match arguments.id {
                Some(id) => r matches Ok(MutationRequest::Delete { id: i }) && i@ == id@,
                None => r is Err && r->Err_0@ == "delete requires --id"@,
            },
            WorkflowMutationActionArg::Upsert => if arguments.file_given {
                match from_file {
                    Err(message) => r is Err && r->Err_0 == message,
                    Ok(found) => upserts(arguments.id, found, r),
                }
            } else {
                match (arguments.id, stored) {
                    (None, _) => r is Err && r->Err_0@ == "upsert requires --file or --id"@,
                    (Some(_), Err(message)) => r is Err && r->Err_0 == message,
                    (Some(_), Ok(None)) => r is Err && r->Err_0@ == "workflow not found"@,
                    (Some(_), Ok(Some(found))) => upserts(arguments.id, found, r),
                }
            },
        },
    }
}

/// Whether a definition is the one that is named.
pub open spec fn upserts<D>(
    id: Option<String>,
    found: NamedDefinition<D>,
    r: Result<MutationRequest<D>, String>,
) -> bool {
    if optional(id) is Some && optional(id) != Some(found.id@) {
        r is Err && r->Err_0@ == "workflow id does not match definition id"@
    } else {
        r == Ok::<MutationRequest<D>, String>(MutationRequest::Upsert(found))
    }
}

/// Builds the change that arguments ask for. A file comes before a stored
/// definition, and an id must be that of the definition.
pub fn build_mutation_request<D>(
    arguments: &MutationArguments,
    from_file: Result<NamedDefinition<D>, String>,
    stored: Result<Option<NamedDefinition<D>>, String>,
) -> (r: Result<MutationRequest<D>, String>)
    ensures
        requested_mutation(*arguments, from_file, stored, r),
{
    if let Some(history_id) = &arguments.restore_history_id {
        return Ok(MutationRequest::Restore { history_id: history_id.clone() });
    }
    match arguments.action {
        WorkflowMutationActionArg::Delete => match &arguments.id {
            Some(id) => Ok(MutationRequest::Delete { id: id.clone() }),
            None => Err("delete requires --id".to_owned()),
        },
        WorkflowMutationActionArg::Upsert => {
            let found = if arguments.file_given {
                match from_file {
                    Ok(found) => found,
                    Err(message) => return Err(message),
                }
            } else {
                if arguments.id.is_none() {
                    return Err("upsert requires --file or --id".to_owned());
                }
                match stored {
                    Err(message) => return Err(message),
                    Ok(None) => return Err("workflow not found".to_owned()),
                    Ok(Some(found)) => found,
                }
            };
            if let Some(id) = &arguments.id {
                if !same_text(id.as_str(), found.id.as_str()) {
                    return Err("workflow id does not match definition id".to_owned());
                }
            }
            Ok(MutationRequest::Upsert(found))
        },
    }
}

/// How a change of a definition fails.
#[derive(Debug, Clone, Copy, PartialEq, Eq, Structural)]
pub enum WorkflowDefinitionErrorClass {
    Blocked,
    ReplanRequired,
    RecoveryRequired,
}

/// The status of a change that failed.
pub fn workflow_control_error_status(class: WorkflowDefinitionErrorClass) -> (status: &'static str)
    ensures
        status@ == crate::commands::profile::change_error_status(class is RecoveryRequired),
{
    match class {
        WorkflowDefinitionErrorClass::RecoveryRequired => "recovery-required",
        _ => "blocked",
    }
}

/// A subcommand that changes a definition.
pub enum WorkflowChangeCommand {
    Plan {
        id: Option<String>,
        file_given: bool,
        action: WorkflowMutationActionArg,
        scope: WorkflowScopeArg,
    },
    Apply {
        id: Option<String>,
        file_given: bool,
        action: WorkflowMutationActionArg,
        scope: WorkflowScopeArg,
    },
    Delete { workflow_id: String, scope: WorkflowScopeArg, apply: bool },
    Restore { history_id: String, apply: bool },
}

/// The arguments of a subcommand, and whether it applies the change.
pub fn change_arguments(command: WorkflowChangeCommand) -> (r: (MutationArguments, bool))
    ensures
        match command {
            WorkflowChangeCommand::Plan { id, file_given, action, scope } => r == (
                MutationArguments { id, file_given, action, scope, restore_history_id: None },
                false,
            ),
            WorkflowChangeCommand::Apply { id, file_given, action, scope } => r == (
                MutationArguments { id, file_given, action, scope, restore_history_id: None },
                true,
            ),
            WorkflowChangeCommand::Delete { workflow_id, scope, apply } => r == (
                MutationArguments {
                    id: Some(workflow_id),
                    file_given: false,
                    action: WorkflowMutationActionArg::Delete,
                    scope,
                    restore_history_id: None,
                },
                apply,
            ),
            WorkflowChangeCommand::Restore { history_id, apply } => r == (
                MutationArguments {
                    id: None,
                    file_given: false,
                    action: WorkflowMutationActionArg::Upsert,
                    scope: WorkflowScopeArg::Global,
                    restore_history_id: Some(history_id),
                },
                apply,
            ),
        },
{
    match command {
        WorkflowChangeCommand::Plan { id, file_given, action, scope } => (
            MutationArguments { id, file_given, action, scope, restore_history_id: None },
            false,
        ),
        WorkflowChangeCommand::Apply { id, file_given, action, scope } => (
            MutationArguments { id, file_given, action, scope, restore_history_id: None },
            true,
        ),
        WorkflowChangeCommand::Delete { workflow_id, scope, apply } => (
            MutationArguments {
                id: Some(workflow_id),
                file_given: false,
                action: WorkflowMutationActionArg::Delete,
                scope,
                restore_history_id: None,
            },
            apply,
        ),
        WorkflowChangeCommand::Restore { history_id, apply } => (
            MutationArguments {
                id: None,
                file_given: false,
                action: WorkflowMutationActionArg::Upsert,
                scope: WorkflowScopeArg::Global,
                restore_history_id: Some(history_id),
            },
            apply,
        ),
    }
}

/// A workflow that was ranked for a prompt.
pub struct RankedWorkflow {
    pub workflow_id: String,
    pub display_name: String,
    pub scope: String,
    pub score: Json,
    pub entry_mode: String,
}

/// A candidate of a proposal.
pub open spec fn candidate_view(workflow: RankedWorkflow) -> JsonView {
    JsonView::Object(
        seq![
            ("workflowId"@, JsonView::Text(workflow.workflow_id@)),
            ("displayName"@, JsonView::Text(workflow.display_name@)),
            ("scope"@, JsonView::Text(workflow.scope@)),
            ("score"@, workflow.score@),
            ("entryMode"@, JsonView::Text(workflow.entry_mode@)),
        ],
    )
}

/// A candidate of a proposal: each part under its own name, and nothing else.
pub proof fn law_shown_candidate(workflow: RankedWorkflow)
    ensures
        ({
            let shown = candidate_view(workflow);
            &&& shows_only(shown, 5)
            &&& shows(shown, "workflowId"@, JsonView::Text(workflow.workflow_id@))
            &&& shows(shown, "displayName"@, JsonView::Text(workflow.display_name@))
            &&& shows(shown, "scope"@, JsonView::Text(workflow.scope@))
            &&& shows(shown, "score"@, workflow.score@)
            &&& shows(shown, "entryMode"@, JsonView::Text(workflow.entry_mode@))
        }),
{
    let shown = candidate_view(workflow);
    lemma_shows_all(shown);
    let at = shown->Object_0;
    assert(at[0] == at[0] && at[1] == at[1] && at[2] == at[2] && at[3] == at[3] && at[4] ==
        at[4]);
}

/// How many candidates a proposal shows.
pub const MAX_CANDIDATES: usize = 20;

/// The candidates of a proposal: the best ranked ones, in their order.
pub open spec fn candidate_views(ranked: Seq<RankedWorkflow>) -> Seq<JsonView> {
    let count = if ranked.len() <= MAX_CANDIDATES {
        ranked.len()
    } else {
        MAX_CANDIDATES as nat
    };
    Seq::new(count, |i: int| candidate_view(ranked[i]))
}

fn candidate(workflow: &RankedWorkflow) -> (value: Json)
    ensures
        value@ == candidate_view(*workflow),
{
    let mut out = ObjectBuilder::new();
    out.put_text("workflowId", workflow.workflow_id.as_str());
    out.put_text("displayName", workflow.display_name.as_str());
    out.put_text("scope", workflow.scope.as_str());
    out.put("score", workflow.score.duplicate());
    out.put_text("entryMode", workflow.entry_mode.as_str());
    assert(out@ =~= candidate_view(*workflow)->Object_0);
    out.finish()
}

/// The candidates of a proposal.
pub fn candidates(ranked: &Vec<RankedWorkflow>) -> (values: Vec<Json>)
    ensures
        item_views(values@) == candidate_views(ranked@),
{
    let mut values: Vec<Json> = Vec::new();
    let mut i: usize = 0;
    while i < ranked.len() && i < MAX_CANDIDATES
        invariant
            i <= ranked@.len(),
            i <= MAX_CANDIDATES,
            values@.len() == i,
            forall|j: int| 0 <= j < i ==> (#[trigger] values@[j])@ == candidate_view(ranked@[j]),
        decreases ranked@.len() - i,
    {
        values.push(candidate(&ranked[i]));
        i = i + 1;
    }
    assert(item_views(values@) =~= candidate_views(ranked@));
    values
}

/// A proposal that leaves the selection open.
pub open spec fn selection_required_view(
    prompt_digest: Seq<char>,
    provider: Option<Seq<char>>,
    candidates: Seq<JsonView>,
    next_action: Option<Seq<char>>,
) -> JsonView {
    let common = seq![
        ("schemaVersion"@, JsonView::Unsigned(1)),
        ("promptDigest"@, JsonView::Text(prompt_digest)),
        ("provider"@, text_or_null(provider)),
        ("candidates"@, JsonView::Array(candidates)),
        ("recommended"@, JsonView::Null),
        ("confirmationRequired"@, JsonView::Bool(true)),
        ("mutatesState"@, JsonView::Bool(false)),
    ];
    JsonView::Object(
        match next_action {
            Some(action) => common.push(("nextAction"@, JsonView::Text(action))),
            None => common,
        },
    )
}

/// What a proposal comes to before anything is compiled.
pub enum ProposalStart {
    /// There is nothing to compile: this is the proposal.
    SelectionRequired(Json),
    /// The best ranked workflow is compiled for the provider.
    Compile,
}

/// Starts a proposal: without a workflow, or without a provider, the selection
/// is left open, and only the latter names the next action.
pub fn start_proposal(
    ranked: &Vec<RankedWorkflow>,
    provider: &Option<String>,
    prompt_digest: &str,
) -> (start:
    ProposalStart)
    ensures
        if ranked@.len() == 0 {
            start matches ProposalStart::SelectionRequired(value) && value@
                == selection_required_view(
                prompt_digest@,
                optional(*provider),
                candidate_views(ranked@),
                None,
            )
        } else if provider is None {
            start matches ProposalStart::SelectionRequired(value) && value@
                == selection_required_view(
                prompt_digest@,
                None,
                candidate_views(ranked@),
                Some("select-provider-and-workflow"@),
            )
        } else {
            start is Compile
        },
{
    if ranked.len() > 0 && provider.is_some() {
        return ProposalStart::Compile;
    }
    let mut out = ObjectBuilder::new();
    out.put("schemaVersion", Json::Unsigned(1));
    out.put_text("promptDigest", prompt_digest);
    out.put("provider", optional_text(provider));
    out.put("candidates", array(candidates(ranked)));
    out.put("recommended", Json::Null);
    out.put("confirmationRequired", Json::Bool(true));
    out.put("mutatesState", Json::Bool(false));
    let ghost next: Option<Seq<char>> = if ranked@.len() == 0 {
        None
    } else {
        Some("select-provider-and-workflow"@)
    };
    if ranked.len() > 0 {
        out.put_text("nextAction", "select-provider-and-workflow");
    }
    assert(out@ =~= selection_required_view(
        prompt_digest@,
        optional(*provider),
        candidate_views(ranked@),
        next,
    )->Object_0);
    ProposalStart::SelectionRequired(out.finish())
}

/// The steps of `workflow plan`, `apply`, `delete` and `restore`, once the
/// arguments are checked.
pub open spec fn mutation_rules() -> Seq<StepRule> {
    seq![
        failing(CommandStep::ResolveConfig),
        blocking(CommandStep::OptionalBackupKey),
        failing(CommandStep::BuildRequest),
        recovering(CommandStep::PlanChange),
        recovering(CommandStep::Expectation),
        blocking(CommandStep::Review),
        blocking(CommandStep::WriteSandbox),
        blocking(CommandStep::Authorize),
        recovering(CommandStep::Apply),
    ]
}

/// The steps of `workflow plan`, `apply`, `delete` and `restore`, once the
/// arguments are checked: one after the other, and no more.
pub proof fn law_mutation_in_order()
    ensures
        ({
            let rules = mutation_rules();
            &&& rules.len() == 9
            &&& stands_before(
                rules,
                failing(CommandStep::ResolveConfig),
                blocking(CommandStep::OptionalBackupKey),
            )
            &&& stands_before(
                rules,
                blocking(CommandStep::OptionalBackupKey),
                failing(CommandStep::BuildRequest),
            )
            &&& stands_before(
                rules,
                failing(CommandStep::BuildRequest),
                recovering(CommandStep::PlanChange),
            )
            &&& stands_before(
                rules,
                recovering(CommandStep::PlanChange),
                recovering(CommandStep::Expectation),
            )
            &&& stands_before(
                rules,
                recovering(CommandStep::Expectation),
                blocking(CommandStep::Review),
            )
            &&& stands_before(
                rules,
                blocking(CommandStep::Review),
                blocking(CommandStep::WriteSandbox),
            )
            &&& stands_before(
                rules,
                blocking(CommandStep::WriteSandbox),
                blocking(CommandStep::Authorize),
            )
            &&& stands_before(
                rules,
                blocking(CommandStep::Authorize),
                recovering(CommandStep::Apply),
            )
        }),
{
    let rules = mutation_rules();
    assert(rules[0] == failing(CommandStep::ResolveConfig));
    assert(rules[1] == blocking(CommandStep::OptionalBackupKey));
    assert(rules[2] == failing(CommandStep::BuildRequest));
    assert(rules[3] == recovering(CommandStep::PlanChange));
    assert(rules[4] == recovering(CommandStep::Expectation));
    assert(rules[5] == blocking(CommandStep::Review));
    assert(rules[6] == blocking(CommandStep::WriteSandbox));
    assert(rules[7] == blocking(CommandStep::Authorize));
    assert(rules[8] == recovering(CommandStep::Apply));
}

/// The steps of `workflow plan`, `apply`, `delete` and `restore`, once the
/// arguments are checked.
pub fn mutation() -> (rules: Vec<StepRule>)
    ensures
        rules@ == mutation_rules(),
{
    let mut rules: Vec<StepRule> = Vec::new();
    rules.push(fails(CommandStep::ResolveConfig));
    rules.push(blocks(CommandStep::OptionalBackupKey));
    rules.push(fails(CommandStep::BuildRequest));
    rules.push(recovers(CommandStep::PlanChange));
    rules.push(recovers(CommandStep::Expectation));
    rules.push(blocks(CommandStep::Review));
    rules.push(blocks(CommandStep::WriteSandbox));
    rules.push(blocks(CommandStep::Authorize));
    rules.push(recovers(CommandStep::Apply));
    assert(rules@ =~= mutation_rules());
    rules
}

/// The steps of `workflow validate`.
pub open spec fn validate_rules(stored: bool, provider_given: bool) -> Seq<StepRule> {
    seq![
        failing(CommandStep::CheckInputs),
        failing(CommandStep::ResolveConfig),
    ] + (if stored {
        seq![
            failing(CommandStep::LoadWorkflow),
        ]
    } else {
        seq![]
    }) + (if !stored {
        seq![
            failing(CommandStep::ParseDefinition),
        ]
    } else {
        seq![]
    }) + seq![
        failing(CommandStep::Discover),
    ] + (if provider_given {
        seq![
            failing(CommandStep::ParseProvider),
        ]
    } else {
        seq![]
    }) + seq![
        failing(CommandStep::CompileWorkflow),
    ]
}

/// The steps of `workflow validate`: one after the other, and no more.
pub proof fn law_validate_in_order(stored: bool, provider_given: bool)
    ensures
        ({
            let rules = validate_rules(stored, provider_given);
            &&& rules.len() == 4 + count_if(stored, 1) + count_if(!stored, 1) + count_if(provider_given, 1)
            &&& stands_before(
                rules,
                failing(CommandStep::CheckInputs),
                failing(CommandStep::ResolveConfig),
            )
            &&& stored ==> stands_before(
                rules,
                failing(CommandStep::ResolveConfig),
                failing(CommandStep::LoadWorkflow),
            )
            &&& !stored ==> stands_before(
                rules,
                failing(CommandStep::ResolveConfig),
                failing(CommandStep::ParseDefinition),
            )
            &&& stored ==> stands_before(
                rules,
                failing(CommandStep::LoadWorkflow),
                failing(CommandStep::Discover),
            )
            &&& !stored ==> stands_before(
                rules,
                failing(CommandStep::ParseDefinition),
                failing(CommandStep::Discover),
            )
            &&& stands_before(
                rules,
                failing(CommandStep::ResolveConfig),
                failing(CommandStep::Discover),
            )
            &&& provider_given ==> stands_before(
                rules,
                failing(CommandStep::Discover),
                failing(CommandStep::ParseProvider),
            )
            &&& provider_given ==> stands_before(
                rules,
                failing(CommandStep::ParseProvider),
                failing(CommandStep::CompileWorkflow),
            )
            &&& stands_before(
                rules,
                failing(CommandStep::Discover),
                failing(CommandStep::CompileWorkflow),
            )
        }),
{
    let rules = validate_rules(stored, provider_given);
    if stored {
        if provider_given {
            assert(rules[0] == failing(CommandStep::CheckInputs));
            assert(rules[1] == failing(CommandStep::ResolveConfig));
            assert(rules[2] == failing(CommandStep::LoadWorkflow));
            assert(rules[3] == failing(CommandStep::Discover));
            assert(rules[4] == failing(CommandStep::ParseProvider));
            assert(rules[5] == failing(CommandStep::CompileWorkflow));
        } else {
            assert(rules[0] == failing(CommandStep::CheckInputs));
            assert(rules[1] == failing(CommandStep::ResolveConfig));
            assert(rules[2] == failing(CommandStep::LoadWorkflow));
            assert(rules[3] == failing(CommandStep::Discover));
            assert(rules[4] == failing(CommandStep::CompileWorkflow));
        }
    } else {
        if provider_given {
            assert(rules[0] == failing(CommandStep::CheckInputs));
            assert(rules[1] == failing(CommandStep::ResolveConfig));
            assert(rules[2] == failing(CommandStep::ParseDefinition));
            assert(rules[3] == failing(CommandStep::Discover));
            assert(rules[4] == failing(CommandStep::ParseProvider));
            assert(rules[5] == failing(CommandStep::CompileWorkflow));
        } else {
            assert(rules[0] == failing(CommandStep::CheckInputs));
            assert(rules[1] == failing(CommandStep::ResolveConfig));
            assert(rules[2] == failing(CommandStep::ParseDefinition));
            assert(rules[3] == failing(CommandStep::Discover));
            assert(rules[4] == failing(CommandStep::CompileWorkflow));
        }
    }
}

/// The steps of `workflow validate`.
pub fn validate(stored: bool, provider_given: bool) -> (rules: Vec<StepRule>)
    ensures
        rules@ == validate_rules(stored, provider_given),
{
    let mut rules: Vec<StepRule> = Vec::new();
    rules.push(fails(CommandStep::CheckInputs));
    rules.push(fails(CommandStep::ResolveConfig));
    if stored {
        rules.push(fails(CommandStep::LoadWorkflow));
    }
    if !stored {
        rules.push(fails(CommandStep::ParseDefinition));
    }
    rules.push(fails(CommandStep::Discover));
    if provider_given {
        rules.push(fails(CommandStep::ParseProvider));
    }
    rules.push(fails(CommandStep::CompileWorkflow));
    assert(rules@ =~= validate_rules(stored, provider_given));
    rules
}

/// The steps of `workflow propose`, where a workflow is compiled for a provider.
pub open spec fn propose_rules(provider_given: bool) -> Seq<StepRule> {
    (if provider_given {
        seq![
            failing(CommandStep::ParseProvider),
        ]
    } else {
        seq![]
    }) + seq![
        failing(CommandStep::ResolveConfig),
        failing(CommandStep::ListDefinitions),
        failing(CommandStep::RankDefinitions),
        failing(CommandStep::Discover),
        failing(CommandStep::CompileWorkflow),
        failing(CommandStep::BuildRequest),
    ]
}

/// The steps of `workflow propose`, where a workflow is compiled for a
/// provider: one after the other, and no more.
pub proof fn law_propose_in_order(provider_given: bool)
    ensures
        ({
            let rules = propose_rules(provider_given);
            &&& rules.len() == 6 + if provider_given {
                1int
            } else {
                0int
            }
            &&& provider_given ==> stands_before(
                rules,
                failing(CommandStep::ParseProvider),
                failing(CommandStep::ResolveConfig),
            )
            &&& stands_before(
                rules,
                failing(CommandStep::ResolveConfig),
                failing(CommandStep::ListDefinitions),
            )
            &&& stands_before(
                rules,
                failing(CommandStep::ListDefinitions),
                failing(CommandStep::RankDefinitions),
            )
            &&& stands_before(
                rules,
                failing(CommandStep::RankDefinitions),
                failing(CommandStep::Discover),
            )
            &&& stands_before(
                rules,
                failing(CommandStep::Discover),
                failing(CommandStep::CompileWorkflow),
            )
            &&& stands_before(
                rules,
                failing(CommandStep::CompileWorkflow),
                failing(CommandStep::BuildRequest),
            )
        }),
{
    let rules = propose_rules(provider_given);
    if provider_given {
        assert(rules[0] == failing(CommandStep::ParseProvider));
        assert(rules[1] == failing(CommandStep::ResolveConfig));
        assert(rules[2] == failing(CommandStep::ListDefinitions));
        assert(rules[3] == failing(CommandStep::RankDefinitions));
        assert(rules[4] == failing(CommandStep::Discover));
        assert(rules[5] == failing(CommandStep::CompileWorkflow));
        assert(rules[6] == failing(CommandStep::BuildRequest));
    } else {
        assert(rules[0] == failing(CommandStep::ResolveConfig));
        assert(rules[1] == failing(CommandStep::ListDefinitions));
        assert(rules[2] == failing(CommandStep::RankDefinitions));
        assert(rules[3] == failing(CommandStep::Discover));
        assert(rules[4] == failing(CommandStep::CompileWorkflow));
        assert(rules[5] == failing(CommandStep::BuildRequest));
    }
}

/// The steps of `workflow propose`, where a workflow is compiled for a provider.
pub fn propose(provider_given: bool) -> (rules: Vec<StepRule>)
    ensures
        rules@ == propose_rules(provider_given),
{
    let mut rules: Vec<StepRule> = Vec::new();
    if provider_given {
        rules.push(fails(CommandStep::ParseProvider));
    }
    rules.push(fails(CommandStep::ResolveConfig));
    rules.push(fails(CommandStep::ListDefinitions));
    rules.push(fails(CommandStep::RankDefinitions));
    rules.push(fails(CommandStep::Discover));
    rules.push(fails(CommandStep::CompileWorkflow));
    rules.push(fails(CommandStep::BuildRequest));
    assert(rules@ =~= propose_rules(provider_given));
    rules
}

/// What follows the ranking: where the selection is left open the proposal is
/// shown and the command ends, before anything is discovered or compiled.
pub open spec fn move_after_ranking(
    rules: Seq<StepRule>,
    at: int,
    start: ProposalStart,
) -> MoveView {
    match start {
        ProposalStart::SelectionRequired(_) => MoveView::ShowPlan,
        ProposalStart::Compile => step_at(rules, at + 1),
    }
}

/// What follows the ranking.
pub fn after_ranking(rules: &Vec<StepRule>, at: usize, start: &ProposalStart) -> (next: CommandMove)
    requires
        at < rules@.len(),
        rules@[at as int].step is RankDefinitions,
    ensures
        next@ == move_after_ranking(rules@, at as int, *start),
{
    match start {
        ProposalStart::SelectionRequired(_) => CommandMove::ShowPlan,
        ProposalStart::Compile => advance(rules, at, &StepEvent::Done),
    }
}

/// The steps of `workflow list`.
pub open spec fn list_rules() -> Seq<StepRule> {
    seq![
        failing(CommandStep::ResolveConfig),
        failing(CommandStep::ListDefinitions),
    ]
}

/// The steps of `workflow list`: one after the other, and no more.
pub proof fn law_list_in_order()
    ensures
        ({
            let rules = list_rules();
            &&& rules.len() == 2
            &&& stands_before(
                rules,
                failing(CommandStep::ResolveConfig),
                failing(CommandStep::ListDefinitions),
            )
        }),
{
    let rules = list_rules();
    assert(rules[0] == failing(CommandStep::ResolveConfig));
    assert(rules[1] == failing(CommandStep::ListDefinitions));
}

/// The steps of `workflow list`.
pub fn list() -> (rules: Vec<StepRule>)
    ensures
        rules@ == list_rules(),
{
    let mut rules: Vec<StepRule> = Vec::new();
    rules.push(fails(CommandStep::ResolveConfig));
    rules.push(fails(CommandStep::ListDefinitions));
    assert(rules@ =~= list_rules());
    rules
}

/// The steps of `workflow show`.
pub open spec fn show_rules() -> Seq<StepRule> {
    seq![
        failing(CommandStep::ResolveConfig),
        failing(CommandStep::LoadWorkflow),
    ]
}

/// The steps of `workflow show`: one after the other, and no more.
pub proof fn law_show_in_order()
    ensures
        ({
            let rules = show_rules();
            &&& rules.len() == 2
            &&& stands_before(
                rules,
                failing(CommandStep::ResolveConfig),
                failing(CommandStep::LoadWorkflow),
            )
        }),
{
    let rules = show_rules();
    assert(rules[0] == failing(CommandStep::ResolveConfig));
    assert(rules[1] == failing(CommandStep::LoadWorkflow));
}

/// The steps of `workflow show`.
pub fn show() -> (rules: Vec<StepRule>)
    ensures
        rules@ == show_rules(),
{
    let mut rules: Vec<StepRule> = Vec::new();
    rules.push(fails(CommandStep::ResolveConfig));
    rules.push(fails(CommandStep::LoadWorkflow));
    assert(rules@ =~= show_rules());
    rules
}

/// No definition is changed without a review.
pub proof fn law_mutation_is_reviewed()
    ensures
        reviewed_first(mutation_rules()),
{
    assert(mutation_rules()[5].step is Review);
}

/// A definition of a workspace is never changed.
pub proof fn law_workspace_definitions_are_fixed(arguments: MutationArguments)
    requires
        mutation_error(arguments) is None,
    ensures
        arguments.scope is Auto || arguments.scope is Global,
{
}

} // verus!
