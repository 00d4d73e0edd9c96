//! Profiles: which policy a command changes, how a change is protected, and how
//! the commands run.
use vstd::prelude::*;

use crate::commands::flow::{
    blocking, blocks, coded_exit, failing, fails, recovering, recovers, reviewed_first, with_exit,
    CommandStep, FailureClass, StepRule,
};
use crate::laws::steps::{count_if, stands_before};
use crate::text::{begins_with, joined, optional, outcome, part_of, stands_at, string_views};

verus! {

/// Where a definition is looked for.
#[derive(Debug, Clone, Copy, PartialEq, Eq, Structural)]
pub enum DefinitionScopeArg {
    Auto,
    Global,
    Workspace,
}

/// Where a definition came from.
#[derive(Debug, Clone, Copy, PartialEq, Eq, Structural)]
pub enum ProfileSourceScope {
    Global,
    Repository,
    Workspace,
    Session,
}

/// The definition that a scope finds: the workspace comes before the global
/// one.
pub open spec fn chosen_definition<T>(
    in_workspace: bool,
    in_global: bool,
    workspace: Result<Option<T>, String>,
    global: Result<Option<T>, String>,
) -> Result<Option<(ProfileSourceScope, T)>, String> {
    if in_workspace && workspace is Err {
        Err(workspace->Err_0)
    } else if in_workspace && workspace->Ok_0 is Some {
        Ok(Some((ProfileSourceScope::Workspace, workspace->Ok_0->0)))
    } else if in_global && global is Err {
        Err(global->Err_0)
    } else if in_global && global->Ok_0 is Some {
        Ok(Some((ProfileSourceScope::Global, global->Ok_0->0)))
    } else {
        Ok(None)
    }
}

/// Chooses a definition: the workspace comes before the global one, and a
/// scope that is not asked for does not matter.
pub fn choose_definition<T>(
    in_workspace: bool,
    in_global: bool,
    workspace: Result<Option<T>, String>,
    global: Result<Option<T>, String>,
) -> (r: Result<Option<(ProfileSourceScope, T)>, String>)
    ensures
        r == chosen_definition(in_workspace, in_global, workspace, global),
{
    if in_workspace {
        match workspace {
            Err(message) => return Err(message),
            Ok(Some(found)) => return Ok(Some((ProfileSourceScope::Workspace, found))),
            Ok(None) => {},
        }
    }
    if in_global {
        match global {
            Err(message) => return Err(message),
            Ok(Some(found)) => return Ok(Some((ProfileSourceScope::Global, found))),
            Ok(None) => {},
        }
    }
    Ok(None)
}

/// Finds a profile's definition in a scope.
pub fn load_definition<T>(
    scope: DefinitionScopeArg,
    workspace: Result<Option<T>, String>,
    global: Result<Option<T>, String>,
) -> (r: Result<Option<(ProfileSourceScope, T)>, String>)
    ensures
        r == chosen_definition(!(scope is Global), !(scope is Workspace), workspace, global),
{
    choose_definition(
        scope != DefinitionScopeArg::Global,
        scope != DefinitionScopeArg::Workspace,
        workspace,
        global,
    )
}

/// The scope of a definition that is read from a file.
pub fn file_source_scope(scope: DefinitionScopeArg) -> (source: ProfileSourceScope)
    ensures
        source == (if scope is Global {
            ProfileSourceScope::Global
        } else {
            ProfileSourceScope::Workspace
        }),
{
    match scope {
        DefinitionScopeArg::Global => ProfileSourceScope::Global,
        _ => ProfileSourceScope::Workspace,
    }
}

/// Whether a file's name is that of an environment file.
pub open spec fn environment_file(name: Option<Seq<char>>) -> bool {
    name is Some && stands_at(name->0, ".env"@, 0)
}

/// Whether a file may hold a definition of a kind: an environment file may
/// not.
pub fn definition_file_allowed(kind: &str, file_name: &Option<String>) -> (r: Result<(), String>)
    ensures
        outcome(r) == (if environment_file(optional(*file_name)) {
            Err::<(), Seq<char>>(".env "@ + kind@ + " input is forbidden"@)
        } else {
            Ok(())
        }),
{
    match file_name {
        Some(name) => {
            if begins_with(name.as_str(), ".env") {
                let start = joined(".env ", kind);
                Err(joined(start.as_str(), " input is forbidden"))
            } else {
                Ok(())
            }
        },
        None => Ok(()),
    }
}

/// Whether exactly one of an id and a file is given.
pub fn one_source_given(id_given: bool, file_given: bool) -> (r: Result<(), String>)
    ensures
        outcome(r) == (if id_given == file_given {
            Err::<(), Seq<char>>("provide exactly one of --id or --file"@)
        } else {
            Ok(())
        }),
{
    if id_given == file_given {
        Err("provide exactly one of --id or --file".to_owned())
    } else {
        Ok(())
    }
}

/// How a protected change of a policy fails: the change itself, or the record
/// that protects it.
#[derive(Debug, Clone, Copy, PartialEq, Eq, Structural)]
pub enum ProtectedPolicyChangeError {
    Apply { recovery_required: bool },
    Maintenance,
}

/// What a failed change leaves behind: a record that could not be closed
/// always needs recovery.
pub fn protected_change_class(error: ProtectedPolicyChangeError) -> (class: FailureClass)
    ensures
        class == (match error {
            ProtectedPolicyChangeError::Apply { recovery_required: false } => FailureClass::Plain,
            _ => FailureClass::RecoveryRequired,
        }),
{
    match error {
        ProtectedPolicyChangeError::Apply { recovery_required } => {
            if recovery_required {
                FailureClass::RecoveryRequired
            } else {
                FailureClass::Plain
            }
        },
        ProtectedPolicyChangeError::Maintenance => FailureClass::RecoveryRequired,
    }
}

/// The status of a change that failed.
pub open spec fn change_error_status(recovery_required: bool) -> Seq<char> {
    if recovery_required {
        "recovery-required"@
    } else {
        "blocked"@
    }
}

/// How a policy change fails.
#[derive(Debug, Clone, Copy, PartialEq, Eq, Structural)]
pub enum PolicyControlError {
    /// The durable operation must be recovered.
    DurableRecoveryRequired,
    Other,
}

/// The status of a failed policy change.
pub fn policy_control_error_status(error: PolicyControlError) -> (status: &'static str)
    ensures
        status@ == change_error_status(error is DurableRecoveryRequired),
{
    match error {
        PolicyControlError::DurableRecoveryRequired => "recovery-required",
        PolicyControlError::Other => "blocked",
    }
}

/// How an operation on a provider's profile fails.
#[derive(Debug, Clone, Copy, PartialEq, Eq, Structural)]
pub enum ProfileProviderOperationError {
    RecoveryRequired,
    Other,
}

/// The status of a failed operation on a provider's profile.
pub fn profile_provider_error_status(error: ProfileProviderOperationError) -> (status: &'static str)
    ensures
        status@ == change_error_status(error is RecoveryRequired),
{
    match error {
        ProfileProviderOperationError::RecoveryRequired => "recovery-required",
        ProfileProviderOperationError::Other => "blocked",
    }
}

/// The exit code of a failed operation on a provider's profile.
pub fn profile_provider_error_exit(error: ProfileProviderOperationError) -> (code: u8)
    ensures
        code == (if error is RecoveryRequired {
            4u8
        } else {
            3u8
        }),
{
    match error {
        ProfileProviderOperationError::RecoveryRequired => 4,
        ProfileProviderOperationError::Other => 3,
    }
}

/// How an operation on a provider's profile ended.
#[derive(Debug, Clone, Copy, PartialEq, Eq, Structural)]
pub enum ProfileProviderOperationStatus {
    Applied,
    NoOp,
    Blocked,
    RecoveryRequired,
}

/// The status and the exit code of an operation that ended.
pub fn profile_operation_result(status: ProfileProviderOperationStatus) -> (r: (&'static str, u8))
    ensures
        r.0@ == (match status {
            ProfileProviderOperationStatus::Applied => "applied"@,
            ProfileProviderOperationStatus::NoOp => "no-op"@,
            ProfileProviderOperationStatus::Blocked => "blocked"@,
            ProfileProviderOperationStatus::RecoveryRequired => "recovery-required"@,
        }),
        r.1 == (match status {
            ProfileProviderOperationStatus::Applied => 0u8,
            ProfileProviderOperationStatus::NoOp => 0u8,
            ProfileProviderOperationStatus::Blocked => 3u8,
            ProfileProviderOperationStatus::RecoveryRequired => 4u8,
        }),
{
    match status {
        ProfileProviderOperationStatus::Applied => ("applied", 0),
        ProfileProviderOperationStatus::NoOp => ("no-op", 0),
        ProfileProviderOperationStatus::Blocked => ("blocked", 3),
        ProfileProviderOperationStatus::RecoveryRequired => ("recovery-required", 4),
    }
}

/// Whether the first characters of a text are each one byte long.
pub open spec fn plain_start(text: Seq<char>, count: int) -> bool {
    text.len() >= count && forall|i: int| 0 <= i < count ==> (#[trigger] text[i] as u32) < 128
}

/// A name made of a prefix and the start of a fingerprint.
pub fn derived_name(prefix: &str, plan_fingerprint: &str, count: usize) -> (name: String)
    requires
        plain_start(plan_fingerprint@, count as int),
    ensures
        name@ == prefix@ + plan_fingerprint@.take(count as int),
{
    let start = part_of(plan_fingerprint, 0, count);
    assert(plan_fingerprint@.subrange(0, count as int) =~= plan_fingerprint@.take(count as int));
    joined(prefix, start.as_str())
}

/// The approval under which a policy is maintained.
pub struct PolicyMaintenanceApproval {
    pub confirmed: bool,
    pub plan_fingerprint: String,
    pub actor_id: String,
    pub reviewed_at_unix: u64,
    pub decision_digest: String,
}

/// The approval of a plan that was reviewed and confirmed; a clock before the
/// epoch counts as the epoch.
pub fn policy_maintenance_approval(plan_fingerprint: &str, now_unix: i64) -> (approval:
    PolicyMaintenanceApproval)
    ensures
        approval.confirmed,
        approval.plan_fingerprint@ == plan_fingerprint@,
        approval.actor_id@ == "unpin-cli-policy-maintenance"@,
        approval.reviewed_at_unix == (if now_unix < 0 {
            0
        } else {
            now_unix as int
        }),
        approval.decision_digest@ == plan_fingerprint@,
{
    PolicyMaintenanceApproval {
        confirmed: true,
        plan_fingerprint: plan_fingerprint.to_owned(),
        actor_id: "unpin-cli-policy-maintenance".to_owned(),
        reviewed_at_unix: if now_unix < 0 {
            0
        } else {
            now_unix as u64
        },
        decision_digest: plan_fingerprint.to_owned(),
    }
}

/// The state of a capability lock that a command asks for.
#[derive(Debug, Clone, Copy, PartialEq, Eq, Structural)]
pub enum CapabilityLockStateArg {
    HardEnabled,
    HardDisabled,
    Clear,
}

/// The state of a capability lock.
#[derive(Debug, Clone, Copy, PartialEq, Eq, Structural)]
pub enum CapabilityLockState {
    HardEnabled,
    HardDisabled,
}

/// The lock that a command asks for: none where it is to be cleared.
pub fn requested_lock(state: CapabilityLockStateArg) -> (lock: Option<CapabilityLockState>)
    ensures
        lock == (match state {
            CapabilityLockStateArg::HardEnabled => Some(CapabilityLockState::HardEnabled),
            CapabilityLockStateArg::HardDisabled => Some(CapabilityLockState::HardDisabled),
            CapabilityLockStateArg::Clear => None,
        }),
{
    match state {
        CapabilityLockStateArg::HardEnabled => Some(CapabilityLockState::HardEnabled),
        CapabilityLockStateArg::HardDisabled => Some(CapabilityLockState::HardDisabled),
        CapabilityLockStateArg::Clear => None,
    }
}

/// Which workspace a status is asked of.
#[derive(Debug, Clone, Copy, PartialEq, Eq, Structural)]
pub enum StatusTarget {
    Recorded,
    CurrentWorkspace,
}

/// Which workspace a status is asked of: both keys are given, or neither.
pub fn status_target(repository_given: bool, workspace_given: bool) -> (r: Result<
    StatusTarget,
    String,
>)
    ensures
        match (repository_given, workspace_given) {
            (true, true) => r == Ok::<StatusTarget, String>(StatusTarget::Recorded),
            (false, false) => r == Ok::<StatusTarget, String>(StatusTarget::CurrentWorkspace),
            _ => r is Err && r->Err_0@
                == "repository-key and workspace-key must be supplied together"@,
        },
{
    match (repository_given, workspace_given) {
        (true, true) => Ok(StatusTarget::Recorded),
        (false, false) => Ok(StatusTarget::CurrentWorkspace),
        _ => Err("repository-key and workspace-key must be supplied together".to_owned()),
    }
}

/// The steps that select a profile for the providers in reach. Every failure has
/// a code of its own.
pub open spec fn apply_profile_with_reach_rules() -> Seq<StepRule> {
    seq![
        coded_exit(blocking(CommandStep::SelectReach), 3),
        coded_exit(blocking(CommandStep::ReconcileReach), 3),
        coded_exit(recovering(CommandStep::PlanChange), 3),
        coded_exit(blocking(CommandStep::Review), 3),
        coded_exit(blocking(CommandStep::WriteSandbox), 3),
        coded_exit(blocking(CommandStep::SessionKey), 3),
        coded_exit(blocking(CommandStep::ApprovalContext), 3),
        coded_exit(blocking(CommandStep::Expectation), 3),
        coded_exit(blocking(CommandStep::RootBinding), 3),
        coded_exit(blocking(CommandStep::SignPrincipal), 3),
        coded_exit(blocking(CommandStep::Authorize), 3),
        coded_exit(blocking(CommandStep::MaterializeRevision), 3),
        coded_exit(blocking(CommandStep::BackupKey), 3),
        coded_exit(recovering(CommandStep::Apply), 3),
    ]
}

/// The steps that select a profile for the providers in reach. Every failure
/// has a code of its own: one after the other, and no more.
pub proof fn law_apply_profile_with_reach_in_order()
    ensures
        ({
            let rules = apply_profile_with_reach_rules();
            &&& rules.len() == 14
            &&& stands_before(
                rules,
                coded_exit(blocking(CommandStep::SelectReach), 3),
                coded_exit(blocking(CommandStep::ReconcileReach), 3),
            )
            &&& stands_before(
                rules,
                coded_exit(blocking(CommandStep::ReconcileReach), 3),
                coded_exit(recovering(CommandStep::PlanChange), 3),
            )
            &&& stands_before(
                rules,
                coded_exit(recovering(CommandStep::PlanChange), 3),
                coded_exit(blocking(CommandStep::Review), 3),
            )
            &&& stands_before(
                rules,
                coded_exit(blocking(CommandStep::Review), 3),
                coded_exit(blocking(CommandStep::WriteSandbox), 3),
            )
            &&& stands_before(
                rules,
                coded_exit(blocking(CommandStep::WriteSandbox), 3),
                coded_exit(blocking(CommandStep::SessionKey), 3),
            )
            &&& stands_before(
                rules,
                coded_exit(blocking(CommandStep::SessionKey), 3),
                coded_exit(blocking(CommandStep::ApprovalContext), 3),
            )
            &&& stands_before(
                rules,
                coded_exit(blocking(CommandStep::ApprovalContext), 3),
                coded_exit(blocking(CommandStep::Expectation), 3),
            )
            &&& stands_before(
                rules,
                coded_exit(blocking(CommandStep::Expectation), 3),
                coded_exit(blocking(CommandStep::RootBinding), 3),
            )
            &&& stands_before(
                rules,
                coded_exit(blocking(CommandStep::RootBinding), 3),
                coded_exit(blocking(CommandStep::SignPrincipal), 3),
            )
            &&& stands_before(
                rules,
                coded_exit(blocking(CommandStep::SignPrincipal), 3),
                coded_exit(blocking(CommandStep::Authorize), 3),
            )
            &&& stands_before(
                rules,
                coded_exit(blocking(CommandStep::Authorize), 3),
                coded_exit(blocking(CommandStep::MaterializeRevision), 3),
            )
            &&& stands_before(
                rules,
                coded_exit(blocking(CommandStep::MaterializeRevision), 3),
                coded_exit(blocking(CommandStep::BackupKey), 3),
            )
            &&& stands_before(
                rules,
                coded_exit(blocking(CommandStep::BackupKey), 3),
                coded_exit(recovering(CommandStep::Apply), 3),
            )
        }),
{
    let rules = apply_profile_with_reach_rules();
    assert(rules[0] == coded_exit(blocking(CommandStep::SelectReach), 3));
    assert(rules[1] == coded_exit(blocking(CommandStep::ReconcileReach), 3));
    assert(rules[2] == coded_exit(recovering(CommandStep::PlanChange), 3));
    assert(rules[3] == coded_exit(blocking(CommandStep::Review), 3));
    assert(rules[4] == coded_exit(blocking(CommandStep::WriteSandbox), 3));
    assert(rules[5] == coded_exit(blocking(CommandStep::SessionKey), 3));
    assert(rules[6] == coded_exit(blocking(CommandStep::ApprovalContext), 3));
    assert(rules[7] == coded_exit(blocking(CommandStep::Expectation), 3));
    assert(rules[8] == coded_exit(blocking(CommandStep::RootBinding), 3));
    assert(rules[9] == coded_exit(blocking(CommandStep::SignPrincipal), 3));
    assert(rules[10] == coded_exit(blocking(CommandStep::Authorize), 3));
    assert(rules[11] == coded_exit(blocking(CommandStep::MaterializeRevision), 3));
    assert(rules[12] == coded_exit(blocking(CommandStep::BackupKey), 3));
    assert(rules[13] == coded_exit(recovering(CommandStep::Apply), 3));
}

/// The steps that select a profile for the providers in reach. Every failure has
/// a code of its own.
pub fn apply_profile_with_reach() -> (rules: Vec<StepRule>)
    ensures
        rules@ == apply_profile_with_reach_rules(),
{
    let mut rules: Vec<StepRule> = Vec::new();
    rules.push(with_exit(blocks(CommandStep::SelectReach), 3));
    rules.push(with_exit(blocks(CommandStep::ReconcileReach), 3));
    rules.push(with_exit(recovers(CommandStep::PlanChange), 3));
    rules.push(with_exit(blocks(CommandStep::Review), 3));
    rules.push(with_exit(blocks(CommandStep::WriteSandbox), 3));
    rules.push(with_exit(blocks(CommandStep::SessionKey), 3));
    rules.push(with_exit(blocks(CommandStep::ApprovalContext), 3));
    rules.push(with_exit(blocks(CommandStep::Expectation), 3));
    rules.push(with_exit(blocks(CommandStep::RootBinding), 3));
    rules.push(with_exit(blocks(CommandStep::SignPrincipal), 3));
    rules.push(with_exit(blocks(CommandStep::Authorize), 3));
    rules.push(with_exit(blocks(CommandStep::MaterializeRevision), 3));
    rules.push(with_exit(blocks(CommandStep::BackupKey), 3));
    rules.push(with_exit(recovers(CommandStep::Apply), 3));
    assert(rules@ =~= apply_profile_with_reach_rules());
    rules
}

/// The steps that select a profile in a policy.
pub open spec fn apply_policy_profile_rules() -> Seq<StepRule> {
    seq![
        blocking(CommandStep::PlanChange),
        blocking(CommandStep::ApprovalContext),
        blocking(CommandStep::Review),
        blocking(CommandStep::WriteSandbox),
        blocking(CommandStep::SessionKey),
        blocking(CommandStep::Expectation),
        blocking(CommandStep::Authorize),
        blocking(CommandStep::MaterializeRevision),
        blocking(CommandStep::BackupKey),
        recovering(CommandStep::Apply),
    ]
}

/// The steps that select a profile in a policy: one after the other, and no
/// more.
pub proof fn law_apply_policy_profile_in_order()
    ensures
        ({
            let rules = apply_policy_profile_rules();
            &&& rules.len() == 10
            &&& stands_before(
                rules,
                blocking(CommandStep::PlanChange),
                blocking(CommandStep::ApprovalContext),
            )
            &&& stands_before(
                rules,
                blocking(CommandStep::ApprovalContext),
                blocking(CommandStep::Review),
            )
            &&& stands_before(
                rules,
                blocking(CommandStep::Review),
                blocking(CommandStep::WriteSandbox),
            )
            &&& stands_before(
                rules,
                blocking(CommandStep::WriteSandbox),
                blocking(CommandStep::SessionKey),
            )
            &&& stands_before(
                rules,
                blocking(CommandStep::SessionKey),
                blocking(CommandStep::Expectation),
            )
            &&& stands_before(
                rules,
                blocking(CommandStep::Expectation),
                blocking(CommandStep::Authorize),
            )
            &&& stands_before(
                rules,
                blocking(CommandStep::Authorize),
                blocking(CommandStep::MaterializeRevision),
            )
            &&& stands_before(
                rules,
                blocking(CommandStep::MaterializeRevision),
                blocking(CommandStep::BackupKey),
            )
            &&& stands_before(
                rules,
                blocking(CommandStep::BackupKey),
                recovering(CommandStep::Apply),
            )
        }),
{
    let rules = apply_policy_profile_rules();
    assert(rules[0] == blocking(CommandStep::PlanChange));
    assert(rules[1] == blocking(CommandStep::ApprovalContext));
    assert(rules[2] == blocking(CommandStep::Review));
    assert(rules[3] == blocking(CommandStep::WriteSandbox));
    assert(rules[4] == blocking(CommandStep::SessionKey));
    assert(rules[5] == blocking(CommandStep::Expectation));
    assert(rules[6] == blocking(CommandStep::Authorize));
    assert(rules[7] == blocking(CommandStep::MaterializeRevision));
    assert(rules[8] == blocking(CommandStep::BackupKey));
    assert(rules[9] == recovering(CommandStep::Apply));
}

/// The steps that select a profile in a policy.
pub fn apply_policy_profile() -> (rules: Vec<StepRule>)
    ensures
        rules@ == apply_policy_profile_rules(),
{
    let mut rules: Vec<StepRule> = Vec::new();
    rules.push(blocks(CommandStep::PlanChange));
    rules.push(blocks(CommandStep::ApprovalContext));
    rules.push(blocks(CommandStep::Review));
    rules.push(blocks(CommandStep::WriteSandbox));
    rules.push(blocks(CommandStep::SessionKey));
    rules.push(blocks(CommandStep::Expectation));
    rules.push(blocks(CommandStep::Authorize));
    rules.push(blocks(CommandStep::MaterializeRevision));
    rules.push(blocks(CommandStep::BackupKey));
    rules.push(recovers(CommandStep::Apply));
    assert(rules@ =~= apply_policy_profile_rules());
    rules
}

/// The steps of `profile apply`.
pub open spec fn apply_profile_rules(provider_given: bool, with_reach: bool) -> Seq<StepRule> {
    (if provider_given {
        seq![failing(CommandStep::ParseProvider)]
    } else {
        seq![]
    }) + seq![
        failing(CommandStep::ResolveConfig),
        failing(CommandStep::LoadProfile),
        failing(CommandStep::CompileProfile),
        failing(CommandStep::WorkspaceIdentity),
        failing(CommandStep::PolicyTarget),
    ] + (if with_reach {
        apply_profile_with_reach_rules()
    } else {
        apply_policy_profile_rules()
    })
}

/// The steps of `profile apply`: what is the same for both ways comes first.
pub fn apply_profile(provider_given: bool, with_reach: bool) -> (rules: Vec<StepRule>)
    ensures
        rules@ == apply_profile_rules(provider_given, with_reach),
{
    let mut rules: Vec<StepRule> = Vec::new();
    if provider_given {
        rules.push(fails(CommandStep::ParseProvider));
    }
    rules.push(fails(CommandStep::ResolveConfig));
    rules.push(fails(CommandStep::LoadProfile));
    rules.push(fails(CommandStep::CompileProfile));
    rules.push(fails(CommandStep::WorkspaceIdentity));
    rules.push(fails(CommandStep::PolicyTarget));
    let mut rest = if with_reach {
        apply_profile_with_reach()
    } else {
        apply_policy_profile()
    };
    rules.append(&mut rest);
    assert(rules@ =~= apply_profile_rules(provider_given, with_reach));
    rules
}

/// The steps of `profile lock`.
pub open spec fn change_capability_lock_rules() -> Seq<StepRule> {
    seq![
        failing(CommandStep::ParseProvider),
        failing(CommandStep::ParseCapability),
        failing(CommandStep::ResolveConfig),
        failing(CommandStep::WorkspaceIdentity),
        blocking(CommandStep::PlanChange),
        blocking(CommandStep::ApprovalContext),
        blocking(CommandStep::Expectation),
        blocking(CommandStep::Review),
        blocking(CommandStep::WriteSandbox),
        blocking(CommandStep::SessionKey),
        blocking(CommandStep::Authorize),
        blocking(CommandStep::BackupKey),
        recovering(CommandStep::Apply),
    ]
}

/// The steps of `profile lock`: one after the other, and no more.
pub proof fn law_change_capability_lock_in_order()
    ensures
        ({
            let rules = change_capability_lock_rules();
            &&& rules.len() == 13
            &&& stands_before(
                rules,
                failing(CommandStep::ParseProvider),
                failing(CommandStep::ParseCapability),
            )
            &&& stands_before(
                rules,
                failing(CommandStep::ParseCapability),
                failing(CommandStep::ResolveConfig),
            )
            &&& stands_before(
                rules,
                failing(CommandStep::ResolveConfig),
                failing(CommandStep::WorkspaceIdentity),
            )
            &&& stands_before(
                rules,
                failing(CommandStep::WorkspaceIdentity),
                blocking(CommandStep::PlanChange),
            )
            &&& stands_before(
                rules,
                blocking(CommandStep::PlanChange),
                blocking(CommandStep::ApprovalContext),
            )
            &&& stands_before(
                rules,
                blocking(CommandStep::ApprovalContext),
                blocking(CommandStep::Expectation),
            )
            &&& stands_before(
                rules,
                blocking(CommandStep::Expectation),
                blocking(CommandStep::Review),
            )
            &&& stands_before(
                rules,
                blocking(CommandStep::Review),
                blocking(CommandStep::WriteSandbox),
            )
            &&& stands_before(
                rules,
                blocking(CommandStep::WriteSandbox),
                blocking(CommandStep::SessionKey),
            )
            &&& stands_before(
                rules,
                blocking(CommandStep::SessionKey),
                blocking(CommandStep::Authorize),
            )
            &&& stands_before(
                rules,
                blocking(CommandStep::Authorize),
                blocking(CommandStep::BackupKey),
            )
            &&& stands_before(
                rules,
                blocking(CommandStep::BackupKey),
                recovering(CommandStep::Apply),
            )
        }),
{
    let rules = change_capability_lock_rules();
    assert(rules[0] == failing(CommandStep::ParseProvider));
    assert(rules[1] == failing(CommandStep::ParseCapability));
    assert(rules[2] == failing(CommandStep::ResolveConfig));
    assert(rules[3] == failing(CommandStep::WorkspaceIdentity));
    assert(rules[4] == blocking(CommandStep::PlanChange));
    assert(rules[5] == blocking(CommandStep::ApprovalContext));
    assert(rules[6] == blocking(CommandStep::Expectation));
    assert(rules[7] == blocking(CommandStep::Review));
    assert(rules[8] == blocking(CommandStep::WriteSandbox));
    assert(rules[9] == blocking(CommandStep::SessionKey));
    assert(rules[10] == blocking(CommandStep::Authorize));
    assert(rules[11] == blocking(CommandStep::BackupKey));
    assert(rules[12] == recovering(CommandStep::Apply));
}

/// The steps of `profile lock`.
pub fn change_capability_lock() -> (rules: Vec<StepRule>)
    ensures
        rules@ == change_capability_lock_rules(),
{
    let mut rules: Vec<StepRule> = Vec::new();
    rules.push(fails(CommandStep::ParseProvider));
    rules.push(fails(CommandStep::ParseCapability));
    rules.push(fails(CommandStep::ResolveConfig));
    rules.push(fails(CommandStep::WorkspaceIdentity));
    rules.push(blocks(CommandStep::PlanChange));
    rules.push(blocks(CommandStep::ApprovalContext));
    rules.push(blocks(CommandStep::Expectation));
    rules.push(blocks(CommandStep::Review));
    rules.push(blocks(CommandStep::WriteSandbox));
    rules.push(blocks(CommandStep::SessionKey));
    rules.push(blocks(CommandStep::Authorize));
    rules.push(blocks(CommandStep::BackupKey));
    rules.push(recovers(CommandStep::Apply));
    assert(rules@ =~= change_capability_lock_rules());
    rules
}

/// The steps of `profile policy` commands that change something.
pub open spec fn run_policy_maintenance_mutation_rules(workspace_named: bool) -> Seq<StepRule> {
    (if workspace_named {
        seq![
            failing(CommandStep::PolicyTarget),
        ]
    } else {
        seq![]
    }) + seq![
        failing(CommandStep::ResolveConfig),
        blocking(CommandStep::BackupKey),
        blocking(CommandStep::PlanChange),
        blocking(CommandStep::Review),
        blocking(CommandStep::WriteSandbox),
        blocking(CommandStep::Apply),
    ]
}

/// The steps of `profile policy` commands that change something: one after the
/// other, and no more.
pub proof fn law_run_policy_maintenance_mutation_in_order(workspace_named: bool)
    ensures
        ({
            let rules = run_policy_maintenance_mutation_rules(workspace_named);
            &&& rules.len() == 6 + if workspace_named {
                1int
            } else {
                0int
            }
            &&& workspace_named ==> stands_before(
                rules,
                failing(CommandStep::PolicyTarget),
                failing(CommandStep::ResolveConfig),
            )
            &&& stands_before(
                rules,
                failing(CommandStep::ResolveConfig),
                blocking(CommandStep::BackupKey),
            )
            &&& stands_before(
                rules,
                blocking(CommandStep::BackupKey),
                blocking(CommandStep::PlanChange),
            )
            &&& stands_before(
                rules,
                blocking(CommandStep::PlanChange),
                blocking(CommandStep::Review),
            )
            &&& stands_before(
                rules,
                blocking(CommandStep::Review),
                blocking(CommandStep::WriteSandbox),
            )
            &&& stands_before(
                rules,
                blocking(CommandStep::WriteSandbox),
                blocking(CommandStep::Apply),
            )
        }),
{
    let rules = run_policy_maintenance_mutation_rules(workspace_named);
    if workspace_named {
        assert(rules[0] == failing(CommandStep::PolicyTarget));
        assert(rules[1] == failing(CommandStep::ResolveConfig));
        assert(rules[2] == blocking(CommandStep::BackupKey));
        assert(rules[3] == blocking(CommandStep::PlanChange));
        assert(rules[4] == blocking(CommandStep::Review));
        assert(rules[5] == blocking(CommandStep::WriteSandbox));
        assert(rules[6] == blocking(CommandStep::Apply));
    } else {
        assert(rules[0] == failing(CommandStep::ResolveConfig));
        assert(rules[1] == blocking(CommandStep::BackupKey));
        assert(rules[2] == blocking(CommandStep::PlanChange));
        assert(rules[3] == blocking(CommandStep::Review));
        assert(rules[4] == blocking(CommandStep::WriteSandbox));
        assert(rules[5] == blocking(CommandStep::Apply));
    }
}

/// The steps of `profile policy` commands that change something.
pub fn run_policy_maintenance_mutation(workspace_named: bool) -> (rules: Vec<StepRule>)
    ensures
        rules@ == run_policy_maintenance_mutation_rules(workspace_named),
{
    let mut rules: Vec<StepRule> = Vec::new();
    if workspace_named {
        rules.push(fails(CommandStep::PolicyTarget));
    }
    rules.push(fails(CommandStep::ResolveConfig));
    rules.push(blocks(CommandStep::BackupKey));
    rules.push(blocks(CommandStep::PlanChange));
    rules.push(blocks(CommandStep::Review));
    rules.push(blocks(CommandStep::WriteSandbox));
    rules.push(blocks(CommandStep::Apply));
    assert(rules@ =~= run_policy_maintenance_mutation_rules(workspace_named));
    rules
}

/// The steps of `profile policy status`.
pub open spec fn policy_maintenance_status_rules(current_workspace: bool) -> Seq<StepRule> {
    seq![
        failing(CommandStep::ResolveConfig),
        failing(CommandStep::CheckInputs),
    ] + (if current_workspace {
        seq![
            failing(CommandStep::WorkspaceIdentity),
        ]
    } else {
        seq![]
    }) + seq![
        failing(CommandStep::PolicyTarget),
        blocking(CommandStep::BackupKey),
        blocking(CommandStep::ReadState),
    ]
}

/// The steps of `profile policy status`: one after the other, and no more.
pub proof fn law_policy_maintenance_status_in_order(current_workspace: bool)
    ensures
        ({
            let rules = policy_maintenance_status_rules(current_workspace);
            &&& rules.len() == 5 + if current_workspace {
                1int
            } else {
                0int
            }
            &&& stands_before(
                rules,
                failing(CommandStep::ResolveConfig),
                failing(CommandStep::CheckInputs),
            )
            &&& current_workspace ==> stands_before(
                rules,
                failing(CommandStep::CheckInputs),
                failing(CommandStep::WorkspaceIdentity),
            )
            &&& current_workspace ==> stands_before(
                rules,
                failing(CommandStep::WorkspaceIdentity),
                failing(CommandStep::PolicyTarget),
            )
            &&& stands_before(
                rules,
                failing(CommandStep::CheckInputs),
                failing(CommandStep::PolicyTarget),
            )
            &&& stands_before(
                rules,
                failing(CommandStep::PolicyTarget),
                blocking(CommandStep::BackupKey),
            )
            &&& stands_before(
                rules,
                blocking(CommandStep::BackupKey),
                blocking(CommandStep::ReadState),
            )
        }),
{
    let rules = policy_maintenance_status_rules(current_workspace);
    if current_workspace {
        assert(rules[0] == failing(CommandStep::ResolveConfig));
        assert(rules[1] == failing(CommandStep::CheckInputs));
        assert(rules[2] == failing(CommandStep::WorkspaceIdentity));
        assert(rules[3] == failing(CommandStep::PolicyTarget));
        assert(rules[4] == blocking(CommandStep::BackupKey));
        assert(rules[5] == blocking(CommandStep::ReadState));
    } else {
        assert(rules[0] == failing(CommandStep::ResolveConfig));
        assert(rules[1] == failing(CommandStep::CheckInputs));
        assert(rules[2] == failing(CommandStep::PolicyTarget));
        assert(rules[3] == blocking(CommandStep::BackupKey));
        assert(rules[4] == blocking(CommandStep::ReadState));
    }
}

/// The steps of `profile policy status`.
pub fn policy_maintenance_status(current_workspace: bool) -> (rules: Vec<StepRule>)
    ensures
        rules@ == policy_maintenance_status_rules(current_workspace),
{
    let mut rules: Vec<StepRule> = Vec::new();
    rules.push(fails(CommandStep::ResolveConfig));
    rules.push(fails(CommandStep::CheckInputs));
    if current_workspace {
        rules.push(fails(CommandStep::WorkspaceIdentity));
    }
    rules.push(fails(CommandStep::PolicyTarget));
    rules.push(blocks(CommandStep::BackupKey));
    rules.push(blocks(CommandStep::ReadState));
    assert(rules@ =~= policy_maintenance_status_rules(current_workspace));
    rules
}

/// The steps of `profile locks`.
pub open spec fn list_capability_locks_rules(provider_given: bool) -> Seq<StepRule> {
    (if provider_given {
        seq![
            failing(CommandStep::ParseProvider),
        ]
    } else {
        seq![]
    }) + seq![
        failing(CommandStep::ResolveConfig),
        failing(CommandStep::WorkspaceIdentity),
        failing(CommandStep::CapabilityLocks),
        failing(CommandStep::ResolveRoots),
        failing(CommandStep::BuildCatalog),
    ]
}

/// The steps of `profile locks`: one after the other, and no more.
pub proof fn law_list_capability_locks_in_order(provider_given: bool)
    ensures
        ({
            let rules = list_capability_locks_rules(provider_given);
            &&& rules.len() == 5 + if provider_given {
                1int
            } else {
                0int
            }
            &&& provider_given ==> stands_before(
                rules,
                failing(CommandStep::ParseProvider),
                failing(CommandStep::ResolveConfig),
            )
            &&& stands_before(
                rules,
                failing(CommandStep::ResolveConfig),
                failing(CommandStep::WorkspaceIdentity),
            )
            &&& stands_before(
                rules,
                failing(CommandStep::WorkspaceIdentity),
                failing(CommandStep::CapabilityLocks),
            )
            &&& stands_before(
                rules,
                failing(CommandStep::CapabilityLocks),
                failing(CommandStep::ResolveRoots),
            )
            &&& stands_before(
                rules,
                failing(CommandStep::ResolveRoots),
                failing(CommandStep::BuildCatalog),
            )
        }),
{
    let rules = list_capability_locks_rules(provider_given);
    if provider_given {
        assert(rules[0] == failing(CommandStep::ParseProvider));
        assert(rules[1] == failing(CommandStep::ResolveConfig));
        assert(rules[2] == failing(CommandStep::WorkspaceIdentity));
        assert(rules[3] == failing(CommandStep::CapabilityLocks));
        assert(rules[4] == failing(CommandStep::ResolveRoots));
        assert(rules[5] == failing(CommandStep::BuildCatalog));
    } else {
        assert(rules[0] == failing(CommandStep::ResolveConfig));
        assert(rules[1] == failing(CommandStep::WorkspaceIdentity));
        assert(rules[2] == failing(CommandStep::CapabilityLocks));
        assert(rules[3] == failing(CommandStep::ResolveRoots));
        assert(rules[4] == failing(CommandStep::BuildCatalog));
    }
}

/// The steps of `profile locks`.
pub fn list_capability_locks(provider_given: bool) -> (rules: Vec<StepRule>)
    ensures
        rules@ == list_capability_locks_rules(provider_given),
{
    let mut rules: Vec<StepRule> = Vec::new();
    if provider_given {
        rules.push(fails(CommandStep::ParseProvider));
    }
    rules.push(fails(CommandStep::ResolveConfig));
    rules.push(fails(CommandStep::WorkspaceIdentity));
    rules.push(fails(CommandStep::CapabilityLocks));
    rules.push(fails(CommandStep::ResolveRoots));
    rules.push(fails(CommandStep::BuildCatalog));
    assert(rules@ =~= list_capability_locks_rules(provider_given));
    rules
}

/// The steps of `profile propose`.
pub open spec fn propose_rules(provider_given: bool) -> Seq<StepRule> {
    (if provider_given {
        seq![
            failing(CommandStep::ParseProvider),
        ]
    } else {
        seq![]
    }) + seq![
        failing(CommandStep::ResolveConfig),
        failing(CommandStep::ListDefinitions),
        failing(CommandStep::WorkspaceIdentity),
        failing(CommandStep::RankDefinitions),
    ]
}

/// The steps of `profile propose`: one after the other, and no more.
pub proof fn law_propose_in_order(provider_given: bool)
    ensures
        ({
            let rules = propose_rules(provider_given);
            &&& rules.len() == 4 + if provider_given {
                1int
            } else {
                0int
            }
            &&& provider_given ==> stands_before(
                rules,
                failing(CommandStep::ParseProvider),
                failing(CommandStep::ResolveConfig),
            )
            &&& stands_before(
                rules,
                failing(CommandStep::ResolveConfig),
                failing(CommandStep::ListDefinitions),
            )
            &&& stands_before(
                rules,
                failing(CommandStep::ListDefinitions),
                failing(CommandStep::WorkspaceIdentity),
            )
            &&& stands_before(
                rules,
                failing(CommandStep::WorkspaceIdentity),
                failing(CommandStep::RankDefinitions),
            )
        }),
{
    let rules = propose_rules(provider_given);
    if provider_given {
        assert(rules[0] == failing(CommandStep::ParseProvider));
        assert(rules[1] == failing(CommandStep::ResolveConfig));
        assert(rules[2] == failing(CommandStep::ListDefinitions));
        assert(rules[3] == failing(CommandStep::WorkspaceIdentity));
        assert(rules[4] == failing(CommandStep::RankDefinitions));
    } else {
        assert(rules[0] == failing(CommandStep::ResolveConfig));
        assert(rules[1] == failing(CommandStep::ListDefinitions));
        assert(rules[2] == failing(CommandStep::WorkspaceIdentity));
        assert(rules[3] == failing(CommandStep::RankDefinitions));
    }
}

/// The steps of `profile propose`.
pub fn propose(provider_given: bool) -> (rules: Vec<StepRule>)
    ensures
        rules@ == propose_rules(provider_given),
{
    let mut rules: Vec<StepRule> = Vec::new();
    if provider_given {
        rules.push(fails(CommandStep::ParseProvider));
    }
    rules.push(fails(CommandStep::ResolveConfig));
    rules.push(fails(CommandStep::ListDefinitions));
    rules.push(fails(CommandStep::WorkspaceIdentity));
    rules.push(fails(CommandStep::RankDefinitions));
    assert(rules@ =~= propose_rules(provider_given));
    rules
}

/// How many capability locks a policy holds for a provider.
pub struct ProviderLocks {
    pub provider: String,
    pub lock_count: usize,
}

/// The providers with locks, in their order.
pub open spec fn providers_with_locks(policies: Seq<ProviderLocks>) -> Seq<Seq<char>>
    decreases policies.len(),
{
    if policies.len() == 0 {
        seq![]
    } else {
        let before = providers_with_locks(policies.drop_last());
        if policies.last().lock_count > 0 {
            before.push(policies.last().provider@)
        } else {
            before
        }
    }
}

/// The providers whose locks are listed: the one that is asked for, with locks
/// or without, or else every one that has some.
pub fn listed_lock_providers(provider: &Option<String>, policies: &Vec<ProviderLocks>) -> (listed:
    Vec<String>)
    ensures
        string_views(listed@) == (match optional(*provider) {
            Some(provider) => seq![provider],
            None => providers_with_locks(policies@),
        }),
{
    let mut listed: Vec<String> = Vec::new();
    assert(string_views(listed@) =~= seq![]);
    if let Some(provider) = provider {
        listed.push(provider.clone());
        assert(string_views(listed@) =~= seq![provider@]);
        return listed;
    }
    let mut i: usize = 0;
    assert(policies@.take(0) =~= seq![]);
    while i < policies.len()
        invariant
            i <= policies@.len(),
            string_views(listed@) == providers_with_locks(policies@.take(i as int)),
        decreases policies@.len() - i,
    {
        assert(policies@.take(i + 1).drop_last() =~= policies@.take(i as int));
        if policies[i].lock_count > 0 {
            let ghost before = string_views(listed@);
            listed.push(policies[i].provider.clone());
            assert(string_views(listed@) =~= before.push(policies@[i as int].provider@));
        }
        i = i + 1;
    }
    assert(policies@.take(i as int) =~= policies@);
    listed
}

/// The steps of `profile list`.
pub open spec fn list_rules() -> Seq<StepRule> {
    seq![
        failing(CommandStep::ResolveConfig),
        failing(CommandStep::ListDefinitions),
    ]
}

/// The steps of `profile list`: one after the other, and no more.
pub proof fn law_list_in_order()
    ensures
        ({
            let rules = list_rules();
            &&& rules.len() == 2
            &&& stands_before(
                rules,
                failing(CommandStep::ResolveConfig),
                failing(CommandStep::ListDefinitions),
            )
        }),
{
    let rules = list_rules();
    assert(rules[0] == failing(CommandStep::ResolveConfig));
    assert(rules[1] == failing(CommandStep::ListDefinitions));
}

/// The steps of `profile list`.
pub fn list() -> (rules: Vec<StepRule>)
    ensures
        rules@ == list_rules(),
{
    let mut rules: Vec<StepRule> = Vec::new();
    rules.push(fails(CommandStep::ResolveConfig));
    rules.push(fails(CommandStep::ListDefinitions));
    assert(rules@ =~= list_rules());
    rules
}

/// The steps of `profile show`.
pub open spec fn show_rules() -> Seq<StepRule> {
    seq![
        failing(CommandStep::ResolveConfig),
        failing(CommandStep::LoadProfile),
    ]
}

/// The steps of `profile show`: one after the other, and no more.
pub proof fn law_show_in_order()
    ensures
        ({
            let rules = show_rules();
            &&& rules.len() == 2
            &&& stands_before(
                rules,
                failing(CommandStep::ResolveConfig),
                failing(CommandStep::LoadProfile),
            )
        }),
{
    let rules = show_rules();
    assert(rules[0] == failing(CommandStep::ResolveConfig));
    assert(rules[1] == failing(CommandStep::LoadProfile));
}

/// The steps of `profile show`.
pub fn show() -> (rules: Vec<StepRule>)
    ensures
        rules@ == show_rules(),
{
    let mut rules: Vec<StepRule> = Vec::new();
    rules.push(fails(CommandStep::ResolveConfig));
    rules.push(fails(CommandStep::LoadProfile));
    assert(rules@ =~= show_rules());
    rules
}

/// The steps of `profile validate`.
pub open spec fn validate_rules(stored: bool) -> Seq<StepRule> {
    seq![
        failing(CommandStep::CheckInputs),
        failing(CommandStep::ResolveConfig),
    ] + (if stored {
        seq![
            failing(CommandStep::LoadProfile),
        ]
    } else {
        seq![]
    }) + (if !stored {
        seq![
            failing(CommandStep::ParseDefinition),
        ]
    } else {
        seq![]
    }) + seq![
        failing(CommandStep::CompileProfile),
    ]
}

/// The steps of `profile validate`: one after the other, and no more.
pub proof fn law_validate_in_order(stored: bool)
    ensures
        ({
            let rules = validate_rules(stored);
            &&& rules.len() == 3 + count_if(stored, 1) + count_if(!stored, 1)
            &&& stands_before(
                rules,
                failing(CommandStep::CheckInputs),
                failing(CommandStep::ResolveConfig),
            )
            &&& stored ==> stands_before(
                rules,
                failing(CommandStep::ResolveConfig),
                failing(CommandStep::LoadProfile),
            )
            &&& !stored ==> stands_before(
                rules,
                failing(CommandStep::ResolveConfig),
                failing(CommandStep::ParseDefinition),
            )
            &&& stored ==> stands_before(
                rules,
                failing(CommandStep::LoadProfile),
                failing(CommandStep::CompileProfile),
            )
            &&& !stored ==> stands_before(
                rules,
                failing(CommandStep::ParseDefinition),
                failing(CommandStep::CompileProfile),
            )
            &&& stands_before(
                rules,
                failing(CommandStep::ResolveConfig),
                failing(CommandStep::CompileProfile),
            )
        }),
{
    let rules = validate_rules(stored);
    if stored {
        assert(rules[0] == failing(CommandStep::CheckInputs));
        assert(rules[1] == failing(CommandStep::ResolveConfig));
        assert(rules[2] == failing(CommandStep::LoadProfile));
        assert(rules[3] == failing(CommandStep::CompileProfile));
    } else {
        assert(rules[0] == failing(CommandStep::CheckInputs));
        assert(rules[1] == failing(CommandStep::ResolveConfig));
        assert(rules[2] == failing(CommandStep::ParseDefinition));
        assert(rules[3] == failing(CommandStep::CompileProfile));
    }
}

/// The steps of `profile validate`.
pub fn validate(stored: bool) -> (rules: Vec<StepRule>)
    ensures
        rules@ == validate_rules(stored),
{
    let mut rules: Vec<StepRule> = Vec::new();
    rules.push(fails(CommandStep::CheckInputs));
    rules.push(fails(CommandStep::ResolveConfig));
    if stored {
        rules.push(fails(CommandStep::LoadProfile));
    }
    if !stored {
        rules.push(fails(CommandStep::ParseDefinition));
    }
    rules.push(fails(CommandStep::CompileProfile));
    assert(rules@ =~= validate_rules(stored));
    rules
}

/// Nothing about a profile or a lock is authorized or written without a review.
pub proof fn law_profile_changes_are_reviewed(
    provider_given: bool,
    with_reach: bool,
    workspace_named: bool,
)
    ensures
        reviewed_first(apply_profile_rules(provider_given, with_reach)),
        reviewed_first(change_capability_lock_rules()),
        reviewed_first(run_policy_maintenance_mutation_rules(workspace_named)),
{
    let rules = apply_profile_rules(provider_given, with_reach);
    let shift: int = if provider_given {
        6
    } else {
        5
    };
    let g: int = if with_reach {
        shift + 3
    } else {
        shift + 2
    };
    assert(rules[g].step is Review);
    let lock = change_capability_lock_rules();
    assert(lock[7].step is Review);
    let maintenance = run_policy_maintenance_mutation_rules(workspace_named);
    let m: int = if workspace_named {
        4
    } else {
        3
    };
    assert(maintenance[m].step is Review);
    assert forall|i: int|
        0 <= i < rules.len() && crate::commands::flow::takes_effect(
            (#[trigger] rules[i]).step,
        ) implies exists|g: int| 0 <= g < i && (#[trigger] rules[g]).step is Review by {
        assert(i > g);
    }
}

} // verus!
