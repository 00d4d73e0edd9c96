//! The work that the bridge has done outside of it: in which order the stages of
//! each piece of work come, and with which code a stage that fails answers the
//! request.
use vstd::prelude::*;

verus! {

/// A stage of the work that is done outside of the bridge.
#[derive(Debug, Clone, Copy, PartialEq, Eq, Structural)]
pub enum BridgeStage {
    Discover,
    GroupContext,
    ListGroups,
    ApprovalContext,
    BackupKey,
    SessionKey,
    PlanGroup,
    GroupExpectation,
    PackageApprovalContext,
    PackageExpectation,
    PackageApplyContext,
    PlanRestore,
    RestoreExpectation,
    Decision,
    WriteSandbox,
    ResolveDefinition,
    CheckMembers,
    ComputeRevision,
    ReadHistory,
}

/// The code of a stage that failed.
pub open spec fn failure_code(stage: BridgeStage) -> Seq<char> {
    match stage {
        BridgeStage::Discover => "discovery-unavailable"@,
        BridgeStage::GroupContext => "group-context-unavailable"@,
        BridgeStage::ListGroups => "group-state-unavailable"@,
        BridgeStage::ApprovalContext => "approval-context-unavailable"@,
        BridgeStage::BackupKey => "backup-authentication-unavailable"@,
        BridgeStage::SessionKey => "session-authority-unavailable"@,
        BridgeStage::PlanGroup => "group-plan-unavailable"@,
        BridgeStage::GroupExpectation => "group-plan-unavailable"@,
        BridgeStage::PackageApprovalContext => "agent-plugin-approval-unavailable"@,
        BridgeStage::PackageExpectation => "agent-plugin-approval-unavailable"@,
        BridgeStage::PackageApplyContext => "agent-plugin-apply-blocked"@,
        BridgeStage::PlanRestore => "restore-plan-unavailable"@,
        BridgeStage::RestoreExpectation => "restore-plan-unavailable"@,
        BridgeStage::Decision => "desktop-approval-blocked"@,
        BridgeStage::WriteSandbox => "fixture-write-sandbox-blocked"@,
        BridgeStage::ResolveDefinition => "group-definition-unavailable"@,
        BridgeStage::CheckMembers => "group-definition-members-blocked"@,
        BridgeStage::ComputeRevision => "group-definition-invalid"@,
        BridgeStage::ReadHistory => "group-definition-history-unavailable"@,
    }
}

impl BridgeStage {
    /// The code of a stage that failed.
    pub fn code(self) -> (code: &'static str)
        ensures
            code@ == failure_code(self),
    {
        match self {
            BridgeStage::Discover => "discovery-unavailable",
            BridgeStage::GroupContext => "group-context-unavailable",
            BridgeStage::ListGroups => "group-state-unavailable",
            BridgeStage::ApprovalContext => "approval-context-unavailable",
            BridgeStage::BackupKey => "backup-authentication-unavailable",
            BridgeStage::SessionKey => "session-authority-unavailable",
            BridgeStage::PlanGroup => "group-plan-unavailable",
            BridgeStage::GroupExpectation => "group-plan-unavailable",
            BridgeStage::PackageApprovalContext => "agent-plugin-approval-unavailable",
            BridgeStage::PackageExpectation => "agent-plugin-approval-unavailable",
            BridgeStage::PackageApplyContext => "agent-plugin-apply-blocked",
            BridgeStage::PlanRestore => "restore-plan-unavailable",
            BridgeStage::RestoreExpectation => "restore-plan-unavailable",
            BridgeStage::Decision => "desktop-approval-blocked",
            BridgeStage::WriteSandbox => "fixture-write-sandbox-blocked",
            BridgeStage::ResolveDefinition => "group-definition-unavailable",
            BridgeStage::CheckMembers => "group-definition-members-blocked",
            BridgeStage::ComputeRevision => "group-definition-invalid",
            BridgeStage::ReadHistory => "group-definition-history-unavailable",
        }
    }
}

/// A piece of work that the bridge has done outside of it.
#[derive(Debug, Clone, Copy, PartialEq, Eq, Structural)]
pub enum BridgeWork {
    Snapshot,
    GroupPlan,
    GroupApproval,
    GroupController,
    GroupWrite,
    PackageRead,
    PackageApproval,
    PackageApply,
    RestorePlan,
    RestoreApproval,
    RestoreApply,
    DefinitionRead,
    DefinitionMembers,
    DefinitionRevision,
    DefinitionStore,
    DefinitionHistory,
}

/// The stages of a piece of work, in their order.
pub open spec fn work_stages(work: BridgeWork) -> Seq<BridgeStage> {
    match work {
        BridgeWork::Snapshot => seq![
            BridgeStage::Discover,
            BridgeStage::GroupContext,
            BridgeStage::ListGroups,
        ],
        BridgeWork::GroupPlan => seq![BridgeStage::GroupContext, BridgeStage::PlanGroup],
        BridgeWork::GroupApproval => seq![
            BridgeStage::GroupContext,
            BridgeStage::ApprovalContext,
            BridgeStage::GroupExpectation,
            BridgeStage::Decision,
        ],
        BridgeWork::GroupController => seq![
            BridgeStage::BackupKey,
            BridgeStage::SessionKey,
            BridgeStage::GroupContext,
        ],
        BridgeWork::GroupWrite => seq![BridgeStage::GroupContext, BridgeStage::WriteSandbox],
        BridgeWork::PackageRead => seq![BridgeStage::Discover],
        BridgeWork::PackageApproval => seq![
            BridgeStage::PackageApprovalContext,
            BridgeStage::PackageExpectation,
            BridgeStage::Decision,
        ],
        BridgeWork::PackageApply => seq![
            BridgeStage::Discover,
            BridgeStage::PackageApplyContext,
            BridgeStage::GroupContext,
            BridgeStage::WriteSandbox,
        ],
        BridgeWork::RestorePlan => seq![
            BridgeStage::GroupContext,
            BridgeStage::ApprovalContext,
            BridgeStage::BackupKey,
            BridgeStage::PlanRestore,
            BridgeStage::RestoreExpectation,
        ],
        BridgeWork::RestoreApproval => seq![
            BridgeStage::GroupContext,
            BridgeStage::ApprovalContext,
            BridgeStage::RestoreExpectation,
            BridgeStage::Decision,
        ],
        BridgeWork::RestoreApply => seq![
            BridgeStage::GroupContext,
            BridgeStage::ApprovalContext,
            BridgeStage::BackupKey,
            BridgeStage::SessionKey,
            BridgeStage::WriteSandbox,
        ],
        BridgeWork::DefinitionRead => seq![
            BridgeStage::GroupContext,
            BridgeStage::ResolveDefinition,
        ],
        BridgeWork::DefinitionMembers => seq![
            BridgeStage::GroupContext,
            BridgeStage::CheckMembers,
        ],
        BridgeWork::DefinitionRevision => seq![
            BridgeStage::GroupContext,
            BridgeStage::ComputeRevision,
        ],
        BridgeWork::DefinitionStore => seq![BridgeStage::GroupContext, BridgeStage::BackupKey],
        BridgeWork::DefinitionHistory => seq![
            BridgeStage::GroupContext,
            BridgeStage::BackupKey,
            BridgeStage::ReadHistory,
        ],
    }
}

impl BridgeWork {
    /// The stages of a piece of work, in their order.
    pub fn stages(self) -> (stages: Vec<BridgeStage>)
        ensures
            stages@ == work_stages(self),
    {
        let mut stages: Vec<BridgeStage> = Vec::new();
        match self {
            BridgeWork::Snapshot => {
                stages.push(BridgeStage::Discover);
                stages.push(BridgeStage::GroupContext);
                stages.push(BridgeStage::ListGroups);
            },
            BridgeWork::GroupPlan => {
                stages.push(BridgeStage::GroupContext);
                stages.push(BridgeStage::PlanGroup);
            },
            BridgeWork::GroupApproval => {
                stages.push(BridgeStage::GroupContext);
                stages.push(BridgeStage::ApprovalContext);
                stages.push(BridgeStage::GroupExpectation);
                stages.push(BridgeStage::Decision);
            },
            BridgeWork::GroupController => {
                stages.push(BridgeStage::BackupKey);
                stages.push(BridgeStage::SessionKey);
                stages.push(BridgeStage::GroupContext);
            },
            BridgeWork::GroupWrite => {
                stages.push(BridgeStage::GroupContext);
                stages.push(BridgeStage::WriteSandbox);
            },
            BridgeWork::PackageRead => {
                stages.push(BridgeStage::Discover);
            },
            BridgeWork::PackageApproval => {
                stages.push(BridgeStage::PackageApprovalContext);
                stages.push(BridgeStage::PackageExpectation);
                stages.push(BridgeStage::Decision);
            },
            BridgeWork::PackageApply => {
                stages.push(BridgeStage::Discover);
                stages.push(BridgeStage::PackageApplyContext);
                stages.push(BridgeStage::GroupContext);
                stages.push(BridgeStage::WriteSandbox);
            },
            BridgeWork::RestorePlan => {
                stages.push(BridgeStage::GroupContext);
                stages.push(BridgeStage::ApprovalContext);
                stages.push(BridgeStage::BackupKey);
                stages.push(BridgeStage::PlanRestore);
                stages.push(BridgeStage::RestoreExpectation);
            },
            BridgeWork::RestoreApproval => {
                stages.push(BridgeStage::GroupContext);
                stages.push(BridgeStage::ApprovalContext);
                stages.push(BridgeStage::RestoreExpectation);
                stages.push(BridgeStage::Decision);
            },
            BridgeWork::RestoreApply => {
                stages.push(BridgeStage::GroupContext);
                stages.push(BridgeStage::ApprovalContext);
                stages.push(BridgeStage::BackupKey);
                stages.push(BridgeStage::SessionKey);
                stages.push(BridgeStage::WriteSandbox);
            },
            BridgeWork::DefinitionRead => {
                stages.push(BridgeStage::GroupContext);
                stages.push(BridgeStage::ResolveDefinition);
            },
            BridgeWork::DefinitionMembers => {
                stages.push(BridgeStage::GroupContext);
                stages.push(BridgeStage::CheckMembers);
            },
            BridgeWork::DefinitionRevision => {
                stages.push(BridgeStage::GroupContext);
                stages.push(BridgeStage::ComputeRevision);
            },
            BridgeWork::DefinitionStore => {
                stages.push(BridgeStage::GroupContext);
                stages.push(BridgeStage::BackupKey);
            },
            BridgeWork::DefinitionHistory => {
                stages.push(BridgeStage::GroupContext);
                stages.push(BridgeStage::BackupKey);
                stages.push(BridgeStage::ReadHistory);
            },
        }
        assert(stages@ =~= work_stages(self));
        stages
    }
}

/// What work comes to, of which this many stages are done: the code of the stage
/// that stopped it, or nothing where it is complete.
pub open spec fn work_error(work: BridgeWork, done: nat) -> Option<Seq<char>> {
    if done < work_stages(work).len() {
        Some(failure_code(work_stages(work)[done as int]))
    } else {
        None
    }
}

/// The stage that stopped work of which this many stages are done.
pub fn stopped_at(work: BridgeWork, done: usize) -> (stage: Option<BridgeStage>)
    ensures
        match stage {
            Some(stage) => done < work_stages(work).len() && stage == work_stages(work)[done as int]
                && work_error(work, done as nat) == Some(failure_code(stage)),
            None => work_error(work, done as nat) is None,
        },
{
    let stages = work.stages();
    if done < stages.len() {
        Some(stages[done])
    } else {
        None
    }
}

/// Whether a piece of work asks the operator to decide.
pub open spec fn asks_to_decide(work: BridgeWork) -> bool {
    work is GroupApproval || work is PackageApproval || work is RestoreApproval
}

/// The operator decides only on what was worked out before, and only where an
/// approval was asked for.
pub proof fn law_decision_comes_last(work: BridgeWork, at: int)
    requires
        0 <= at < work_stages(work).len(),
    ensures
        work_stages(work)[at] is Decision <==> asks_to_decide(work) && at == work_stages(work).len()
            - 1,
{
}

/// Work that writes has its sandbox checked last, after all that it needs was
/// there.
pub proof fn law_sandbox_comes_last(work: BridgeWork, at: int)
    requires
        0 <= at < work_stages(work).len(),
    ensures
        work_stages(work)[at] is WriteSandbox ==> at == work_stages(work).len() - 1,
        work is GroupWrite || work is PackageApply || work is RestoreApply ==> work_stages(
            work,
        ).last() is WriteSandbox,
{
}

} // verus!
