//! The gateway: which pending plan may be taken up, and how its commands run.
use vstd::prelude::*;

use crate::commands::flow::{
    advance, blocking, blocks, failing, fails, move_after, recovering, recovers,
    requires_recovery, requiring_recovery, reviewed_first, step_at, step_move, takes_effect,
    CommandMove, CommandStep, EventView, FailureClass, MoveView, StepEvent, StepRule,
};
use crate::laws::steps::{count_if, stands_before};
use crate::text::{optional, same_text};

verus! {

/// What is done to the gateway.
#[derive(Debug, Clone, Copy, PartialEq, Eq, Structural)]
pub enum GatewayModeAction {
    Install,
    Activate,
    Off,
    Detach,
}

/// The policy part of a gateway plan.
pub struct PolicyPart {
    pub target: String,
    pub provider: Option<String>,
}

/// What a gateway plan is for: `policy` is missing where no policy changes.
pub struct GatewayPlanKey {
    pub mode_target: String,
    pub action: GatewayModeAction,
    pub force: bool,
    pub policy: Option<PolicyPart>,
}

/// What a command asks of the gateway.
pub struct GatewayRequest {
    pub mode_target: String,
    pub action: GatewayModeAction,
    pub force: bool,
    pub policy_target: String,
    pub provider: Option<String>,
}

/// Whether a pending plan is for what is asked.
pub open spec fn pending_matches(plan: GatewayPlanKey, request: GatewayRequest) -> bool {
    &&& plan.mode_target@ == request.mode_target@
    &&& plan.action == request.action
    &&& plan.force == request.force
    &&& match plan.policy {
        None => true,
        Some(policy) => policy.target@ == request.policy_target@ && optional(policy.provider)
            == optional(request.provider),
    }
}

fn same_optional(a: &Option<String>, b: &Option<String>) -> (r: bool)
    ensures
        r == (optional(*a) == optional(*b)),
{
    match (a, b) {
        (None, None) => true,
        (Some(x), Some(y)) => same_text(x.as_str(), y.as_str()),
        _ => false,
    }
}

/// Whether a pending plan is for what is asked.
pub fn pending_plan_matches(plan: &GatewayPlanKey, request: &GatewayRequest) -> (r: bool)
    ensures
        r == pending_matches(*plan, *request),
{
    if !same_text(plan.mode_target.as_str(), request.mode_target.as_str()) || plan.action
        != request.action || plan.force != request.force {
        return false;
    }
    match &plan.policy {
        None => true,
        Some(policy) => same_text(policy.target.as_str(), request.policy_target.as_str())
            && same_optional(&policy.provider, &request.provider),
    }
}

/// Whether a pending plan is looked for: only to apply one that is named.
pub fn looks_for_pending(apply: bool, fingerprint_given: bool) -> (r: bool)
    ensures
        r == (apply && fingerprint_given),
{
    apply && fingerprint_given
}

/// Where the plan of a command comes from.
#[derive(Debug, Clone, Copy, PartialEq, Eq, Structural)]
pub enum PlanSource {
    Pending,
    New,
    /// The pending plan is for something else.
    Mismatch,
}

/// Where the plan of a command comes from.
pub fn plan_source(pending: &Option<GatewayPlanKey>, request: &GatewayRequest) -> (source:
    PlanSource)
    ensures
        source == (match *pending {
            None => PlanSource::New,
            Some(plan) => if pending_matches(plan, *request) {
                PlanSource::Pending
            } else {
                PlanSource::Mismatch
            },
        }),
{
    match pending {
        None => PlanSource::New,
        Some(plan) => {
            if pending_plan_matches(plan, request) {
                PlanSource::Pending
            } else {
                PlanSource::Mismatch
            }
        },
    }
}

/// How a change of the gateway fails.
#[derive(Debug, Clone, Copy, PartialEq, Eq, Structural)]
pub enum GatewayWorkflowError {
    RecoveryRequired,
    Draining,
    Other,
}

/// What a failed change of the gateway leaves behind.
pub fn gateway_failure_class(error: GatewayWorkflowError) -> (class: FailureClass)
    ensures
        class == (match error {
            GatewayWorkflowError::RecoveryRequired => FailureClass::RecoveryRequired,
            GatewayWorkflowError::Draining => FailureClass::Draining,
            GatewayWorkflowError::Other => FailureClass::Plain,
        }),
{
    match error {
        GatewayWorkflowError::RecoveryRequired => FailureClass::RecoveryRequired,
        GatewayWorkflowError::Draining => FailureClass::Draining,
        GatewayWorkflowError::Other => FailureClass::Plain,
    }
}

/// Whether nothing changed: neither the mode, nor a policy, nor native views.
pub fn gateway_no_op(
    mode_no_op: bool,
    policy_no_op: Option<bool>,
    native_views_no_op: Option<bool>,
) -> (r: bool)
    ensures
        r == (mode_no_op && policy_no_op != Some(false) && native_views_no_op != Some(false)),
{
    let policy = match policy_no_op {
        Some(no_op) => no_op,
        None => true,
    };
    let views = match native_views_no_op {
        Some(no_op) => no_op,
        None => true,
    };
    mode_no_op && policy && views
}

/// The status of a plan that is shown, and whether the command ends well.
pub fn gateway_plan_status(blocked: bool) -> (r: (&'static str, bool))
    ensures
        r.0@ == (if blocked {
            "blocked"@
        } else {
            "planned"@
        }),
        r.1 == !blocked,
{
    if blocked {
        ("blocked", false)
    } else {
        ("planned", true)
    }
}

/// The steps of `gateway install`, `on`, `off` and `detach`.
pub open spec fn change_rules(provider_given: bool, asks_pending: bool) -> Seq<StepRule> {
    seq![
        failing(CommandStep::ResolveConfig),
        failing(CommandStep::SessionKey),
    ] + (if provider_given {
        seq![
            failing(CommandStep::ParseProvider),
        ]
    } else {
        seq![]
    }) + seq![
        failing(CommandStep::WorkspaceIdentity),
        failing(CommandStep::ApprovalContext),
        failing(CommandStep::PolicyTarget),
        blocking(CommandStep::BackupKey),
    ] + (if asks_pending {
        seq![
            requiring_recovery(CommandStep::PendingPlan),
        ]
    } else {
        seq![]
    }) + seq![
        blocking(CommandStep::MatchPending),
        blocking(CommandStep::PlanChange),
        blocking(CommandStep::Review),
        blocking(CommandStep::PlanUnblocked),
        blocking(CommandStep::WriteSandbox),
        blocking(CommandStep::Expectation),
        blocking(CommandStep::Authorize),
        recovering(CommandStep::Apply),
    ]
}

/// The steps of `gateway install`, `on`, `off` and `detach`: one after the
/// other, and no more.
pub proof fn law_change_in_order(provider_given: bool, asks_pending: bool)
    ensures
        ({
            let rules = change_rules(provider_given, asks_pending);
            &&& rules.len() == 14 + count_if(provider_given, 1) + count_if(asks_pending, 1)
            &&& stands_before(
                rules,
                failing(CommandStep::ResolveConfig),
                failing(CommandStep::SessionKey),
            )
            &&& provider_given ==> stands_before(
                rules,
                failing(CommandStep::SessionKey),
                failing(CommandStep::ParseProvider),
            )
            &&& provider_given ==> stands_before(
                rules,
                failing(CommandStep::ParseProvider),
                failing(CommandStep::WorkspaceIdentity),
            )
            &&& stands_before(
                rules,
                failing(CommandStep::SessionKey),
                failing(CommandStep::WorkspaceIdentity),
            )
            &&& stands_before(
                rules,
                failing(CommandStep::WorkspaceIdentity),
                failing(CommandStep::ApprovalContext),
            )
            &&& stands_before(
                rules,
                failing(CommandStep::ApprovalContext),
                failing(CommandStep::PolicyTarget),
            )
            &&& stands_before(
                rules,
                failing(CommandStep::PolicyTarget),
                blocking(CommandStep::BackupKey),
            )
            &&& asks_pending ==> stands_before(
                rules,
                blocking(CommandStep::BackupKey),
                requiring_recovery(CommandStep::PendingPlan),
            )
            &&& asks_pending ==> stands_before(
                rules,
                requiring_recovery(CommandStep::PendingPlan),
                blocking(CommandStep::MatchPending),
            )
            &&& stands_before(
                rules,
                blocking(CommandStep::BackupKey),
                blocking(CommandStep::MatchPending),
            )
            &&& stands_before(
                rules,
                blocking(CommandStep::MatchPending),
                blocking(CommandStep::PlanChange),
            )
            &&& stands_before(
                rules,
                blocking(CommandStep::PlanChange),
                blocking(CommandStep::Review),
            )
            &&& stands_before(
                rules,
                blocking(CommandStep::Review),
                blocking(CommandStep::PlanUnblocked),
            )
            &&& stands_before(
                rules,
                blocking(CommandStep::PlanUnblocked),
                blocking(CommandStep::WriteSandbox),
            )
            &&& stands_before(
                rules,
                blocking(CommandStep::WriteSandbox),
                blocking(CommandStep::Expectation),
            )
            &&& stands_before(
                rules,
                blocking(CommandStep::Expectation),
                blocking(CommandStep::Authorize),
            )
            &&& stands_before(
                rules,
                blocking(CommandStep::Authorize),
                recovering(CommandStep::Apply),
            )
        }),
{
    let rules = change_rules(provider_given, asks_pending);
    if provider_given {
        if asks_pending {
            assert(rules[0] == failing(CommandStep::ResolveConfig));
            assert(rules[1] == failing(CommandStep::SessionKey));
            assert(rules[2] == failing(CommandStep::ParseProvider));
            assert(rules[3] == failing(CommandStep::WorkspaceIdentity));
            assert(rules[4] == failing(CommandStep::ApprovalContext));
            assert(rules[5] == failing(CommandStep::PolicyTarget));
            assert(rules[6] == blocking(CommandStep::BackupKey));
            assert(rules[7] == requiring_recovery(CommandStep::PendingPlan));
            assert(rules[8] == blocking(CommandStep::MatchPending));
            assert(rules[9] == blocking(CommandStep::PlanChange));
            assert(rules[10] == blocking(CommandStep::Review));
            assert(rules[11] == blocking(CommandStep::PlanUnblocked));
            assert(rules[12] == blocking(CommandStep::WriteSandbox));
            assert(rules[13] == blocking(CommandStep::Expectation));
            assert(rules[14] == blocking(CommandStep::Authorize));
            assert(rules[15] == recovering(CommandStep::Apply));
        } else {
            assert(rules[0] == failing(CommandStep::ResolveConfig));
            assert(rules[1] == failing(CommandStep::SessionKey));
            assert(rules[2] == failing(CommandStep::ParseProvider));
            assert(rules[3] == failing(CommandStep::WorkspaceIdentity));
            assert(rules[4] == failing(CommandStep::ApprovalContext));
            assert(rules[5] == failing(CommandStep::PolicyTarget));
            assert(rules[6] == blocking(CommandStep::BackupKey));
            assert(rules[7] == blocking(CommandStep::MatchPending));
            assert(rules[8] == blocking(CommandStep::PlanChange));
            assert(rules[9] == blocking(CommandStep::Review));
            assert(rules[10] == blocking(CommandStep::PlanUnblocked));
            assert(rules[11] == blocking(CommandStep::WriteSandbox));
            assert(rules[12] == blocking(CommandStep::Expectation));
            assert(rules[13] == blocking(CommandStep::Authorize));
            assert(rules[14] == recovering(CommandStep::Apply));
        }
    } else {
        if asks_pending {
            assert(rules[0] == failing(CommandStep::ResolveConfig));
            assert(rules[1] == failing(CommandStep::SessionKey));
            assert(rules[2] == failing(CommandStep::WorkspaceIdentity));
            assert(rules[3] == failing(CommandStep::ApprovalContext));
            assert(rules[4] == failing(CommandStep::PolicyTarget));
            assert(rules[5] == blocking(CommandStep::BackupKey));
            assert(rules[6] == requiring_recovery(CommandStep::PendingPlan));
            assert(rules[7] == blocking(CommandStep::MatchPending));
            assert(rules[8] == blocking(CommandStep::PlanChange));
            assert(rules[9] == blocking(CommandStep::Review));
            assert(rules[10] == blocking(CommandStep::PlanUnblocked));
            assert(rules[11] == blocking(CommandStep::WriteSandbox));
            assert(rules[12] == blocking(CommandStep::Expectation));
            assert(rules[13] == blocking(CommandStep::Authorize));
            assert(rules[14] == recovering(CommandStep::Apply));
        } else {
            assert(rules[0] == failing(CommandStep::ResolveConfig));
            assert(rules[1] == failing(CommandStep::SessionKey));
            assert(rules[2] == failing(CommandStep::WorkspaceIdentity));
            assert(rules[3] == failing(CommandStep::ApprovalContext));
            assert(rules[4] == failing(CommandStep::PolicyTarget));
            assert(rules[5] == blocking(CommandStep::BackupKey));
            assert(rules[6] == blocking(CommandStep::MatchPending));
            assert(rules[7] == blocking(CommandStep::PlanChange));
            assert(rules[8] == blocking(CommandStep::Review));
            assert(rules[9] == blocking(CommandStep::PlanUnblocked));
            assert(rules[10] == blocking(CommandStep::WriteSandbox));
            assert(rules[11] == blocking(CommandStep::Expectation));
            assert(rules[12] == blocking(CommandStep::Authorize));
            assert(rules[13] == recovering(CommandStep::Apply));
        }
    }
}

/// The steps of `gateway install`, `on`, `off` and `detach`.
pub fn change(provider_given: bool, asks_pending: bool) -> (rules: Vec<StepRule>)
    ensures
        rules@ == change_rules(provider_given, asks_pending),
{
    let mut rules: Vec<StepRule> = Vec::new();
    rules.push(fails(CommandStep::ResolveConfig));
    rules.push(fails(CommandStep::SessionKey));
    if provider_given {
        rules.push(fails(CommandStep::ParseProvider));
    }
    rules.push(fails(CommandStep::WorkspaceIdentity));
    rules.push(fails(CommandStep::ApprovalContext));
    rules.push(fails(CommandStep::PolicyTarget));
    rules.push(blocks(CommandStep::BackupKey));
    if asks_pending {
        rules.push(requires_recovery(CommandStep::PendingPlan));
    }
    rules.push(blocks(CommandStep::MatchPending));
    rules.push(blocks(CommandStep::PlanChange));
    rules.push(blocks(CommandStep::Review));
    rules.push(blocks(CommandStep::PlanUnblocked));
    rules.push(blocks(CommandStep::WriteSandbox));
    rules.push(blocks(CommandStep::Expectation));
    rules.push(blocks(CommandStep::Authorize));
    rules.push(recovers(CommandStep::Apply));
    assert(rules@ =~= change_rules(provider_given, asks_pending));
    rules
}

/// What follows the match of a pending plan: one that fits is taken as it is,
/// and nothing is planned anew; without one the change is planned; one that is
/// for something else ends the command.
pub open spec fn move_after_match(
    rules: Seq<StepRule>,
    at: int,
    source: PlanSource,
) -> MoveView {
    match source {
        PlanSource::Pending => step_at(rules, at + 2),
        PlanSource::New => step_at(rules, at + 1),
        PlanSource::Mismatch => move_after(rules, at, EventView::Missing),
    }
}

/// What follows the match of a pending plan.
pub fn after_match(rules: &Vec<StepRule>, at: usize, source: PlanSource) -> (next: CommandMove)
    requires
        at < rules@.len(),
        rules@[at as int].step is MatchPending,
    ensures
        next@ == move_after_match(rules@, at as int, source),
{
    match source {
        PlanSource::Pending => {
            if at < rules.len() - 1 {
                step_move(rules, at + 2)
            } else {
                CommandMove::Finish
            }
        },
        PlanSource::New => advance(rules, at, &StepEvent::Done),
        PlanSource::Mismatch => advance(rules, at, &StepEvent::Missing),
    }
}

/// The place of the step that is carried out next, if there is one.
pub fn place_after_match(at: usize, source: PlanSource) -> (place: usize)
    requires
        at + 2 <= usize::MAX,
    ensures
        place == if source is Pending {
            at + 2
        } else {
            at + 1
        },
{
    match source {
        PlanSource::Pending => at + 2,
        _ => at + 1,
    }
}

/// The steps of a change that goes on with a pending plan: those of any change,
/// but for the planning.
pub open spec fn resumed_rules(provider_given: bool) -> Seq<StepRule> {
    let rules = change_rules(provider_given, true);
    rules.remove(match_place(provider_given, true) + 1)
}

/// The place at which a pending plan is matched.
pub open spec fn match_place(provider_given: bool, asks_pending: bool) -> int {
    6 + (if provider_given {
        1int
    } else {
        0
    }) + (if asks_pending {
        1int
    } else {
        0
    })
}

/// The steps of `gateway status`.
pub open spec fn status_rules(provider_given: bool) -> Seq<StepRule> {
    seq![
        failing(CommandStep::ResolveConfig),
        failing(CommandStep::SessionKey),
    ] + (if provider_given {
        seq![
            failing(CommandStep::ParseProvider),
        ]
    } else {
        seq![]
    }) + seq![
        failing(CommandStep::WorkspaceIdentity),
        failing(CommandStep::ApprovalContext),
        failing(CommandStep::PolicyTarget),
        failing(CommandStep::ReadState),
    ]
}

/// The steps of `gateway status`: one after the other, and no more.
pub proof fn law_status_in_order(provider_given: bool)
    ensures
        ({
            let rules = status_rules(provider_given);
            &&& rules.len() == 6 + if provider_given {
                1int
            } else {
                0int
            }
            &&& stands_before(
                rules,
                failing(CommandStep::ResolveConfig),
                failing(CommandStep::SessionKey),
            )
            &&& provider_given ==> stands_before(
                rules,
                failing(CommandStep::SessionKey),
                failing(CommandStep::ParseProvider),
            )
            &&& provider_given ==> stands_before(
                rules,
                failing(CommandStep::ParseProvider),
                failing(CommandStep::WorkspaceIdentity),
            )
            &&& stands_before(
                rules,
                failing(CommandStep::SessionKey),
                failing(CommandStep::WorkspaceIdentity),
            )
            &&& stands_before(
                rules,
                failing(CommandStep::WorkspaceIdentity),
                failing(CommandStep::ApprovalContext),
            )
            &&& stands_before(
                rules,
                failing(CommandStep::ApprovalContext),
                failing(CommandStep::PolicyTarget),
            )
            &&& stands_before(
                rules,
                failing(CommandStep::PolicyTarget),
                failing(CommandStep::ReadState),
            )
        }),
{
    let rules = status_rules(provider_given);
    if provider_given {
        assert(rules[0] == failing(CommandStep::ResolveConfig));
        assert(rules[1] == failing(CommandStep::SessionKey));
        assert(rules[2] == failing(CommandStep::ParseProvider));
        assert(rules[3] == failing(CommandStep::WorkspaceIdentity));
        assert(rules[4] == failing(CommandStep::ApprovalContext));
        assert(rules[5] == failing(CommandStep::PolicyTarget));
        assert(rules[6] == failing(CommandStep::ReadState));
    } else {
        assert(rules[0] == failing(CommandStep::ResolveConfig));
        assert(rules[1] == failing(CommandStep::SessionKey));
        assert(rules[2] == failing(CommandStep::WorkspaceIdentity));
        assert(rules[3] == failing(CommandStep::ApprovalContext));
        assert(rules[4] == failing(CommandStep::PolicyTarget));
        assert(rules[5] == failing(CommandStep::ReadState));
    }
}

/// The steps of `gateway status`.
pub fn status(provider_given: bool) -> (rules: Vec<StepRule>)
    ensures
        rules@ == status_rules(provider_given),
{
    let mut rules: Vec<StepRule> = Vec::new();
    rules.push(fails(CommandStep::ResolveConfig));
    rules.push(fails(CommandStep::SessionKey));
    if provider_given {
        rules.push(fails(CommandStep::ParseProvider));
    }
    rules.push(fails(CommandStep::WorkspaceIdentity));
    rules.push(fails(CommandStep::ApprovalContext));
    rules.push(fails(CommandStep::PolicyTarget));
    rules.push(fails(CommandStep::ReadState));
    assert(rules@ =~= status_rules(provider_given));
    rules
}

/// A pending plan is carried on, never replaced: where one matches, the command
/// does from there on what the table without the planning says, and that table
/// plans nothing and changes nothing without a review.
pub proof fn law_pending_plan_is_resumed(provider_given: bool)
    ensures
        ({
            let rules = change_rules(provider_given, true);
            let resumed = resumed_rules(provider_given);
            let at = match_place(provider_given, true);
            &&& rules[at].step is MatchPending
            &&& rules[at + 1].step is PlanChange
            &&& forall|i: int| 0 <= i <= at ==> resumed[i] == #[trigger] rules[i]
            &&& move_after_match(rules, at, PlanSource::Pending) == step_at(resumed, at + 1)
            &&& move_after_match(rules, at, PlanSource::Pending) == MoveView::Perform(
                CommandStep::Review,
            )
            &&& forall|i: int|
                0 <= i < resumed.len() ==> !((#[trigger] resumed[i]).step is PlanChange)
            &&& reviewed_first(resumed)
        }),
{
    let rules = change_rules(provider_given, true);
    let resumed = resumed_rules(provider_given);
    let at = match_place(provider_given, true);
    assert(rules[at].step is MatchPending);
    assert(rules[at + 1].step is PlanChange);
    assert(rules[at + 2].step is Review);
    assert(resumed[at + 1] == rules[at + 2]);
    assert forall|i: int| 0 <= i < resumed.len() implies !((
    #[trigger] resumed[i]).step is PlanChange) by {
        assert(resumed[i] == rules[if i <= at {
            i
        } else {
            i + 1
        }]);
    }
    assert forall|i: int|
        0 <= i < resumed.len() && takes_effect(
            (#[trigger] resumed[i]).step,
        ) implies exists|g: int| 0 <= g < i && (#[trigger] resumed[g]).step is Review by {
        assert(resumed[i] == rules[if i <= at {
            i
        } else {
            i + 1
        }]);
        assert(i > at + 1);
        assert(resumed[at + 1].step is Review);
    }
}

/// The gateway is not changed without a review.
pub proof fn law_gateway_change_is_reviewed(provider_given: bool, asks_pending: bool)
    ensures
        reviewed_first(change_rules(provider_given, asks_pending)),
{
    let rules = change_rules(provider_given, asks_pending);
    let first: int = if provider_given {
        1
    } else {
        0
    };
    let second: int = if asks_pending {
        1
    } else {
        0
    };
    let g: int = 8 + first + second;
    assert(rules[g].step is Review);
    assert forall|i: int|
        0 <= i < rules.len() && takes_effect(
            (#[trigger] rules[i]).step,
        ) implies exists|g: int| 0 <= g < i && (#[trigger] rules[g]).step is Review by {
        assert(i > g);
    }
}

} // verus!
