//! How a command runs: a list of steps, each carried out from outside, and the
//! decision that follows each of them.
use vstd::prelude::*;

use crate::text::{optional, same_text};

verus! {

/// A step of a command.
#[derive(Debug, Clone, Copy, PartialEq, Eq, Structural)]
pub enum CommandStep {
    CheckInputs,
    Confirm,
    ParseProvider,
    ParseSelectedProvider,
    ParseCapability,
    ParseReference,
    ParseRevision,
    ParseDefinition,
    SelectProfile,
    SelectReach,
    ReconcileReach,
    PreflightSocket,
    ResolveConfig,
    ResolveRoots,
    Discover,
    BuildCatalog,
    WorkspaceIdentity,
    ApprovalContext,
    PolicyTarget,
    CapabilityLocks,
    LockRevision,
    ListDefinitions,
    RankDefinitions,
    LoadProfile,
    LoadWorkflow,
    LoadHistory,
    PriorDefinition,
    LoadHandoff,
    MatchHandoff,
    FindItem,
    FindCapability,
    FindHook,
    FindPackage,
    MatchPackage,
    ResolveGroup,
    ValidateMembers,
    ComputeRevision,
    ProfileMembership,
    CompileProfile,
    CompileWorkflow,
    BuildRequest,
    PendingPlan,
    MatchPending,
    PlanChange,
    Review,
    PlanUnblocked,
    WriteSandbox,
    SessionKey,
    BackupKey,
    /// Reads a key that need not be there: it is done without one.
    OptionalBackupKey,
    Expectation,
    RootBinding,
    SignPrincipal,
    DurableContext,
    OpenCoordinator,
    OpenStore,
    Authorize,
    MaterializeRevision,
    Apply,
    Launch,
    ReadState,
    FindOperation,
    ReadChallenge,
    ResolveStateRoot,
    SessionCredential,
    BackupCredential,
    ReadClock,
    AuthenticateChallenge,
    MatchWorkspace,
    VerifyLease,
    VerifyClaims,
}

/// How a failure is reported.
#[derive(Debug, Clone, Copy, PartialEq, Eq, Structural)]
pub enum CommandStatus {
    Failed,
    Blocked,
    RecoveryRequired,
    Draining,
    NoTargets,
}

/// With which code a failed command ends: the one of its status, or a fixed
/// one.
#[derive(Debug, Clone, Copy, PartialEq, Eq, Structural)]
pub enum CommandExit {
    General,
    Code(u8),
}

/// A step and how its failure is reported.
#[derive(Debug, Clone, Copy, PartialEq, Eq, Structural)]
pub struct StepRule {
    pub step: CommandStep,
    pub status: CommandStatus,
    pub exit: CommandExit,
    /// Whether the step can leave something behind that needs recovery.
    pub recoverable: bool,
}

/// The text of a status.
pub open spec fn status_name(status: CommandStatus) -> Seq<char> {
    match status {
        CommandStatus::Failed => "failed"@,
        CommandStatus::Blocked => "blocked"@,
        CommandStatus::RecoveryRequired => "recovery-required"@,
        CommandStatus::Draining => "draining"@,
        CommandStatus::NoTargets => "no-targets"@,
    }
}

impl CommandStatus {
    /// The text of a status.
    pub fn name(self) -> (name: &'static str)
        ensures
            name@ == status_name(self),
    {
        match self {
            CommandStatus::Failed => "failed",
            CommandStatus::Blocked => "blocked",
            CommandStatus::RecoveryRequired => "recovery-required",
            CommandStatus::Draining => "draining",
            CommandStatus::NoTargets => "no-targets",
        }
    }
}

/// A step whose failure is a failure of the command.
pub open spec fn failing(step: CommandStep) -> StepRule {
    StepRule {
        step,
        status: CommandStatus::Failed,
        exit: CommandExit::General,
        recoverable: false,
    }
}

/// A step whose failure blocks the command.
pub open spec fn blocking(step: CommandStep) -> StepRule {
    StepRule {
        step,
        status: CommandStatus::Blocked,
        exit: CommandExit::General,
        recoverable: false,
    }
}

/// A step whose failure blocks the command or leaves it to be recovered.
pub open spec fn recovering(step: CommandStep) -> StepRule {
    StepRule {
        step,
        status: CommandStatus::Blocked,
        exit: CommandExit::General,
        recoverable: true,
    }
}

/// A step whose failure means that something must be recovered first.
pub open spec fn requiring_recovery(step: CommandStep) -> StepRule {
    StepRule {
        step,
        status: CommandStatus::RecoveryRequired,
        exit: CommandExit::General,
        recoverable: false,
    }
}

/// The same step with an exit code of its own.
pub open spec fn coded_exit(rule: StepRule, code: u8) -> StepRule {
    StepRule { exit: CommandExit::Code(code), ..rule }
}

/// A step whose failure is a failure of the command.
pub fn fails(step: CommandStep) -> (rule: StepRule)
    ensures
        rule == failing(step),
{
    StepRule {
        step,
        status: CommandStatus::Failed,
        exit: CommandExit::General,
        recoverable: false,
    }
}

/// A step whose failure blocks the command.
pub fn blocks(step: CommandStep) -> (rule: StepRule)
    ensures
        rule == blocking(step),
{
    StepRule {
        step,
        status: CommandStatus::Blocked,
        exit: CommandExit::General,
        recoverable: false,
    }
}

/// A step whose failure blocks the command or leaves it to be recovered.
pub fn recovers(step: CommandStep) -> (rule: StepRule)
    ensures
        rule == recovering(step),
{
    StepRule {
        step,
        status: CommandStatus::Blocked,
        exit: CommandExit::General,
        recoverable: true,
    }
}

/// A step whose failure means that something must be recovered first.
pub fn requires_recovery(step: CommandStep) -> (rule: StepRule)
    ensures
        rule == requiring_recovery(step),
{
    StepRule {
        step,
        status: CommandStatus::RecoveryRequired,
        exit: CommandExit::General,
        recoverable: false,
    }
}

/// The same step with an exit code of its own.
pub fn with_exit(rule: StepRule, code: u8) -> (out: StepRule)
    ensures
        out == coded_exit(rule, code),
{
    StepRule {
        step: rule.step,
        status: rule.status,
        exit: CommandExit::Code(code),
        recoverable: rule.recoverable,
    }
}

/// What comes of a review: only the plan is shown, the change is refused, or
/// it may go on.
#[derive(Debug, Clone, Copy, PartialEq, Eq, Structural)]
pub enum ReviewOutcome {
    Planned,
    ConfirmationRequired,
    FingerprintMismatch,
    Proceed,
}

/// The outcome of a review: a change goes on only where it is asked for and
/// confirmed, and the plan is the one that was reviewed.
pub open spec fn review(
    apply: bool,
    confirm: bool,
    reviewed: Option<Seq<char>>,
    planned: Seq<char>,
) -> ReviewOutcome {
    if !apply {
        ReviewOutcome::Planned
    } else if !confirm {
        ReviewOutcome::ConfirmationRequired
    } else if reviewed != Some(planned) {
        ReviewOutcome::FingerprintMismatch
    } else {
        ReviewOutcome::Proceed
    }
}

/// The outcome of a review.
pub fn review_plan(
    apply: bool,
    confirm: bool,
    reviewed: &Option<String>,
    planned: &str,
) -> (outcome:
    ReviewOutcome)
    ensures
        outcome == review(apply, confirm, optional(*reviewed), planned@),
{
    if !apply {
        return ReviewOutcome::Planned;
    }
    if !confirm {
        return ReviewOutcome::ConfirmationRequired;
    }
    match reviewed {
        Some(fingerprint) => {
            if same_text(fingerprint.as_str(), planned) {
                ReviewOutcome::Proceed
            } else {
                ReviewOutcome::FingerprintMismatch
            }
        },
        None => ReviewOutcome::FingerprintMismatch,
    }
}

/// What a failure leaves behind.
#[derive(Debug, Clone, Copy, PartialEq, Eq, Structural)]
pub enum FailureClass {
    Plain,
    RecoveryRequired,
    Draining,
    NoTargets,
}

/// What came of a step.
pub enum StepEvent {
    Done,
    /// What the step looks for is not there.
    Missing,
    Failed { message: String, class: FailureClass },
    Reviewed(ReviewOutcome),
}

pub enum EventView {
    Done,
    Missing,
    Failed { message: Seq<char>, class: FailureClass },
    Reviewed(ReviewOutcome),
}

impl View for StepEvent {
    type V = EventView;

    open spec fn view(&self) -> EventView {
        match self {
            StepEvent::Done => EventView::Done,
            StepEvent::Missing => EventView::Missing,
            StepEvent::Failed { message, class } => EventView::Failed {
                message: message@,
                class: *class,
            },
            StepEvent::Reviewed(outcome) => EventView::Reviewed(*outcome),
        }
    }
}

/// What a command does next.
pub enum CommandMove {
    /// Carry out this step.
    Perform(CommandStep),
    /// Show the plan and end well.
    ShowPlan,
    /// Every step is done.
    Finish,
    Stop { status: &'static str, message: String, exit: CommandExit },
}

pub enum MoveView {
    Perform(CommandStep),
    ShowPlan,
    Finish,
    Stop { status: Seq<char>, message: Seq<char>, exit: CommandExit },
}

impl View for CommandMove {
    type V = MoveView;

    open spec fn view(&self) -> MoveView {
        match self {
            CommandMove::Perform(step) => MoveView::Perform(*step),
            CommandMove::ShowPlan => MoveView::ShowPlan,
            CommandMove::Finish => MoveView::Finish,
            CommandMove::Stop { status, message, exit } => MoveView::Stop {
                status: status@,
                message: message@,
                exit: *exit,
            },
        }
    }
}

/// What is said where a step does not find what it looks for.
pub open spec fn missing_text(step: CommandStep) -> Seq<char> {
    match step {
        CommandStep::Confirm => "confirmation-required"@,
        CommandStep::ParseProvider => "unsupported provider"@,
        CommandStep::ParseSelectedProvider => "unsupported selected provider"@,
        CommandStep::LoadProfile => "profile not found"@,
        CommandStep::LoadWorkflow => "workflow not found"@,
        CommandStep::LoadHistory => "group history record was not found"@,
        CommandStep::PriorDefinition => "history record has no prior definition"@,
        CommandStep::MatchHandoff => "plan-fingerprint-mismatch"@,
        CommandStep::FindItem => "provider item not found"@,
        CommandStep::FindCapability => "catalog capability not found"@,
        CommandStep::FindHook => "hook not found"@,
        CommandStep::LockRevision => "capability-lock-revision-mismatch"@,
        CommandStep::MatchPending => "pending plan does not match requested gateway target"@,
        CommandStep::SessionKey => "session authority key missing; run `unpin auth session init`"@,
        CommandStep::BackupKey => {
            "backup authentication key missing; run `unpin auth backup init`"@
        },
        CommandStep::OpenStore => {
            "backup authentication key missing; run `unpin auth backup init`"@
        },
        CommandStep::FindOperation => "group operation was not found"@,
        CommandStep::SessionCredential => "session authority credential is unavailable"@,
        CommandStep::BackupCredential => "backup authentication credential is unavailable"@,
        CommandStep::MatchWorkspace => {
            "inventory group approval context does not match this workspace"@
        },
        _ => "unavailable"@,
    }
}

/// What is said where a step does not find what it looks for.
pub fn missing_message(step: CommandStep) -> (message: &'static str)
    ensures
        message@ == missing_text(step),
{
    match step {
        CommandStep::Confirm => "confirmation-required",
        CommandStep::ParseProvider => "unsupported provider",
        CommandStep::ParseSelectedProvider => "unsupported selected provider",
        CommandStep::LoadProfile => "profile not found",
        CommandStep::LoadWorkflow => "workflow not found",
        CommandStep::LoadHistory => "group history record was not found",
        CommandStep::PriorDefinition => "history record has no prior definition",
        CommandStep::MatchHandoff => "plan-fingerprint-mismatch",
        CommandStep::FindItem => "provider item not found",
        CommandStep::FindCapability => "catalog capability not found",
        CommandStep::FindHook => "hook not found",
        CommandStep::LockRevision => "capability-lock-revision-mismatch",
        CommandStep::MatchPending => "pending plan does not match requested gateway target",
        CommandStep::SessionKey => "session authority key missing; run `unpin auth session init`",
        CommandStep::BackupKey => "backup authentication key missing; run `unpin auth backup init`",
        CommandStep::OpenStore => "backup authentication key missing; run `unpin auth backup init`",
        CommandStep::FindOperation => "group operation was not found",
        CommandStep::SessionCredential => "session authority credential is unavailable",
        CommandStep::BackupCredential => "backup authentication credential is unavailable",
        CommandStep::MatchWorkspace => {
            "inventory group approval context does not match this workspace"
        },
        _ => "unavailable",
    }
}

/// The status of a failed step. Only a step that can leave something behind
/// reports a recovery, a drain, or that nothing was in reach.
pub open spec fn failure_status(rule: StepRule, class: FailureClass) -> CommandStatus {
    match class {
        FailureClass::RecoveryRequired => if rule.recoverable {
            CommandStatus::RecoveryRequired
        } else {
            rule.status
        },
        FailureClass::Draining => if rule.recoverable {
            CommandStatus::Draining
        } else {
            rule.status
        },
        FailureClass::NoTargets => if rule.recoverable {
            CommandStatus::NoTargets
        } else {
            rule.status
        },
        FailureClass::Plain => rule.status,
    }
}

/// The exit of a failed step: a recovery has a code of its own where codes are
/// fixed.
pub open spec fn failure_exit(rule: StepRule, class: FailureClass) -> CommandExit {
    if rule.exit is Code && class is RecoveryRequired && rule.recoverable {
        CommandExit::Code(4)
    } else {
        rule.exit
    }
}

/// The move behind the last step of a list, or the next step.
pub open spec fn step_at(rules: Seq<StepRule>, at: int) -> MoveView {
    if 0 <= at < rules.len() {
        MoveView::Perform(rules[at].step)
    } else {
        MoveView::Finish
    }
}

/// What follows a step. A review lets the command go on only where it says so
/// itself: one that is done without an outcome confirms nothing.
pub open spec fn move_after(rules: Seq<StepRule>, at: int, event: EventView) -> MoveView {
    let rule = rules[at];
    match event {
        EventView::Done => if rule.step is Review {
            MoveView::Stop {
                status: "blocked"@,
                message: "confirmation-required"@,
                exit: rule.exit,
            }
        } else {
            step_at(rules, at + 1)
        },
        EventView::Missing => MoveView::Stop {
            status: status_name(rule.status),
            message: missing_text(rule.step),
            exit: rule.exit,
        },
        EventView::Failed { message, class } => MoveView::Stop {
            status: status_name(failure_status(rule, class)),
            message,
            exit: failure_exit(rule, class),
        },
        EventView::Reviewed(ReviewOutcome::Planned) => MoveView::ShowPlan,
        EventView::Reviewed(ReviewOutcome::ConfirmationRequired) => MoveView::Stop {
            status: "blocked"@,
            message: "confirmation-required"@,
            exit: rule.exit,
        },
        EventView::Reviewed(ReviewOutcome::FingerprintMismatch) => MoveView::Stop {
            status: "blocked"@,
            message: "plan-fingerprint-mismatch"@,
            exit: rule.exit,
        },
        EventView::Reviewed(ReviewOutcome::Proceed) => step_at(rules, at + 1),
    }
}

/// The step at a place, or the end.
pub(crate) fn step_move(rules: &Vec<StepRule>, at: usize) -> (next: CommandMove)
    ensures
        next@ == step_at(rules@, at as int),
{
    if at < rules.len() {
        CommandMove::Perform(rules[at].step)
    } else {
        CommandMove::Finish
    }
}

/// The first step of a command.
pub fn begin(rules: &Vec<StepRule>) -> (next: CommandMove)
    ensures
        next@ == step_at(rules@, 0),
{
    step_move(rules, 0)
}

/// What follows the step at a place, after what came of it.
pub fn advance(rules: &Vec<StepRule>, at: usize, event: &StepEvent) -> (next: CommandMove)
    requires
        at < rules@.len(),
    ensures
        next@ == move_after(rules@, at as int, event@),
{
    let rule = rules[at];
    let count: usize = rules.len();
    assert(at < count);
    match event {
        StepEvent::Done => {
            if rule.step == CommandStep::Review {
                CommandMove::Stop {
                    status: "blocked",
                    message: "confirmation-required".to_owned(),
                    exit: rule.exit,
                }
            } else {
                step_move(rules, at + 1)
            }
        },
        StepEvent::Missing => CommandMove::Stop {
            status: rule.status.name(),
            message: missing_message(rule.step).to_owned(),
            exit: rule.exit,
        },
        StepEvent::Failed { message, class } => {
            let status = match *class {
                FailureClass::RecoveryRequired => {
                    if rule.recoverable {
                        CommandStatus::RecoveryRequired
                    } else {
                        rule.status
                    }
                },
                FailureClass::Draining => {
                    if rule.recoverable {
                        CommandStatus::Draining
                    } else {
                        rule.status
                    }
                },
                FailureClass::NoTargets => {
                    if rule.recoverable {
                        CommandStatus::NoTargets
                    } else {
                        rule.status
                    }
                },
                FailureClass::Plain => rule.status,
            };
            let exit = match rule.exit {
                CommandExit::Code(code) => {
                    if *class == FailureClass::RecoveryRequired && rule.recoverable {
                        CommandExit::Code(4)
                    } else {
                        CommandExit::Code(code)
                    }
                },
                CommandExit::General => CommandExit::General,
            };
            CommandMove::Stop { status: status.name(), message: message.clone(), exit }
        },
        StepEvent::Reviewed(outcome) => match *outcome {
            ReviewOutcome::Planned => CommandMove::ShowPlan,
            ReviewOutcome::ConfirmationRequired => CommandMove::Stop {
                status: "blocked",
                message: "confirmation-required".to_owned(),
                exit: rule.exit,
            },
            ReviewOutcome::FingerprintMismatch => CommandMove::Stop {
                status: "blocked",
                message: "plan-fingerprint-mismatch".to_owned(),
                exit: rule.exit,
            },
            ReviewOutcome::Proceed => step_move(rules, at + 1),
        },
    }
}

/// How many steps a command carries out, if these events come of them.
pub open spec fn steps_taken(rules: Seq<StepRule>, at: int, events: Seq<EventView>) -> nat
    decreases events.len(),
{
    if at >= rules.len() {
        0
    } else if events.len() == 0 {
        1
    } else if move_after(rules, at, events[0]) is Perform {
        1 + steps_taken(rules, at + 1, events.skip(1))
    } else {
        1
    }
}

/// Whether a step gives authority or changes something.
pub open spec fn takes_effect(step: CommandStep) -> bool {
    step is Authorize || step is MaterializeRevision || step is Apply
}

/// Whether every step that takes effect comes behind a review.
pub open spec fn reviewed_first(rules: Seq<StepRule>) -> bool {
    forall|i: int|
        0 <= i < rules.len() && takes_effect((#[trigger] rules[i]).step) ==> exists|g: int|
            0 <= g < i && (#[trigger] rules[g]).step is Review
}

/// Whether a command goes on after what came of a step.
pub open spec fn goes_on(step: CommandStep, event: EventView) -> bool {
    (event is Done && !(step is Review)) || event == EventView::Reviewed(ReviewOutcome::Proceed)
}

/// Whether a step of the list was carried out and went well.
pub open spec fn passed(rules: Seq<StepRule>, events: Seq<EventView>, step: CommandStep) -> bool {
    exists|g: int|
        0 <= g < rules.len() && g < events.len() && (#[trigger] rules[g]).step == step && goes_on(
            step,
            events[g],
        )
}

/// A step is carried out only if every step before it went well.
pub proof fn law_steps_follow_success(rules: Seq<StepRule>, events: Seq<EventView>, i: int)
    requires
        0 <= i < steps_taken(rules, 0, events),
    ensures
        i < rules.len(),
        i <= events.len(),
        forall|j: int| 0 <= j < i ==> goes_on(rules[j].step, #[trigger] events[j]),
{
    lemma_steps_follow_success(rules, 0, events, i);
}

proof fn lemma_steps_follow_success(rules: Seq<StepRule>, at: int, events: Seq<EventView>, i: int)
    requires
        0 <= at,
        0 <= i < steps_taken(rules, at, events),
    ensures
        at + i < rules.len(),
        i <= events.len(),
        forall|j: int| 0 <= j < i ==> goes_on(rules[at + j].step, #[trigger] events[j]),
    decreases events.len(),
{
    if i > 0 {
        lemma_steps_follow_success(rules, at + 1, events.skip(1), i - 1);
        assert forall|j: int| 0 <= j < i implies goes_on(
            rules[at + j].step,
            #[trigger] events[j],
        ) by {
            if j > 0 {
                assert(events.skip(1)[j - 1] == events[j]);
            }
        }
    }
}

/// Nothing takes effect unless the change was asked for and confirmed, and the
/// plan is the one that was reviewed.
pub proof fn law_effects_are_reviewed(
    rules: Seq<StepRule>,
    events: Seq<EventView>,
    i: int,
    apply: bool,
    confirm: bool,
    reviewed: Option<Seq<char>>,
    planned: Seq<char>,
)
    requires
        reviewed_first(rules),
        forall|j: int|
            0 <= j < events.len() && (#[trigger] events[j]) is Reviewed ==> events[j]
                == EventView::Reviewed(review(apply, confirm, reviewed, planned)),
        0 <= i < steps_taken(rules, 0, events),
        takes_effect(rules[i].step),
    ensures
        apply,
        confirm,
        reviewed == Some(planned),
{
    law_steps_follow_success(rules, events, i);
    let g = choose|g: int| 0 <= g < i && (#[trigger] rules[g]).step is Review;
    assert(goes_on(rules[g].step, events[g]));
}

} // verus!
