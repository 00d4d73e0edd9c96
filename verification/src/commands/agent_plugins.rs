//! Agent plugin commands: which reasons are safe to show, how a plan is asked
//! for, and how the commands run and stop.
use vstd::prelude::*;

use crate::agent_plugin::{
    countable, lifecycle_guidance, lifecycle_guidance_text, package_summary_value,
    package_summary_value_view, plan_counts_value, plan_counts_view, plan_review_value,
    plan_review_view, result_counts_value, result_counts_view, seen, ApplyItem, PackagePlan,
    PluginPackage,
};
use crate::commands::flow::{
    blocking, blocks, coded_exit, failing, fails, law_steps_follow_success, passed, steps_taken,
    takes_effect, with_exit, CommandExit, CommandStep, EventView, StepRule,
};
use crate::commands::toggle::{
    lifecycle_name, lifecycle_text, ProviderReachArg, ProviderReachInput, ProviderReachLifecycle,
    ReachView,
};
use crate::json::{Json, JsonView, ObjectBuilder};
use crate::laws::shown::{lemma_shows_all, shows, shows_only};
use crate::laws::steps::stands_before;
use crate::text::{
    begins_with, chars_of, contains_text, occurs, optional, part_of, same_text, stands_at,
};

verus! {

/// How long a reason code may be.
pub const MAX_REASON_CODE_BYTES: usize = 128;

/// A character of a reason code.
pub open spec fn code_char(c: char) -> bool {
    ('a' <= c && c <= 'z') || ('0' <= c && c <= '9') || c == '-'
}

/// A reason that is a plain code: lower case letters, digits and hyphens.
pub open spec fn plain_code(reason: Seq<char>) -> bool {
    0 < reason.len() <= MAX_REASON_CODE_BYTES && forall|i: int|
        0 <= i < reason.len() ==> code_char(#[trigger] reason[i])
}

/// A reason as it may be shown.
pub open spec fn safe_reason(reason: Seq<char>) -> Seq<char> {
    if plain_code(reason) {
        reason
    } else {
        "redacted-operation-reason"@
    }
}

/// A reason as it may be shown: a plain code as it stands, and one word for
/// anything else, which may hold a path.
pub fn safe_reason_code(reason: &str) -> (code: String)
    ensures
        code@ == safe_reason(reason@),
{
    let chars = chars_of(reason);
    if chars.len() == 0 || chars.len() > MAX_REASON_CODE_BYTES {
        return "redacted-operation-reason".to_owned();
    }
    let mut i: usize = 0;
    while i < chars.len()
        invariant
            i <= chars@.len(),
            chars@ == reason@,
            forall|j: int| 0 <= j < i ==> code_char(#[trigger] reason@[j]),
        decreases chars@.len() - i,
    {
        let c = chars[i];
        if !(('a' <= c && c <= 'z') || ('0' <= c && c <= '9') || c == '-') {
            assert(!code_char(reason@[i as int]));
            return "redacted-operation-reason".to_owned();
        }
        i = i + 1;
    }
    reason.to_owned()
}

/// Whatever the reason is, only a plain code is shown, and showing it again
/// changes nothing.
pub proof fn law_reason_codes_are_plain(reason: Seq<char>)
    ensures
        plain_code(safe_reason(reason)),
        safe_reason(safe_reason(reason)) == safe_reason(reason),
{
    reveal_strlit("redacted-operation-reason");
    let word = "redacted-operation-reason"@;
    assert(word.len() == 25);
    assert forall|i: int| 0 <= i < word.len() implies code_char(#[trigger] word[i]) by {}
}

/// Why a plan cannot be made.
#[derive(Debug, Clone, Copy, PartialEq, Eq, Structural)]
pub enum BulkTogglePlanError {
    AgentPluginNotFound,
    AgentPluginHasNoActivationAnchors,
    AgentPluginInventoryIncomplete,
    AgentPluginHasDiagnosticsOnlyActivationAnchors,
    AgentPluginHasNoActionableActivationAnchors,
    SelectionContextFingerprintMismatch,
    PlanFingerprintMismatch,
    NoTargetsInProviderReach,
    Other,
}

/// The code that the desktop is given of a plan that cannot be made.
pub open spec fn plan_error_code_text(error: BulkTogglePlanError) -> Seq<char> {
    match error {
        BulkTogglePlanError::AgentPluginNotFound => "agent-plugin-not-found"@,
        BulkTogglePlanError::AgentPluginHasNoActivationAnchors => {
            "agent-plugin-no-activation-anchors"@
        },
        BulkTogglePlanError::AgentPluginInventoryIncomplete => "agent-plugin-inventory-incomplete"@,
        BulkTogglePlanError::AgentPluginHasDiagnosticsOnlyActivationAnchors => {
            "agent-plugin-diagnostics-only-writable-activation"@
        },
        BulkTogglePlanError::AgentPluginHasNoActionableActivationAnchors => {
            "agent-plugin-no-actionable-activation"@
        },
        BulkTogglePlanError::SelectionContextFingerprintMismatch => {
            "agent-plugin-projection-changed"@
        },
        BulkTogglePlanError::PlanFingerprintMismatch => "plan-fingerprint-mismatch"@,
        BulkTogglePlanError::NoTargetsInProviderReach => "no-targets-in-provider-reach"@,
        BulkTogglePlanError::Other => "agent-plugin-plan-unavailable"@,
    }
}

/// The code that the desktop is given of a plan that cannot be made.
pub fn agent_plugin_plan_error_code(error: BulkTogglePlanError) -> (text: &'static str)
    ensures
        text@ == plan_error_code_text(error),
{
    match error {
        BulkTogglePlanError::AgentPluginNotFound => "agent-plugin-not-found",
        BulkTogglePlanError::AgentPluginHasNoActivationAnchors => {
            "agent-plugin-no-activation-anchors"
        },
        BulkTogglePlanError::AgentPluginInventoryIncomplete => "agent-plugin-inventory-incomplete",
        BulkTogglePlanError::AgentPluginHasDiagnosticsOnlyActivationAnchors => {
            "agent-plugin-diagnostics-only-writable-activation"
        },
        BulkTogglePlanError::AgentPluginHasNoActionableActivationAnchors => {
            "agent-plugin-no-actionable-activation"
        },
        BulkTogglePlanError::SelectionContextFingerprintMismatch => {
            "agent-plugin-projection-changed"
        },
        BulkTogglePlanError::PlanFingerprintMismatch => "plan-fingerprint-mismatch",
        BulkTogglePlanError::NoTargetsInProviderReach => "no-targets-in-provider-reach",
        BulkTogglePlanError::Other => "agent-plugin-plan-unavailable",
    }
}

/// The reason code that the command line gives of a plan that cannot be made.
pub open spec fn plan_reason_code_text(error: BulkTogglePlanError) -> Seq<char> {
    match error {
        BulkTogglePlanError::AgentPluginNotFound => "agent-plugin-not-found"@,
        BulkTogglePlanError::AgentPluginHasNoActivationAnchors => "no-native-activation-anchors"@,
        BulkTogglePlanError::AgentPluginInventoryIncomplete => "agent-plugin-inventory-incomplete"@,
        BulkTogglePlanError::AgentPluginHasDiagnosticsOnlyActivationAnchors => {
            "diagnostics-only-writable-activation"@
        },
        BulkTogglePlanError::AgentPluginHasNoActionableActivationAnchors => {
            "diagnostics-only-no-actionable-activation"@
        },
        BulkTogglePlanError::SelectionContextFingerprintMismatch => "package-projection-changed"@,
        BulkTogglePlanError::PlanFingerprintMismatch => "plan-fingerprint-mismatch"@,
        BulkTogglePlanError::NoTargetsInProviderReach => "no-targets-in-provider-reach"@,
        BulkTogglePlanError::Other => "package-plan-blocked"@,
    }
}

/// The reason code that the command line gives of a plan that cannot be made.
pub fn plan_reason_code(error: BulkTogglePlanError) -> (text: &'static str)
    ensures
        text@ == plan_reason_code_text(error),
{
    match error {
        BulkTogglePlanError::AgentPluginNotFound => "agent-plugin-not-found",
        BulkTogglePlanError::AgentPluginHasNoActivationAnchors => "no-native-activation-anchors",
        BulkTogglePlanError::AgentPluginInventoryIncomplete => "agent-plugin-inventory-incomplete",
        BulkTogglePlanError::AgentPluginHasDiagnosticsOnlyActivationAnchors => {
            "diagnostics-only-writable-activation"
        },
        BulkTogglePlanError::AgentPluginHasNoActionableActivationAnchors => {
            "diagnostics-only-no-actionable-activation"
        },
        BulkTogglePlanError::SelectionContextFingerprintMismatch => "package-projection-changed",
        BulkTogglePlanError::PlanFingerprintMismatch => "plan-fingerprint-mismatch",
        BulkTogglePlanError::NoTargetsInProviderReach => "no-targets-in-provider-reach",
        BulkTogglePlanError::Other => "package-plan-blocked",
    }
}

/// What the command line says of a plan that cannot be made.
pub open spec fn plan_reason_text(error: BulkTogglePlanError) -> Seq<char> {
    match error {
        BulkTogglePlanError::AgentPluginNotFound => {
            "Agent Plugin package was not found; refresh the inventory and use its logical id"@
        },
        BulkTogglePlanError::AgentPluginHasNoActivationAnchors => {
            "diagnostics-only package has no existing native activation anchors and cannot be applied"@
        },
        BulkTogglePlanError::AgentPluginInventoryIncomplete => {
            "Agent Plugin inventory is incomplete; refresh discovery before planning"@
        },
        BulkTogglePlanError::AgentPluginHasDiagnosticsOnlyActivationAnchors => {
            "A diagnostics-only package instance has writable native activation anchors; fix diagnostics before planning"@
        },
        BulkTogglePlanError::AgentPluginHasNoActionableActivationAnchors => {
            "diagnostics-only package has no safe apply action; fix component diagnostics and refresh before planning"@
        },
        BulkTogglePlanError::SelectionContextFingerprintMismatch => {
            "the package projection changed after review; refresh and create a new handoff"@
        },
        BulkTogglePlanError::PlanFingerprintMismatch => {
            "the reviewed package plan no longer matches fresh discovery"@
        },
        BulkTogglePlanError::NoTargetsInProviderReach => {
            "the selected provider reach contains no package activation anchors"@
        },
        BulkTogglePlanError::Other => {
            "the package plan is blocked; refresh inventory and review package diagnostics"@
        },
    }
}

/// What the command line says of a plan that cannot be made: each has its own
/// words.
pub proof fn law_words_of_plan_reason_text(error: BulkTogglePlanError)
    ensures
        error is AgentPluginNotFound ==> plan_reason_text(error)
            == "Agent Plugin package was not found; refresh the inventory and use its logical id"@,
        error is AgentPluginHasNoActivationAnchors ==> plan_reason_text(error)
            == "diagnostics-only package has no existing native activation anchors and cannot be applied"@,
        error is AgentPluginInventoryIncomplete ==> plan_reason_text(error)
            == "Agent Plugin inventory is incomplete; refresh discovery before planning"@,
        error is AgentPluginHasDiagnosticsOnlyActivationAnchors ==> plan_reason_text(error)
            == "A diagnostics-only package instance has writable native activation anchors; fix diagnostics before planning"@,
        error is AgentPluginHasNoActionableActivationAnchors ==> plan_reason_text(error)
            == "diagnostics-only package has no safe apply action; fix component diagnostics and refresh before planning"@,
        error is SelectionContextFingerprintMismatch ==> plan_reason_text(error)
            == "the package projection changed after review; refresh and create a new handoff"@,
        error is PlanFingerprintMismatch ==> plan_reason_text(error)
            == "the reviewed package plan no longer matches fresh discovery"@,
        error is NoTargetsInProviderReach ==> plan_reason_text(error)
            == "the selected provider reach contains no package activation anchors"@,
        error is Other ==> plan_reason_text(error)
            == "the package plan is blocked; refresh inventory and review package diagnostics"@,
{
}

/// What the command line says of a plan that cannot be made.
pub fn plan_reason(error: BulkTogglePlanError) -> (text: &'static str)
    ensures
        text@ == plan_reason_text(error),
{
    match error {
        BulkTogglePlanError::AgentPluginNotFound => {
            "Agent Plugin package was not found; refresh the inventory and use its logical id"
        },
        BulkTogglePlanError::AgentPluginHasNoActivationAnchors => {
            "diagnostics-only package has no existing native activation anchors and cannot be applied"
        },
        BulkTogglePlanError::AgentPluginInventoryIncomplete => {
            "Agent Plugin inventory is incomplete; refresh discovery before planning"
        },
        BulkTogglePlanError::AgentPluginHasDiagnosticsOnlyActivationAnchors => {
            "A diagnostics-only package instance has writable native activation anchors; fix diagnostics before planning"
        },
        BulkTogglePlanError::AgentPluginHasNoActionableActivationAnchors => {
            "diagnostics-only package has no safe apply action; fix component diagnostics and refresh before planning"
        },
        BulkTogglePlanError::SelectionContextFingerprintMismatch => {
            "the package projection changed after review; refresh and create a new handoff"
        },
        BulkTogglePlanError::PlanFingerprintMismatch => {
            "the reviewed package plan no longer matches fresh discovery"
        },
        BulkTogglePlanError::NoTargetsInProviderReach => {
            "the selected provider reach contains no package activation anchors"
        },
        BulkTogglePlanError::Other => {
            "the package plan is blocked; refresh inventory and review package diagnostics"
        },
    }
}

/// Why a plan cannot be asked for.
#[derive(Debug, Clone, Copy, PartialEq, Eq, Structural)]
pub enum PackageRequestError {
    Core(BulkTogglePlanError),
    ReachRequired,
    Reach,
    InvalidProvider,
    ProviderWithAllReach,
}

/// A provider as a command names it.
#[derive(Debug, Clone, Copy, PartialEq, Eq, Structural)]
pub enum ProviderChoice {
    Missing,
    Unknown,
    Known,
}

/// What a command asks of a package.
pub open spec fn package_reach(
    request: Result<(), BulkTogglePlanError>,
    reach: Option<ProviderReachArg>,
    choice: ProviderChoice,
    provider: Seq<char>,
) -> Result<ReachView, PackageRequestError> {
    match request {
        Err(error) => Err(PackageRequestError::Core(error)),
        Ok(()) => match reach {
            None => Err(PackageRequestError::ReachRequired),
            Some(reach) => if choice is Unknown {
                Err(PackageRequestError::InvalidProvider)
            } else if reach is All && choice is Known {
                Err(PackageRequestError::ProviderWithAllReach)
            } else if reach is All {
                Ok(ReachView::All)
            } else if choice is Known {
                Ok(ReachView::Selected(provider))
            } else {
                Err(PackageRequestError::Reach)
            },
        },
    }
}

/// Whether a package is switched on: it is unless it is to be switched off.
pub fn target_enabled(enable: bool, disable: bool) -> (r: bool)
    ensures
        r == (enable || !disable),
{
    enable || !disable
}

/// What a command asks of a package: the reach must be said, a provider goes
/// with selected reach alone, and selected reach needs one.
pub fn package_request(
    request: Result<(), BulkTogglePlanError>,
    reach: Option<ProviderReachArg>,
    choice: ProviderChoice,
    provider: &str,
) -> (r: Result<ProviderReachInput, PackageRequestError>)
    ensures
        match package_reach(request, reach, choice, provider@) {
            Ok(view) => r is Ok && r->Ok_0@ == view,
            Err(error) => r == Err::<ProviderReachInput, PackageRequestError>(error),
        },
{
    if let Err(error) = request {
        return Err(PackageRequestError::Core(error));
    }
    let reach = match reach {
        Some(reach) => reach,
        None => return Err(PackageRequestError::ReachRequired),
    };
    if choice == ProviderChoice::Unknown {
        return Err(PackageRequestError::InvalidProvider);
    }
    if reach == ProviderReachArg::All && choice == ProviderChoice::Known {
        return Err(PackageRequestError::ProviderWithAllReach);
    }
    let known = if choice == ProviderChoice::Known {
        Some(provider)
    } else {
        None
    };
    match reach.input(known) {
        Ok(input) => Ok(input),
        Err(_) => Err(PackageRequestError::Reach),
    }
}

/// Why a command on a package stops.
pub enum PackageStop {
    NotConfirmed,
    DiscoveryFailed,
    PackageNotFound,
    PackageRefreshRequired,
    FingerprintMismatch,
    SealedRootsUnavailable,
    ProjectionChanged,
    ApprovalUnavailable,
    SessionAuthorityMissing,
    SessionAuthorityUnavailable,
    Request(PackageRequestError),
    /// The handoff failed with this message.
    Handoff(String),
}

/// What is said of a command that stopped.
pub struct PackageFailure {
    pub status: &'static str,
    pub reason_code: &'static str,
    pub reason: &'static str,
    pub exit: u8,
}

/// The reason of a handoff that failed: a missing key is named, and nothing
/// else of the message is shown.
pub open spec fn handoff_reason(message: Seq<char>) -> Seq<char> {
    if occurs(message, "backup authentication key missing"@) {
        "backup authentication key missing; run `unpin auth backup init`"@
    } else if occurs(message, "session authority key missing"@) {
        "session authority key missing; run `unpin auth session init`"@
    } else {
        "durable package handoff is unavailable; refresh credentials and discovery before retrying"@
    }
}

/// The reason of a handoff that failed.
pub fn handoff_error(message: &str) -> (reason: &'static str)
    ensures
        reason@ == handoff_reason(message@),
{
    if contains_text(message, "backup authentication key missing") {
        "backup authentication key missing; run `unpin auth backup init`"
    } else if contains_text(message, "session authority key missing") {
        "session authority key missing; run `unpin auth session init`"
    } else {
        "durable package handoff is unavailable; refresh credentials and discovery before retrying"
    }
}

/// The reason code and the reason of a request that cannot be made.
pub open spec fn request_failure(error: PackageRequestError) -> (Seq<char>, Seq<char>) {
    match error {
        PackageRequestError::Core(error) => (plan_reason_code_text(error), plan_reason_text(error)),
        PackageRequestError::ReachRequired => (
            "provider-reach-required"@,
            "choose explicit package reach with --reach selected --provider <id> or --reach all"@,
        ),
        PackageRequestError::Reach => (
            "selected-provider-required"@,
            "selected package reach requires explicit --provider authority"@,
        ),
        PackageRequestError::InvalidProvider => (
            "invalid-selected-provider"@,
            "selected package reach names an unsupported provider"@,
        ),
        PackageRequestError::ProviderWithAllReach => (
            "provider-conflicts-with-all-reach"@,
            "--provider is only valid with selected package reach"@,
        ),
    }
}

/// The reason code and the reason of a request that cannot be made.
pub fn safe_plan_error(error: PackageRequestError) -> (r: (&'static str, &'static str))
    ensures
        (r.0@, r.1@) == request_failure(error),
{
    match error {
        PackageRequestError::Core(error) => (plan_reason_code(error), plan_reason(error)),
        PackageRequestError::ReachRequired => (
            "provider-reach-required",
            "choose explicit package reach with --reach selected --provider <id> or --reach all",
        ),
        PackageRequestError::Reach => (
            "selected-provider-required",
            "selected package reach requires explicit --provider authority",
        ),
        PackageRequestError::InvalidProvider => (
            "invalid-selected-provider",
            "selected package reach names an unsupported provider",
        ),
        PackageRequestError::ProviderWithAllReach => (
            "provider-conflicts-with-all-reach",
            "--provider is only valid with selected package reach",
        ),
    }
}

/// The reason code and the reason of a command that stopped.
pub open spec fn stop_reason(stop: PackageStop) -> (Seq<char>, Seq<char>) {
    match stop {
        PackageStop::NotConfirmed => (
            "confirmation-required"@,
            "confirmation is required before applying a reviewed package plan"@,
        ),
        PackageStop::PackageNotFound => (
            "agent-plugin-not-found"@,
            "Agent Plugin package was not found; refresh the inventory and use its logical id"@,
        ),
        PackageStop::PackageRefreshRequired => (
            "package-refresh-required"@,
            "the reviewed package is no longer present; refresh before applying"@,
        ),
        PackageStop::FingerprintMismatch => (
            "plan-fingerprint-mismatch"@,
            "the operation id and reviewed plan fingerprint do not match"@,
        ),
        PackageStop::SealedRootsUnavailable => (
            "sealed-root-binding-unavailable"@,
            "the sealed package root binding is unavailable; create a new MCP handoff"@,
        ),
        PackageStop::ProjectionChanged => (
            "package-projection-changed"@,
            "the package projection changed after review; refresh and create a new handoff"@,
        ),
        PackageStop::ApprovalUnavailable => (
            "approval-unavailable"@,
            "reviewed package approval is unavailable; refresh credentials and create a new handoff"@,
        ),
        PackageStop::SessionAuthorityMissing => (
            "session-authority-missing"@,
            "session authority key missing; run `unpin auth session init`"@,
        ),
        PackageStop::SessionAuthorityUnavailable => (
            "session-authority-unavailable"@,
            "session authority could not be loaded; reinitialize it before reading package status"@,
        ),
        PackageStop::DiscoveryFailed => (
            "discovery-failed"@,
            "fresh Agent Plugin discovery failed; run `unpin doctor` and retry"@,
        ),
        PackageStop::Request(error) => request_failure(error),
        PackageStop::Handoff(message) => ("handoff-unavailable"@, handoff_reason(message@)),
    }
}

/// The exit code of a command that stopped.
pub open spec fn stop_exit(stop: PackageStop) -> u8 {
    if stop is DiscoveryFailed {
        1
    } else {
        3
    }
}

/// What is said of a command that stopped: a failed discovery is a failure,
/// everything else is blocked.
pub fn command_error(stop: &PackageStop) -> (failure: PackageFailure)
    ensures
        failure.status@ == (if *stop is DiscoveryFailed {
            "failed"@
        } else {
            "blocked"@
        }),
        failure.exit == stop_exit(*stop),
        (failure.reason_code@, failure.reason@) == stop_reason(*stop),
{
    let (reason_code, reason): (&'static str, &'static str) = match stop {
        PackageStop::NotConfirmed => (
            "confirmation-required",
            "confirmation is required before applying a reviewed package plan",
        ),
        PackageStop::PackageNotFound => (
            "agent-plugin-not-found",
            "Agent Plugin package was not found; refresh the inventory and use its logical id",
        ),
        PackageStop::PackageRefreshRequired => (
            "package-refresh-required",
            "the reviewed package is no longer present; refresh before applying",
        ),
        PackageStop::FingerprintMismatch => (
            "plan-fingerprint-mismatch",
            "the operation id and reviewed plan fingerprint do not match",
        ),
        PackageStop::SealedRootsUnavailable => (
            "sealed-root-binding-unavailable",
            "the sealed package root binding is unavailable; create a new MCP handoff",
        ),
        PackageStop::ProjectionChanged => (
            "package-projection-changed",
            "the package projection changed after review; refresh and create a new handoff",
        ),
        PackageStop::ApprovalUnavailable => (
            "approval-unavailable",
            "reviewed package approval is unavailable; refresh credentials and create a new handoff",
        ),
        PackageStop::SessionAuthorityMissing => (
            "session-authority-missing",
            "session authority key missing; run `unpin auth session init`",
        ),
        PackageStop::SessionAuthorityUnavailable => (
            "session-authority-unavailable",
            "session authority could not be loaded; reinitialize it before reading package status",
        ),
        PackageStop::DiscoveryFailed => (
            "discovery-failed",
            "fresh Agent Plugin discovery failed; run `unpin doctor` and retry",
        ),
        PackageStop::Request(error) => safe_plan_error(*error),
        PackageStop::Handoff(message) => ("handoff-unavailable", handoff_error(message.as_str())),
    };
    match stop {
        PackageStop::DiscoveryFailed => PackageFailure {
            status: "failed",
            reason_code,
            reason,
            exit: 1,
        },
        _ => PackageFailure { status: "blocked", reason_code, reason, exit: 3 },
    }
}

/// The commands on one package.
#[derive(Debug, Clone, Copy, PartialEq, Eq, Structural)]
pub enum PackageCommand {
    Show,
    Plan,
    Apply,
    Status,
}

/// The title over what a command shows.
pub open spec fn package_title(command: PackageCommand) -> Seq<char> {
    match command {
        PackageCommand::Show => "agent plugin"@,
        PackageCommand::Plan => "agent plugin plan"@,
        PackageCommand::Apply => "agent plugin apply"@,
        PackageCommand::Status => "agent plugin status"@,
    }
}

/// The title over what a command shows: each has its own words.
pub proof fn law_words_of_package_title(command: PackageCommand)
    ensures
        command is Show ==> package_title(command) == "agent plugin"@,
        command is Plan ==> package_title(command) == "agent plugin plan"@,
        command is Apply ==> package_title(command) == "agent plugin apply"@,
        command is Status ==> package_title(command) == "agent plugin status"@,
{
}

impl PackageCommand {
    /// The title over what a command shows.
    pub fn title(self) -> (title: &'static str)
        ensures
            title@ == package_title(self),
    {
        match self {
            PackageCommand::Show => "agent plugin",
            PackageCommand::Plan => "agent plugin plan",
            PackageCommand::Apply => "agent plugin apply",
            PackageCommand::Status => "agent plugin status",
        }
    }
}

/// How a step of a command on packages fails: what it looks for is not there, a
/// plan is refused, or something else went wrong.
pub enum PackageStepFailure {
    Missing,
    Refused(PackageRequestError),
    Other(String),
}

/// Why a command stops where a step of it fails. What went wrong outside of a
/// plan is not repeated, but for the message of a handoff, which is read.
pub open spec fn stop_at(
    command: PackageCommand,
    step: CommandStep,
    failure: PackageStepFailure,
) -> PackageStop {
    match step {
        CommandStep::Confirm => PackageStop::NotConfirmed,
        CommandStep::Discover | CommandStep::ResolveRoots => PackageStop::DiscoveryFailed,
        CommandStep::FindPackage => if command is Apply {
            PackageStop::PackageRefreshRequired
        } else {
            PackageStop::PackageNotFound
        },
        CommandStep::MatchHandoff => PackageStop::FingerprintMismatch,
        CommandStep::RootBinding => PackageStop::SealedRootsUnavailable,
        CommandStep::MatchPackage => PackageStop::ProjectionChanged,
        CommandStep::Authorize => PackageStop::ApprovalUnavailable,
        CommandStep::SessionKey => if failure is Missing {
            PackageStop::SessionAuthorityMissing
        } else {
            PackageStop::SessionAuthorityUnavailable
        },
        _ => match failure {
            PackageStepFailure::Refused(error) => PackageStop::Request(error),
            PackageStepFailure::Other(message) => PackageStop::Handoff(message),
            PackageStepFailure::Missing => PackageStop::Request(
                PackageRequestError::Core(BulkTogglePlanError::Other),
            ),
        },
    }
}

/// Why a command stops where a step of it fails.
pub fn package_stop(
    command: PackageCommand,
    step: CommandStep,
    failure: PackageStepFailure,
) -> (stop: PackageStop)
    ensures
        stop == stop_at(command, step, failure),
{
    match step {
        CommandStep::Confirm => PackageStop::NotConfirmed,
        CommandStep::Discover | CommandStep::ResolveRoots => PackageStop::DiscoveryFailed,
        CommandStep::FindPackage => match command {
            PackageCommand::Apply => PackageStop::PackageRefreshRequired,
            _ => PackageStop::PackageNotFound,
        },
        CommandStep::MatchHandoff => PackageStop::FingerprintMismatch,
        CommandStep::RootBinding => PackageStop::SealedRootsUnavailable,
        CommandStep::MatchPackage => PackageStop::ProjectionChanged,
        CommandStep::Authorize => PackageStop::ApprovalUnavailable,
        CommandStep::SessionKey => match failure {
            PackageStepFailure::Missing => PackageStop::SessionAuthorityMissing,
            _ => PackageStop::SessionAuthorityUnavailable,
        },
        _ => match failure {
            PackageStepFailure::Refused(error) => PackageStop::Request(error),
            PackageStepFailure::Other(message) => PackageStop::Handoff(message),
            PackageStepFailure::Missing => {
                PackageStop::Request(PackageRequestError::Core(BulkTogglePlanError::Other))
            },
        },
    }
}

/// Whether a package is still selected as it was reviewed: by the same selector
/// and in the same context.
pub fn selection_unchanged(
    same_selector: bool,
    current: &Option<String>,
    reviewed: &Option<String>,
) -> (r: bool)
    ensures
        r == (same_selector && optional(*current) == optional(*reviewed)),
{
    same_selector && match (current, reviewed) {
        (Some(current), Some(reviewed)) => same_text(current.as_str(), reviewed.as_str()),
        (None, None) => true,
        _ => false,
    }
}

/// A stop and the rule of the step at which it comes agree on the exit code.
pub proof fn law_stops_agree_with_rules(adopt: bool, at: int, failure: PackageStepFailure)
    requires
        0 <= at < apply_rules(adopt).len(),
    ensures
        apply_rules(adopt)[at].exit == CommandExit::Code(
            stop_exit(stop_at(PackageCommand::Apply, apply_rules(adopt)[at].step, failure)),
        ),
{
}

/// What is shown of a command that stopped.
pub open spec fn failure_value_view(failure: PackageFailure) -> JsonView {
    JsonView::Object(
        seq![
            ("statusVersion"@, JsonView::Unsigned(1)),
            ("status"@, JsonView::Text(failure.status@)),
            ("reasonCode"@, JsonView::Text(failure.reason_code@)),
            ("reason"@, JsonView::Text(failure.reason@)),
        ],
    )
}

/// What is shown of a command that stopped: each part under its own name, and
/// nothing else.
pub proof fn law_shown_failure(failure: PackageFailure)
    ensures
        ({
            let shown = failure_value_view(failure);
            &&& shows_only(shown, 4)
            &&& shows(shown, "statusVersion"@, JsonView::Unsigned(1))
            &&& shows(shown, "status"@, JsonView::Text(failure.status@))
            &&& shows(shown, "reasonCode"@, JsonView::Text(failure.reason_code@))
            &&& shows(shown, "reason"@, JsonView::Text(failure.reason@))
        }),
{
    let shown = failure_value_view(failure);
    lemma_shows_all(shown);
    let at = shown->Object_0;
    assert(at[0] == at[0] && at[1] == at[1] && at[2] == at[2] && at[3] == at[3]);
}

/// What is shown of a command that stopped.
pub fn failure_value(failure: &PackageFailure) -> (value: Json)
    ensures
        value@ == failure_value_view(*failure),
{
    let mut out = ObjectBuilder::new();
    out.put("statusVersion", Json::Unsigned(1));
    out.put_text("status", failure.status);
    out.put_text("reasonCode", failure.reason_code);
    out.put_text("reason", failure.reason);
    assert(out@ =~= failure_value_view(*failure)->Object_0);
    out.finish()
}

/// What is said in one line of a command that stopped.
pub fn failure_line(failure: &PackageFailure) -> (line: String)
    ensures
        line@ == "agent plugin "@ + failure.status@ + ": "@ + failure.reason_code@ + ": "@
            + failure.reason@,
{
    let mut line = "agent plugin ".to_owned();
    line.push_str(failure.status);
    line.push_str(": ");
    line.push_str(failure.reason_code);
    line.push_str(": ");
    line.push_str(failure.reason);
    line
}

/// A fingerprint without the name of its digest.
pub open spec fn bare_fingerprint(fingerprint: Seq<char>) -> Seq<char> {
    if stands_at(fingerprint, "sha256:"@, 0) {
        fingerprint.skip(7)
    } else {
        fingerprint
    }
}

/// A fingerprint without the name of its digest.
pub fn unprefixed_plan_fingerprint(fingerprint: &str) -> (bare: String)
    ensures
        bare@ == bare_fingerprint(fingerprint@),
{
    proof {
        reveal_strlit("sha256:");
    }
    if begins_with(fingerprint, "sha256:") {
        let count: usize = chars_of(fingerprint).len();
        let bare = part_of(fingerprint, 7, count);
        assert(bare@ =~= fingerprint@.skip(7));
        bare
    } else {
        fingerprint.to_owned()
    }
}

/// The place of the first package with an id.
pub fn find_package(packages: &Vec<PluginPackage>, logical_id: &str) -> (at: Option<usize>)
    ensures
        match at {
            Some(at) => at < packages@.len() && packages@[at as int].logical_id@ == logical_id@
                && forall|j: int| 0 <= j < at ==> (#[trigger] packages@[j]).logical_id@ != logical_id@,
            None => forall|j: int|
                0 <= j < packages@.len() ==> (#[trigger] packages@[j]).logical_id@ != logical_id@,
        },
{
    let mut i: usize = 0;
    while i < packages.len()
        invariant
            i <= packages@.len(),
            forall|j: int| 0 <= j < i ==> (#[trigger] packages@[j]).logical_id@ != logical_id@,
        decreases packages@.len() - i,
    {
        if same_text(packages[i].logical_id.as_str(), logical_id) {
            return Some(i);
        }
        i = i + 1;
    }
    None
}

/// Whether a package is still what was reviewed.
pub open spec fn projection_current(
    package: Option<PluginPackage>,
    reviewed: Option<Seq<char>>,
) -> bool {
    package is Some && reviewed == Some(package->0.projection_fingerprint@)
}

/// Whether a package is still what was reviewed.
pub fn projection_matches(package: Option<&PluginPackage>, reviewed: &Option<String>) -> (r: bool)
    ensures
        r == projection_current(seen(package), optional(*reviewed)),
{
    match (package, reviewed) {
        (Some(package), Some(fingerprint)) => same_text(
            fingerprint.as_str(),
            package.projection_fingerprint.as_str(),
        ),
        _ => false,
    }
}

/// A package that is gone.
pub open spec fn missing_package_view(logical_id: Seq<char>) -> JsonView {
    JsonView::Object(
        seq![("logicalId"@, JsonView::Text(logical_id)), ("current"@, JsonView::Bool(false))],
    )
}

/// A package that is gone: each part under its own name, and nothing else.
pub proof fn law_shown_missing_package(logical_id: Seq<char>)
    ensures
        ({
            let shown = missing_package_view(logical_id);
            &&& shows_only(shown, 2)
            &&& shows(shown, "logicalId"@, JsonView::Text(logical_id))
            &&& shows(shown, "current"@, JsonView::Bool(false))
        }),
{
    let shown = missing_package_view(logical_id);
    lemma_shows_all(shown);
    let at = shown->Object_0;
    assert(at[0] == at[0] && at[1] == at[1]);
}

/// The status of an operation on a package.
pub open spec fn package_status_view(
    package: Option<PluginPackage>,
    logical_id: Seq<char>,
    plan: PackagePlan,
    reviewed: Option<Seq<char>>,
    lifecycle: ProviderReachLifecycle,
    items: Option<Seq<ApplyItem>>,
) -> JsonView {
    let matches = projection_current(package, reviewed);
    JsonView::Object(
        seq![
            ("statusVersion"@, JsonView::Unsigned(1)),
            ("status"@, JsonView::Text(lifecycle_text(lifecycle))),
            ("operationId"@, JsonView::Text(plan.operation_id@)),
            ("planFingerprint"@, JsonView::Text(plan.plan_fingerprint@)),
            ("providerReach"@, plan.provider_reach@),
            ("targetEnabled"@, JsonView::Bool(plan.target_enabled)),
            (
                "package"@,
                match package {
                    Some(package) => package_summary_value_view(package),
                    None => missing_package_view(logical_id),
                },
            ),
            ("projectionMatchesReview"@, JsonView::Bool(matches)),
            (
                "refreshStatus"@,
                JsonView::Text(
                    if matches {
                        "complete"@
                    } else {
                        "required"@
                    },
                ),
            ),
            ("refreshRequired"@, JsonView::Bool(!matches)),
            ("replanRequired"@, JsonView::Bool(!matches)),
            ("counts"@, plan_counts_view(package, plan)),
            ("review"@, plan_review_view(package, plan)),
            (
                "resultCounts"@,
                match items {
                    Some(items) => result_counts_view(items),
                    None => JsonView::Null,
                },
            ),
            ("guidance"@, JsonView::Text(lifecycle_guidance_text(lifecycle))),
        ],
    )
}

/// The items of a result, if there is one.
pub open spec fn seen_items(items: Option<&Vec<ApplyItem>>) -> Option<Seq<ApplyItem>> {
    match items {
        Some(items) => Some(items@),
        None => None,
    }
}

/// The status of an operation on a package: whether the package is still what
/// was reviewed, and what came of the operation.
pub fn package_status_value(
    package: Option<&PluginPackage>,
    logical_id: &str,
    plan: &PackagePlan,
    reviewed: &Option<String>,
    lifecycle: ProviderReachLifecycle,
    items: Option<&Vec<ApplyItem>>,
) -> (value: Json)
    requires
        package is Some ==> countable(*package->0),
    ensures
        value@ == package_status_view(
            seen(package),
            logical_id@,
            *plan,
            optional(*reviewed),
            lifecycle,
            seen_items(items),
        ),
{
    let matches = projection_matches(package, reviewed);
    let package_value = match package {
        Some(package) => package_summary_value(package),
        None => {
            let mut gone = ObjectBuilder::new();
            gone.put_text("logicalId", logical_id);
            gone.put("current", Json::Bool(false));
            assert(gone@ =~= missing_package_view(logical_id@)->Object_0);
            gone.finish()
        },
    };
    let result_counts = match items {
        Some(items) => result_counts_value(items),
        None => Json::Null,
    };
    let mut out = ObjectBuilder::new();
    out.put("statusVersion", Json::Unsigned(1));
    out.put_text("status", lifecycle_name(lifecycle));
    out.put_text("operationId", plan.operation_id.as_str());
    out.put_text("planFingerprint", plan.plan_fingerprint.as_str());
    out.put("providerReach", plan.provider_reach.duplicate());
    out.put("targetEnabled", Json::Bool(plan.target_enabled));
    out.put("package", package_value);
    out.put("projectionMatchesReview", Json::Bool(matches));
    if matches {
        out.put_text("refreshStatus", "complete");
    } else {
        out.put_text("refreshStatus", "required");
    }
    out.put("refreshRequired", Json::Bool(!matches));
    out.put("replanRequired", Json::Bool(!matches));
    out.put("counts", plan_counts_value(package, plan));
    out.put("review", plan_review_value(package, plan));
    out.put("resultCounts", result_counts);
    out.put_text("guidance", lifecycle_guidance(lifecycle));
    assert(out@ =~= package_status_view(
        seen(package),
        logical_id@,
        *plan,
        optional(*reviewed),
        lifecycle,
        seen_items(items),
    )->Object_0);
    out.finish()
}

/// The steps of `agent-plugins list`.
pub open spec fn list_rules() -> Seq<StepRule> {
    seq![coded_exit(failing(CommandStep::Discover), 1)]
}

/// The steps of `agent-plugins list`: one after the other, and no more.
pub proof fn law_list_in_order()
    ensures
        ({
            let rules = list_rules();
            &&& rules.len() == 1
        }),
{
    let rules = list_rules();
    assert(rules[0] == coded_exit(failing(CommandStep::Discover), 1));
}

/// The steps of `agent-plugins list`.
pub fn list() -> (rules: Vec<StepRule>)
    ensures
        rules@ == list_rules(),
{
    let mut rules: Vec<StepRule> = Vec::new();
    rules.push(with_exit(fails(CommandStep::Discover), 1));
    assert(rules@ =~= list_rules());
    rules
}

/// The steps of `agent-plugins show`.
pub open spec fn show_rules() -> Seq<StepRule> {
    seq![
        coded_exit(failing(CommandStep::Discover), 1),
        coded_exit(blocking(CommandStep::FindPackage), 3),
    ]
}

/// The steps of `agent-plugins show`: one after the other, and no more.
pub proof fn law_show_in_order()
    ensures
        ({
            let rules = show_rules();
            &&& rules.len() == 2
            &&& stands_before(
                rules,
                coded_exit(failing(CommandStep::Discover), 1),
                coded_exit(blocking(CommandStep::FindPackage), 3),
            )
        }),
{
    let rules = show_rules();
    assert(rules[0] == coded_exit(failing(CommandStep::Discover), 1));
    assert(rules[1] == coded_exit(blocking(CommandStep::FindPackage), 3));
}

/// The steps of `agent-plugins show`.
pub fn show() -> (rules: Vec<StepRule>)
    ensures
        rules@ == show_rules(),
{
    let mut rules: Vec<StepRule> = Vec::new();
    rules.push(with_exit(fails(CommandStep::Discover), 1));
    rules.push(with_exit(blocks(CommandStep::FindPackage), 3));
    assert(rules@ =~= show_rules());
    rules
}

/// The steps of `agent-plugins plan` and `handoff`.
pub open spec fn plan_rules(require_handoff: bool) -> Seq<StepRule> {
    seq![
        coded_exit(failing(CommandStep::Discover), 1),
        coded_exit(blocking(CommandStep::FindPackage), 3),
        coded_exit(blocking(CommandStep::BuildRequest), 3),
        coded_exit(blocking(CommandStep::ReconcileReach), 3),
        coded_exit(blocking(CommandStep::PlanChange), 3),
    ] + (if require_handoff {
        seq![
            coded_exit(blocking(CommandStep::DurableContext), 3),
            coded_exit(blocking(CommandStep::LoadHandoff), 3),
        ]
    } else {
        seq![]
    })
}

/// The steps of `agent-plugins plan` and `handoff`: one after the other, and no
/// more.
pub proof fn law_plan_in_order(require_handoff: bool)
    ensures
        ({
            let rules = plan_rules(require_handoff);
            &&& rules.len() == 5 + if require_handoff {
                2int
            } else {
                0int
            }
            &&& stands_before(
                rules,
                coded_exit(failing(CommandStep::Discover), 1),
                coded_exit(blocking(CommandStep::FindPackage), 3),
            )
            &&& stands_before(
                rules,
                coded_exit(blocking(CommandStep::FindPackage), 3),
                coded_exit(blocking(CommandStep::BuildRequest), 3),
            )
            &&& stands_before(
                rules,
                coded_exit(blocking(CommandStep::BuildRequest), 3),
                coded_exit(blocking(CommandStep::ReconcileReach), 3),
            )
            &&& stands_before(
                rules,
                coded_exit(blocking(CommandStep::ReconcileReach), 3),
                coded_exit(blocking(CommandStep::PlanChange), 3),
            )
            &&& require_handoff ==> stands_before(
                rules,
                coded_exit(blocking(CommandStep::PlanChange), 3),
                coded_exit(blocking(CommandStep::DurableContext), 3),
            )
            &&& require_handoff ==> stands_before(
                rules,
                coded_exit(blocking(CommandStep::DurableContext), 3),
                coded_exit(blocking(CommandStep::LoadHandoff), 3),
            )
        }),
{
    let rules = plan_rules(require_handoff);
    if require_handoff {
        assert(rules[0] == coded_exit(failing(CommandStep::Discover), 1));
        assert(rules[1] == coded_exit(blocking(CommandStep::FindPackage), 3));
        assert(rules[2] == coded_exit(blocking(CommandStep::BuildRequest), 3));
        assert(rules[3] == coded_exit(blocking(CommandStep::ReconcileReach), 3));
        assert(rules[4] == coded_exit(blocking(CommandStep::PlanChange), 3));
        assert(rules[5] == coded_exit(blocking(CommandStep::DurableContext), 3));
        assert(rules[6] == coded_exit(blocking(CommandStep::LoadHandoff), 3));
    } else {
        assert(rules[0] == coded_exit(failing(CommandStep::Discover), 1));
        assert(rules[1] == coded_exit(blocking(CommandStep::FindPackage), 3));
        assert(rules[2] == coded_exit(blocking(CommandStep::BuildRequest), 3));
        assert(rules[3] == coded_exit(blocking(CommandStep::ReconcileReach), 3));
        assert(rules[4] == coded_exit(blocking(CommandStep::PlanChange), 3));
    }
}

/// The steps of `agent-plugins plan` and `handoff`.
pub fn plan(require_handoff: bool) -> (rules: Vec<StepRule>)
    ensures
        rules@ == plan_rules(require_handoff),
{
    let mut rules: Vec<StepRule> = Vec::new();
    rules.push(with_exit(fails(CommandStep::Discover), 1));
    rules.push(with_exit(blocks(CommandStep::FindPackage), 3));
    rules.push(with_exit(blocks(CommandStep::BuildRequest), 3));
    rules.push(with_exit(blocks(CommandStep::ReconcileReach), 3));
    rules.push(with_exit(blocks(CommandStep::PlanChange), 3));
    if require_handoff {
        rules.push(with_exit(blocks(CommandStep::DurableContext), 3));
        rules.push(with_exit(blocks(CommandStep::LoadHandoff), 3));
    }
    assert(rules@ =~= plan_rules(require_handoff));
    rules
}

/// The steps of `agent-plugins apply`.
pub open spec fn apply_rules(adopt_sealed_roots: bool) -> Seq<StepRule> {
    seq![
        coded_exit(blocking(CommandStep::Confirm), 3),
        coded_exit(failing(CommandStep::Discover), 1),
        coded_exit(blocking(CommandStep::LoadHandoff), 3),
        coded_exit(blocking(CommandStep::MatchHandoff), 3),
    ] + (if adopt_sealed_roots {
        seq![
            coded_exit(blocking(CommandStep::RootBinding), 3),
            coded_exit(failing(CommandStep::ResolveRoots), 1),
        ]
    } else {
        seq![]
    }) + seq![
        coded_exit(blocking(CommandStep::FindPackage), 3),
        coded_exit(blocking(CommandStep::BuildRequest), 3),
        coded_exit(blocking(CommandStep::MatchPackage), 3),
        coded_exit(blocking(CommandStep::DurableContext), 3),
        coded_exit(blocking(CommandStep::Expectation), 3),
        coded_exit(blocking(CommandStep::Authorize), 3),
        coded_exit(blocking(CommandStep::Apply), 3),
    ]
}

/// The steps of `agent-plugins apply`: one after the other, and no more.
pub proof fn law_apply_in_order(adopt_sealed_roots: bool)
    ensures
        ({
            let rules = apply_rules(adopt_sealed_roots);
            &&& rules.len() == 11 + if adopt_sealed_roots {
                2int
            } else {
                0int
            }
            &&& stands_before(
                rules,
                coded_exit(blocking(CommandStep::Confirm), 3),
                coded_exit(failing(CommandStep::Discover), 1),
            )
            &&& stands_before(
                rules,
                coded_exit(failing(CommandStep::Discover), 1),
                coded_exit(blocking(CommandStep::LoadHandoff), 3),
            )
            &&& stands_before(
                rules,
                coded_exit(blocking(CommandStep::LoadHandoff), 3),
                coded_exit(blocking(CommandStep::MatchHandoff), 3),
            )
            &&& adopt_sealed_roots ==> stands_before(
                rules,
                coded_exit(blocking(CommandStep::MatchHandoff), 3),
                coded_exit(blocking(CommandStep::RootBinding), 3),
            )
            &&& adopt_sealed_roots ==> stands_before(
                rules,
                coded_exit(blocking(CommandStep::RootBinding), 3),
                coded_exit(failing(CommandStep::ResolveRoots), 1),
            )
            &&& adopt_sealed_roots ==> stands_before(
                rules,
                coded_exit(failing(CommandStep::ResolveRoots), 1),
                coded_exit(blocking(CommandStep::FindPackage), 3),
            )
            &&& stands_before(
                rules,
                coded_exit(blocking(CommandStep::MatchHandoff), 3),
                coded_exit(blocking(CommandStep::FindPackage), 3),
            )
            &&& stands_before(
                rules,
                coded_exit(blocking(CommandStep::FindPackage), 3),
                coded_exit(blocking(CommandStep::BuildRequest), 3),
            )
            &&& stands_before(
                rules,
                coded_exit(blocking(CommandStep::BuildRequest), 3),
                coded_exit(blocking(CommandStep::MatchPackage), 3),
            )
            &&& stands_before(
                rules,
                coded_exit(blocking(CommandStep::MatchPackage), 3),
                coded_exit(blocking(CommandStep::DurableContext), 3),
            )
            &&& stands_before(
                rules,
                coded_exit(blocking(CommandStep::DurableContext), 3),
                coded_exit(blocking(CommandStep::Expectation), 3),
            )
            &&& stands_before(
                rules,
                coded_exit(blocking(CommandStep::Expectation), 3),
                coded_exit(blocking(CommandStep::Authorize), 3),
            )
            &&& stands_before(
                rules,
                coded_exit(blocking(CommandStep::Authorize), 3),
                coded_exit(blocking(CommandStep::Apply), 3),
            )
        }),
{
    let rules = apply_rules(adopt_sealed_roots);
    if adopt_sealed_roots {
        assert(rules[0] == coded_exit(blocking(CommandStep::Confirm), 3));
        assert(rules[1] == coded_exit(failing(CommandStep::Discover), 1));
        assert(rules[2] == coded_exit(blocking(CommandStep::LoadHandoff), 3));
        assert(rules[3] == coded_exit(blocking(CommandStep::MatchHandoff), 3));
        assert(rules[4] == coded_exit(blocking(CommandStep::RootBinding), 3));
        assert(rules[5] == coded_exit(failing(CommandStep::ResolveRoots), 1));
        assert(rules[6] == coded_exit(blocking(CommandStep::FindPackage), 3));
        assert(rules[7] == coded_exit(blocking(CommandStep::BuildRequest), 3));
        assert(rules[8] == coded_exit(blocking(CommandStep::MatchPackage), 3));
        assert(rules[9] == coded_exit(blocking(CommandStep::DurableContext), 3));
        assert(rules[10] == coded_exit(blocking(CommandStep::Expectation), 3));
        assert(rules[11] == coded_exit(blocking(CommandStep::Authorize), 3));
        assert(rules[12] == coded_exit(blocking(CommandStep::Apply), 3));
    } else {
        assert(rules[0] == coded_exit(blocking(CommandStep::Confirm), 3));
        assert(rules[1] == coded_exit(failing(CommandStep::Discover), 1));
        assert(rules[2] == coded_exit(blocking(CommandStep::LoadHandoff), 3));
        assert(rules[3] == coded_exit(blocking(CommandStep::MatchHandoff), 3));
        assert(rules[4] == coded_exit(blocking(CommandStep::FindPackage), 3));
        assert(rules[5] == coded_exit(blocking(CommandStep::BuildRequest), 3));
        assert(rules[6] == coded_exit(blocking(CommandStep::MatchPackage), 3));
        assert(rules[7] == coded_exit(blocking(CommandStep::DurableContext), 3));
        assert(rules[8] == coded_exit(blocking(CommandStep::Expectation), 3));
        assert(rules[9] == coded_exit(blocking(CommandStep::Authorize), 3));
        assert(rules[10] == coded_exit(blocking(CommandStep::Apply), 3));
    }
}

/// The steps of `agent-plugins apply`.
pub fn apply(adopt_sealed_roots: bool) -> (rules: Vec<StepRule>)
    ensures
        rules@ == apply_rules(adopt_sealed_roots),
{
    let mut rules: Vec<StepRule> = Vec::new();
    rules.push(with_exit(blocks(CommandStep::Confirm), 3));
    rules.push(with_exit(fails(CommandStep::Discover), 1));
    rules.push(with_exit(blocks(CommandStep::LoadHandoff), 3));
    rules.push(with_exit(blocks(CommandStep::MatchHandoff), 3));
    if adopt_sealed_roots {
        rules.push(with_exit(blocks(CommandStep::RootBinding), 3));
        rules.push(with_exit(fails(CommandStep::ResolveRoots), 1));
    }
    rules.push(with_exit(blocks(CommandStep::FindPackage), 3));
    rules.push(with_exit(blocks(CommandStep::BuildRequest), 3));
    rules.push(with_exit(blocks(CommandStep::MatchPackage), 3));
    rules.push(with_exit(blocks(CommandStep::DurableContext), 3));
    rules.push(with_exit(blocks(CommandStep::Expectation), 3));
    rules.push(with_exit(blocks(CommandStep::Authorize), 3));
    rules.push(with_exit(blocks(CommandStep::Apply), 3));
    assert(rules@ =~= apply_rules(adopt_sealed_roots));
    rules
}

/// The steps of `agent-plugins status`.
pub open spec fn status_rules() -> Seq<StepRule> {
    seq![
        coded_exit(failing(CommandStep::Discover), 1),
        coded_exit(blocking(CommandStep::SessionKey), 3),
        coded_exit(blocking(CommandStep::LoadHandoff), 3),
    ]
}

/// The steps of `agent-plugins status`: one after the other, and no more.
pub proof fn law_status_in_order()
    ensures
        ({
            let rules = status_rules();
            &&& rules.len() == 3
            &&& stands_before(
                rules,
                coded_exit(failing(CommandStep::Discover), 1),
                coded_exit(blocking(CommandStep::SessionKey), 3),
            )
            &&& stands_before(
                rules,
                coded_exit(blocking(CommandStep::SessionKey), 3),
                coded_exit(blocking(CommandStep::LoadHandoff), 3),
            )
        }),
{
    let rules = status_rules();
    assert(rules[0] == coded_exit(failing(CommandStep::Discover), 1));
    assert(rules[1] == coded_exit(blocking(CommandStep::SessionKey), 3));
    assert(rules[2] == coded_exit(blocking(CommandStep::LoadHandoff), 3));
}

/// The steps of `agent-plugins status`.
pub fn status() -> (rules: Vec<StepRule>)
    ensures
        rules@ == status_rules(),
{
    let mut rules: Vec<StepRule> = Vec::new();
    rules.push(with_exit(fails(CommandStep::Discover), 1));
    rules.push(with_exit(blocks(CommandStep::SessionKey), 3));
    rules.push(with_exit(blocks(CommandStep::LoadHandoff), 3));
    assert(rules@ =~= status_rules());
    rules
}

/// No package is switched without confirmation, a plan that matches, and a
/// package that is still what was reviewed.
pub proof fn law_package_apply_is_confirmed(adopt: bool, events: Seq<EventView>, i: int)
    requires
        0 <= i < steps_taken(apply_rules(adopt), 0, events),
        takes_effect(apply_rules(adopt)[i].step),
    ensures
        passed(apply_rules(adopt), events, CommandStep::Confirm),
        passed(apply_rules(adopt), events, CommandStep::MatchHandoff),
        passed(apply_rules(adopt), events, CommandStep::MatchPackage),
{
    let rules = apply_rules(adopt);
    law_steps_follow_success(rules, events, i);
    let last: int = if adopt {
        8
    } else {
        6
    };
    assert(rules[0].step is Confirm && rules[3].step is MatchHandoff);
    assert(rules[last].step is MatchPackage);
    assert(i > last);
}

} // verus!
