use unpin::agent_plugin::{AgentPluginAccess, PluginPackage};
use unpin::commands::agent_plugins::{
    agent_plugin_plan_error_code, command_error, failure_line, failure_value, find_package,
    handoff_error, package_request, package_stop, projection_matches, safe_plan_error,
    safe_reason_code, selection_unchanged, target_enabled, unprefixed_plan_fingerprint,
    BulkTogglePlanError, PackageCommand, PackageRequestError, PackageStepFailure, PackageStop,
    ProviderChoice,
};
use unpin::commands::catalog::{
    adoption_error_status, adoption_operation_id, adoption_outcome_contract, find_capability,
    find_item, CoordinatorError, DiscoveredItem, TransitionOutcomeStatus,
};
use unpin::commands::flow::{
    advance, begin, review_plan, CommandExit, CommandMove, CommandStatus, CommandStep,
    FailureClass, ReviewOutcome, StepEvent, StepRule,
};
use unpin::commands::gateway::{
    after_match, gateway_failure_class, gateway_no_op, gateway_plan_status, looks_for_pending,
    pending_plan_matches, place_after_match, plan_source, GatewayModeAction, GatewayPlanKey,
    GatewayRequest, GatewayWorkflowError, PlanSource, PolicyPart,
};
use unpin::commands::group::{
    approval_context_matches, challenge_read_error, definition_owner, group_reach_lifecycle_exit,
    member_provider, parse_definition, parse_member, parse_members, qualified_reference,
    read_approval_challenge, reads_input, state_root_error, ChallengeReadFailure, GroupScope,
    MemberText,
};
use unpin::commands::hook::{
    list_hooks, stored_trust_decision, DiscoveredHook, HookHandler, HookTrustRecord,
};
use unpin::commands::parties::{
    receipt_parties, workflow_control_tool, ReceiptedChange, ReviewedChange,
};
use unpin::commands::profile::{
    definition_file_allowed, derived_name, file_source_scope, listed_lock_providers,
    load_definition, one_source_given, policy_control_error_status, policy_maintenance_approval,
    profile_operation_result, profile_provider_error_exit, profile_provider_error_status,
    protected_change_class, requested_lock, status_target, CapabilityLockState,
    CapabilityLockStateArg, DefinitionScopeArg, PolicyControlError, ProfileProviderOperationError,
    ProfileProviderOperationStatus, ProfileSourceScope, ProtectedPolicyChangeError, ProviderLocks,
    StatusTarget,
};
use unpin::commands::session::{
    launch_succeeded, list_sessions, lock_revision_matches, protected_session_error,
    session_end_error_status, session_end_no_op, session_profile_selection, PinnedProfile,
    SessionEndControlError, SessionEndStatus, SessionRow,
};
use unpin::commands::toggle::{
    decide_handoff, handoff_matches, lifecycle_exit, lifecycle_name, lifecycle_status_exit_code,
    lifecycle_status_for_plan_error, parse_category, parse_kind, parse_layer, principal_boundary,
    requested_reach, selector_from_args, unknown_selected_provider, DiscoveryKind,
    HandoffDecision, NamedProvider, ProviderReachArg, ProviderReachInput, ProviderReachLifecycle,
};
use unpin::commands::workflow::{
    after_ranking, build_mutation_request, candidates, change_arguments, check_mutation, start_proposal,
    workflow_control_error_status, MutationArguments, MutationRequest, NamedDefinition,
    ProposalStart, RankedWorkflow, WorkflowChangeCommand, WorkflowDefinitionErrorClass,
    WorkflowMutationActionArg, WorkflowScopeArg,
};
use unpin::commands::{agent_plugins, catalog, gateway, group, hook, profile, session, toggle, workflow};
use unpin::json::{compact_json, text, Json, ObjectBuilder};
use unpin::provider_roots::{
    apply_sealed_agent_plugin_provider_roots, fixture_write_roots, root_binding,
    sealed_agent_plugin_roots, sealed_operation, DiscoveryRoots, ProviderId, ProviderRoot,
    RootScope, SealedOperation, SealedRoots,
};

fn roots(base: &str) -> DiscoveryRoots {
    let below = |name: &str| format!("{base}/{name}");
    DiscoveryRoots {
        claude_global: below("first-global"),
        claude_user_state: below("first-user-state"),
        claude_project: below("first-project"),
        codex_global: below("codex-global"),
        codex_admin: below("codex-admin"),
        codex_project: below("codex-project"),
        cursor_global: below("cursor-global"),
        cursor_config: below("cursor-config"),
        cursor_project: below("cursor-project"),
        pi_global: below("pi-global"),
        pi_project: below("pi-project"),
        opencode_global: below("opencode-global"),
        opencode_project: below("opencode-project"),
        shared_global: below("shared-global"),
        shared_project: below("shared-project"),
        zed_global: below("zed-global"),
        zed_project: below("zed-project"),
        app_state_root: None,
    }
}

fn sealed(provider: ProviderId, scope: RootScope, root: &str) -> ProviderRoot {
    ProviderRoot { provider, name: "named".to_string(), scope, root: root.to_string() }
}

#[test]
fn sealed_roots_restore_the_claude_project_root() {
    let project_root = "/private/custom-project".to_string();

    let restored = apply_sealed_agent_plugin_provider_roots(
        &roots("/fixture"),
        &vec![sealed(ProviderId::Claude, RootScope::Project, &project_root)],
    )
    .ok()
    .expect("project root is supported");

    assert_eq!(restored.claude_project, project_root);
    assert_eq!(restored.claude_global, "/fixture/first-global");
}

#[test]
fn a_project_root_of_another_provider_is_refused() {
    let error = apply_sealed_agent_plugin_provider_roots(
        &roots("/fixture"),
        &vec![sealed(ProviderId::Codex, RootScope::Project, "/elsewhere")],
    )
    .err()
    .expect("no project root");
    assert_eq!(
        error,
        "sealed Agent Plugin handoff contains an unsupported project root for named"
    );
}

#[test]
fn sealed_roots_come_back_over_other_roots() {
    let named = |provider: ProviderId, name: &str| unpin::provider_roots::NamedProvider {
        provider,
        name: name.to_string(),
    };
    let order = vec![
        named(ProviderId::Claude, "first"),
        named(ProviderId::Codex, "second"),
        named(ProviderId::Zed, "third"),
    ];
    let planned = roots("/planned");
    let bound = root_binding(
        &planned,
        &order,
        &vec![ProviderId::Zed, ProviderId::Claude, ProviderId::Zed],
        true,
    );
    assert_eq!(bound.len(), 3);
    assert_eq!(bound[0].root, "/planned/first-global");
    assert_eq!(bound[1].root, "/planned/zed-global");
    assert_eq!(bound[2].root, "/planned/first-project");
    assert_eq!(bound[2].name, "first");
    let restored =
        sealed_agent_plugin_roots(&roots("/current"), "/state", "/state", &bound).ok().expect("restored");
    assert_eq!(restored.claude_global, "/planned/first-global");
    assert_eq!(restored.claude_project, "/planned/first-project");
    assert_eq!(restored.zed_global, "/planned/zed-global");
    assert_eq!(restored.codex_global, "/current/codex-global");
    assert_eq!(restored.app_state_root.as_deref(), Some("/state"));
    assert_eq!(
        sealed_agent_plugin_roots(&roots("/current"), "/state", "/other", &bound).err().unwrap(),
        "sealed operation is bound to a different app-state root"
    );
    assert_eq!(fixture_write_roots("/state", "/work", &planned).len(), 19);
    let all = fixture_write_roots("/state", "/work", &restored);
    assert_eq!(all.len(), 20);
    assert_eq!(all.last().map(String::as_str), Some("/state"));
}

#[test]
fn every_provider_root_is_written_below_the_sandbox() {
    let planned = roots("/planned");
    let expected: Vec<&String> = vec![
        &planned.claude_global,
        &planned.claude_user_state,
        &planned.claude_project,
        &planned.codex_global,
        &planned.codex_admin,
        &planned.codex_project,
        &planned.cursor_global,
        &planned.cursor_config,
        &planned.cursor_project,
        &planned.pi_global,
        &planned.pi_project,
        &planned.opencode_global,
        &planned.opencode_project,
        &planned.shared_global,
        &planned.shared_project,
        &planned.zed_global,
        &planned.zed_project,
    ];
    let listed = fixture_write_roots("/state", "/work", &planned);
    assert_eq!(listed[0], "/state");
    assert_eq!(listed[1], "/work");
    assert_eq!(listed[2..].iter().collect::<Vec<&String>>(), expected);
    for (at, root) in expected.iter().enumerate() {
        assert!(!expected[..at].contains(root));
    }
}

#[test]
fn a_pending_gateway_plan_is_resumed_without_planning() {
    for (provider_given, asks_pending, at) in
        [(false, false, 6), (true, false, 7), (false, true, 7), (true, true, 8)]
    {
        let rules = gateway::change(provider_given, asks_pending);
        assert!(matches!(rules[at].step, CommandStep::MatchPending));
        assert!(matches!(
            after_match(&rules, at, PlanSource::Pending),
            CommandMove::Perform(CommandStep::Review)
        ));
        assert_eq!(place_after_match(at, PlanSource::Pending), at + 2);
        assert!(matches!(rules[at + 2].step, CommandStep::Review));
        assert!(matches!(
            after_match(&rules, at, PlanSource::New),
            CommandMove::Perform(CommandStep::PlanChange)
        ));
        assert_eq!(place_after_match(at, PlanSource::New), at + 1);
        assert!(matches!(
            after_match(&rules, at, PlanSource::Mismatch),
            CommandMove::Stop { status: "blocked", message, .. }
                if message == "pending plan does not match requested gateway target"
        ));
    }
}

#[test]
fn a_sealed_operation_is_found_with_its_roots() {
    let operations = vec![
        SealedOperation { operation_id: "bare".to_string(), roots: None },
        SealedOperation {
            operation_id: "sealed".to_string(),
            roots: Some(SealedRoots {
                app_state_root: "/state".to_string(),
                provider_roots: Vec::new(),
            }),
        },
    ];
    assert_eq!(sealed_operation(&operations, "sealed"), Ok(1));
    assert_eq!(
        sealed_operation(&operations, "bare").unwrap_err(),
        "sealed operation root binding not found"
    );
    assert_eq!(
        sealed_operation(&operations, "none").unwrap_err(),
        "sealed operation journal not found"
    );
}

#[test]
fn unsafe_operation_reasons_are_redacted() {
    assert_eq!(safe_reason_code("already-disabled"), "already-disabled");
    assert_eq!(
        safe_reason_code("bulk plan drifted before apply at /private/provider.json"),
        "redacted-operation-reason"
    );
}

#[test]
fn adoption_terminal_outcomes_have_honest_machine_status_and_exit_contract() {
    assert_eq!(
        adoption_outcome_contract(TransitionOutcomeStatus::Committed),
        ("completed", true)
    );
    assert_eq!(
        adoption_outcome_contract(TransitionOutcomeStatus::RolledBack),
        ("rolled-back", false)
    );
    assert_eq!(
        adoption_outcome_contract(TransitionOutcomeStatus::NeedsRepair),
        ("recovery-required", false)
    );
}

#[test]
fn cached_post_state_divergence_is_recovery_required() {
    assert_eq!(adoption_error_status(CoordinatorError::RecoveryRequired), "recovery-required");
    assert_eq!(adoption_error_status(CoordinatorError::Other), "blocked");
}

#[test]
fn profile_durable_recovery_has_distinct_machine_status() {
    assert_eq!(
        policy_control_error_status(PolicyControlError::DurableRecoveryRequired),
        "recovery-required"
    );
    assert_eq!(policy_control_error_status(PolicyControlError::Other), "blocked");
}

#[test]
fn session_end_recovery_has_distinct_machine_status() {
    assert_eq!(
        session_end_error_status(SessionEndControlError::DurableRecoveryRequired),
        "recovery-required"
    );
    assert_eq!(session_end_error_status(SessionEndControlError::Other), "blocked");
}

/// Carries every step out, with `answer` for what comes of each.
fn run(rules: &Vec<StepRule>, answer: impl Fn(CommandStep) -> StepEvent) -> (CommandMove, Vec<CommandStep>) {
    let mut performed = Vec::new();
    let mut place = 0;
    let mut next = begin(rules);
    while let CommandMove::Perform(step) = next {
        performed.push(step);
        next = advance(rules, place, &answer(step));
        place += 1;
    }
    (next, performed)
}

fn reviewed(outcome: ReviewOutcome) -> impl Fn(CommandStep) -> StepEvent {
    move |step| {
        if step == CommandStep::Review {
            StepEvent::Reviewed(outcome)
        } else {
            StepEvent::Done
        }
    }
}

fn changing_commands() -> Vec<Vec<StepRule>> {
    vec![
        profile::apply_profile(true, true),
        profile::apply_profile(false, false),
        profile::change_capability_lock(),
        profile::run_policy_maintenance_mutation(true),
        gateway::change(true, true),
        catalog::adopt(),
        hook::trust(),
        workflow::mutation(),
        group::create(),
        group::edit(),
        group::rename(),
        group::delete(),
        group::restore_definition(),
    ]
}

#[test]
fn nothing_takes_effect_without_a_review() {
    for rules in changing_commands() {
        for outcome in [
            ReviewOutcome::Planned,
            ReviewOutcome::ConfirmationRequired,
            ReviewOutcome::FingerprintMismatch,
        ] {
            let (end, performed) = run(&rules, reviewed(outcome));
            assert!(!performed.contains(&CommandStep::Apply));
            assert!(!performed.contains(&CommandStep::Authorize));
            match (outcome, end) {
                (ReviewOutcome::Planned, CommandMove::ShowPlan) => {}
                (ReviewOutcome::ConfirmationRequired, CommandMove::Stop { status, message, .. }) => {
                    assert_eq!(status, "blocked");
                    assert_eq!(message, "confirmation-required");
                }
                (ReviewOutcome::FingerprintMismatch, CommandMove::Stop { status, message, .. }) => {
                    assert_eq!(status, "blocked");
                    assert_eq!(message, "plan-fingerprint-mismatch");
                }
                _ => panic!("a review that did not let the command go on"),
            }
        }
        let (end, performed) = run(&rules, reviewed(ReviewOutcome::Proceed));
        assert!(matches!(end, CommandMove::Finish));
        assert!(performed.contains(&CommandStep::Apply));
    }
}

#[test]
fn a_failed_step_ends_a_command_with_its_status() {
    let rules = profile::apply_profile(false, true);
    let failing = |at: CommandStep, class: FailureClass| {
        move |step: CommandStep| {
            if step == at {
                StepEvent::Failed { message: "no luck".to_string(), class }
            } else if step == CommandStep::Review {
                StepEvent::Reviewed(ReviewOutcome::Proceed)
            } else {
                StepEvent::Done
            }
        }
    };
    match run(&rules, failing(CommandStep::ResolveConfig, FailureClass::Plain)).0 {
        CommandMove::Stop { status, message, exit } => {
            assert_eq!(status, "failed");
            assert_eq!(message, "no luck");
            assert!(matches!(exit, CommandExit::General));
        }
        _ => panic!("a configuration that cannot be read"),
    }
    match run(&rules, failing(CommandStep::Apply, FailureClass::RecoveryRequired)).0 {
        CommandMove::Stop { status, exit, .. } => {
            assert_eq!(status, "recovery-required");
            assert!(matches!(exit, CommandExit::Code(4)));
        }
        _ => panic!("a change that must be recovered"),
    }
    match run(&rules, failing(CommandStep::Apply, FailureClass::Plain)).0 {
        CommandMove::Stop { status, exit, .. } => {
            assert_eq!(status, "blocked");
            assert!(matches!(exit, CommandExit::Code(3)));
        }
        _ => panic!("a change that was refused"),
    }
    let missing = |step: CommandStep| {
        if step == CommandStep::LoadProfile {
            StepEvent::Missing
        } else {
            StepEvent::Done
        }
    };
    match run(&rules, missing).0 {
        CommandMove::Stop { status, message, .. } => {
            assert_eq!(status, "failed");
            assert_eq!(message, "profile not found");
        }
        _ => panic!("a profile that is not there"),
    }
}

#[test]
fn read_only_commands_change_nothing() {
    for rules in [
        profile::propose(true),
        profile::list(),
        profile::show(),
        profile::validate(true),
        profile::list_capability_locks(false),
        gateway::status(false),
        group::list(),
        group::show(),
        toggle::status(),
        agent_plugins::list(),
        agent_plugins::show(),
        agent_plugins::status(),
        catalog::list(),
        workflow::list(),
        session::list(),
        hook::list(),
        hook::coverage(true),
    ] {
        let (end, performed) = run(&rules, |_| StepEvent::Done);
        assert!(matches!(end, CommandMove::Finish));
        assert!(!performed.contains(&CommandStep::Apply));
    }
}

#[test]
fn a_plan_is_reviewed_under_its_own_fingerprint() {
    let some = |value: &str| Some(value.to_string());
    assert!(matches!(review_plan(false, true, &some("a"), "a"), ReviewOutcome::Planned));
    assert!(matches!(review_plan(true, false, &some("a"), "a"), ReviewOutcome::ConfirmationRequired));
    assert!(matches!(review_plan(true, true, &None, "a"), ReviewOutcome::FingerprintMismatch));
    assert!(matches!(review_plan(true, true, &some("b"), "a"), ReviewOutcome::FingerprintMismatch));
    assert!(matches!(review_plan(true, true, &some("a"), "a"), ReviewOutcome::Proceed));
}

#[test]
fn lifecycles_have_names_and_exit_codes() {
    for (lifecycle, name, code) in [
        (ProviderReachLifecycle::Applied, "applied", 0),
        (ProviderReachLifecycle::NoOp, "no-op", 0),
        (ProviderReachLifecycle::Partial, "partial", 2),
        (ProviderReachLifecycle::Blocked, "blocked", 3),
        (ProviderReachLifecycle::NoTargetsInProviderReach, "no-targets-in-provider-reach", 3),
        (ProviderReachLifecycle::RecoveryRequired, "recovery-required", 4),
    ] {
        assert_eq!(lifecycle_name(lifecycle), name);
        assert_eq!(lifecycle_exit(lifecycle), code);
        assert_eq!(group_reach_lifecycle_exit(lifecycle), code);
    }
    assert_eq!(lifecycle_status_exit_code("recovery-required"), 4);
    assert_eq!(lifecycle_status_for_plan_error("something recovery-required here"), "recovery-required");
    assert_eq!(lifecycle_status_for_plan_error("anything else"), "blocked");
}

#[test]
fn selectors_name_what_they_do_not_know() {
    assert!(parse_kind("hook").is_ok());
    assert_eq!(parse_kind("socket").unwrap_err(), "invalid kind: socket");
    assert_eq!(parse_category("socket").unwrap_err(), "invalid category: socket");
    assert_eq!(parse_layer("cloud").unwrap_err(), "invalid layer: cloud");
    let texts = |list: &[&str]| list.iter().map(|text| text.to_string()).collect::<Vec<String>>();
    let provider = |name: &str, known: bool| NamedProvider { name: name.to_string(), known };
    let selector = selector_from_args(
        &vec![provider("codex", true)],
        &texts(&["hook"]),
        &texts(&[]),
        &texts(&["project"]),
        texts(&["one"]),
        Some(true),
    )
    .ok()
    .expect("a selector");
    assert_eq!(selector.providers, ["codex"]);
    assert_eq!(selector.ids, ["one"]);
    assert_eq!(selector.enabled, Some(true));
    assert_eq!(
        selector_from_args(
            &vec![provider("nobody", false)],
            &texts(&[]),
            &texts(&[]),
            &texts(&[]),
            texts(&[]),
            None,
        )
        .err()
        .unwrap(),
        "invalid provider: nobody"
    );
    assert_eq!(unknown_selected_provider("x"), "invalid selected provider: x");
}

#[test]
fn a_selected_reach_needs_its_provider() {
    assert!(matches!(requested_reach(None, None), Ok(ProviderReachInput::Omitted)));
    assert!(matches!(
        requested_reach(Some(ProviderReachArg::Selected), Some("codex")),
        Ok(ProviderReachInput::Selected { provider }) if provider == "codex"
    ));
    assert_eq!(
        requested_reach(Some(ProviderReachArg::Selected), None).err().unwrap(),
        "selected-provider reach requires --provider"
    );
    assert_eq!(principal_boundary(&Some("codex".to_string()), true).as_deref(), Some("codex"));
    assert!(principal_boundary(&Some("codex".to_string()), false).is_none());
}

#[test]
fn handoffs_belong_to_one_plan() {
    assert!(handoff_matches("operation", "print", "operation", "print"));
    assert!(!handoff_matches("operation", "print", "operation", "other"));
    assert!(!handoff_matches("operation", "print", "other", "print"));
    assert!(matches!(decide_handoff(true, false, true, Ok(7)), HandoffDecision::Sealed(7)));
    assert!(matches!(decide_handoff(false, false, true, Ok(7)), HandoffDecision::Without));
    let refused = || Err::<u8, String>("no key".to_string());
    assert!(matches!(decide_handoff(true, false, true, refused()), HandoffDecision::Blocked(_)));
    match decide_handoff(false, true, true, refused()) {
        HandoffDecision::Unsealed(note) => {
            assert_eq!(note.as_deref(), Some("handoff not sealed: no key"))
        }
        _ => panic!("a handoff that is not required"),
    }
    assert!(matches!(
        decide_handoff(false, true, false, refused()),
        HandoffDecision::Unsealed(None)
    ));
}

fn package(id: &str, fingerprint: &str) -> PluginPackage {
    PluginPackage {
        logical_id: id.to_string(),
        name: id.to_string(),
        component_signature: "signature".to_string(),
        projection_fingerprint: fingerprint.to_string(),
        state: "on".to_string(),
        access: "actionable".to_string(),
        instances: Vec::new(),
    }
}

#[test]
fn packages_are_found_and_compared() {
    let packages = vec![package("one", "a"), package("two", "b")];
    assert_eq!(find_package(&packages, "two"), Some(1));
    assert_eq!(find_package(&packages, "three"), None);
    assert!(projection_matches(Some(&packages[0]), &Some("a".to_string())));
    assert!(!projection_matches(Some(&packages[0]), &Some("b".to_string())));
    assert!(!projection_matches(None, &Some("a".to_string())));
    assert_eq!(unprefixed_plan_fingerprint("sha256:abc"), "abc");
    assert_eq!(unprefixed_plan_fingerprint("abc"), "abc");
    assert!(target_enabled(true, false));
    assert!(!target_enabled(false, true));
    assert!(target_enabled(false, false));
    assert!(matches!(AgentPluginAccess::Actionable, AgentPluginAccess::Actionable));
}

#[test]
fn package_requests_are_checked_in_order() {
    let all = Some(ProviderReachArg::All);
    let selected = Some(ProviderReachArg::Selected);
    assert!(matches!(
        package_request(Err(BulkTogglePlanError::AgentPluginNotFound), None, ProviderChoice::Missing, ""),
        Err(PackageRequestError::Core(BulkTogglePlanError::AgentPluginNotFound))
    ));
    assert!(matches!(
        package_request(Ok(()), None, ProviderChoice::Missing, ""),
        Err(PackageRequestError::ReachRequired)
    ));
    assert!(matches!(
        package_request(Ok(()), all, ProviderChoice::Unknown, "nobody"),
        Err(PackageRequestError::InvalidProvider)
    ));
    assert!(matches!(
        package_request(Ok(()), all, ProviderChoice::Known, "codex"),
        Err(PackageRequestError::ProviderWithAllReach)
    ));
    assert!(matches!(
        package_request(Ok(()), selected, ProviderChoice::Missing, ""),
        Err(PackageRequestError::Reach)
    ));
    assert!(matches!(
        package_request(Ok(()), selected, ProviderChoice::Known, "codex"),
        Ok(ProviderReachInput::Selected { provider }) if provider == "codex"
    ));
}

#[test]
fn package_failures_have_stable_codes() {
    assert_eq!(
        agent_plugin_plan_error_code(BulkTogglePlanError::PlanFingerprintMismatch),
        "plan-fingerprint-mismatch"
    );
    assert_eq!(
        agent_plugin_plan_error_code(BulkTogglePlanError::Other),
        "agent-plugin-plan-unavailable"
    );
    assert_eq!(
        handoff_error("sealed: session authority key missing (1)"),
        "session authority key missing; run `unpin auth session init`"
    );
    assert_eq!(
        handoff_error("expired"),
        "durable package handoff is unavailable; refresh credentials and discovery before retrying"
    );
    assert_eq!(
        safe_plan_error(PackageRequestError::ProviderWithAllReach),
        (
            "provider-conflicts-with-all-reach",
            "--provider is only valid with selected package reach",
        )
    );
    let failure = command_error(&PackageStop::PackageNotFound);
    assert_eq!((failure.status, failure.reason_code, failure.exit), ("blocked", "agent-plugin-not-found", 3));
    let value = failure_value(&failure);
    assert_eq!(value.get("statusVersion").and_then(Json::as_u64), Some(1));
    assert_eq!(value.get("reasonCode").and_then(Json::as_text), Some(failure.reason_code));
    assert_eq!(
        failure_line(&failure),
        format!("agent plugin {}: {}: {}", failure.status, failure.reason_code, failure.reason)
    );
}

#[test]
fn an_adoption_is_named_after_provider_and_fingerprint() {
    let fingerprint = "0123456789abcdefghijklmnopqrstuv";
    assert_eq!(
        adoption_operation_id("codex", fingerprint),
        "adopt-codex-0123456789abcdefghijklmn"
    );
    let ids = vec!["a".to_string(), "b".to_string()];
    assert_eq!(find_capability(&ids, "b"), Some(1));
    assert_eq!(find_capability(&ids, "c"), None);
}

fn gateway_request() -> GatewayRequest {
    GatewayRequest {
        mode_target: "workspace".to_string(),
        action: GatewayModeAction::Activate,
        force: false,
        policy_target: "policy".to_string(),
        provider: Some("codex".to_string()),
    }
}

#[test]
fn a_pending_gateway_plan_is_taken_up_only_for_its_target() {
    let plan = |action: GatewayModeAction, provider: &str| GatewayPlanKey {
        mode_target: "workspace".to_string(),
        action,
        force: false,
        policy: Some(PolicyPart {
            target: "policy".to_string(),
            provider: Some(provider.to_string()),
        }),
    };
    assert!(pending_plan_matches(&plan(GatewayModeAction::Activate, "codex"), &gateway_request()));
    assert!(!pending_plan_matches(&plan(GatewayModeAction::Off, "codex"), &gateway_request()));
    assert!(!pending_plan_matches(&plan(GatewayModeAction::Activate, "zed"), &gateway_request()));
    assert!(matches!(plan_source(&None, &gateway_request()), PlanSource::New));
    assert!(matches!(
        plan_source(&Some(plan(GatewayModeAction::Activate, "codex")), &gateway_request()),
        PlanSource::Pending
    ));
    assert!(matches!(
        plan_source(&Some(plan(GatewayModeAction::Off, "codex")), &gateway_request()),
        PlanSource::Mismatch
    ));
    assert!(looks_for_pending(true, true));
    assert!(!looks_for_pending(false, true));
    assert!(matches!(gateway_failure_class(GatewayWorkflowError::Draining), FailureClass::Draining));
    assert!(gateway_no_op(true, None, Some(true)));
    assert!(!gateway_no_op(true, Some(false), None));
    assert_eq!(gateway_plan_status(true).0, "blocked");
    assert_eq!(gateway_plan_status(false).0, "planned");
}

fn member_text(text: &str, provider_known: bool, identity: Result<(), &str>) -> MemberText {
    MemberText {
        text: text.to_string(),
        provider_known,
        identity: identity.map_err(|message| message.to_string()),
    }
}

#[test]
fn group_members_are_written_as_keys() {
    let read = |text: &str, known: bool| parse_member(&member_text(text, known, Ok(())));
    let member = match read("codex:project:hook:hook:pre-commit", true) {
        Ok(member) => member,
        Err(message) => panic!("{message}"),
    };
    assert_eq!(member.provider, "codex");
    assert_eq!(member.id, "pre-commit");
    assert_eq!(member_provider("codex:project:hook:hook:pre-commit"), "codex");
    assert!(read("codex:project", true).is_err());
    assert!(read("nobody:project:hook:hook:pre-commit", false).is_err());
    assert!(read("codex:cloud:hook:hook:pre-commit", true).is_err());
    let refused = member_text("codex:project:hook:hook:", true, Err("empty id"));
    assert_eq!(parse_member(&refused).err().expect("no identity"), "empty id");
    let unread = member_text("codex:cloud:hook:hook:a", true, Err("empty id"));
    assert_eq!(parse_member(&unread).err().expect("no layer"), "unsupported member layer");
}

#[test]
fn the_first_bad_member_decides() {
    let good = || member_text("codex:project:hook:hook:a", true, Ok(()));
    let unknown = || member_text("nobody:project:hook:hook:a", false, Ok(()));
    let short = || member_text("codex", true, Ok(()));
    let refused = || member_text("codex:project:hook:hook:b", true, Err("no such identity"));
    let members =
        parse_members(&vec![good(), member_text("pi:global:hook:hook:b:c", true, Ok(()))])
            .ok()
            .expect("two members");
    assert_eq!(members.len(), 2);
    assert_eq!(members[1].provider, "pi");
    assert_eq!(members[1].id, "b:c");
    assert!(parse_members(&Vec::new()).ok().expect("no members").is_empty());
    let error = |list: Vec<MemberText>| parse_members(&list).err().expect("a bad member");
    let form = "member must use provider:layer:kind:category:id full identity";
    assert_eq!(error(vec![good(), unknown(), short()]), "unsupported provider");
    assert_eq!(error(vec![short(), unknown()]), form);
    assert_eq!(error(vec![good(), refused(), short()]), "no such identity");
    assert_eq!(error(vec![good(), short(), refused()]), form);
}

#[test]
fn a_definition_is_read_behind_its_members() {
    let good = || member_text("codex:project:hook:hook:a", true, Ok(()));
    let refused = || member_text("codex:project:hook:hook:b", true, Err("no such identity"));
    let duplicate = || Err::<u8, String>("duplicate member".to_string());
    assert_eq!(parse_definition(&vec![good()], Ok::<u8, String>(1)), Ok(1));
    assert_eq!(parse_definition(&vec![good(), good()], duplicate()).unwrap_err(), "duplicate member");
    assert_eq!(parse_definition(&vec![refused()], duplicate()).unwrap_err(), "no such identity");
    assert_eq!(
        parse_definition(&vec![refused()], Ok::<u8, String>(1)).unwrap_err(),
        "no such identity"
    );
}

#[test]
fn a_review_without_an_outcome_confirms_nothing() {
    for rules in changing_commands() {
        let (end, performed) = run(&rules, |_| StepEvent::Done);
        assert!(matches!(
            end,
            CommandMove::Stop { status: "blocked", message, .. } if message == "confirmation-required"
        ));
        assert!(!performed.contains(&CommandStep::Apply));
        assert!(!performed.contains(&CommandStep::Authorize));
    }
}

#[test]
fn a_group_reference_names_its_scope() {
    assert!(matches!(qualified_reference(Ok(Some(GroupScope::Personal))), Ok(GroupScope::Personal)));
    assert!(qualified_reference(Ok(None)).is_err());
    assert!(qualified_reference(Err("bad".to_string())).is_err());
    for scope in [GroupScope::Personal, GroupScope::Repository] {
        assert!(GroupScope::named(scope.as_str()) == Some(scope));
    }
    assert!(GroupScope::named("elsewhere").is_none());
    assert_eq!(definition_owner("owner").generation, 1);
    assert!(approval_context_matches("r", "w", "r", "w"));
    assert!(!approval_context_matches("r", "x", "r", "w"));
}

#[test]
fn an_approval_challenge_is_bounded_text() {
    assert_eq!(read_approval_challenge(Some("given".to_string()), None, 4).unwrap(), "given");
    assert_eq!(read_approval_challenge(None, Some(Ok(b" read \n".to_vec())), 16).unwrap(), "read");
    assert!(read_approval_challenge(None, Some(Ok(vec![b'x'; 17])), 16).is_err());
    assert!(read_approval_challenge(None, Some(Ok(vec![0xff])), 16).is_err());
    assert_eq!(
        read_approval_challenge(None, None, 16).unwrap_err(),
        "inventory group challenge is required"
    );
}

#[test]
fn challenges_that_cannot_be_read_say_where() {
    assert_eq!(
        challenge_read_error(ChallengeReadFailure::Input, "-", "gone"),
        "inventory group challenge stdin could not be read: gone"
    );
    assert_eq!(
        challenge_read_error(ChallengeReadFailure::Open, "/c", "gone"),
        "inventory group challenge file could not be opened: /c: gone"
    );
    assert_eq!(
        challenge_read_error(ChallengeReadFailure::Read, "/c", "gone"),
        "inventory group challenge file could not be read: /c: gone"
    );
    assert!(reads_input("-") && !reads_input("/c"));
    assert_eq!(state_root_error("gone"), "fixture state root could not be resolved: gone");
}

#[test]
fn what_a_group_command_misses_is_said() {
    for (rules, at, status, expected) in [
        (
            group::approve(),
            CommandStep::SessionCredential,
            "failed",
            "session authority credential is unavailable",
        ),
        (
            group::operation_show(),
            CommandStep::BackupCredential,
            "failed",
            "backup authentication credential is unavailable",
        ),
        (
            group::operation_show(),
            CommandStep::FindOperation,
            "failed",
            "group operation was not found",
        ),
        (
            group::history(),
            CommandStep::OpenStore,
            "failed",
            "backup authentication key missing; run `unpin auth backup init`",
        ),
        (
            group::restore_definition(),
            CommandStep::PriorDefinition,
            "blocked",
            "history record has no prior definition",
        ),
    ] {
        let missing = |step: CommandStep| {
            if step == at {
                StepEvent::Missing
            } else {
                StepEvent::Done
            }
        };
        match run(&rules, missing).0 {
            CommandMove::Stop { status: given, message, .. } => {
                assert_eq!((given, message.as_str()), (status, expected));
            }
            _ => panic!("something that is missing"),
        }
    }
}

#[test]
fn items_are_found_by_provider_kind_and_id() {
    let item = |provider: ProviderId, kind: DiscoveryKind| DiscoveredItem {
        provider,
        kind,
        id: "one".to_string(),
    };
    let items = vec![
        item(ProviderId::Codex, DiscoveryKind::Skill),
        item(ProviderId::Codex, DiscoveryKind::Hook),
        item(ProviderId::Zed, DiscoveryKind::Hook),
    ];
    let hook = Some(DiscoveryKind::Hook);
    assert_eq!(find_item(&items, ProviderId::Codex, None, "one"), Some(0));
    assert_eq!(find_item(&items, ProviderId::Codex, hook, "one"), Some(1));
    assert_eq!(find_item(&items, ProviderId::Zed, hook, "one"), Some(2));
    assert_eq!(find_item(&items, ProviderId::Zed, hook, "two"), None);
    assert_eq!(find_item(&items, ProviderId::Pi, None, "one"), None);
}

#[test]
fn hooks_are_listed_with_the_trust_that_holds() {
    let found = |kind: DiscoveryKind, record: Result<Option<HookTrustRecord>, String>| {
        let mut item = ObjectBuilder::new();
        item.put_text("id", "hook");
        DiscoveredHook {
            kind,
            item: item.finish(),
            handler: Some(HookHandler {
                id: "hook".to_string(),
                fingerprint: "print".to_string(),
                invocation_fingerprint: "call".to_string(),
            }),
            record,
        }
    };
    let record = |print: &str| {
        Ok(Some(HookTrustRecord {
            handler_id: "hook".to_string(),
            handler_fingerprint: print.to_string(),
            invocation_fingerprint: "call".to_string(),
        }))
    };
    let items = vec![
        found(DiscoveryKind::Hook, record("print")),
        found(DiscoveryKind::Skill, record("print")),
        found(DiscoveryKind::Hook, record("other")),
        found(DiscoveryKind::Hook, Err("unreadable".to_string())),
    ];
    let trusted = |profile: bool| -> Vec<bool> {
        list_hooks(&items, profile).iter().map(|listing| listing.trusted).collect()
    };
    assert_eq!(trusted(true), [true, false, false]);
    assert_eq!(trusted(false), [false, false, false]);
    assert_eq!(list_hooks(&items, true)[0].id.as_deref(), Some("hook"));
}

#[test]
fn a_package_command_stops_for_the_reason_of_its_step() {
    let reason = |command: PackageCommand, step: CommandStep, failure: PackageStepFailure| {
        let failure = command_error(&package_stop(command, step, failure));
        (failure.status, failure.reason_code, failure.exit)
    };
    let missing = || PackageStepFailure::Missing;
    assert_eq!(
        reason(PackageCommand::Apply, CommandStep::FindPackage, missing()),
        ("blocked", "package-refresh-required", 3)
    );
    assert_eq!(
        reason(PackageCommand::Plan, CommandStep::FindPackage, missing()),
        ("blocked", "agent-plugin-not-found", 3)
    );
    assert_eq!(
        reason(PackageCommand::Show, CommandStep::Discover, missing()),
        ("failed", "discovery-failed", 1)
    );
    assert_eq!(
        reason(PackageCommand::Status, CommandStep::SessionKey, missing()),
        ("blocked", "session-authority-missing", 3)
    );
    let other = || PackageStepFailure::Other("no key".to_string());
    assert_eq!(
        reason(PackageCommand::Status, CommandStep::SessionKey, other()),
        ("blocked", "session-authority-unavailable", 3)
    );
    assert_eq!(
        reason(PackageCommand::Apply, CommandStep::DurableContext, other()),
        ("blocked", "handoff-unavailable", 3)
    );
    assert_eq!(
        reason(PackageCommand::Apply, CommandStep::Authorize, other()),
        ("blocked", "approval-unavailable", 3)
    );
    let refused = PackageStepFailure::Refused(PackageRequestError::ReachRequired);
    assert_eq!(
        reason(PackageCommand::Plan, CommandStep::BuildRequest, refused),
        ("blocked", "provider-reach-required", 3)
    );
    assert_eq!(PackageCommand::Apply.title(), "agent plugin apply");
    let print = |value: &str| Some(value.to_string());
    assert!(selection_unchanged(true, &print("a"), &print("a")));
    assert!(!selection_unchanged(true, &print("a"), &print("b")));
    assert!(!selection_unchanged(true, &None, &print("b")));
    assert!(!selection_unchanged(false, &None, &None));
}

#[test]
fn hook_trust_holds_for_one_fingerprint() {
    let record = |print: &str| {
        Some(HookTrustRecord {
            handler_id: "hook".to_string(),
            handler_fingerprint: print.to_string(),
            invocation_fingerprint: "call".to_string(),
        })
    };
    let handler = Some(HookHandler {
        id: "hook".to_string(),
        fingerprint: "print".to_string(),
        invocation_fingerprint: "call".to_string(),
    });
    assert!(stored_trust_decision(&record("print"), &handler));
    assert!(!stored_trust_decision(&record("other"), &handler));
    assert!(!stored_trust_decision(&None, &handler));
    assert!(!stored_trust_decision(&record("print"), &None));
}

#[test]
fn definitions_of_the_workspace_come_first() {
    let found = load_definition(DefinitionScopeArg::Auto, Ok(Some(1)), Ok(Some(2)));
    assert!(matches!(found, Ok(Some((ProfileSourceScope::Workspace, 1)))));
    let global = load_definition(DefinitionScopeArg::Auto, Ok(None), Ok(Some(2)));
    assert!(matches!(global, Ok(Some((ProfileSourceScope::Global, 2)))));
    let ignored = load_definition(DefinitionScopeArg::Global, Err("bad".to_string()), Ok(Some(2)));
    assert!(matches!(ignored, Ok(Some((ProfileSourceScope::Global, 2)))));
    let failed = load_definition::<u8>(DefinitionScopeArg::Auto, Err("bad".to_string()), Ok(None));
    assert!(failed.is_err());
    assert!(matches!(file_source_scope(DefinitionScopeArg::Auto), ProfileSourceScope::Workspace));
    assert_eq!(
        definition_file_allowed("profile", &Some(".env.local".to_string())).unwrap_err(),
        ".env profile input is forbidden"
    );
    assert!(definition_file_allowed("profile", &Some("profile.json".to_string())).is_ok());
    assert!(one_source_given(true, false).is_ok());
    assert_eq!(
        one_source_given(true, true).unwrap_err(),
        "provide exactly one of --id or --file"
    );
}

#[test]
fn profile_operations_report_how_they_ended() {
    assert_eq!(
        profile_provider_error_status(ProfileProviderOperationError::RecoveryRequired),
        "recovery-required"
    );
    assert_eq!(profile_provider_error_exit(ProfileProviderOperationError::RecoveryRequired), 4);
    assert_eq!(profile_provider_error_exit(ProfileProviderOperationError::Other), 3);
    assert_eq!(
        profile_operation_result(ProfileProviderOperationStatus::Blocked),
        ("blocked", 3)
    );
    assert!(matches!(
        protected_change_class(ProtectedPolicyChangeError::Maintenance),
        FailureClass::RecoveryRequired
    ));
    assert!(matches!(
        protected_change_class(ProtectedPolicyChangeError::Apply { recovery_required: false }),
        FailureClass::Plain
    ));
    assert_eq!(derived_name("backup-", "0123456789abcdef", 4), "backup-0123");
    let approval = policy_maintenance_approval("print", -5);
    assert_eq!(approval.reviewed_at_unix, 0);
    assert_eq!(approval.actor_id, "unpin-cli-policy-maintenance");
    assert!(requested_lock(CapabilityLockStateArg::Clear).is_none());
    assert!(matches!(
        requested_lock(CapabilityLockStateArg::HardDisabled),
        Some(CapabilityLockState::HardDisabled)
    ));
    assert!(matches!(status_target(false, false), Ok(StatusTarget::CurrentWorkspace)));
    assert!(status_target(true, false).is_err());
}

#[test]
fn a_session_is_pinned_to_a_whole_profile() {
    let some = |value: &str| Some(value.to_string());
    assert!(matches!(
        session_profile_selection(true, None, None, None, None),
        Ok(PinnedProfile::Native)
    ));
    assert!(matches!(
        session_profile_selection(
            false,
            some("id"),
            some(&"a".repeat(64)),
            some(&"b".repeat(64)),
            some("workspace"),
        ),
        Ok(PinnedProfile::Profile { .. })
    ));
    assert!(session_profile_selection(false, some("id"), None, None, None).is_err());
    assert!(lock_revision_matches(&None, "current"));
    assert!(!lock_revision_matches(&some("other"), "current"));
    assert_eq!(
        protected_session_error("no key"),
        "backup authentication unavailable for protected session: no key"
    );
    assert!(launch_succeeded(Some(0), true));
    assert!(!launch_succeeded(Some(0), false));
    assert!(!launch_succeeded(Some(2), true));
    assert!(!session_end_no_op(SessionEndStatus::RevocationRequested));
}

#[test]
fn sessions_of_other_workspaces_are_not_listed() {
    let row = |workspace: &str| SessionRow {
        repository_key: "r".to_string(),
        workspace_key: workspace.to_string(),
        summary: text(workspace),
    };
    let value = list_sessions(&vec![row("w"), row("x"), row("w")], "r", "w");
    assert_eq!(
        compact_json(&value).expect("text"),
        "{\"sessions\":[\"w\",\"w\"],\"status\":\"ready\"}"
    );
}

fn arguments(id: Option<&str>, file: bool, action: WorkflowMutationActionArg) -> MutationArguments {
    MutationArguments {
        id: id.map(|id| id.to_string()),
        file_given: file,
        action,
        scope: WorkflowScopeArg::Global,
        restore_history_id: None,
    }
}

#[test]
fn workflow_changes_are_global_and_name_what_they_change() {
    let mut fixed = arguments(Some("id"), false, WorkflowMutationActionArg::Upsert);
    fixed.scope = WorkflowScopeArg::Workspace;
    assert!(matches!(check_mutation(&fixed), Err((CommandStatus::Blocked, _))));
    assert!(matches!(
        check_mutation(&arguments(None, false, WorkflowMutationActionArg::Upsert)),
        Err((CommandStatus::Failed, "upsert requires --file or --id"))
    ));
    assert!(matches!(
        check_mutation(&arguments(None, false, WorkflowMutationActionArg::Delete)),
        Err((CommandStatus::Failed, "delete requires --id"))
    ));
    assert!(check_mutation(&arguments(Some("id"), false, WorkflowMutationActionArg::Delete)).is_ok());
    let named = |id: &str| NamedDefinition { id: id.to_string(), definition: 7_u8 };
    assert!(matches!(
        build_mutation_request(
            &arguments(Some("id"), false, WorkflowMutationActionArg::Delete),
            Err("unused".to_string()),
            Ok(Some(named("id"))),
        ),
        Ok(MutationRequest::Delete { id }) if id == "id"
    ));
    let (restored, apply) = change_arguments(WorkflowChangeCommand::Restore {
        history_id: "history".to_string(),
        apply: true,
    });
    assert_eq!(restored.restore_history_id.as_deref(), Some("history"));
    assert!(apply);
    assert_eq!(
        workflow_control_error_status(WorkflowDefinitionErrorClass::RecoveryRequired),
        "recovery-required"
    );
}

#[test]
fn a_proposal_shows_twenty_candidates_at_most() {
    let ranked: Vec<RankedWorkflow> = (0..30)
        .map(|index| RankedWorkflow {
            workflow_id: format!("workflow-{index}"),
            display_name: "Workflow".to_string(),
            scope: "global".to_string(),
            score: Json::Unsigned(index),
            entry_mode: "planning".to_string(),
        })
        .collect();
    assert_eq!(candidates(&ranked).len(), 20);
    match start_proposal(&Vec::new(), &Some("codex".to_string()), "digest") {
        ProposalStart::SelectionRequired(value) => {
            assert!(value.get("nextAction").is_none());
            assert_eq!(value.get("provider").and_then(Json::as_text), Some("codex"));
        }
        ProposalStart::Compile => panic!("nothing to compile"),
    }
    match start_proposal(&ranked, &None, "digest") {
        ProposalStart::SelectionRequired(value) => assert_eq!(
            value.get("nextAction").and_then(Json::as_text),
            Some("select-provider-and-workflow")
        ),
        ProposalStart::Compile => panic!("no provider"),
    }
    assert!(matches!(
        start_proposal(&ranked, &Some("codex".to_string()), "digest"),
        ProposalStart::Compile
    ));
    for (provider_given, at) in [(false, 2), (true, 3)] {
        let rules = workflow::propose(provider_given);
        let open = start_proposal(&ranked, &None, "digest");
        assert!(matches!(after_ranking(&rules, at, &open), CommandMove::ShowPlan));
        assert!(matches!(
            after_ranking(&rules, at, &ProposalStart::Compile),
            CommandMove::Perform(CommandStep::Discover)
        ));
    }
}

#[test]
fn locks_are_listed_of_providers_that_have_some() {
    let locks = |provider: &str, lock_count: usize| ProviderLocks {
        provider: provider.to_string(),
        lock_count,
    };
    let policies = vec![locks("codex", 2), locks("pi", 0), locks("zed", 1)];
    assert_eq!(listed_lock_providers(&None, &policies), ["codex", "zed"]);
    assert_eq!(listed_lock_providers(&Some("pi".to_string()), &policies), ["pi"]);
    assert_eq!(listed_lock_providers(&Some("cursor".to_string()), &policies), ["cursor"]);
    assert!(listed_lock_providers(&None, &Vec::new()).is_empty());
}

#[test]
fn approvals_name_what_they_are_given_for() {
    let changes = [
        ReviewedChange::Profile,
        ReviewedChange::ProfileProviders,
        ReviewedChange::CapabilityLock,
        ReviewedChange::Gateway,
        ReviewedChange::SessionEnd,
        ReviewedChange::WorkflowDefinition,
        ReviewedChange::BulkToggle,
        ReviewedChange::AgentPlugin,
        ReviewedChange::DesktopGroup,
        ReviewedChange::DesktopAgentPlugin,
        ReviewedChange::DesktopRestore,
    ];
    for (i, a) in changes.iter().enumerate() {
        for b in &changes[i + 1..] {
            assert_ne!(a.actor(), b.actor());
        }
    }
    assert_eq!(ReviewedChange::Gateway.actor(), "unpin-cli-gateway-approval");
    assert_eq!(ReviewedChange::Gateway.owner(), Some("unpin-cli-gateway"));
    assert_eq!(ReviewedChange::DesktopGroup.owner(), None);
    let hook = receipt_parties(ReceiptedChange::HookTrust);
    assert_eq!((hook.issuer, hook.audience), ("unpin-cli-human", "unpin-core-hook-trust"));
    assert_eq!(receipt_parties(ReceiptedChange::Adoption).owner, "unpin-cli-adoption");
    assert_eq!(workflow_control_tool(false), "unpin_workflow_enter_mode");
    assert_eq!(workflow_control_tool(true), "unpin_workflow_cancel_transition");
}
