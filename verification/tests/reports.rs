use unpin::agent_plugin::{AgentPluginAccess, PluginPackage};
use unpin::commands::profile::ProfileProviderOperationStatus;
use unpin::commands::toggle::ProviderReachLifecycle;
use unpin::json::{array, compact_json, text, Json, ObjectBuilder};
use unpin::ordering::OrderedEntry;
use unpin::report::agent_plugins::{
    handoff_report, package_list, package_report, print_list, print_package_value, SealedHandoff,
};
use unpin::report::catalog::{
    adoption_plan, adoption_plan_line, adoption_result, adoption_result_line, catalog_lines,
    catalog_list, catalog_record_line, CatalogRecord,
};
use unpin::report::gateway::{
    gateway_plan, gateway_plan_line, gateway_result_line, gateway_status, gateway_status_line,
    gateway_target, GatewayMode, GatewayPlan, GatewayProvider, GatewayScopeArg, GatewayState,
};
use unpin::report::group::{
    approval_report, create_preview, definition_plan_line, edit_preview, group_lines, group_list,
    render_json_or_debug, ApprovalArtifact, GroupListing, GroupOutcome,
};
use unpin::report::hook::{
    hook_coverage_line, hook_lines, hook_list, hook_trust_line, hook_trust_plan_line, HookListing,
    HookProvider,
};
use unpin::report::profile::{
    apply_window, list_profiles, lock_backup_names, lock_line, maintenance_plan_line,
    member_count, policy_status_line, profile_backup_names, profile_line, profile_plan_line,
    reach_backup_names, reach_plan, reach_plan_line, reach_result, reach_target_lines,
    shown_lock_providers, valid_profile_line, LockStatus, ManagedPolicy, ProfileListing,
    ProviderLocks, ReachPlan, ReachTarget, APPLY_WINDOW_SECONDS,
};
use unpin::report::session::{
    launch_line, session_end_plan_line, session_end_result_line, session_line, session_summary,
    LaunchReport, LeaseSummary,
};
use unpin::report::toggle::{
    bulk_plan, bulk_result, print_value, reach_text, sealed_bulk_plan, BulkPlan, BulkResult,
};
use unpin::report::workflow::{
    list_workflows, valid_workflow, valid_workflow_line, workflow_change_plan_line, workflow_line,
    workflow_proposal_line, ValidRevision, WorkflowListing,
};
use unpin::report::{
    applied_operation, concerned_providers, human_action, planned_definition_change,
    planned_operation, OperationLifecycle,
};

fn words(list: &[&str]) -> Vec<String> {
    list.iter().map(|word| word.to_string()).collect()
}

fn object(members: Vec<(&str, Json)>) -> Json {
    let mut out = ObjectBuilder::new();
    for (key, value) in members {
        out.put(key, value);
    }
    out.finish()
}

fn shown(value: &Json) -> String {
    compact_json(value).expect("JSON")
}

fn assert_shown(value: &Json, expected: &str) {
    assert_eq!(shown(value), expected.replace('\'', "\""));
}

fn kit() -> PluginPackage {
    PluginPackage {
        logical_id: "plugin:kit".to_string(),
        name: "kit".to_string(),
        component_signature: "signature".to_string(),
        projection_fingerprint: "projection".to_string(),
        state: "on".to_string(),
        access: "actionable".to_string(),
        instances: Vec::new(),
    }
}

#[test]
fn packages_are_listed() {
    assert_eq!(
        print_list(&vec![kit()]),
        [
            "Agent Plugins: 1 logical package(s)",
            "[on] kit (plugin:kit) instances=0 access=actionable",
        ]
    );
    assert_eq!(
        print_list(&Vec::new()),
        [
            "Agent Plugins: 0 logical package(s)",
            "No Agent Plugin packages were derived from fresh discovery.",
        ]
    );
    let list = package_list(&vec![kit()], true);
    assert_eq!(list.get("packageCount").and_then(Json::as_u64), Some(1));
    assert!(matches!(list.get("inventoryComplete"), Some(Json::Bool(true))));
    let report = package_report(&kit(), AgentPluginAccess::Actionable);
    assert_eq!(report.get("status").and_then(Json::as_text), Some("ok"));
    assert_shown(
        &handoff_report(&SealedHandoff {
            operation_id: "o".to_string(),
            plan_fingerprint: "p".to_string(),
            expires_at: Json::Unsigned(9),
        }),
        "{'expiresAtUnix':9,'operationId':'o','planFingerprint':'p'}",
    );
    let value = object(vec![
        ("status", text("planned")),
        ("package", object(vec![("name", text("kit"))])),
        ("operationId", text("o")),
        ("guidance", text("wait")),
    ]);
    assert_eq!(
        print_package_value(&value, "Plan", "null"),
        [
            "Plan: planned",
            "package: kit (unknown) state=unknown access=unknown",
            "operationId: o",
            "guidance: wait",
        ]
    );
}

fn record() -> CatalogRecord {
    CatalogRecord {
        id: "id".to_string(),
        kind: "hook".to_string(),
        providers: 2,
        active: true,
        fingerprint: "f".to_string(),
        value: text("v"),
    }
}

#[test]
fn the_catalog_is_shown() {
    assert_eq!(catalog_record_line(&record()), "id hook providers=2 fingerprint=f");
    assert_eq!(catalog_lines(&vec![record()]), ["id hook providers=2 active=true"]);
    assert_shown(&catalog_list(&vec![record()]), "{'capabilities':['v'],'status':'ok'}");
    assert_shown(
        &adoption_plan(&text("i"), &record(), &text("t"), "p"),
        "{'activation':'next-session-only','capability':'v','humanApprovalRequired':true,'item':'i','planFingerprint':'p','status':'planned','transition':'t'}",
    );
    assert_eq!(
        adoption_plan_line(&record(), "p"),
        "planned adoption id fingerprint=p activation=next-session-only"
    );
    assert_eq!(
        adoption_result_line("completed", "Committed", "b"),
        "catalog adoption completed; outcome=Committed activation=next-session-only backup=b"
    );
    assert_shown(
        &adoption_result("completed", &text("r")),
        "{'activation':'next-session-only','result':'r','status':'completed'}",
    );
}

fn gateway_state(mode: Option<Json>) -> GatewayState {
    GatewayState {
        target: text("t"),
        mode,
        policy: None,
        routing_active: true,
        providers: vec![GatewayProvider {
            provider: text("p"),
            hook_adapter: text("h"),
            built_in_tools: text("b"),
            gateway_mcp_tools: text("g"),
        }],
    }
}

#[test]
fn the_gateway_is_shown() {
    assert_shown(
        &gateway_status(&gateway_state(Some(text("m"))), true),
        "{'mode':'m','policy':null,'providerCoverage':[{'builtInTools':'b','gatewayMcpTools':'g','hookAdapter':'h','nativeHostActivation':'pending-live-verification','provider':'p','verificationScope':'fixture-contract'}],'runtime':{'configuredRoutingIsLive':null,'fixtureHarnessAttachment':'verified-contract-runtime-not-observed','gatewayDataPlane':'available-for-fixture-session-launch','liveProviderAttachment':'blocked-until-provider-overlay-is-verified','nativeMcpReferences':'not-managed','routingIntentActive':true,'runtimeObservation':'not-performed'},'status':'ok','target':'t'}",
    );
    let live = gateway_status(&gateway_state(None), false);
    assert!(matches!(
        live.get("runtime").and_then(|runtime| runtime.get("routingIntentActive")),
        Some(Json::Bool(false))
    ));
    assert_eq!(
        live.get("runtime").and_then(|runtime| runtime.get("gatewayDataPlane")).and_then(Json::as_text),
        Some("implemented-without-live-provider-attachment")
    );
    let mode = GatewayMode { installation: "Installed".to_string(), routing: "Active".to_string() };
    assert_eq!(gateway_status_line("t", &Some(mode)), "gateway t Installed/Active");
    let plan = |blocked: Option<&str>| GatewayPlan {
        plan_fingerprint: "p".to_string(),
        blocked_reason: blocked.map(|reason| reason.to_string()),
        action: "Activate".to_string(),
        mode: text("m"),
        policy: Json::Null,
        native_views: Json::Null,
    };
    assert_eq!(gateway_plan_line(&plan(Some("why"))), "gateway Activate why fingerprint=p");
    assert_eq!(gateway_plan_line(&plan(None)), "gateway Activate planned fingerprint=p");
    assert_shown(
        &gateway_plan(&plan(Some("why")), &text("op")),
        "{'modePlan':'m','nativeMcpReferences':'not-managed','nativeViewPlan':null,'operation':'op','planFingerprint':'p','policyPlan':null,'status':'blocked'}",
    );
    assert_eq!(
        gateway_result_line("Activate", "Live"),
        "gateway Activate applied; activation=Live nativeMcpReferences=not-managed"
    );
    let provider = Some("codex".to_string());
    let target = gateway_target(GatewayScopeArg::Repository, &provider, "r", "w");
    assert_eq!(target.repository_key.as_deref(), Some("r"));
    assert_eq!(target.workspace_key, None);
    assert_eq!(target.provider, provider);
    let target = gateway_target(GatewayScopeArg::Workspace, &None, "r", "w");
    assert_eq!(target.workspace_key.as_deref(), Some("w"));
    let target = gateway_target(GatewayScopeArg::Global, &None, "r", "w");
    assert_eq!(target.repository_key, None);
}

#[test]
fn groups_are_shown() {
    assert_shown(
        &group_list(&vec![text("g")], &vec![text("w")]),
        "{'groups':['g'],'status':'ok','warnings':['w']}",
    );
    let listing = GroupListing {
        qualified_name: "q".to_string(),
        state: "On".to_string(),
        revision: "r".to_string(),
        members: 3,
        compatible: false,
    };
    assert_eq!(group_lines(&vec![listing]), ["q state=On revision=r members=3 compatible=false"]);
    assert_eq!(definition_plan_line("p"), "planned group definition change fingerprint=p");
    assert_shown(
        &create_preview("personal", &text("d")),
        "{'change':'create','definition':'d','scope':'personal'}",
    );
    assert_shown(
        &edit_preview(&text("b"), &text("a")),
        "{'after':'a','before':'b','change':'edit'}",
    );
    assert_shown(
        &approval_report(&ApprovalArtifact {
            operation_id: "o".to_string(),
            plan_fingerprint: "p".to_string(),
            artifact_id: "a".to_string(),
            expires_at: Json::Unsigned(1),
        }),
        "{'approvalArtifact':'a','expiresAtUnix':1,'operationId':'o','planFingerprint':'p'}",
    );
    assert_eq!(
        render_json_or_debug(true, GroupOutcome::Deleted, &text("r")).as_deref(),
        Some("{\n  \"result\": \"r\",\n  \"status\": \"deleted\"\n}")
    );
    assert_eq!(
        render_json_or_debug(false, GroupOutcome::Created, &text("r")).as_deref(),
        Some("\"r\"")
    );
    assert_eq!(
        [GroupOutcome::Shown, GroupOutcome::Updated, GroupOutcome::Planned].map(GroupOutcome::status),
        ["group", "updated", "plan"]
    );
}

#[test]
fn hooks_are_shown() {
    let hook = |id: Option<&str>, trusted: bool| HookListing {
        id: id.map(|id| id.to_string()),
        item: text("i"),
        trusted,
    };
    assert_shown(
        &hook_list(&vec![hook(Some("h"), true)]),
        "{'hooks':[{'item':'i','storedTrustDecision':true}],'status':'ok'}",
    );
    assert_eq!(
        hook_lines(&vec![hook(Some("h"), true), hook(None, false)]),
        ["h stored-trust=true", "unknown stored-trust=false"]
    );
    let row = HookProvider {
        provider: text("codex"),
        adapter: text("a"),
        built_in_tools: Json::Bool(true),
        gateway_mcp_tools: Json::Null,
        native_events: Json::Null,
        managed_asset: true,
        installations: Vec::new(),
    };
    assert_eq!(
        hook_coverage_line(&row).as_deref(),
        Some("\"codex\" built-in=true gateway-mcp=null")
    );
    assert_eq!(
        hook_trust_line(),
        "hook trusted for profile; activation=next-session-only"
    );
    assert_eq!(
        hook_trust_plan_line("h", "p"),
        "planned hook trust h fingerprint=p activation=next-session-only"
    );
}

#[test]
fn policies_and_locks_are_shown() {
    let policy = |actions: &[&str]| {
        Some(ManagedPolicy {
            record_id: "r".to_string(),
            classification: "C".to_string(),
            lifecycle: "L".to_string(),
            allowed_actions: words(actions),
        })
    };
    assert_eq!(
        policy_status_line(&policy(&["x", "y"])),
        "workspace policy r classification=C lifecycle=L actions=x,y"
    );
    assert_eq!(
        policy_status_line(&policy(&[])),
        "workspace policy r classification=C lifecycle=L actions=none"
    );
    assert_eq!(
        policy_status_line(&None),
        "workspace policy is unmanaged; review `unpin profile policy migrate`"
    );
    assert_eq!(
        maintenance_plan_line("o", "p"),
        "policy maintenance planned operation=o fingerprint=p"
    );
    let locks = vec![
        ProviderLocks { provider: "a".to_string(), locked: true },
        ProviderLocks { provider: "b".to_string(), locked: false },
    ];
    assert_eq!(shown_lock_providers(&None, &locks), ["a"]);
    assert_eq!(shown_lock_providers(&Some("c".to_string()), &locks), ["c"]);
    assert_eq!(
        lock_line(&LockStatus {
            provider: "p".to_string(),
            gateway: text("g"),
            gateway_source: Json::Null,
            digest: "d".to_string(),
            entries: vec![Json::Null, Json::Null],
            enforcement: text("e"),
        }),
        "p global locks=2 digest=d activation=next-session-only"
    );
}

#[test]
fn profiles_are_shown_in_order() {
    let entry = |key: &str, rank: u64| OrderedEntry {
        key: key.to_string(),
        rank,
        value: ProfileListing {
            scope: "Global".to_string(),
            display_name: format!("{key}{rank}"),
            value: text(&format!("{key}{rank}")),
        },
    };
    let (value, lines) = list_profiles(vec![entry("b", 1), entry("a", 1), entry("a", 0)]);
    assert_shown(&value, "{'profiles':['a0','a1','b1'],'status':'ok'}");
    assert_eq!(lines, ["a Global a0", "a Global a1", "b Global b1"]);
    assert_eq!(list_profiles(Vec::new()).1, ["No profiles."]);
    assert_eq!(member_count(2, &vec![3, 4]), 9);
    assert_eq!(profile_line("i", "Global", "d", 9), "i (Global)\n  name: d\n  members: 9");
    assert_eq!(
        valid_profile_line("i", "d", 2, true),
        "valid profile i digest=d members=2 local-review=true"
    );
    assert_eq!(
        profile_plan_line("i", "p"),
        "planned profile i activation=next-session-only fingerprint=p"
    );
}

fn reach() -> ReachPlan {
    ReachPlan {
        operation_id: "o".to_string(),
        plan_fingerprint: "p".to_string(),
        provider_reach: text("all"),
        coverage: Json::Null,
        activation: text("next"),
        targets: Json::Null,
        no_op: false,
        plan: text("plan"),
    }
}

#[test]
fn profile_reach_is_shown() {
    let value = reach_plan(&reach());
    assert_eq!(value.get("status").and_then(Json::as_text), Some("planned"));
    assert_eq!(value.get("statusVersion").and_then(Json::as_u64), Some(2));
    assert_eq!(
        value.get("humanAction").and_then(|action| action.get("code")).and_then(Json::as_text),
        Some("confirm-and-apply")
    );
    let idle = reach_plan(&ReachPlan { no_op: true, ..reach() });
    assert_eq!(idle.get("status").and_then(Json::as_text), Some("no-op"));
    assert_eq!(
        reach_plan_line("i", "All", 2, "Next", "p"),
        "profile i reach=All targets=2 activation=Next fingerprint=p"
    );
    assert_eq!(
        reach_target_lines(&vec![ReachTarget {
            provider: "p".to_string(),
            classification: "c".to_string(),
            presence: "P".to_string(),
            inherited_before: "I".to_string(),
            effect: "E".to_string(),
            future_activation: "F".to_string(),
            activation: "A".to_string(),
        }]),
        ["  p classification=c presence=P inherited-before=I effect=E future-activation=F activation=A"]
    );
    assert_shown(
        &reach_result(&reach(), ProfileProviderOperationStatus::Blocked, &text("r")),
        "{'activation':'next','operationId':'o','planFingerprint':'p','providerCoverage':null,'providerReach':'all','result':'r','status':'blocked','statusVersion':2}",
    );
}

#[test]
fn backups_are_named_after_fingerprints() {
    let print = "0123456789abcdefghijklmnopqrstuvwxyz";
    let names = profile_backup_names(print);
    assert_eq!(names.operation, "profile-apply-0123456789abcdefghijklmnopqrstuv");
    assert_eq!(names.owner, "unpin-cli-profile-backup-0123456789abcdef");
    let names = lock_backup_names(print);
    assert_eq!(names.operation, "capability-lock-0123456789abcdefghijklmnopqrstuv");
    assert_eq!(names.owner, "unpin-cli-capability-lock-0123456789abcdef");
    let names = reach_backup_names("op");
    assert_eq!(names.operation, "op");
    assert_eq!(names.owner, "unpin-cli-profile-provider-backup-op");
    assert_eq!(apply_window(10), (10, 10 + APPLY_WINDOW_SECONDS));
    let latest = i64::MAX - APPLY_WINDOW_SECONDS;
    assert_eq!(apply_window(latest), (latest, i64::MAX));
}

#[test]
fn sessions_are_shown() {
    let lease = LeaseSummary {
        session_id: "s".to_string(),
        provider: "p".to_string(),
        repository_key: "r".to_string(),
        workspace_key: "w".to_string(),
        profile_digest: Json::Null,
        desired_revision: "d".to_string(),
        observed_revision: "o".to_string(),
        live_status: text("l"),
        isolation: text("i"),
        coverage: text("c"),
        lifecycle: text("active"),
        lifecycle_word: "Active".to_string(),
        in_flight_calls: Json::Unsigned(0),
    };
    assert_eq!(session_line(&lease), "s p w Active");
    assert_shown(
        &session_summary(&lease),
        "{'coverage':'c','desiredExposureRevision':'d','inFlightCalls':0,'isolation':'i','lifecycle':'active','liveStatus':'l','observedExposureRevision':'o','profileDigest':null,'provider':'p','repositoryKey':'r','sessionId':'s','workspaceKey':'w'}",
    );
    assert_eq!(
        launch_line(&LaunchReport {
            session_id: "s".to_string(),
            provider: "p".to_string(),
            child_exit: "Some(0)".to_string(),
            cleanup_complete: false,
            cleanup_failures: words(&["a", "b"]),
            degradation: Vec::new(),
        }),
        "session s p exit=Some(0) isolation=connection-scoped cleanup=false cleanup_failures=a,b degradation="
    );
    assert_eq!(
        session_end_plan_line("s", "p"),
        "planned session end s fingerprint=p activation=live"
    );
    assert_eq!(session_end_result_line("s", "Ended"), "session s Ended; owner cleanup pending");
}

fn bulk() -> BulkPlan {
    BulkPlan {
        lifecycle: ProviderReachLifecycle::Partial,
        operation_id: "o".to_string(),
        plan_fingerprint: "p".to_string(),
        provider_reach: text("all"),
        provider_coverage: Json::Null,
        acknowledgement: Json::Null,
        lifecycle_value: text("partial"),
        selector: text("s"),
        matched: Json::Null,
        included: Json::Null,
        blocked: Json::Null,
    }
}

#[test]
fn bulk_toggles_are_shown() {
    assert_shown(
        &bulk_plan(&bulk()),
        "{'acknowledgement':null,'blocked':null,'included':null,'lifecycle':'partial','matched':null,'operationId':'o','planFingerprint':'p','providerCoverage':null,'providerReach':'all','selector':'s','status':'partial','statusVersion':2}",
    );
    let sealed = sealed_bulk_plan(&bulk(), &text("h"));
    assert_eq!(sealed.get("handoff").and_then(Json::as_text), Some("h"));
    assert_shown(
        &bulk_result(&BulkResult {
            lifecycle: ProviderReachLifecycle::Applied,
            operation_id: "o".to_string(),
            plan_fingerprint: "p".to_string(),
            provider_reach: text("all"),
            provider_coverage: Json::Null,
            lifecycle_value: text("applied"),
            items: array(Vec::new()),
        }),
        "{'items':[],'lifecycle':'applied','operationId':'o','planFingerprint':'p','providerCoverage':null,'providerReach':'all','status':'applied','statusVersion':2}",
    );
    assert_eq!(reach_text(&bulk_plan(&bulk())).as_deref(), Some("\"all\""));
    assert_eq!(reach_text(&Json::Null).as_deref(), Some("null"));
    assert_eq!(
        print_value(&bulk_plan(&bulk()), "Bulk plan", "\"all\""),
        ["Bulk plan: partial", "operationId: o", "planFingerprint: p", "providerReach: \"all\""]
    );
    assert_eq!(print_value(&Json::Null, "Bulk plan", "null"), ["Bulk plan: unknown", "providerReach: null"]);
}

#[test]
fn workflows_are_shown() {
    let entry = |key: &str| OrderedEntry {
        key: key.to_string(),
        rank: 1,
        value: WorkflowListing {
            scope: "Global".to_string(),
            display_name: "N".to_string(),
            modes: 2,
            value: text(key),
        },
    };
    let (value, lines) = list_workflows(vec![entry("b"), entry("a")]);
    assert_shown(&value, "{'status':'ok','workflows':['a','b']}");
    assert_eq!(lines, ["a Global N modes=2", "b Global N modes=2"]);
    assert_eq!(
        workflow_line("i", "Global", "d", "b", "e", 2),
        "i (Global)\n  name: d\n  baseline: b\n  entry: e\n  modes: 2"
    );
    assert_eq!(
        valid_workflow_line("i", 2, "e", 3),
        "valid workflow i providers=2 entry=e modes=3"
    );
    assert_shown(
        &valid_workflow(
            &text("w"),
            &vec![ValidRevision {
                provider: text("p"),
                digest: "d".to_string(),
                capability_count: 1,
                system_controls: Json::Null,
                baseline_digest: "b".to_string(),
                envelope_digest: "e".to_string(),
            }],
        ),
        "{'revisions':[{'baselineProfileDigest':'b','capabilityCount':1,'maximumEnvelopeDigest':'e','provider':'p','systemControls':null,'workflowRevision':'d'}],'status':'valid','workflow':'w'}",
    );
    assert_eq!(
        workflow_change_plan_line("w", "delete", "p"),
        "workflow w planned action=delete fingerprint=p"
    );
    assert_eq!(
        workflow_proposal_line("proposed"),
        "workflow proposal proposed; confirmation required"
    );
}

#[test]
fn operations_concern_their_providers() {
    let all = words(&["a", "b"]);
    assert_eq!(concerned_providers(&Some("c".to_string()), &all), ["c"]);
    assert_eq!(concerned_providers(&None, &all), ["a", "b"]);
    let planned = planned_operation(false, &None, &all);
    assert!(planned.lifecycle == OperationLifecycle::Planned);
    assert_eq!(planned.action.map(|action| action.code), Some("confirm-and-apply"));
    assert!(planned.approval_required);
    let blocked = planned_operation(true, &None, &all);
    assert!(blocked.lifecycle == OperationLifecycle::Blocked);
    assert!(blocked.action.is_none());
    let definition = planned_definition_change();
    assert_eq!(
        definition.action.map(|action| action.guidance),
        Some("Re-run with --apply --confirm and this plan fingerprint.")
    );
    assert!(definition.providers.is_empty());
    let applied = applied_operation(false, &None, &all);
    assert!(applied.lifecycle == OperationLifecycle::Applied);
    assert!(applied.action.is_none());
    assert!(applied_operation(true, &None, &all).lifecycle == OperationLifecycle::NoOp);
    assert_shown(&human_action("code", "do it"), "{'code':'code','guidance':'do it'}");
}
