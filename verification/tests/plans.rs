use unpin::agent_plugin::{
    is_countable, lifecycle_guidance, package_apply_value, package_detail_value, package_guidance,
    package_plan_status, package_plan_value, package_summary_value, redacted_agent_plugin_apply,
    redacted_agent_plugin_plan, redacted_agent_plugin_summary, AgentPluginAccess, ApplyItem,
    BlockedTarget, ComponentDisposition, CoverageEntry, IncludedTarget, PackagePlan,
    PackageResult, PlanReach, PluginActivation, PluginComponent, PluginInstance, PluginPackage,
    TargetOutcome, ToggleStatus,
};
use unpin::bridge_session::{handshake_response_for_binding, BridgeBinding};
use unpin::bridge_stage::{stopped_at, BridgeStage, BridgeWork};
use unpin::commands::agent_plugins::{package_status_value, BulkTogglePlanError};
use unpin::commands::group::GroupScope;
use unpin::commands::toggle::{ProviderReachInput, ProviderReachLifecycle};
use unpin::group_definition::{
    appliable_change, apply_reviewed_definition_change, change_result,
    definition_change_from_params, definition_history, deletion_result,
    discard_definition_change, finish_change, next_definition_operation_id,
    plan_definition_change, prior_definition, redacted_definition_history,
    redacted_definition_plan, required_group_scope, DefinitionFacts, ExistingGroup,
    GroupDefinition, HistoryRecord, ReviewedDefinitionChange, StoreAnswer,
    WrittenGroup, MAX_REVIEWED_DEFINITION_PLANS,
};
use unpin::json::{array, compact_json, text, Json, ObjectBuilder};
use unpin::plan_request::{
    agent_plugin_plan_actionable, applied_agent_plugin, inspect_agent_plugin, plan_agent_plugin,
    plan_group, plan_restore, planned_restore, review_group_plan, single,
};
use unpin::recovery::{
    operation_failure, recovery_snapshot_response, redacted_restore_plan, redacted_restore_result,
    resources_countable, snapshot_response, BackupIndex, BackupSummary, CohortBackups, ControlOperation,
    DiscoveryWarning, GroupInspection, GroupOperationError, GroupOperationFailure, GroupWarning,
    Inventory, InventoryItem, RestoreOutcome, RestorePlan, TerminalResult,
};
use unpin::report::agent_plugins::{applied_package, planned_package, SealedHandoff};
use unpin::reviewed_plans::{
    appliable_plan, approvable_plan, begin_group_apply, discard_plan, finish_apply,
    has_reviewed_plan_capacity, plan_reference, prune_expired, record_approval, remember_plan,
    reviewed_plan_is_expired, take_authorization, PlanFamily, ReviewedPlan,
    MAX_REVIEWED_CONTROL_PLANS, REVIEWED_PLAN_TTL_SECONDS,
};
use unpin::text_map::TextMap;

type Plans = TextMap<ReviewedPlan<u8, u8>>;

const FAMILIES: [PlanFamily; 3] = [PlanFamily::Group, PlanFamily::AgentPlugin, PlanFamily::Restore];

fn object(members: Vec<(&str, Json)>) -> Json {
    let mut out = ObjectBuilder::new();
    for (key, value) in members {
        out.put(key, value);
    }
    out.finish()
}

fn texts(members: Vec<(&str, &str)>) -> Json {
    object(members.into_iter().map(|(key, value)| (key, text(value))).collect())
}

fn at<'a>(value: &'a Json, path: &[&str]) -> &'a Json {
    let mut value = value;
    for key in path {
        value = value.get(key).unwrap_or(&Json::Null);
    }
    value
}

fn text_at<'a>(value: &'a Json, path: &[&str]) -> Option<&'a str> {
    at(value, path).as_text()
}

fn count_at(value: &Json, path: &[&str]) -> Option<u64> {
    at(value, path).as_u64()
}

fn len_at(value: &Json, path: &[&str]) -> Option<usize> {
    at(value, path).as_array().map(|items| items.len())
}

fn reference(operation: &str, fingerprint: &str) -> Json {
    texts(vec![("operationId", operation), ("planFingerprint", fingerprint)])
}

fn remembered(family: PlanFamily, operation: &str, actionable: bool, now: i64) -> Plans {
    let mut plans = Plans::new();
    assert_eq!(remember_plan(&mut plans, family, operation, 7, "print", actionable, now), Ok(()));
    plans
}

#[test]
fn reviewed_control_plans_allow_replacing_existing_operations_at_capacity() {
    let mut plans = Plans::new();
    for index in 0..MAX_REVIEWED_CONTROL_PLANS {
        let operation = format!("operation-{index}");
        assert_eq!(
            remember_plan(&mut plans, PlanFamily::Group, &operation, 0, "print", true, 100),
            Ok(())
        );
    }
    assert!(has_reviewed_plan_capacity(&plans, "operation-0"));
    assert!(!has_reviewed_plan_capacity(&plans, "new-operation"));

    assert_eq!(
        remember_plan(&mut plans, PlanFamily::Group, "operation-0", 1, "other", true, 100),
        Ok(())
    );
    assert_eq!(plans.get("operation-0").map(|plan| plan.plan), Some(1));
    assert_eq!(plans.len(), MAX_REVIEWED_CONTROL_PLANS);
    for (family, code) in [
        (PlanFamily::Group, "group-plan-limit-reached"),
        (PlanFamily::AgentPlugin, "agent-plugin-plan-limit-reached"),
        (PlanFamily::Restore, "restore-plan-limit-reached"),
    ] {
        assert_eq!(
            remember_plan(&mut plans, family, "new-operation", 1, "other", true, 100),
            Err(code)
        );
    }
    assert!(!plans.contains_key("new-operation"));
}

#[test]
fn expired_reviewed_plans_are_not_current() {
    assert!(!reviewed_plan_is_expired(100, 100 + REVIEWED_PLAN_TTL_SECONDS));
    assert!(reviewed_plan_is_expired(100, 101 + REVIEWED_PLAN_TTL_SECONDS));
}

#[test]
fn a_review_does_not_expire_before_it_was_made() {
    assert!(!reviewed_plan_is_expired(100, 0));
    assert!(!reviewed_plan_is_expired(i64::MIN, i64::MIN));
    assert!(reviewed_plan_is_expired(i64::MIN, i64::MAX));
    assert!(!reviewed_plan_is_expired(i64::MAX, i64::MIN));
}

#[test]
fn pruning_drops_exactly_what_lapsed() {
    let mut plans = remembered(PlanFamily::Restore, "old", true, 100);
    assert_eq!(
        remember_plan(&mut plans, PlanFamily::Restore, "new", 8, "print", true, 101),
        Ok(())
    );
    prune_expired(&mut plans, 101 + REVIEWED_PLAN_TTL_SECONDS);
    assert!(!plans.contains_key("old"));
    assert!(plans.contains_key("new"));
    assert!(approvable_plan(&plans, PlanFamily::Restore, &reference("old", "print")).is_err());
}

#[test]
fn a_plan_is_approved_once_and_applied_once() {
    for family in FAMILIES {
        let mut plans = remembered(family, "operation", true, 100);
        let params = reference("operation", "print");
        assert!(appliable_plan(&plans, family, &params).is_err());
        let approvable = approvable_plan(&plans, family, &params).ok().expect("approvable");
        let response = record_approval(&mut plans, family, &approvable, Ok(42)).ok().expect("approved");
        assert!(compact_json(&response).is_some());
        let appliable = appliable_plan(&plans, family, &params).ok().expect("appliable");
        assert_eq!(appliable.operation_id, "operation");
        assert_eq!(take_authorization(&mut plans, family, "operation"), Ok(42));
        assert!(appliable_plan(&plans, family, &params).is_err());
        assert!(take_authorization(&mut plans, family, "operation").is_err());
        assert_eq!(finish_apply(&mut plans, family, "operation", true), Ok(()));
        assert!(!plans.contains_key("operation"));
    }
}

#[test]
fn a_new_plan_revokes_an_approval() {
    let family = PlanFamily::AgentPlugin;
    let mut plans = remembered(family, "operation", true, 100);
    let params = reference("operation", "print");
    let approvable = approvable_plan(&plans, family, &params).ok().expect("approvable");
    assert!(record_approval(&mut plans, family, &approvable, Ok(42)).is_ok());
    assert_eq!(remember_plan(&mut plans, family, "operation", 8, "print", true, 101), Ok(()));
    assert!(appliable_plan(&plans, family, &params).is_err());
}

#[test]
fn a_plan_is_named_by_operation_and_fingerprint() {
    let plans = remembered(PlanFamily::Group, "operation", true, 100);
    assert!(approvable_plan(&plans, PlanFamily::Group, &reference("operation", "other")).is_err());
    assert!(approvable_plan(&plans, PlanFamily::Group, &reference("other", "print")).is_err());
    let idle = remembered(PlanFamily::Group, "operation", false, 100);
    assert!(approvable_plan(&idle, PlanFamily::Group, &reference("operation", "print")).is_err());
    assert_eq!(
        plan_reference(&texts(vec![("operationId", "operation")])).err(),
        Some("invalid-params")
    );
    let read = plan_reference(&reference("a", "b")).ok().expect("a reference");
    assert_eq!((read.operation_id.as_str(), read.plan_fingerprint.as_str()), ("a", "b"));
}

#[test]
fn a_group_is_applied_by_its_controller() {
    let family = PlanFamily::Group;
    let params = reference("operation", "print");
    let mut plans = remembered(family, "operation", true, 100);
    let approvable = approvable_plan(&plans, family, &params).ok().expect("approvable");
    assert_eq!(
        record_approval(&mut plans, family, &approvable, Err(BridgeStage::Decision)).err(),
        Some("desktop-approval-blocked")
    );
    assert_eq!(
        begin_group_apply(&mut plans, &params, Ok(())).err(),
        Some("desktop-approval-required")
    );
    assert!(record_approval(&mut plans, family, &approvable, Ok(42)).is_ok());
    assert_eq!(
        begin_group_apply(&mut plans, &params, Err(BridgeStage::SessionKey)).err(),
        Some("session-authority-unavailable")
    );
    let mut plans = remembered(family, "operation", true, 100);
    assert!(record_approval(&mut plans, family, &approvable, Ok(43)).is_ok());
    let (begun, authorization) =
        begin_group_apply(&mut plans, &params, Ok(())).ok().expect("begun");
    assert_eq!(begun.operation_id, "operation");
    assert_eq!(authorization, 43);
}

#[test]
fn requests_name_groups_and_backups() {
    let read = plan_group(&texts(vec![("qualifiedName", "a:b"), ("target", "enable")]), true)
        .ok()
        .expect("a group");
    assert_eq!((read.qualified_name.as_str(), read.enable), ("a:b", true));
    let read = plan_group(&texts(vec![("qualifiedName", "a:b"), ("target", "disable")]), true);
    assert!(!read.ok().expect("a group").enable);
    let group = |target: &str, valid: bool| {
        plan_group(&texts(vec![("qualifiedName", "a:b"), ("target", target)]), valid).err()
    };
    assert_eq!(group("off", true), Some("invalid-group-target"));
    assert_eq!(group("enable", false), Some("invalid-group-reference"));
    assert_eq!(
        plan_group(&texts(vec![("qualifiedName", "a"), ("target", "enable"), ("more", "x")]), true)
            .err(),
        Some("unknown-parameter")
    );
    assert_eq!(plan_group(&texts(vec![("target", "enable")]), true).err(), Some("invalid-params"));
    assert_eq!(plan_restore(&texts(vec![("backupId", "backup")])).ok().as_deref(), Some("backup"));
    assert_eq!(plan_restore(&texts(vec![("backup", "backup")])), Err("unknown-parameter"));
    assert_eq!(plan_restore(&texts(vec![("backupId", "")])), Err("invalid-params"));
    assert_eq!(
        compact_json(&planned_restore("one", single("a", Json::Null))).as_deref(),
        Some("{\"operationId\":\"one\",\"plan\":{\"a\":null}}")
    );
    let mut plans = Plans::new();
    assert_eq!(review_group_plan(&mut plans, &None, 1, "print", true, 5), Ok(()));
    assert_eq!(plans.len(), 0);
    assert_eq!(review_group_plan(&mut plans, &Some("id".to_string()), 1, "print", true, 5), Ok(()));
    assert!(plans.contains_key("id"));
}

fn component(kind: &str, rank: u32, name: &str) -> PluginComponent {
    PluginComponent {
        kind: kind.to_string(),
        kind_rank: rank,
        name: text(name),
        disposition: ComponentDisposition::Available { name: "managed".to_string() },
        reason: Json::Null,
    }
}

fn instance(provider: &str, rank: u32) -> PluginInstance {
    PluginInstance {
        instance_id: format!("{provider}-instance"),
        provider: provider.to_string(),
        provider_rank: rank,
        layer: "user".to_string(),
        state: "on".to_string(),
        access: "actionable".to_string(),
        version: text("1.0.0"),
        components: vec![component("mcp", 1, "server"), component("command", 0, "ask")],
        activations: vec![PluginActivation { enabled: Json::Bool(true), mutability: text("writable") }],
        blockers: vec!["blocked".to_string()],
        diagnostics: Vec::new(),
    }
}

fn connector_kit() -> PluginPackage {
    PluginPackage {
        logical_id: "plugin:connector-kit".to_string(),
        name: "connector-kit".to_string(),
        component_signature: "signature".to_string(),
        projection_fingerprint: "projection".to_string(),
        state: "on".to_string(),
        access: "actionable".to_string(),
        instances: vec![instance("cursor", 2), instance("codex", 1)],
    }
}

fn inventory() -> Inventory {
    Inventory {
        items: vec![InventoryItem {
            provider: text("codex"),
            kind: text("hook"),
            category: text("hook"),
            layer: text("user"),
            id: "item".to_string(),
            display_name: text("Item"),
            enabled: Json::Bool(true),
            mutability: text("writable"),
        }],
        warnings: vec![DiscoveryWarning { provider: text("zed"), layer: text("user"), code: text("odd") }],
        agent_plugins_complete: true,
        agent_plugins: vec![connector_kit()],
        groups: array(Vec::new()),
        group_warnings: vec![GroupWarning { scope: text("personal"), code: text("stale") }],
    }
}

#[test]
fn agent_plugin_capabilities_and_snapshot_are_additive_and_path_free() {
    let handshake = handshake_response_for_binding(
        "0.1.0",
        &BridgeBinding {
            session_secret: "11".repeat(32),
            parent_pid: 1,
            parent_start_marker: "parent".to_string(),
            child_pid: 2,
            child_start_marker: "child".to_string(),
            project_root: "/private/project".to_string(),
            app_state_root: "/private/state".to_string(),
            process_generation: "generation".to_string(),
        },
    );
    let capabilities = at(&handshake, &["capabilities"]).as_array().expect("bridge capabilities");
    for capability in [
        "agentPlugins.inspect",
        "agentPlugins.plan",
        "agentPlugins.approve",
        "agentPlugins.apply",
        "agentPlugins.discard",
    ] {
        assert!(
            capabilities.iter().any(|known| known.as_text() == Some(capability)),
            "missing capability {capability}",
        );
    }

    let snapshot = snapshot_response(&inventory(), 17);
    assert!(matches!(at(&snapshot, &["agentPluginInventoryComplete"]), Json::Bool(true)));
    let packages = at(&snapshot, &["agentPlugins"]).as_array().expect("package collection");
    assert!(!packages.is_empty());
    let encoded = compact_json(at(&snapshot, &["agentPlugins"])).expect("package JSON");
    for forbidden in [
        "sourcePath",
        "statePath",
        "packageRoot",
        "package_root",
        "rawManifest",
        "sourceFingerprint",
        "description",
        "Review and context tools for agent workbenches.",
    ] {
        assert!(!encoded.contains(forbidden), "snapshot leaked {forbidden}: {encoded}");
    }

    let logical_id = text_at(&packages[0], &["logicalId"]).expect("logical package id");
    let held = vec![connector_kit()];
    let inspected = inspect_agent_plugin(&texts(vec![("logicalId", logical_id)]), Ok(&held))
        .ok()
        .expect("agent plugin inspection");
    assert_eq!(text_at(&inspected, &["package", "logicalId"]), Some(logical_id));
    assert_eq!(
        inspect_agent_plugin(&texts(vec![("logicalId", "other")]), Ok(&held)).err(),
        Some("agent-plugin-not-found")
    );
    assert_eq!(
        inspect_agent_plugin(&texts(vec![("logicalId", "other")]), Err(BridgeStage::Discover)).err(),
        Some("discovery-unavailable")
    );
}

fn kit_plan(reach: PlanReach, provider_reach: Json, excluded: u64) -> PackagePlan {
    PackagePlan {
        operation_id: "operation".to_string(),
        plan_fingerprint: "print".to_string(),
        target_enabled: false,
        provider_reach,
        reach,
        coverage: vec![
            CoverageEntry {
                provider: "cursor".to_string(),
                provider_rank: 2,
                included: false,
                reason: Some("outside-reach".to_string()),
            },
            CoverageEntry {
                provider: "codex".to_string(),
                provider_rank: 1,
                included: true,
                reason: None,
            },
        ],
        lifecycle: ProviderReachLifecycle::Applied,
        lifecycle_value: text("applied"),
        included: vec![
            IncludedTarget {
                provider: "codex".to_string(),
                layer: "user".to_string(),
                outcome: TargetOutcome::Change { name: "disable".to_string() },
            },
            IncludedTarget {
                provider: "codex".to_string(),
                layer: "project".to_string(),
                outcome: TargetOutcome::NoOp { name: "keep".to_string() },
            },
        ],
        blocked: vec![BlockedTarget {
            provider: "codex".to_string(),
            layer: "admin".to_string(),
            reason_code: text("read-only"),
        }],
        included_count: 2,
        write_count: 1,
        blocked_count: 1,
        reach_excluded_count: excluded,
    }
}

#[test]
fn agent_plugin_plan_redacts_bulk_internals_and_discard_invalidates_review() {
    let package = connector_kit();
    let packages = vec![connector_kit()];
    let mut plans = Plans::new();

    let request = plan_agent_plugin(
        &texts(vec![
            ("logicalId", &package.logical_id),
            ("target", "off"),
            ("reach", "selected"),
            ("selectedProvider", "codex"),
        ]),
        Ok(&packages),
        Ok(()),
        &Some("codex".to_string()),
    )
    .ok()
    .expect("selected-provider package plan");
    assert!(!request.target_enabled);
    let reach = match &request.reach {
        ProviderReachInput::Selected { provider } => {
            PlanReach::Selected { provider: provider.clone() }
        }
        _ => panic!("a selected provider"),
    };
    let planned = kit_plan(reach, single("selected", texts(vec![("provider", "codex")])), 1);
    let plan = redacted_agent_plugin_plan(&package, &planned);
    assert_eq!(
        remember_plan(
            &mut plans,
            PlanFamily::AgentPlugin,
            &planned.operation_id,
            0,
            &planned.plan_fingerprint,
            agent_plugin_plan_actionable(planned.lifecycle, planned.write_count),
            100,
        ),
        Ok(())
    );
    assert_eq!(text_at(&plan, &["logicalId"]), Some("plugin:connector-kit"));
    assert_eq!(text_at(&plan, &["name"]), Some("connector-kit"));
    assert_eq!(text_at(&plan, &["target"]), Some("off"));
    assert_eq!(text_at(&plan, &["access"]), Some("actionable"));
    assert_eq!(text_at(&plan, &["providerReach", "selected", "provider"]), Some("codex"));
    assert_eq!(len_at(&plan, &["review", "included"]), Some(2));
    assert_eq!(len_at(&plan, &["review", "noOp"]), Some(1));
    assert_eq!(len_at(&plan, &["review", "blocked"]), Some(1));
    assert_eq!(len_at(&plan, &["review", "reachExcluded"]), Some(1));
    assert!(len_at(&plan, &["review", "componentDiagnostics"]).is_some());
    assert!(count_at(&plan, &["counts", "reachExcluded"]).unwrap_or_default() > 0);

    let encoded = compact_json(&plan).expect("plan JSON");
    for forbidden in [
        "matched",
        "selector",
        "sourcePath",
        "statePath",
        "packageRoot",
        "sourceFingerprint",
        "operationDigest",
        "affectedResources",
    ] {
        assert!(!encoded.contains(forbidden), "plan leaked {forbidden}: {encoded}");
    }

    let params = reference(
        text_at(&plan, &["operationId"]).expect("operation id"),
        text_at(&plan, &["planFingerprint"]).expect("plan fingerprint"),
    );
    assert!(discard_plan(&mut plans, PlanFamily::AgentPlugin, &params).is_ok());
    assert_eq!(
        discard_plan(&mut plans, PlanFamily::AgentPlugin, &params).err(),
        Some("agent-plugin-plan-unavailable")
    );

    let all = plan_agent_plugin(
        &texts(vec![("logicalId", &package.logical_id), ("target", "off"), ("reach", "all")]),
        Ok(&packages),
        Ok(()),
        &None,
    )
    .ok()
    .expect("all-provider package plan");
    assert!(matches!(all.reach, ProviderReachInput::All));
    let all_plan =
        redacted_agent_plugin_plan(&package, &kit_plan(PlanReach::All, text("all"), 0));
    assert_eq!(text_at(&all_plan, &["providerReach"]), Some("all"));
    assert_eq!(count_at(&all_plan, &["counts", "reachExcluded"]), Some(0));
    assert_eq!(len_at(&all_plan, &["review", "reachExcluded"]), Some(0));
}

#[test]
fn package_plan_requests_are_checked() {
    let packages = vec![connector_kit()];
    let id = packages[0].logical_id.clone();
    let ask = |members: Vec<(&str, &str)>, provider: Option<&str>| {
        let provider = provider.map(|name| name.to_string());
        plan_agent_plugin(&texts(members), Ok(&packages), Ok(()), &provider).err()
    };
    let kit = |target: &'static str, reach: &'static str| {
        vec![("logicalId", id.as_str()), ("target", target), ("reach", reach)]
    };
    assert_eq!(ask(kit("up", "all"), None), Some("invalid-agent-plugin-target"));
    assert_eq!(ask(kit("on", "some"), None), Some("invalid-agent-plugin-reach"));
    assert_eq!(ask(kit("on", "selected"), None), Some("selected-provider-required"));
    let mut selected = kit("on", "all");
    selected.push(("selectedProvider", "codex"));
    assert_eq!(ask(selected.clone(), Some("codex")), Some("provider-conflicts-with-all-reach"));
    assert_eq!(ask(selected, None), Some("invalid-selected-provider"));
    assert_eq!(ask(vec![("logicalId", "kit")], None), Some("invalid-params"));
    assert_eq!(
        plan_agent_plugin(&texts(kit("on", "all")), Ok(&Vec::new()), Ok(()), &None).err(),
        Some("agent-plugin-not-found")
    );
    assert_eq!(
        plan_agent_plugin(&texts(kit("on", "all")), Err(BridgeStage::Discover), Ok(()), &None).err(),
        Some("discovery-unavailable")
    );
    let refused = Err(BulkTogglePlanError::AgentPluginInventoryIncomplete);
    assert_eq!(
        plan_agent_plugin(&texts(kit("on", "all")), Ok(&packages), refused, &None).err(),
        Some("agent-plugin-inventory-incomplete")
    );
    assert!(ask(kit("enable", "all"), None).is_none());
    assert!(agent_plugin_plan_actionable(ProviderReachLifecycle::Partial, 1));
    assert!(!agent_plugin_plan_actionable(ProviderReachLifecycle::Applied, 0));
    assert!(!agent_plugin_plan_actionable(ProviderReachLifecycle::NoOp, 3));
}

#[test]
fn packages_are_summarized_in_order() {
    let package = connector_kit();
    let summary = redacted_agent_plugin_summary(&package);
    assert_eq!(compact_json(at(&summary, &["providers"])).as_deref(), Some("[\"codex\",\"cursor\"]"));
    assert_eq!(
        compact_json(at(&summary, &["componentKinds"])).as_deref(),
        Some("[\"command\",\"mcp\"]")
    );
    assert_eq!(count_at(&summary, &["blockerCount"]), Some(2));
    assert_eq!(count_at(&summary, &["diagnosticCount"]), Some(0));
    assert_eq!(count_at(&summary, &["instanceCount"]), Some(2));
    let shown = package_summary_value(&package);
    assert_eq!(count_at(&shown, &["instanceCount"]), Some(2));
    let detail = package_detail_value(&package);
    let instances = at(&detail, &["instances"]).as_array().expect("instances");
    assert_eq!(instances.len(), 2);
    let plan = kit_plan(PlanReach::All, text("all"), 0);
    let value = package_plan_value(&package, &plan);
    assert_eq!(text_at(&value, &["status"]), Some(package_plan_status(plan.lifecycle)));
    assert_eq!(text_at(&value, &["guidance"]), Some(lifecycle_guidance(plan.lifecycle)));
    assert_ne!(
        package_guidance(AgentPluginAccess::Actionable),
        package_guidance(AgentPluginAccess::Unsupported)
    );
}

fn item(status: ToggleStatus, backup: bool, reason: Option<&str>) -> ApplyItem {
    ApplyItem { status, has_backup: backup, reason: reason.map(|reason| reason.to_string()) }
}

fn kit_result() -> PackageResult {
    PackageResult {
        operation_id: "operation".to_string(),
        plan_fingerprint: "print".to_string(),
        lifecycle: ProviderReachLifecycle::Partial,
        lifecycle_value: text("partial"),
        provider_reach: text("all"),
        coverage: Vec::new(),
        items: vec![
            item(ToggleStatus::Applied, true, None),
            item(ToggleStatus::Blocked, false, Some("/private/path is busy")),
            item(ToggleStatus::RecoveryRequired, true, Some("already-disabled")),
            item(ToggleStatus::DryRun, false, None),
        ],
    }
}

#[test]
fn the_status_of_a_package_compares_it_with_its_review() {
    let package = connector_kit();
    let plan = kit_plan(PlanReach::All, text("all"), 0);
    let status = |package: Option<&PluginPackage>, reviewed: &str, items: Option<&Vec<ApplyItem>>| {
        package_status_value(
            package,
            "plugin:kit",
            &plan,
            &Some(reviewed.to_string()),
            ProviderReachLifecycle::Partial,
            items,
        )
    };
    let items = kit_result().items;
    let current = status(Some(&package), &package.projection_fingerprint, Some(&items));
    assert_eq!(text_at(&current, &["status"]), Some("partial"));
    assert_eq!(text_at(&current, &["refreshStatus"]), Some("complete"));
    assert!(matches!(at(&current, &["replanRequired"]), Json::Bool(false)));
    assert!(matches!(at(&current, &["resultCounts"]), Json::Object(_)));
    let changed = status(Some(&package), "another", None);
    assert_eq!(text_at(&changed, &["refreshStatus"]), Some("required"));
    assert!(matches!(at(&changed, &["resultCounts"]), Json::Null));
    let gone = status(None, &package.projection_fingerprint, None);
    assert_eq!(text_at(&gone, &["package", "logicalId"]), Some("plugin:kit"));
    assert!(matches!(at(&gone, &["package", "current"]), Json::Bool(false)));
    assert!(matches!(at(&gone, &["projectionMatchesReview"]), Json::Bool(false)));
}

#[test]
fn results_count_every_target_and_hide_unsafe_reasons() {
    let package = connector_kit();
    let value = redacted_agent_plugin_apply(&package, &kit_result());
    let encoded = compact_json(&value).expect("result JSON");
    assert!(!encoded.contains("/private/path"));
    assert!(encoded.contains("redacted-operation-reason"));
    assert!(encoded.contains("already-disabled"));
    let shown = package_apply_value(&package, &kit_result());
    assert_eq!(text_at(&shown, &["status"]), Some("partial"));
    let shown = applied_package(&package, None, &kit_result());
    assert_eq!(text_at(&shown, &["refreshStatus"]), Some("failed-run-status"));
    let shown = applied_package(&package, Some(&package), &kit_result());
    assert_eq!(text_at(&shown, &["refreshStatus"]), Some("complete"));
    assert_eq!(text_at(&shown, &["status"]), Some("partial"));
    let handoff = SealedHandoff {
        operation_id: "operation".to_string(),
        plan_fingerprint: "print".to_string(),
        expires_at: Json::Unsigned(9),
    };
    let plan = kit_plan(PlanReach::All, text("all"), 0);
    let planned = planned_package(&package, &plan, &Some(handoff));
    assert_eq!(text_at(&planned, &["handoff", "planFingerprint"]), Some("print"));
    let planned = planned_package(&package, &plan, &None);
    assert!(text_at(&planned, &["handoff", "planFingerprint"]).is_none());
    let applied = applied_agent_plugin(&package, None, &kit_result());
    assert_eq!(text_at(&applied, &["refreshStatus"]), Some("unavailable"));
    let applied = applied_agent_plugin(&package, Some(&package), &kit_result());
    assert_eq!(text_at(&applied, &["refreshStatus"]), Some("complete"));
    assert_eq!(text_at(&applied, &["result", "operationId"]), Some("operation"));
}

fn facts() -> DefinitionFacts<u8> {
    DefinitionFacts {
        reference: Some(Some(GroupScope::Personal)),
        existing: Ok(ExistingGroup {
            scope: GroupScope::Personal,
            qualified_name: "personal:focus".to_string(),
            revision: "present".to_string(),
        }),
        members_readable: true,
        definition: Some(GroupDefinition {
            name: "focus".to_string(),
            member_count: 3,
            definition: 9,
        }),
        members_allowed: Ok(()),
        expected_revision: Some("expected".to_string()),
        renamed_valid: true,
        history: Ok(Some(true)),
        revision: Ok("resulting".to_string()),
    }
}

fn creation() -> Json {
    object(vec![
        ("action", text("create")),
        ("scope", text("personal")),
        ("name", text("focus")),
        ("members", array(Vec::new())),
    ])
}

fn change_error(params: &Json, facts: DefinitionFacts<u8>) -> Option<&'static str> {
    definition_change_from_params(params, facts).err()
}

#[test]
fn definition_changes_are_read_from_parameters() {
    let (action, fingerprint) =
        definition_change_from_params(&creation(), facts()).ok().expect("a creation");
    assert_eq!(action.kind(), "create");
    assert!(action.scope() == GroupScope::Personal);
    assert_eq!(fingerprint, "resulting");
    let built = GroupDefinition { name: "tidied".to_string(), member_count: 2, definition: 9 };
    let (action, fingerprint) = definition_change_from_params(
        &creation(),
        DefinitionFacts { definition: Some(built), ..facts() },
    )
    .ok()
    .expect("a creation");
    let plan = redacted_definition_plan(&action, &fingerprint);
    assert_eq!(text_at(&plan, &["qualifiedName"]), Some("personal:tidied"));
    assert_eq!(count_at(&plan, &["memberCount"]), Some(2));
    assert_eq!(
        change_error(&creation(), DefinitionFacts { definition: None, ..facts() }),
        Some("group-definition-invalid")
    );
    let named = |action: &str| {
        texts(vec![
            ("action", action),
            ("qualifiedName", "personal:focus"),
            ("newName", "quiet"),
            ("expectedRevision", "expected"),
            ("historyId", "history"),
            ("scope", "personal"),
        ])
    };
    for (kind, print) in [("rename", "resulting"), ("delete", "present"), ("restore", "resulting")] {
        let (action, fingerprint) =
            definition_change_from_params(&named(kind), facts()).ok().expect("a change");
        assert_eq!(action.kind(), kind);
        assert_eq!(fingerprint, print);
    }
    assert_eq!(change_error(&named("merge"), facts()), Some("invalid-group-definition-action"));
    assert_eq!(
        change_error(&named("rename"), DefinitionFacts { renamed_valid: false, ..facts() }),
        Some("group-definition-invalid")
    );
    assert_eq!(
        change_error(&named("delete"), DefinitionFacts { reference: Some(None), ..facts() }),
        Some("invalid-group-reference")
    );
    assert_eq!(
        change_error(&named("delete"), DefinitionFacts { expected_revision: None, ..facts() }),
        Some("invalid-group-revision")
    );
    assert_eq!(
        change_error(&named("restore"), DefinitionFacts { history: Ok(None), ..facts() }),
        Some("group-definition-history-unavailable")
    );
    assert_eq!(
        change_error(&named("restore"), DefinitionFacts { history: Ok(Some(false)), ..facts() }),
        Some("group-definition-restore-blocked")
    );
    assert_eq!(
        change_error(&creation(), DefinitionFacts { members_readable: false, ..facts() }),
        Some("invalid-group-members")
    );
    assert_eq!(
        change_error(
            &creation(),
            DefinitionFacts { members_allowed: Err(BridgeStage::CheckMembers), ..facts() }
        ),
        Some("group-definition-members-blocked")
    );
    assert!(matches!(
        required_group_scope(&texts(vec![("scope", "personal")])),
        Ok(GroupScope::Personal)
    ));
    assert_eq!(
        required_group_scope(&texts(vec![("scope", "planet")])).err(),
        Some("invalid-group-scope")
    );
}

#[test]
fn definition_changes_are_reviewed_before_they_are_made() {
    let mut plans: TextMap<ReviewedDefinitionChange<u8>> = TextMap::new();
    let mut next: u64 = 0;
    let planned = plan_definition_change(&mut plans, &mut next, &creation(), facts(), 100)
        .ok()
        .expect("planned");
    let operation = text_at(&planned, &["operationId"]).expect("operation id").to_string();
    assert_eq!(operation, "definition-1");
    assert_eq!(
        compact_json(at(&planned, &["plan"])).as_deref(),
        Some("{\"action\":\"create\",\"memberCount\":3,\"planFingerprint\":\"resulting\",\"qualifiedName\":\"personal:focus\",\"scope\":\"personal\"}")
    );
    assert!(appliable_change(&plans, &reference(&operation, "other")).is_err());
    assert!(appliable_change(&plans, &reference(&operation, "resulting")).is_ok());
    let record = WrittenGroup {
        qualified_name: "personal:focus".to_string(),
        revision: "resulting".to_string(),
    };
    let written = change_result("create", GroupScope::Personal, &record, &None);
    let finished = finish_change(&mut plans, &operation, Ok(()), Ok(written));
    assert!(finished.is_ok());
    assert!(appliable_change(&plans, &reference(&operation, "resulting")).is_err());

    let again = plan_definition_change(&mut plans, &mut next, &creation(), facts(), 100)
        .ok()
        .expect("planned");
    assert_eq!(text_at(&again, &["operationId"]), Some("definition-2"));
    assert!(discard_definition_change(&mut plans, &reference("definition-2", "resulting")).is_ok());
    assert!(discard_definition_change(&mut plans, &reference("definition-2", "resulting")).is_err());

    while plans.len() < MAX_REVIEWED_DEFINITION_PLANS {
        assert!(plan_definition_change(&mut plans, &mut next, &creation(), facts(), 100).is_ok());
    }
    assert_eq!(
        plan_definition_change(&mut plans, &mut next, &creation(), facts(), 100).err(),
        Some("group-definition-plan-limit-reached")
    );
    let mut last = u64::MAX;
    assert!(next_definition_operation_id(&mut last).is_err());
}

#[test]
fn definition_results_and_history_are_shown() {
    assert_eq!(
        compact_json(&deletion_result(GroupScope::Personal, "personal:focus", "history")).as_deref(),
        Some("{\"action\":\"delete\",\"historyId\":\"history\",\"qualifiedName\":\"personal:focus\",\"scope\":\"personal\"}")
    );
    let record = |id: &str, before: bool| HistoryRecord {
        history_id: id.to_string(),
        created_at: text("then"),
        scope: GroupScope::Personal,
        change: text("rename"),
        name_before: Some("a".to_string()),
        name_after: None,
        revision_before: Some("one".to_string()),
        revision_after: None,
        definition_before_exists: before,
        definition_after_exists: false,
    };
    let records = vec![record("first", false), record("second", true), record("first", true)];
    assert_eq!(prior_definition(&records, "first"), Some(false));
    assert_eq!(prior_definition(&records, "second"), Some(true));
    assert_eq!(prior_definition(&records, "third"), None);
    let shown = redacted_definition_history(&record("history", false));
    assert_eq!(
        compact_json(&shown).as_deref(),
        Some("{\"change\":\"rename\",\"createdAt\":\"then\",\"definitionAfterExists\":false,\"historyId\":\"history\",\"nameAfter\":null,\"nameBefore\":\"a\",\"revisionAfter\":null,\"revisionBefore\":\"one\",\"scope\":\"personal\"}")
    );
}

fn written() -> StoreAnswer {
    StoreAnswer::Written(WrittenGroup {
        qualified_name: "personal:focus".to_string(),
        revision: "resulting".to_string(),
    })
}

#[test]
fn the_store_answers_what_a_change_comes_to() {
    let (creation, _) =
        definition_change_from_params(&creation(), facts()).ok().expect("a creation");
    let value = apply_reviewed_definition_change(&creation, Ok(written())).ok().expect("written");
    assert_eq!(
        compact_json(&value).as_deref(),
        Some("{\"action\":\"create\",\"historyId\":null,\"qualifiedName\":\"personal:focus\",\"revision\":\"resulting\",\"scope\":\"personal\"}")
    );
    assert_eq!(
        apply_reviewed_definition_change(&creation, Ok(StoreAnswer::Refused)).err(),
        Some("group-definition-apply-blocked")
    );
    assert_eq!(
        apply_reviewed_definition_change(&creation, Err(BridgeStage::BackupKey)).err(),
        Some("backup-authentication-unavailable")
    );
    let restore = texts(vec![("action", "restore"), ("scope", "personal"), ("historyId", "history")]);
    let (restore, _) = definition_change_from_params(&restore, facts()).ok().expect("a restore");
    let value = apply_reviewed_definition_change(&restore, Ok(written())).ok().expect("written");
    assert_eq!(text_at(&value, &["historyId"]), Some("history"));
    let deletion = texts(vec![
        ("action", "delete"),
        ("qualifiedName", "personal:focus"),
        ("expectedRevision", "expected"),
    ]);
    let (deletion, _) = definition_change_from_params(&deletion, facts()).ok().expect("a deletion");
    let deleted = StoreAnswer::Deleted { history_id: "history".to_string() };
    let value = apply_reviewed_definition_change(&deletion, Ok(deleted)).ok().expect("deleted");
    assert_eq!(text_at(&value, &["action"]), Some("delete"));
    assert!(apply_reviewed_definition_change(&deletion, Ok(written())).is_err());
}

#[test]
fn the_history_of_a_scope_is_listed() {
    let records = Vec::new();
    let scope = texts(vec![("scope", "personal")]);
    assert_eq!(
        definition_history(&scope, Ok(&records)).ok().and_then(|value| compact_json(&value)).as_deref(),
        Some("{\"history\":[]}")
    );
    assert_eq!(
        definition_history(&scope, Err(BridgeStage::ReadHistory)).err(),
        Some("group-definition-history-unavailable")
    );
    assert_eq!(
        definition_history(&texts(vec![("scope", "planet")]), Ok(&records)).err(),
        Some("invalid-group-scope")
    );
    assert_eq!(
        definition_history(&texts(vec![("scope", "personal"), ("more", "x")]), Ok(&records)).err(),
        Some("unknown-parameter")
    );
}

fn inspection() -> GroupInspection {
    GroupInspection {
        operation_id: "group".to_string(),
        operation_kind: "inventory-group".to_string(),
        lifecycle: text("completed"),
        qualified_name: text("personal:focus"),
        requested_state: text("on"),
        created_at: Json::Unsigned(1),
        updated_at: Json::Unsigned(2),
        plan_fingerprint: text("print"),
        provider_reach: text("all"),
        provider_coverage: Json::Null,
        provider_reach_lifecycle: text("applied"),
        provider_writes_started: Json::Bool(true),
        recovery_required: false,
        cohorts: vec![
            CohortBackups {
                resource_ids: vec!["a".to_string(), "b".to_string()],
                backup_ids: vec!["one".to_string()],
            },
            CohortBackups { resource_ids: vec!["c".to_string()], backup_ids: vec!["two".to_string()] },
        ],
        evidence_available: true,
        terminal_result: Some(TerminalResult {
            final_state: text("on"),
            observation_fresh: true,
            observation_reason: None,
            members: Json::Null,
        }),
    }
}

#[test]
fn what_is_shown_is_counted_first() {
    assert!(is_countable(&connector_kit()));
    assert!(is_countable(&PluginPackage { instances: Vec::new(), ..connector_kit() }));
    assert!(resources_countable(&inspection().cohorts));
    assert!(resources_countable(&Vec::new()));
}

#[test]
fn recovery_shows_what_could_be_read() {
    let backups = Some(BackupIndex {
        summaries: vec![BackupSummary {
            backup_id: "backup".to_string(),
            created_at: Json::Unsigned(1),
            item_count: 4,
            providers: Json::Null,
            layers: Json::Null,
            restorable: true,
            authentication: text("verified"),
            target_enabled: Json::Null,
        }],
        complete: true,
    });
    let control = Some(vec![ControlOperation {
        operation_id: "control".to_string(),
        operation_kind: text("profile"),
        lifecycle: text("completed"),
        effect_graph_digest: text("digest"),
        authorization_recorded: Json::Bool(true),
        terminal_code: Json::Null,
        recovery_required: false,
        resources: vec!["/private/resource".to_string()],
    }]);
    let value = recovery_snapshot_response(&backups, &control, &Ok(vec![inspection()]));
    let encoded = compact_json(&value).expect("recovery JSON");
    assert!(!encoded.contains("/private/resource"));
    assert_eq!(text_at(&value, &["backupStatus"]), Some("available"));
    assert_eq!(text_at(&value, &["operationStatus"]), Some("available"));
    assert_eq!(text_at(&value, &["groupOperationStatus"]), Some("available"));
    let backups = at(&value, &["backups"]).as_array().expect("backups");
    assert_eq!(text_at(&backups[0], &["backupId"]), Some("backup"));
    assert_eq!(count_at(&backups[0], &["itemCount"]), Some(4));
    let operations = at(&value, &["operations"]).as_array().expect("operations");
    assert_eq!(text_at(&operations[0], &["operationId"]), Some("control"));
    assert_eq!(count_at(&operations[0], &["resourceCount"]), Some(1));
    assert_eq!(text_at(&operations[1], &["operationId"]), Some("group"));
    assert_eq!(count_at(&operations[1], &["resourceCount"]), Some(3));
    assert_eq!(
        compact_json(at(&operations[1], &["backupIds"])).as_deref(),
        Some("[\"one\",\"two\"]")
    );

    let failure = operation_failure(GroupOperationError::ContextMismatch);
    assert!(matches!(failure, GroupOperationFailure::Context));
    assert_eq!(operation_failure(GroupOperationError::Clock).status(), "evidence-invalid");
    let unread = recovery_snapshot_response(&None, &control, &Err(failure));
    assert_eq!(text_at(&unread, &["backupStatus"]), Some("unavailable"));
    assert_eq!(text_at(&unread, &["operationStatus"]), Some("unavailable"));
    assert_eq!(text_at(&unread, &["groupOperationStatus"]), Some("context-unavailable"));
    assert_eq!(len_at(&unread, &["operations"]), Some(1));
    let groups_only = recovery_snapshot_response(&None, &None, &Ok(vec![inspection()]));
    assert_eq!(text_at(&groups_only, &["operationStatus"]), Some("unavailable"));
    assert_eq!(len_at(&groups_only, &["operations"]), Some(1));
    let nothing = recovery_snapshot_response(&None, &None, &Err(GroupOperationFailure::Context));
    assert_eq!(len_at(&nothing, &["operations"]), Some(0));
    assert_eq!(len_at(&nothing, &["backups"]), Some(0));
}

#[test]
fn operations_are_shown_in_the_order_of_their_ids() {
    let named = |id: &str| GroupInspection { operation_id: id.to_string(), ..inspection() };
    let value = recovery_snapshot_response(
        &None,
        &None,
        &Ok(vec![named("c"), named("a"), named("b")]),
    );
    let operations = at(&value, &["operations"]).as_array().expect("operations");
    let ids: Vec<Option<&str>> =
        operations.iter().map(|operation| text_at(operation, &["operationId"])).collect();
    assert_eq!(ids, [Some("a"), Some("b"), Some("c")]);
}

#[test]
fn restores_name_resources_and_count_targets() {
    let plan = redacted_restore_plan(&RestorePlan {
        backup_id: "backup".to_string(),
        providers: text("codex"),
        authentication: text("verified"),
        affected_resource_ids: vec!["one".to_string(), "two".to_string()],
        plan_fingerprint: "print".to_string(),
    });
    assert_eq!(
        compact_json(&plan).as_deref(),
        Some("{\"affectedResourceIds\":[\"one\",\"two\"],\"authentication\":\"verified\",\"backupId\":\"backup\",\"planFingerprint\":\"print\",\"providers\":\"codex\"}")
    );
    let result = redacted_restore_result(&RestoreOutcome {
        status: text("restored"),
        backup_id: "backup".to_string(),
        affected_targets: vec!["/private/one".to_string()],
    });
    assert_eq!(
        compact_json(&result).as_deref(),
        Some("{\"affectedTargetCount\":1,\"backupId\":\"backup\",\"status\":\"restored\"}")
    );
}

#[test]
fn a_snapshot_lists_the_inventory() {
    let snapshot = snapshot_response(&inventory(), 17);
    assert_eq!(count_at(&snapshot, &["capturedAtUnix"]), Some(17));
    assert_eq!(
        compact_json(at(&snapshot, &["inventory"])).as_deref(),
        Some("[{\"category\":\"hook\",\"displayName\":\"Item\",\"enabled\":true,\"id\":\"item\",\"kind\":\"hook\",\"layer\":\"user\",\"mutability\":\"writable\",\"provider\":\"codex\"}]")
    );
    assert_eq!(
        compact_json(at(&snapshot, &["warnings"])).as_deref(),
        Some("[{\"code\":\"odd\",\"layer\":\"user\",\"provider\":\"zed\"}]")
    );
    assert_eq!(
        compact_json(at(&snapshot, &["groupWarnings"])).as_deref(),
        Some("[{\"code\":\"stale\",\"scope\":\"personal\"}]")
    );
}

#[test]
fn work_outside_stops_at_the_first_stage_that_fails() {
    let codes = |work: BridgeWork| -> Vec<&'static str> {
        work.stages().into_iter().map(BridgeStage::code).collect()
    };
    assert_eq!(
        codes(BridgeWork::RestoreApproval),
        [
            "group-context-unavailable",
            "approval-context-unavailable",
            "restore-plan-unavailable",
            "desktop-approval-blocked",
        ]
    );
    assert_eq!(
        codes(BridgeWork::PackageApply),
        [
            "discovery-unavailable",
            "agent-plugin-apply-blocked",
            "group-context-unavailable",
            "fixture-write-sandbox-blocked",
        ]
    );
    assert_eq!(
        codes(BridgeWork::GroupController),
        [
            "backup-authentication-unavailable",
            "session-authority-unavailable",
            "group-context-unavailable",
        ]
    );
    assert_eq!(codes(BridgeWork::Snapshot)[2], "group-state-unavailable");
    assert_eq!(codes(BridgeWork::DefinitionRead)[1], "group-definition-unavailable");
    assert!(matches!(stopped_at(BridgeWork::GroupPlan, 1), Some(BridgeStage::PlanGroup)));
    assert!(stopped_at(BridgeWork::GroupPlan, 2).is_none());
}
