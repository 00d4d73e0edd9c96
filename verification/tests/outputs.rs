use unpin::bridge_frame::discard_to_newline;
use unpin::broker_protocol::ByteReader;
use unpin::commands::flow::CommandStep;
use unpin::commands::group::definition_preview;
use unpin::commands::profile::policy_maintenance_status;
use unpin::commands::toggle::ProviderReachLifecycle;
use unpin::json::{compact_json, text, Json};
use unpin::keys::{
    backup_authentication_status, initialize_backup_authentication_key,
    initialize_session_authority_key, session_authority_key_status, KeyInitialization, KeyState,
};
use unpin::report::catalog::{catalog_record, CatalogRecord};
use unpin::report::gateway::{
    gateway_plan_detail, gateway_result_detail, GatewayPlan, GatewayResult,
};
use unpin::report::group::{delete_preview, group_warning_line, rename_preview, restore_preview};
use unpin::report::hook::{hook_coverage_list, hook_trust_plan, hook_trust_result, HookProvider};
use unpin::report::profile::{
    lock_lines, lock_list, lock_plan, lock_plan_line, lock_result, lock_result_line, lock_status,
    maintenance_owner, maintenance_plan, maintenance_result, maintenance_result_line,
    no_proposal_line, policy_status, profile_plan, profile_proposal, profile_proposal_line,
    profile_result, profile_result_line, profile_value, reach_result_line, valid_profile,
    LockStatus,
};
use unpin::report::session::{session_end_plan, session_end_result, session_lines};
use unpin::report::shown_providers;
use unpin::report::toggle::{bulk_status, BulkOperation, BulkOutcome};
use unpin::report::workflow::{
    compiled_proposal, workflow_change_detail, workflow_change_plan, workflow_change_result,
    workflow_change_result_line, workflow_proposal, workflow_value,
};
use unpin::secret_store::MemorySecretStore;

fn assert_shown(value: &Json, expected: &str) {
    assert_eq!(compact_json(value).expect("JSON"), expected.replace('\'', "\""));
}

#[test]
fn policy_maintenance_is_written_out() {
    assert_shown(
        &policy_status(&text("t"), &Some(text("m"))),
        "{'humanAction':null,'maintenance':'m','status':'managed','target':'t'}",
    );
    assert_shown(
        &policy_status(&text("t"), &None),
        "{'humanAction':{'code':'review-migration','guidance':'Run `unpin profile policy migrate` to review the fixed workspace source.'},'maintenance':null,'status':'unmanaged','target':'t'}",
    );
    assert_shown(
        &maintenance_plan(&text("p")),
        "{'humanAction':{'code':'confirm-and-apply','guidance':'Re-run with --apply --confirm and this plan fingerprint.'},'plan':'p','status':'planned'}",
    );
    assert_shown(
        &maintenance_result("f", &text("o")),
        "{'outcome':'o','planFingerprint':'f','status':'applied'}",
    );
    assert_eq!(maintenance_result_line("o", "b"), "policy maintenance applied operation=o backup=b");
    assert_eq!(maintenance_owner("o"), "unpin-cli-o");
    let steps = |current: bool| {
        policy_maintenance_status(current).iter().map(|rule| rule.step).collect::<Vec<CommandStep>>()
    };
    assert!(!steps(false).contains(&CommandStep::WorkspaceIdentity));
    assert!(
        steps(true)
            == vec![
                CommandStep::ResolveConfig,
                CommandStep::CheckInputs,
                CommandStep::WorkspaceIdentity,
                CommandStep::PolicyTarget,
                CommandStep::BackupKey,
                CommandStep::ReadState,
            ]
    );
}

#[test]
fn capability_locks_are_written_out() {
    let lock = || LockStatus {
        provider: "p".to_string(),
        gateway: text("g"),
        gateway_source: Json::Null,
        digest: "d".to_string(),
        entries: vec![text("x"), text("y")],
        enforcement: text("e"),
    };
    assert_shown(
        &lock_status(&lock(), "r", "w"),
        "{'action':'unpin profile lock','activation':'next-session-only','activeSessionsUnaffected':true,'digest':'d','enforcement':'e','entries':['x','y'],'gateway':'g','gatewaySource':null,'provider':'p','repositoryKey':'r','source':'global','workspaceKey':'w'}",
    );
    assert_shown(&lock_list(&vec![text("l")]), "{'locks':['l'],'status':'ok'}");
    assert_eq!(
        lock_lines(&vec![lock()]),
        ["p global locks=2 digest=d activation=next-session-only"]
    );
    assert_eq!(lock_lines(&Vec::new()), ["No global capability locks."]);
    assert_shown(
        &lock_plan(&text("o"), &text("p")),
        "{'operation':'o','plan':'p','status':'planned'}",
    );
    assert_eq!(
        lock_plan_line("p", "f"),
        "planned global p capability lock activation=next-session-only fingerprint=f"
    );
    assert_shown(
        &lock_result(&text("o"), &text("r")),
        "{'operation':'o','result':'r','status':'applied'}",
    );
    assert_eq!(
        lock_result_line("p"),
        "global p capability lock applied; activation=next-session-only"
    );
}

#[test]
fn profile_selection_is_written_out() {
    assert_shown(&profile_value(&text("v")), "{'profile':'v','status':'ok'}");
    assert_shown(&valid_profile(&text("v")), "{'profile':'v','status':'valid'}");
    assert_shown(
        &profile_plan(&text("o"), &text("v"), &text("p")),
        "{'operation':'o','plan':'p','profile':'v','status':'planned'}",
    );
    assert_shown(
        &profile_result(&text("o"), &text("v"), &text("r")),
        "{'operation':'o','profile':'v','result':'r','status':'applied'}",
    );
    assert_eq!(
        profile_result_line("v", "Live"),
        "profile v selected; activation=next-session-only mode=Live"
    );
    assert_eq!(
        reach_result_line("v", "applied", "All", "Next"),
        "profile v applied; reach=All activation=Next"
    );
    let proposed = profile_proposal(true, &text("v"));
    assert_eq!(proposed.get("status").and_then(Json::as_text), Some("proposed"));
    let open = profile_proposal(false, &text("v"));
    assert_eq!(open.get("status").and_then(Json::as_text), Some("selection-required"));
    assert_eq!(
        open.get("humanAction").and_then(|action| action.get("guidance")).and_then(Json::as_text),
        Some("Choose the proposed profile explicitly when launching a session. This proposal never changes persistent or active exposure.")
    );
    assert_eq!(
        profile_proposal_line("v", "Global", "f"),
        "proposed session profile v (Global); confirmation required; fingerprint=f"
    );
    assert_eq!(
        no_proposal_line(3),
        "no unique session profile proposal; choose explicitly from 3 candidates"
    );
}

#[test]
fn gateway_changes_are_detailed() {
    assert_shown(
        &gateway_plan_detail(&GatewayPlan {
            plan_fingerprint: "p".to_string(),
            blocked_reason: None,
            action: "Activate".to_string(),
            mode: text("m"),
            policy: text("q"),
            native_views: text("n"),
        }),
        "{'modePlan':'m','nativeMcpReferences':'not-managed','nativeViewPlan':'n','policyPlan':'q'}",
    );
    assert_shown(
        &gateway_result_detail(&GatewayResult {
            plan_fingerprint: "p".to_string(),
            mode: text("m"),
            policy: text("q"),
            native_views: text("n"),
        }),
        "{'mode':'m','nativeMcpReferences':'not-managed','nativeViews':'n','policy':'q'}",
    );
}

#[test]
fn group_previews_are_written_out() {
    assert_eq!(group_warning_line("c", "m"), "warning: c: m");
    assert_shown(
        &rename_preview(&text("b"), &text("a")),
        "{'after':'a','before':'b','change':'rename'}",
    );
    assert_shown(&delete_preview(&text("b")), "{'before':'b','change':'delete'}");
    assert_shown(
        &restore_preview(&text("h")),
        "{'change':'restore-definition','history':'h'}",
    );
    assert_shown(
        &definition_preview("f", text("v")),
        "{'humanAction':{'code':'confirm-definition-change','guidance':'Re-run with --apply --confirm and this plan fingerprint.'},'planFingerprint':'f','preview':'v','status':'planned'}",
    );
}

#[test]
fn hook_changes_are_written_out() {
    let row = HookProvider {
        provider: text("p"),
        adapter: text("a"),
        built_in_tools: Json::Bool(true),
        gateway_mcp_tools: Json::Null,
        native_events: Json::Null,
        managed_asset: true,
        installations: vec![text("i")],
    };
    assert_shown(
        &hook_coverage_list(&vec![row]),
        "{'coverage':[{'adapter':'a','builtInTools':true,'gatewayMcpTools':null,'managedAsset':true,'managedBridgeInstallations':['i'],'nativeEvents':null,'nativeHostActivation':'pending-live-verification','provider':'p','verificationScope':'fixture-contract'}],'status':'ok'}",
    );
    assert_shown(
        &hook_trust_plan(&text("h"), &text("e"), "f"),
        "{'activation':'next-session-only','expectation':'e','hook':'h','humanApprovalRequired':true,'planFingerprint':'f','status':'planned'}",
    );
    assert_shown(
        &hook_trust_result(&text("t")),
        "{'activation':'next-session-only','status':'trusted','trust':'t'}",
    );
}

#[test]
fn capabilities_and_sessions_are_written_out() {
    assert_shown(
        &catalog_record(&CatalogRecord {
            id: "i".to_string(),
            kind: "Skill".to_string(),
            providers: 1,
            active: true,
            fingerprint: "f".to_string(),
            value: text("v"),
        }),
        "{'capability':'v','status':'ok'}",
    );
    assert_eq!(session_lines(&Vec::new()), ["No active sessions."]);
    assert_shown(
        &session_end_plan(&text("o"), &text("p")),
        "{'humanApprovalRequired':true,'operation':'o','plan':'p','status':'planned'}",
    );
    assert_shown(
        &session_end_result(&text("o"), &text("r")),
        "{'operation':'o','result':'r','status':'applied'}",
    );
    let operation = |result: Option<BulkOutcome>| BulkOperation {
        lifecycle: ProviderReachLifecycle::Applied,
        operation_id: "o".to_string(),
        plan_fingerprint: "p".to_string(),
        provider_reach: text("all"),
        provider_coverage: Json::Null,
        acknowledgement: Json::Null,
        lifecycle_value: text("applied"),
        result,
    };
    assert_shown(
        &bulk_status(&operation(None)),
        "{'acknowledgement':null,'lifecycle':'applied','operationId':'o','planFingerprint':'p','providerCoverage':null,'providerReach':'all','result':null,'status':'applied','statusVersion':2}",
    );
    assert_shown(
        &bulk_status(&operation(Some(BulkOutcome {
            provider_reach: text("one"),
            provider_coverage: text("c"),
            value: text("r"),
        }))),
        "{'acknowledgement':null,'lifecycle':'applied','operationId':'o','planFingerprint':'p','providerCoverage':'c','providerReach':'one','result':'r','status':'applied','statusVersion':2}",
    );
    let all = vec!["a".to_string(), "b".to_string()];
    assert_eq!(shown_providers(&None, &all), ["a", "b"]);
    assert_eq!(shown_providers(&Some("c".to_string()), &all), ["c"]);
}

#[test]
fn workflow_changes_are_written_out() {
    assert_shown(&workflow_value(&text("w")), "{'status':'ok','workflow':'w'}");
    assert_shown(
        &compiled_proposal(&text("p"), &vec![text("c")]),
        "{'candidates':['c'],'humanAction':{'code':'confirm-workflow-session','guidance':'Choose this workflow explicitly when launching a session; this proposal never changes active exposure.'},'proposal':'p'}",
    );
    assert_shown(
        &workflow_proposal("proposed", &text("p")),
        "{'proposal':'p','status':'proposed'}",
    );
    assert_shown(
        &workflow_change_plan(&text("o"), &text("p")),
        "{'operation':'o','plan':'p','status':'planned'}",
    );
    assert_shown(
        &workflow_change_detail(&text("r"), "d"),
        "{'decisionDigest':'d','result':'r'}",
    );
    assert_shown(
        &workflow_change_result(&text("o"), "f", &text("r")),
        "{'operation':'o','planFingerprint':'f','result':'r','status':'applied'}",
    );
    assert_eq!(
        workflow_change_result_line("w"),
        "workflow w applied; activation=next-session-only"
    );
}

#[test]
fn frames_are_skipped_to_their_end() {
    let mut input = ByteReader::new(b"too long\nnext".to_vec());
    discard_to_newline(&mut input, 4);
    assert_eq!(input.read_exact(4).ok().expect("rest"), b"next");
    let mut open = ByteReader::new(b"no end".to_vec());
    discard_to_newline(&mut open, 4);
    assert!(open.read_exact(1).is_err());
}

#[test]
fn random_keys_are_created_once() {
    let mut store = MemorySecretStore::new();
    let created = match initialize_backup_authentication_key(&mut store).expect("backup key") {
        KeyInitialization::Created { key } => key,
        _ => panic!("no key is stored yet"),
    };
    assert!(matches!(
        initialize_backup_authentication_key(&mut store).expect("backup key"),
        KeyInitialization::AlreadyExists { key } if key == created
    ));
    assert!(matches!(
        backup_authentication_status(&store).expect("status"),
        KeyState::Ready { key } if key == created
    ));
    assert!(matches!(session_authority_key_status(&store).expect("status"), KeyState::Missing));
    assert!(matches!(
        initialize_session_authority_key(&mut store).expect("session key"),
        KeyInitialization::Created { key } if key != created
    ));
}
