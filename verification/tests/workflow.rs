use unpin::commands::session::PinnedProfile;
use unpin::json::{array, compact_json, text, Json, ObjectBuilder};
use unpin::text_map::TextMap;
use unpin::workflow::{
    cancel_workflow_transition, cancelled_transition, compile_stages, compose_workflow,
    current_workflow_session, find_session, launch_owner, launch_stages, launch_workflow,
    launched_workflow, missing_profile, next_stage, observe_workflow, observed_workflow_mode,
    pinned_entry, pinned_exposure, profile_origin, proposal_stages, propose_workflow, record_launch,
    remember_proposal, store_workflow, transition_workflow, transitioned_workflow,
    validate_reviewed_workflow, validate_workflow, validated_workflow, workflow_draft_value,
    workflow_host_command, workflow_launch, workflow_profile_ids, workflow_recovery,
    workflow_recovery_required, workflow_status, workflow_status_value, CompiledWorkflow,
    CurrentWorkflow, EffectiveProfile, LeaseWorkflow, LiveExposureStatus, MAX_COMMAND_PARTS,
    MAX_COMMAND_PART_BYTES, ModeRevision, ProfileOrigin, ReviewedWorkflowLaunch, WorkflowDraft,
    WorkflowLease, WorkflowModeDraft, WorkflowProposal, WorkflowStage, WorkspaceProfile,
};

fn object(members: Vec<(&str, Json)>) -> Json {
    let mut out = ObjectBuilder::new();
    for (key, value) in members {
        out.put(key, value);
    }
    out.finish()
}

fn texts(members: Vec<(&str, &str)>) -> Json {
    object(members.into_iter().map(|(key, value)| (key, text(value))).collect())
}

fn at<'a>(value: &'a Json, path: &[&str]) -> &'a Json {
    let mut value = value;
    for key in path {
        value = value.get(key).unwrap_or(&Json::Null);
    }
    value
}

fn effective(mode: &str) -> EffectiveProfile {
    EffectiveProfile {
        mode: mode.to_string(),
        profile_id: format!("profile-{mode}"),
        digest: format!("digest-{mode}"),
    }
}

fn text_at<'a>(value: &'a Json, path: &[&str]) -> Option<&'a str> {
    at(value, path).as_text()
}

fn is_true(value: &Json, path: &[&str]) -> bool {
    matches!(at(value, path), Json::Bool(true))
}

fn lease() -> WorkflowLease {
    WorkflowLease {
        session_id: "session".to_string(),
        repository_key: "repository".to_string(),
        workspace_key: "workspace".to_string(),
        active: true,
        workflow: Some(LeaseWorkflow {
            workflow_id: "delivery".to_string(),
            proposal_id: "proposal".to_string(),
            active_mode: "planning".to_string(),
            profile_revisions: vec![ModeRevision {
                mode: "planning".to_string(),
                revision: "b".repeat(64),
            }],
        }),
        desired_revision: "b".repeat(64),
        observed_revision: "b".repeat(64),
        exposures_agree: true,
        live: LiveExposureStatus::Other,
        live_status: text("live"),
        state_sequence: 1,
        admission_open: true,
    }
}

#[test]
fn workflow_status_reports_observed_active_mode_while_transition_is_pending() {
    let mut staged = lease();
    staged.workflow.as_mut().expect("pinned workflow").active_mode = "implementation".to_string();
    staged.desired_revision = "3".repeat(64);
    staged.admission_open = false;

    let status = workflow_status_value(Some(&staged));
    assert_eq!(text_at(&status, &["activeMode"]), Some("planning"));
    assert_eq!(text_at(&status, &["observedMode"]), Some("planning"));
    assert_eq!(text_at(&status, &["desiredMode"]), Some("implementation"));
}

#[test]
fn a_mode_that_was_never_observed_is_not_shown() {
    let mut unknown = lease();
    unknown.observed_revision = "c".repeat(64);
    assert_eq!(observed_workflow_mode(&unknown), None);
    assert_eq!(observed_workflow_mode(&lease()), Some("planning"));
    let mut shared = lease();
    if let Some(workflow) = &mut shared.workflow {
        workflow.profile_revisions.insert(
            0,
            ModeRevision { mode: "building".to_string(), revision: "b".repeat(64) },
        );
    }
    assert_eq!(observed_workflow_mode(&shared), Some("building"));
    let mut bare = lease();
    bare.workflow = None;
    assert_eq!(observed_workflow_mode(&bare), None);
}

fn composition(entry: &str, modes: Vec<(&str, &str)>) -> Json {
    object(vec![
        ("workflowId", text("delivery")),
        ("displayName", text("Delivery")),
        ("provider", text("codex")),
        ("baselineProfileId", text("baseline")),
        ("entryMode", text(entry)),
        (
            "modes",
            array(
                modes
                    .into_iter()
                    .map(|(name, profile)| texts(vec![("name", name), ("profileId", profile)]))
                    .collect(),
            ),
        ),
    ])
}

fn draft() -> WorkflowDraft {
    compose_workflow(&composition("planning", vec![("planning", "baseline"), ("build", "extra")]), true)
        .ok()
        .expect("a draft")
}

fn drafts() -> TextMap<WorkflowDraft> {
    let mut workflows = TextMap::new();
    assert!(store_workflow(&mut workflows, draft(), Some("r".repeat(64))).is_ok());
    workflows
}

#[test]
fn workflows_are_composed_of_named_modes() {
    let read = draft();
    assert_eq!(read.modes.len(), 2);
    assert_eq!(read.modes[1].profile_id, "extra");
    assert_eq!(
        compact_json(at(&workflow_draft_value(&read), &["modes"])).as_deref(),
        Some("[{\"name\":\"planning\",\"profileId\":\"baseline\"},{\"name\":\"build\",\"profileId\":\"extra\"}]")
    );
    let compose = |params: Json, known: bool| compose_workflow(&params, known).err();
    let with_modes = |modes: Json| {
        let mut params = ObjectBuilder::new();
        params.put_text("provider", "codex");
        params.put("modes", modes);
        compose_workflow(&params.finish(), true).err()
    };
    assert_eq!(with_modes(text("planning")), Some("invalid-workflow-modes"));
    assert_eq!(with_modes(array(vec![texts(vec![("name", "a")])])), Some("invalid-params"));
    assert_eq!(
        with_modes(array(vec![texts(vec![("name", "a"), ("profileId", "b"), ("c", "d")])])),
        Some("unknown-parameter")
    );
    assert_eq!(with_modes(array(Vec::new())), Some("invalid-params"));
    assert_eq!(
        compose(composition("planning", vec![("planning", "baseline")]), false),
        Some("invalid-workflow-provider")
    );
    assert_eq!(compose(texts(vec![("color", "red")]), true), Some("unknown-parameter"));
}

#[test]
fn a_draft_that_does_not_digest_is_not_stored() {
    let mut workflows = TextMap::new();
    assert_eq!(
        store_workflow(&mut workflows, draft(), None).err(),
        Some("invalid-workflow-definition")
    );
    assert_eq!(workflows.len(), 0);
}

#[test]
fn a_workflow_is_validated_under_its_revision() {
    let workflows = drafts();
    let ask = |id: &str, revision: &str, known: bool| {
        validate_workflow(
            &workflows,
            &texts(vec![("workflowId", id), ("provider", "codex"), ("workflowRevision", revision)]),
            known,
        )
    };
    assert_eq!(ask("delivery", &"r".repeat(64), true).ok().as_deref(), Some("delivery"));
    assert_eq!(ask("delivery", &"s".repeat(64), true), Err("workflow-revision-mismatch"));
    assert_eq!(ask("other", &"r".repeat(64), true), Err("workflow-draft-unavailable"));
    assert_eq!(ask("delivery", &"r".repeat(64), false), Err("invalid-workflow-provider"));
    let compiled = |digest: Option<&str>| CompiledWorkflow {
        revision_digest: "d".repeat(64),
        entry_mode: "build".to_string(),
        profiles: vec![effective("plan"), effective("build")],
        provider: "codex".to_string(),
        capability_count: 3,
        reload_limitation: text("none"),
        definition_digest: digest.map(|digest| digest.to_string()),
    };
    match pinned_entry(&compiled(None)) {
        Ok(PinnedProfile::Profile { profile_id, profile_digest, definition_digest, .. }) => {
            assert_eq!(profile_id, "profile-build");
            assert_eq!(profile_digest, "digest-build");
            assert_eq!(definition_digest, "d".repeat(64));
        }
        _ => panic!("the profile of the entry mode"),
    }
    let exposure = pinned_exposure(&compiled(None)).ok().expect("an exposure");
    assert_eq!(exposure.revision, "digest-build");
    assert!(matches!(
        exposure.profile,
        PinnedProfile::Profile { profile_id, .. } if profile_id == "profile-build"
    ));
    let entered = CompiledWorkflow { entry_mode: "other".to_string(), ..compiled(None) };
    assert_eq!(
        pinned_exposure(&entered).err().map(WorkflowStage::code),
        Some("workflow-entry-profile-missing")
    );
    assert_eq!(
        pinned_entry(&entered).err().map(WorkflowStage::code),
        Some("workflow-entry-profile-missing")
    );
    let held = workflows.get("delivery").expect("draft");
    let valid = validated_workflow(held, &compiled(Some("digest"))).ok().expect("valid");
    assert_eq!(text_at(&valid, &["workflowRevision"]), Some("d".repeat(64).as_str()));
    assert_eq!(text_at(&valid, &["definitionDigest"]), Some("digest"));
    assert_eq!(at(&valid, &["capabilityCount"]).as_u64(), Some(3));
    assert_eq!(
        validated_workflow(held, &compiled(None)).err(),
        Some("workflow-validation-failed")
    );
}

fn proposal() -> WorkflowProposal {
    WorkflowProposal {
        proposal_id: "proposal".to_string(),
        proposal_fingerprint: "print".to_string(),
        prompt_digest: "prompt".to_string(),
        workflow_id: "delivery".to_string(),
        entry_mode: "planning".to_string(),
        provider: "codex".to_string(),
        repository_key: "repository".to_string(),
        workspace_key: "workspace".to_string(),
        catalog_revision: "catalog".to_string(),
        workflow_revision: "revision".to_string(),
        capability_count: 3,
        gateway_required: true,
    }
}

fn launch_params(fingerprint: &str, command: Vec<&str>) -> Json {
    object(vec![
        ("proposalId", text("proposal")),
        ("proposalFingerprint", text(fingerprint)),
        ("hostCommand", array(command.into_iter().map(text).collect())),
    ])
}

#[test]
fn a_proposal_launches_once() {
    let workflows = drafts();
    let mut launches: TextMap<ReviewedWorkflowLaunch> = TextMap::new();
    let mut session = None;
    let ask = |launches: &TextMap<ReviewedWorkflowLaunch>, session: &Option<String>, print: &str| {
        launch_workflow(launches, &workflows, session, &launch_params(print, vec!["host", "--run"]))
    };
    assert_eq!(ask(&launches, &session, "print").err(), Some("workflow-proposal-unavailable"));
    remember_proposal(&mut launches, proposal(), 100);
    assert_eq!(
        ask(&launches, &session, "other").err(),
        Some("workflow-proposal-fingerprint-mismatch")
    );
    assert_eq!(
        ask(&launches, &Some("running".to_string()), "print").err(),
        Some("workflow-session-already-active")
    );
    let request = ask(&launches, &session, "print").ok().expect("a launch");
    assert_eq!(request.command, ["host", "--run"]);
    assert_eq!(request.workflow_id, "delivery");
    assert_eq!(
        launch_workflow(&launches, &TextMap::new(), &session, &launch_params("print", vec!["host"]))
            .err(),
        Some("workflow-draft-unavailable")
    );
    record_launch(&mut launches, &mut session, &request.proposal_id, "session");
    assert_eq!(session.as_deref(), Some("session"));
    assert_eq!(ask(&launches, &None, "print").err(), Some("workflow-proposal-unavailable"));
}

#[test]
fn host_commands_are_bounded() {
    let command = |parts: Vec<Json>| workflow_host_command(&object(vec![("hostCommand", array(parts))]));
    assert_eq!(command(Vec::new()), Err("workflow-host-command-required"));
    assert_eq!(command(vec![text("")]), Err("invalid-workflow-host-command"));
    assert_eq!(command(vec![Json::Null]), Err("invalid-workflow-host-command"));
    let long = "x".repeat(MAX_COMMAND_PART_BYTES);
    assert!(command(vec![text(&long)]).is_ok());
    assert_eq!(command(vec![text(&format!("{long}x"))]), Err("invalid-workflow-host-command"));
    let many = |n: usize| (0..n).map(|_| text("x")).collect::<Vec<Json>>();
    assert!(command(many(MAX_COMMAND_PARTS)).is_ok());
    assert_eq!(command(many(MAX_COMMAND_PARTS + 1)), Err("workflow-host-command-required"));
    assert_eq!(workflow_host_command(&object(Vec::new())), Err("workflow-host-command-required"));
}

fn current() -> CurrentWorkflow {
    CurrentWorkflow {
        workflow_id: "delivery".to_string(),
        entry_mode: "planning".to_string(),
        provider: "codex".to_string(),
        repository_key: "repository".to_string(),
        workspace_key: "workspace".to_string(),
        catalog_revision: "catalog".to_string(),
        workflow_revision: "revision".to_string(),
        capability_count: 3,
    }
}

#[test]
fn a_launch_is_held_to_what_was_reviewed() {
    assert_eq!(validate_reviewed_workflow(&proposal(), &current()), Ok(()));
    for changed in [
        CurrentWorkflow { workflow_id: "x".to_string(), ..current() },
        CurrentWorkflow { entry_mode: "x".to_string(), ..current() },
        CurrentWorkflow { provider: "x".to_string(), ..current() },
        CurrentWorkflow { repository_key: "x".to_string(), ..current() },
        CurrentWorkflow { workspace_key: "x".to_string(), ..current() },
        CurrentWorkflow { catalog_revision: "x".to_string(), ..current() },
        CurrentWorkflow { workflow_revision: "x".to_string(), ..current() },
        CurrentWorkflow { capability_count: 4, ..current() },
    ] {
        assert!(validate_reviewed_workflow(&proposal(), &changed).is_err());
    }
    let launch = workflow_launch(&proposal());
    assert_eq!(launch.prompt_digest, "prompt");
    assert_eq!(launch.capability_count, 3);
}

#[test]
fn a_launch_compares_before_it_spawns() {
    let stages = launch_stages(2);
    let place = |stage: WorkflowStage| stages.iter().position(|known| *known == stage).expect("stage");
    assert!(place(WorkflowStage::CompareProposal) < place(WorkflowStage::Spawn));
    assert!(place(WorkflowStage::CompileWorkflow) < place(WorkflowStage::CompareProposal));
    assert_eq!(stages[..compile_stages(2).len()], compile_stages(2)[..]);
    assert_eq!(
        stages.iter().filter(|stage| **stage == WorkflowStage::LoadProfile).count(),
        2
    );
    let spawn = place(WorkflowStage::Spawn);
    assert_eq!(next_stage(&stages, spawn, false), Err(WorkflowStage::Spawn.code()));
    assert_eq!(next_stage(&stages, 0, true), Ok(Some(1)));
    assert_eq!(next_stage(&stages, stages.len() - 1, true), Ok(None));
    assert_eq!(proposal_stages(0).last(), Some(&WorkflowStage::BuildProposal));
}

#[test]
fn profiles_of_a_workflow_are_loaded_once() {
    let mode = |name: &str, profile: &str| WorkflowModeDraft {
        name: name.to_string(),
        profile_id: profile.to_string(),
    };
    let ids = workflow_profile_ids(
        "base",
        &vec![mode("a", "x"), mode("b", "base"), mode("c", "a"), mode("d", "x")],
    );
    assert_eq!(ids, ["a", "base", "x"]);
    assert!(matches!(profile_origin(WorkspaceProfile::Present, true), Ok(ProfileOrigin::Workspace)));
    assert!(matches!(profile_origin(WorkspaceProfile::Missing, true), Ok(ProfileOrigin::Global)));
    assert!(profile_origin(WorkspaceProfile::Missing, false).is_err());
    assert!(profile_origin(WorkspaceProfile::Unreadable, true).is_err());
    assert!(missing_profile("base").contains("base"));
    assert!(launch_owner("proposal").contains("proposal"));
}

#[test]
fn sessions_are_found_by_their_id() {
    let leases = vec![lease()];
    assert_eq!(find_session(&leases, "session"), Some(0));
    assert_eq!(find_session(&leases, "other"), None);
    assert_eq!(current_workflow_session(&leases, &Some("session".to_string())), Ok(0));
    assert_eq!(
        current_workflow_session(&leases, &None),
        Err("workflow-session-unavailable")
    );
}

fn transition(mode: &str) -> Json {
    object(vec![
        ("operationId", text("operation")),
        ("operationFingerprint", text("print")),
        ("sourceStateSequence", Json::Unsigned(4)),
        ("targetMode", text(mode)),
        ("requestedAtUnix", Json::Unsigned(1000)),
    ])
}

#[test]
fn a_transition_stays_within_the_reviewed_modes() {
    let held = lease();
    let request = transition_workflow(true, Ok(&held), &transition("planning")).ok().expect("a request");
    assert_eq!(request.source_state_sequence, 4);
    assert_eq!(request.requested_at_unix, 1000);
    assert_eq!(request.target_mode, "planning");
    assert_eq!(
        transition_workflow(true, Ok(&held), &transition("other")).err(),
        Some("workflow-expansion-requires-review")
    );
    assert_eq!(
        transition_workflow(false, Ok(&held), &transition("planning")).err(),
        Some("workflow-session-unavailable")
    );
    assert_eq!(
        transition_workflow(true, Err("state-unavailable"), &transition("planning")).err(),
        Some("state-unavailable")
    );
    assert_eq!(
        transition_workflow(true, Ok(&held), &texts(vec![("targetMode", "planning")])).err(),
        Some("invalid-workflow-transition")
    );
    let bare = WorkflowLease { workflow: None, ..lease() };
    assert_eq!(
        transition_workflow(true, Ok(&bare), &transition("planning")).err(),
        Some("workflow-session-unavailable")
    );
    assert_eq!(
        cancel_workflow_transition(&texts(vec![("operationId", "operation")]), true).ok().as_deref(),
        Some("operation")
    );
    assert_eq!(
        cancel_workflow_transition(&texts(vec![("operationId", "operation")]), false),
        Err("workflow-session-unavailable")
    );
}

#[test]
fn responses_show_the_session_and_its_status() {
    let held = lease();
    let operations = vec![text("operation")];
    let launched = launched_workflow("session", &held, &operations);
    assert_eq!(text_at(&launched, &["status"]), Some("launched"));
    let answered = transitioned_workflow(&object(vec![("result", text("ok"))]), &held, &operations);
    assert_eq!(text_at(&answered, &["result"]), Some("ok"));
    let bare = transitioned_workflow(&text("plain"), &held, &operations);
    assert_eq!(text_at(&bare, &["result"]), Some("plain"));
    let cancelled = cancelled_transition("operation", &held, &operations);
    assert_eq!(text_at(&cancelled, &["operationId"]), Some("operation"));
    assert!(observe_workflow(&object(Vec::new()), &held, &operations).is_ok());
    assert!(observe_workflow(&texts(vec![("odd", "x")]), &held, &operations).is_err());
    let status = workflow_status(&drafts(), Some(&held), &operations);
    assert!(compact_json(&status).expect("status").contains("delivery"));
    assert!(is_true(&workflow_recovery(None, &operations), &["recoveryRequired"]));
    let ready = workflow_recovery(None, &Vec::new());
    assert_eq!(text_at(&ready, &["status"]), Some("ready"));
    assert_eq!(text_at(&ready, &["message"]), Some("No workflow recovery is required."));
}

#[test]
fn unclear_exposure_asks_for_recovery() {
    assert!(!workflow_recovery_required(&lease()));
    let agreed = WorkflowLease { live: LiveExposureStatus::Unknown, ..lease() };
    assert!(!workflow_recovery_required(&agreed));
    let unknown =
        WorkflowLease { live: LiveExposureStatus::Unknown, exposures_agree: false, ..lease() };
    assert!(workflow_recovery_required(&unknown));
    assert!(is_true(&workflow_recovery(Some(&unknown), &Vec::new()), &["recoveryRequired"]));
}

#[test]
fn proposals_pick_a_draft_of_the_provider() {
    let workflows = drafts();
    let ask = |provider: Option<&str>| {
        propose_workflow(
            &workflows,
            &texts(vec![("prompt", "do it"), ("provider", "codex")]),
            &provider.map(|name| name.to_string()),
        )
    };
    assert_eq!(ask(Some("codex")).ok().as_deref(), Some("delivery"));
    assert!(ask(Some("zed")).is_err());
    assert_eq!(ask(None), Err("workflow-provider-required"));
}
