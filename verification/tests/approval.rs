use unpin::approval::{
    approval_challenge, authorize_control_decision, authorize_operator_descriptor,
    begin_desktop_approval, begin_human_approval, group_plan_binds, issue_human_approval_with,
    operator_authorization, operator_descriptor_allowed, operator_receipt_bytes,
    operator_request_allowed, read_human_presence_response, render_human_approval_prompt,
    render_inventory_group_review, require_controlling_terminal, require_live_apply_terminal,
    validate_human_presence_response, validate_prompt_value, ApprovalClaims, ApprovalEvent,
    ApprovalExpectation, ApprovalResource, ApprovalStage, ApprovalStep, OperatorEvidence,
    PresenceResponse, ReadEvent, TerminalAccess, MAX_OPERATOR_RECEIPT_BYTES,
};
use unpin::broker_protocol::ByteReader;

const NOW: i64 = 2_000_000_000;
const MAXIMUM_LIFETIME: i64 = 600;

fn approval_expectation() -> ApprovalExpectation {
    ApprovalExpectation {
        issuer: "unpin-cli-human".to_string(),
        audience: "unpin-core-control".to_string(),
        operation_id: "profile-policy-reviewed-plan".to_string(),
        operation_kind: "profile-policy".to_string(),
        effect_graph_digest: "71".repeat(32),
        repository_key: "repository-key".to_string(),
        workspace_key: "workspace-key".to_string(),
        session_id: Some("session-id".to_string()),
        profile_digest: Some("42".repeat(32)),
        resources: vec![ApprovalResource {
            resource_id: "profile-policy-resource".to_string(),
            pre_state_fingerprint: Some("24".repeat(32)),
        }],
    }
}

/// Runs an approval: presence answers with `presence`, the key is there, the
/// suffix is `suffix`. Says which stages were asked for.
fn run_approval(
    expectation: &ApprovalExpectation,
    plan_fingerprint: &str,
    reviewed: Option<&str>,
    presence: Result<(), String>,
    suffix: &str,
) -> (Result<ApprovalClaims, String>, Vec<&'static str>) {
    let mut asked = Vec::new();
    let mut step = begin_human_approval(expectation, plan_fingerprint, reviewed);
    loop {
        let (stage, event) = match step {
            ApprovalStep::Refuse(message) => return (Err(message), asked),
            ApprovalStep::Issue(claims) => return (Ok(claims), asked),
            ApprovalStep::Ask(ApprovalStage::Presence) => {
                asked.push("presence");
                (
                    ApprovalStage::Presence,
                    match &presence {
                        Ok(()) => ApprovalEvent::Done,
                        Err(message) => ApprovalEvent::Failed(message.clone()),
                    },
                )
            }
            ApprovalStep::Ask(ApprovalStage::Key) => {
                asked.push("key");
                (ApprovalStage::Key, ApprovalEvent::Done)
            }
            ApprovalStep::Ask(ApprovalStage::Issuer) => {
                asked.push("issuer");
                (ApprovalStage::Issuer, ApprovalEvent::Done)
            }
            ApprovalStep::Ask(ApprovalStage::Suffix) => {
                asked.push("suffix");
                (ApprovalStage::Suffix, ApprovalEvent::Suffix(suffix.to_string()))
            }
        };
        step = issue_human_approval_with(stage, event, expectation, NOW, MAXIMUM_LIFETIME);
    }
}

fn refused(
    expectation: &ApprovalExpectation,
    plan_fingerprint: &str,
    reviewed: Option<&str>,
    presence: Result<(), String>,
) -> (String, Vec<&'static str>) {
    let (result, asked) = run_approval(expectation, plan_fingerprint, reviewed, presence, "unreachable");
    (result.err().expect("the approval must fail"), asked)
}

#[test]
fn noninteractive_confirm_cannot_load_key_or_mint_approval() {
    let expectation = approval_expectation();
    let digest = expectation.effect_graph_digest.clone();
    let (error, asked) = refused(
        &expectation,
        &digest,
        Some(&digest),
        Err("interactive human approval requires a controlling terminal".to_string()),
    );
    assert!(error.contains("controlling terminal"));
    assert!(!asked.contains(&"key"), "signing key must remain unopened");
}

#[test]
fn cancelled_and_wrong_presence_responses_fail_before_key_access() {
    let expectation = approval_expectation();
    let digest = expectation.effect_graph_digest.clone();
    for response in ["", "yes", "approve wrong-plan"] {
        let presence = validate_human_presence_response(response, &digest);
        assert!(presence.is_err(), "response {response:?} must fail");
        let (_, asked) = refused(&expectation, &digest, Some(&digest), presence);
        assert!(!asked.contains(&"key"), "signing key must remain unopened");
    }
}

#[test]
fn desktop_approval_requires_presence_before_the_signing_key_is_opened() {
    let expectation = approval_expectation();
    let digest = expectation.effect_graph_digest.clone();
    let presence = require_controlling_terminal(&TerminalAccess::Detached);
    let (error, asked) = refused(&expectation, &digest, Some(&digest), presence);
    assert!(error.contains("controlling terminal"));
    assert!(!asked.contains(&"key"), "signing key must remain unopened");
}

#[test]
fn reviewed_fingerprint_mismatch_fails_before_presence_or_key_access() {
    let expectation = approval_expectation();
    let digest = expectation.effect_graph_digest.clone();
    let (error, asked) = refused(&expectation, &digest, Some(&"19".repeat(32)), Ok(()));
    assert_eq!(error, "plan-fingerprint-mismatch");
    assert!(asked.is_empty(), "signing key must remain unopened");
}

#[test]
fn reviewed_fingerprint_must_bind_exact_approval_expectation() {
    let expectation = approval_expectation();
    let unrelated_fingerprint = "19".repeat(32);
    let (error, asked) = refused(
        &expectation,
        &unrelated_fingerprint,
        Some(&unrelated_fingerprint),
        Ok(()),
    );
    assert!(error.contains("does not bind approval expectation"));
    assert!(asked.is_empty(), "signing key must remain unopened");
}

#[test]
fn fixture_presence_issues_short_lived_exactly_bound_approval() {
    let expectation = approval_expectation();
    let digest = expectation.effect_graph_digest.clone();
    let (claims, asked) = run_approval(&expectation, &digest, Some(&digest), Ok(()), "fixture-random");
    let claims = claims.ok().expect("fixture approval");
    assert_eq!(asked, ["presence", "key", "issuer", "suffix"]);
    assert_eq!(claims.operation_id, expectation.operation_id);
    assert_eq!(claims.operation_kind, expectation.operation_kind);
    assert_eq!(claims.effect_graph_digest, expectation.effect_graph_digest);
    assert_eq!(claims.repository_key, expectation.repository_key);
    assert_eq!(claims.workspace_key, expectation.workspace_key);
    assert_eq!(claims.session_id, expectation.session_id);
    assert_eq!(claims.profile_digest, expectation.profile_digest);
    assert_eq!(claims.resources[0].resource_id, expectation.resources[0].resource_id);
    assert_eq!(claims.issued_at_unix, NOW);
    assert_eq!(claims.expires_at_unix - claims.issued_at_unix, 300);
    assert!(claims.receipt_id.contains("fixture-random"));
    assert!(claims.nonce.contains("fixture-random"));
    assert_ne!(claims.receipt_id, claims.nonce);
}

#[test]
fn operator_receipt_descriptor_is_external_and_single_use() {
    for descriptor in [0, 1, 2, -1] {
        assert_eq!(
            operator_descriptor_allowed(descriptor).expect_err("stdio must be rejected"),
            "approval-principal-unverified"
        );
    }
    assert!(operator_descriptor_allowed(3).is_ok());
    assert_eq!(
        operator_receipt_bytes(Ok(vec![b' '; 128 * 1024 + 1]))
            .expect_err("oversized receipts must be rejected"),
        "approval-principal-unverified"
    );
    assert_eq!(
        operator_receipt_bytes(Err("closed".to_string())).expect_err("unread receipt"),
        "approval-principal-unverified"
    );
    assert_eq!(operator_receipt_bytes(Ok(b"{}".to_vec())).unwrap(), b"{}".to_vec());
    assert_eq!(MAX_OPERATOR_RECEIPT_BYTES, 128 * 1024);

    let expectation = approval_expectation();
    let digest = expectation.effect_graph_digest.clone();
    let evidence = |bytes: Vec<u8>, authorized: Result<u8, String>| OperatorEvidence {
        read: Ok(bytes),
        parsed: Ok(()),
        key: Ok(Some([0x24; 32])),
        authorized,
    };
    // A ledger that lets a nonce be used for one operation only.
    let mut spent: Option<String> = None;
    let mut spend = |operation: &str| {
        let first = spent.get_or_insert_with(|| operation.to_string());
        if first.as_str() == operation { Ok(7_u8) } else { Err("nonce was spent".to_string()) }
    };
    assert_eq!(
        authorize_operator_descriptor(
            &expectation,
            &digest,
            Some(&digest),
            3,
            evidence(b"{}".to_vec(), spend(&expectation.operation_id)),
        ),
        Ok(7)
    );
    let mut replayed = approval_expectation();
    replayed.operation_id = "operator-replay-operation".to_string();
    assert_eq!(
        authorize_operator_descriptor(
            &replayed,
            &digest,
            Some(&digest),
            3,
            evidence(b"{}".to_vec(), spend(&replayed.operation_id)),
        )
        .expect_err("receipt nonce must not cross operations"),
        "approval-principal-unverified"
    );
    for (descriptor, bytes) in [(0, b"{}".to_vec()), (3, vec![b' '; 128 * 1024 + 1])] {
        assert_eq!(
            authorize_operator_descriptor(
                &expectation,
                &digest,
                Some(&digest),
                descriptor,
                evidence(bytes, Ok(7)),
            )
            .expect_err("stdio and oversized receipts must be rejected"),
            "approval-principal-unverified"
        );
    }
}

#[test]
fn every_failure_of_an_operators_receipt_looks_the_same() {
    let key = || Ok(Some([0x24; 32]));
    assert_eq!(operator_authorization(Ok(()), key(), Ok(7_u8)), Ok(7));
    let failed = || Err("no luck".to_string());
    for answer in [
        operator_authorization(Err("no receipt".to_string()), key(), Ok(7_u8)),
        operator_authorization(Ok(()), Ok(None), Ok(7)),
        operator_authorization(Ok(()), Err("no key".to_string()), Ok(7)),
        operator_authorization(Ok(()), key(), failed()),
    ] {
        assert_eq!(answer.expect_err("a failure"), "approval-principal-unverified");
    }
}

#[test]
fn human_prompt_shows_operation_fingerprint_scope_and_resources() {
    let expectation = approval_expectation();
    let prompt = render_human_approval_prompt(&expectation, &expectation.effect_graph_digest);
    assert!(prompt.contains("operation: profile-policy (profile-policy-reviewed-plan)"));
    assert!(prompt.contains(&format!("fingerprint: {}", expectation.effect_graph_digest)));
    assert!(prompt.contains("repository=repository-key workspace=workspace-key"));
    assert!(prompt.contains("profile-policy-resource"));
    assert!(prompt.contains(&approval_challenge(&expectation.effect_graph_digest)));
}

#[test]
fn a_missing_key_or_a_failed_draw_refuses_the_approval() {
    let expectation = approval_expectation();
    match issue_human_approval_with(
        ApprovalStage::Key,
        ApprovalEvent::Missing,
        &expectation,
        NOW,
        MAXIMUM_LIFETIME,
    ) {
        ApprovalStep::Refuse(message) => assert!(!message.is_empty()),
        _ => panic!("a key that is missing"),
    }
    match issue_human_approval_with(
        ApprovalStage::Suffix,
        ApprovalEvent::Failed("no entropy".to_string()),
        &expectation,
        NOW,
        MAXIMUM_LIFETIME,
    ) {
        ApprovalStep::Refuse(message) => assert!(message.contains("no entropy")),
        _ => panic!("a draw that failed"),
    }
}

#[test]
fn the_challenge_is_answered_word_for_word() {
    let digest = "71".repeat(32);
    let challenge = approval_challenge(&digest);
    assert_eq!(challenge, format!("approve {}", &digest[..12]));
    assert!(validate_human_presence_response(&challenge, &digest).is_ok());
    assert_eq!(
        validate_human_presence_response("", &digest).unwrap_err(),
        "human approval cancelled"
    );
    assert_eq!(
        validate_human_presence_response("approve", &digest).unwrap_err(),
        "human approval rejected: response did not match challenge"
    );
}

#[test]
fn a_response_ends_with_its_line() {
    let mut input = ByteReader::new(b"approve 717171717171\r\nrest".to_vec());
    assert_eq!(read_human_presence_response(&mut input).unwrap(), "approve 717171717171");
    let mut invalid = ByteReader::new(vec![0xff, b'\n']);
    assert!(read_human_presence_response(&mut invalid).is_err());
    let mut long = ByteReader::new(vec![b'a'; 300]);
    assert!(read_human_presence_response(&mut long).is_err());
    let mut response = PresenceResponse::new();
    assert!(response.accept(ReadEvent::Byte(b'y')).is_none());
    match response.accept(ReadEvent::Failed("gone".to_string())) {
        Some(Err(message)) => assert!(message.contains("gone")),
        _ => panic!("a read that failed"),
    }
    match PresenceResponse::new().accept(ReadEvent::Interrupted) {
        Some(Err(message)) => assert_eq!(message, "human approval cancelled"),
        _ => panic!("a read that was interrupted"),
    }
    match PresenceResponse::new().accept(ReadEvent::End) {
        Some(Err(message)) => assert_eq!(message, "human approval cancelled"),
        _ => panic!("a terminal that was closed"),
    }
}

#[test]
fn a_live_apply_needs_a_terminal() {
    let failed = TerminalAccess::Failed("closed".to_string());
    assert!(require_live_apply_terminal(true, &failed).is_ok());
    assert!(require_live_apply_terminal(false, &TerminalAccess::Opened).is_ok());
    assert!(require_live_apply_terminal(false, &TerminalAccess::Detached).is_err());
    assert_eq!(
        require_live_apply_terminal(false, &failed).expect_err("a terminal that is closed"),
        "interactive human approval requires a controlling terminal; --confirm and stdin are insufficient: closed"
    );
    assert_eq!(
        require_live_apply_terminal(false, &TerminalAccess::Unsupported)
            .expect_err("a platform without a terminal"),
        "interactive human approval is unsupported on this platform; live apply is blocked"
    );
    assert!(render_inventory_group_review(&TerminalAccess::Opened).is_ok());
    assert_eq!(
        render_inventory_group_review(&failed).expect_err("a terminal that is closed"),
        "inventory group approval requires a controlling terminal: closed"
    );
    assert_eq!(
        render_inventory_group_review(&TerminalAccess::Unsupported)
            .expect_err("a platform without a terminal"),
        "inventory group approval is unsupported on this platform"
    );
}

#[test]
fn the_desktop_is_asked_on_one_platform() {
    let expectation = approval_expectation();
    let digest = expectation.effect_graph_digest.clone();
    let begin = |fixture: bool, macos: bool, reviewed: Option<&str>| {
        begin_desktop_approval(fixture, macos, &expectation, &digest, reviewed)
    };
    assert!(matches!(
        begin(false, false, None),
        ApprovalStep::Refuse(error) if error == "desktop approval is supported only on macOS"
    ));
    assert!(matches!(
        begin(false, true, Some(&digest)),
        ApprovalStep::Ask(ApprovalStage::Presence)
    ));
    assert!(matches!(
        begin(true, false, Some(&digest)),
        ApprovalStep::Ask(ApprovalStage::Presence)
    ));
    assert!(matches!(
        begin(true, false, None),
        ApprovalStep::Refuse(error) if error == "plan-fingerprint-mismatch"
    ));
}

#[test]
fn an_event_that_answers_no_stage_leaves_it_open() {
    let expectation = approval_expectation();
    let next = |stage: ApprovalStage, event: ApprovalEvent| {
        issue_human_approval_with(stage, event, &expectation, NOW, MAXIMUM_LIFETIME)
    };
    assert!(matches!(
        next(ApprovalStage::Presence, ApprovalEvent::Suffix("s".to_string())),
        ApprovalStep::Ask(ApprovalStage::Presence)
    ));
    assert!(matches!(
        next(ApprovalStage::Presence, ApprovalEvent::Missing),
        ApprovalStep::Ask(ApprovalStage::Presence)
    ));
    assert!(matches!(
        next(ApprovalStage::Suffix, ApprovalEvent::Done),
        ApprovalStep::Ask(ApprovalStage::Suffix)
    ));
}

#[test]
fn prompt_values_hold_no_control_characters() {
    assert!(validate_prompt_value("operation", "plain").is_ok());
    let error = validate_prompt_value("operation", "bad\nvalue").unwrap_err();
    assert!(error.contains("operation"));
}

#[test]
fn a_group_plan_binds_its_expectation() {
    let expectation = approval_expectation();
    assert!(group_plan_binds(&expectation.effect_graph_digest, &expectation).is_ok());
    assert!(group_plan_binds("other", &expectation).is_err());
}

#[test]
fn an_operator_receipt_needs_a_bound_plan_and_a_descriptor_of_its_own() {
    let expectation = approval_expectation();
    let plan = "71".repeat(32);
    assert_eq!(operator_request_allowed(&expectation, &plan, Some(&plan), 3), Ok(()));
    for (reviewed, descriptor) in [(Some(plan.as_str()), 2), (None, 3), (Some("other"), 3)] {
        assert_eq!(
            operator_request_allowed(&expectation, &plan, reviewed, descriptor),
            Err("approval-principal-unverified".to_string())
        );
    }
}

#[test]
fn a_decision_can_be_its_own_review() {
    assert!(matches!(
        authorize_control_decision(&approval_expectation()),
        ApprovalStep::Ask(ApprovalStage::Presence)
    ));
    let mut bare = approval_expectation();
    bare.resources.clear();
    assert!(matches!(authorize_control_decision(&bare), ApprovalStep::Refuse(_)));
}
