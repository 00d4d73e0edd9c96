use unpin::bridge_frame::{
    error_response, is_shutdown, read_frame, respond, write_response, FrameStatus, MAX_FRAME_BYTES,
    PROTOCOL_VERSION,
};
use unpin::bridge_request::{
    handle_frame, optional_bounded_string, parse_request, record_request_id, require_only_params,
    required_string, valid_request_id, BridgeRequestAuth, FrameAction, RecentRequestIds, Request,
    MAX_REQUEST_ID_BYTES, MAX_SEEN_REQUEST_IDS,
};
use unpin::bridge_session::{
    bridge_request_material, canonical_params, child_marker_material, complete_handshake,
    constant_time_text_equal, handle_handshake, handshake_response_for_binding, method_of,
    unix_now, verify_signed_desktop_parent, BridgeMethod, BridgeSession, HandshakeFacts, Route,
    SigningEvidence,
};
use unpin::bridge_state::{handle_request, DesktopBridgeState};
use unpin::broker_protocol::ByteReader;
use unpin::discovery_cache::{
    discovery_read, invalidates_discovery, ChangeProgress, DiscoveryCache, DiscoveryRead,
};
use unpin::json::{array, compact_json, text, Json, ObjectBuilder};
use unpin::reviewed_plans::flag;
use unpin::workflow::{
    adopt_session, compose_workflow, discover_current_workflow_session, proposed_workflow,
    propose_workflow, store_workflow, validate_workflow, validated_workflow, CompiledWorkflow,
    LeaseWorkflow, LiveExposureStatus, ModeRevision, WorkflowLease,
};

type State = DesktopBridgeState<u8, u8, u8, u8, u8>;

const NOW: i64 = 1_000;

/// A digest for tests: sixty-four hexadecimal digits that depend on every byte.
fn digest(bytes: &[u8]) -> String {
    let mut out = String::new();
    for seed in 0..4_u64 {
        let mut hash: u64 = 0xcbf2_9ce4_8422_2325 ^ seed.wrapping_mul(0x9e37_79b9_7f4a_7c15);
        for byte in bytes {
            hash = (hash ^ u64::from(*byte)).wrapping_mul(0x0000_0100_0000_01b3);
        }
        out.push_str(&format!("{hash:016x}"));
    }
    out
}

fn object(members: Vec<(&str, Json)>) -> Json {
    let mut out = ObjectBuilder::new();
    for (key, value) in members {
        out.put(key, value);
    }
    out.finish()
}

fn at<'a>(value: &'a Json, path: &[&str]) -> &'a Json {
    let mut value = value;
    for key in path {
        value = value.get(key).unwrap_or(&Json::Null);
    }
    value
}

fn text_at<'a>(value: &'a Json, path: &[&str]) -> Option<&'a str> {
    at(value, path).as_text()
}

fn encoded_request(id: &str, method: &str, params: Option<&str>) -> Vec<u8> {
    match params {
        Some(params) => format!(
            "{{\"version\":{PROTOCOL_VERSION},\"id\":\"{id}\",\"method\":\"{method}\",\"params\":{params}}}"
        )
        .into_bytes(),
        None => format!(
            "{{\"version\":{PROTOCOL_VERSION},\"id\":\"{id}\",\"method\":\"{method}\"}}"
        )
        .into_bytes(),
    }
}

fn facts() -> HandshakeFacts {
    HandshakeFacts {
        project_root: "/work/project".to_string(),
        app_state_root: "/work/state".to_string(),
        sandbox_ok: true,
        process_id: 77,
        parent_process_id: 66,
        fixture_mode: true,
        signing: None,
    }
}

fn handshake_params() -> String {
    format!(
        "{{\"sessionSecret\":\"{}\",\"parentPid\":66,\"parentStartMarker\":\"test-parent\",\"childPid\":77,\"processGeneration\":\"test-generation\",\"projectRoot\":\"/work/project\",\"appStateRoot\":\"/work/state\"}}",
        "11".repeat(32)
    )
}

fn parsed_request(id: &str, method: &str, params: &str) -> Request {
    match parse_request(&encoded_request(id, method, Some(params))) {
        Ok(request) => request,
        Err(error) => panic!("test bridge request failed: {}", error.code),
    }
}

fn expected_tag(state: &State, request: &Request) -> String {
    match (&state.session.binding, &request.auth) {
        (Some(binding), Some(auth)) => {
            let params_digest = digest(&canonical_params(&request.params).expect("params"));
            digest(
                bridge_request_material(&binding.session_secret, request, auth, &params_digest)
                    .as_bytes(),
            )
        }
        _ => String::new(),
    }
}

fn authenticate_test_request(state: &State, request: &mut Request, sequence: u64) {
    let binding = state.session.binding.as_ref().expect("test bridge binding");
    request.auth = Some(BridgeRequestAuth {
        parent_pid: binding.parent_pid,
        parent_start_marker: binding.parent_start_marker.clone(),
        child_pid: binding.child_pid,
        child_start_marker: binding.child_start_marker.clone(),
        project_root: binding.project_root.clone(),
        app_state_root: binding.app_state_root.clone(),
        process_generation: binding.process_generation.clone(),
        sequence,
        operation_id: request.id.clone(),
        fingerprint: digest(request.id.as_bytes()),
        auth_tag: String::new(),
    });
    let tag = expected_tag(state, request);
    if let Some(auth) = request.auth.as_mut() {
        auth.auth_tag = tag;
    }
}

/// Answers a request as the bridge does, with an empty result for what it
/// would have to look up outside.
fn answer(state: &mut State, request: &Request) -> Json {
    let tag = expected_tag(state, request);
    let result = match handle_request(state, request, &tag, NOW) {
        Err(code) => Err(code),
        Ok(Route::Handshake) => match handle_handshake(&state.session, &request.params, &facts()) {
            Err(code) => Err(code),
            Ok(claim) => {
                let marker = digest(child_marker_material(&claim, 5).as_bytes());
                complete_handshake(&mut state.session, &claim, &marker);
                let binding = state.session.binding.as_ref().expect("binding");
                Ok(handshake_response_for_binding("0.1.0", binding))
            }
        },
        Ok(Route::Serve(BridgeMethod::Shutdown)) => Ok(flag("shutdown")),
        Ok(Route::Serve(_)) => Ok(object(vec![])),
    };
    respond(&request.id, result)
}

fn complete_test_handshake(state: &mut State) {
    let handshake = parsed_request("handshake", "handshake", &handshake_params());
    let response = answer(state, &handshake);
    assert_eq!(at(&response, &["result", "protocolVersion"]).as_u64(), Some(PROTOCOL_VERSION));
}

#[test]
fn authenticated_requests_require_binding_and_monotonic_sequence() {
    let mut state = State::new();

    let pre_handshake = parsed_request("snapshot-pre", "snapshot", "{}");
    assert_eq!(
        text_at(&answer(&mut state, &pre_handshake), &["error", "code"]),
        Some("bridge-handshake-required")
    );

    complete_test_handshake(&mut state);
    let unauthenticated = parsed_request("snapshot-no-auth", "snapshot", "{}");
    assert_eq!(
        text_at(&answer(&mut state, &unauthenticated), &["error", "code"]),
        Some("bridge-auth-required")
    );

    let mut first = parsed_request("snapshot-1", "snapshot", "{}");
    authenticate_test_request(&state, &mut first, 1);
    assert!(answer(&mut state, &first).get("result").is_some());

    let mut replay = parsed_request("snapshot-replay", "snapshot", "{}");
    authenticate_test_request(&state, &mut replay, 1);
    assert_eq!(
        text_at(&answer(&mut state, &replay), &["error", "code"]),
        Some("bridge-sequence-mismatch")
    );

    let mut skipped = parsed_request("snapshot-skipped", "snapshot", "{}");
    authenticate_test_request(&state, &mut skipped, 3);
    assert_eq!(
        text_at(&answer(&mut state, &skipped), &["error", "code"]),
        Some("bridge-sequence-mismatch")
    );

    let mut second = parsed_request("snapshot-2", "snapshot", "{}");
    authenticate_test_request(&state, &mut second, 2);
    assert!(answer(&mut state, &second).get("result").is_some());
}

#[test]
fn authenticated_requests_bind_canonical_parameters() {
    let mut state = State::new();
    complete_test_handshake(&mut state);

    let mut request =
        parsed_request("snapshot-tamper", "snapshot", "{\"nested\":{\"before\":true}}");
    authenticate_test_request(&state, &mut request, 1);
    let tampered = parsed_request("snapshot-tamper", "snapshot", "{\"nested\":{\"before\":false}}");
    request.params = tampered.params;
    assert_eq!(
        text_at(&answer(&mut state, &request), &["error", "code"]),
        Some("bridge-authentication-failed")
    );
}

#[test]
fn the_order_of_members_does_not_change_what_is_authenticated() {
    let one = parsed_request("a", "snapshot", "{\"b\":{\"d\":1,\"c\":[true]},\"a\":null}");
    let two = parsed_request("a", "snapshot", "{\"a\":null,\"b\":{\"c\":[true],\"d\":1}}");
    assert_eq!(canonical_params(&one.params), canonical_params(&two.params));
    assert_eq!(
        canonical_params(&one.params).expect("params"),
        b"{\"a\":null,\"b\":{\"c\":[true],\"d\":1}}".to_vec()
    );
}

#[test]
fn authenticated_requests_reject_each_process_binding_mismatch() {
    let mut state = State::new();
    complete_test_handshake(&mut state);

    for field in [
        "parentPid",
        "parentStartMarker",
        "childPid",
        "childStartMarker",
        "projectRoot",
        "appStateRoot",
        "processGeneration",
    ] {
        let mut request = parsed_request(&format!("binding-{field}"), "snapshot", "{}");
        authenticate_test_request(&state, &mut request, 1);
        let auth = request.auth.as_mut().expect("test auth");
        match field {
            "parentPid" => auth.parent_pid = auth.parent_pid.saturating_add(1),
            "parentStartMarker" => auth.parent_start_marker.push_str("-other"),
            "childPid" => auth.child_pid = auth.child_pid.saturating_add(1),
            "childStartMarker" => auth.child_start_marker.push_str("-other"),
            "projectRoot" => auth.project_root.push_str("-other"),
            "appStateRoot" => auth.app_state_root.push_str("-other"),
            "processGeneration" => auth.process_generation.push_str("-other"),
            _ => unreachable!(),
        }
        assert_eq!(
            text_at(&answer(&mut state, &request), &["error", "code"]),
            Some("bridge-binding-mismatch"),
            "binding field {field} must be authenticated"
        );
    }
}

#[test]
fn a_handshake_is_checked_before_it_binds() {
    let session = BridgeSession::new();
    let params = parsed_request("h", "handshake", &handshake_params()).params;
    assert!(handle_handshake(&session, &params, &facts()).is_ok());

    let mut elsewhere = facts();
    elsewhere.project_root = "/other".to_string();
    assert_eq!(handle_handshake(&session, &params, &elsewhere).err(), Some("bridge-root-mismatch"));
    let mut open = facts();
    open.sandbox_ok = false;
    assert_eq!(
        handle_handshake(&session, &params, &open).err(),
        Some("fixture-write-sandbox-blocked")
    );
    let mut other_process = facts();
    other_process.process_id = 78;
    assert_eq!(
        handle_handshake(&session, &params, &other_process).err(),
        Some("bridge-process-mismatch")
    );
    let mut live = facts();
    live.fixture_mode = false;
    assert_eq!(
        handle_handshake(&session, &params, &live).err(),
        Some("bridge-signing-identity-unavailable")
    );
    let short = parsed_request(
        "h",
        "handshake",
        &handshake_params().replace(&"11".repeat(32), "1111"),
    );
    assert_eq!(
        handle_handshake(&session, &short.params, &facts()).err(),
        Some("invalid-bridge-session-secret")
    );
    let no_parent =
        parsed_request("h", "handshake", &handshake_params().replace("\"parentPid\":66", "\"parentPid\":0"));
    assert_eq!(
        handle_handshake(&session, &no_parent.params, &facts()).err(),
        Some("invalid-bridge-parent")
    );
    let no_child =
        parsed_request("h", "handshake", &handshake_params().replace("\"childPid\":77", "\"childPid\":0"));
    assert_eq!(
        handle_handshake(&session, &no_child.params, &facts()).err(),
        Some("invalid-bridge-child")
    );
    let control =
        parsed_request("h", "handshake", &handshake_params().replace("test-parent", "test\\u0007"));
    assert_eq!(
        handle_handshake(&session, &control.params, &facts()).err(),
        Some("invalid-bridge-binding")
    );
    let mut state = State::new();
    complete_test_handshake(&mut state);
    let again = parsed_request("again", "handshake", &handshake_params());
    assert_eq!(
        text_at(&answer(&mut state, &again), &["error", "code"]),
        Some("bridge-handshake-already-complete")
    );
}

#[test]
fn fixture_handshake_rejects_roots_outside_private_temporary_storage() {
    let mut state = State::new();
    let handshake = parsed_request("handshake", "handshake", &handshake_params());
    assert!(matches!(handle_request(&mut state, &handshake, "", NOW), Ok(Route::Handshake)));
    let mut outside = facts();
    outside.sandbox_ok = false;
    let refused = match handle_handshake(&state.session, &handshake.params, &outside) {
        Err(code) => respond(&handshake.id, Err(code)),
        Ok(_) => panic!("a handshake outside the sandbox"),
    };
    assert_eq!(text_at(&refused, &["error", "code"]), Some("fixture-write-sandbox-blocked"));
    assert!(state.session.binding.is_none());
}

/// What a read gives, where each discovery finds the next number.
fn read_discovery(cache: &mut DiscoveryCache<u32>, read: DiscoveryRead, found: &mut u32) -> u32 {
    if let Some(kept) = cache.kept(read, false) {
        return *kept;
    }
    *found += 1;
    cache.keep(*found);
    *found
}

#[test]
fn read_only_discovery_cache_reuses_snapshot_until_refresh() {
    let mut cache = DiscoveryCache::new();
    let mut found = 0;
    let first = read_discovery(&mut cache, DiscoveryRead::Cached, &mut found);
    let second = read_discovery(&mut cache, DiscoveryRead::Cached, &mut found);
    assert_eq!(first, second);
    let refreshed = read_discovery(&mut cache, DiscoveryRead::Fresh, &mut found);
    assert_ne!(first, refreshed);
    let after_refresh = read_discovery(&mut cache, DiscoveryRead::Cached, &mut found);
    assert_eq!(refreshed, after_refresh);
    cache.invalidate();
    let after_invalidate = read_discovery(&mut cache, DiscoveryRead::Cached, &mut found);
    assert_ne!(refreshed, after_invalidate);
    assert!(cache.kept(DiscoveryRead::Cached, true).is_none());
}

#[test]
fn failed_discovery_change_invalidates_cached_discovery() {
    let mut cache = DiscoveryCache::new();
    let mut found = 0;
    let cached = read_discovery(&mut cache, DiscoveryRead::Cached, &mut found);

    let result = cache.invalidate_after_discovery_change(Err::<(), _>("apply-failed"));

    assert_eq!(result, Err("apply-failed"));
    let refreshed = read_discovery(&mut cache, DiscoveryRead::Cached, &mut found);
    assert_ne!(cached, refreshed);
}

#[test]
fn methods_read_and_forget_what_was_discovered() {
    assert_eq!(discovery_read(BridgeMethod::Snapshot), Some(DiscoveryRead::Cached));
    assert_eq!(discovery_read(BridgeMethod::AgentPluginPlan), Some(DiscoveryRead::Fresh));
    assert_eq!(discovery_read(BridgeMethod::Shutdown), None);
    assert!(!invalidates_discovery(BridgeMethod::GroupApply, ChangeProgress::Refused));
    assert!(invalidates_discovery(BridgeMethod::GroupApply, ChangeProgress::Failed));
    assert!(invalidates_discovery(BridgeMethod::GroupApply, ChangeProgress::Succeeded));
    for method in [BridgeMethod::DefinitionApply, BridgeMethod::RestoreApply] {
        assert!(invalidates_discovery(method, ChangeProgress::Succeeded));
        assert!(!invalidates_discovery(method, ChangeProgress::Failed));
        assert!(!invalidates_discovery(method, ChangeProgress::Refused));
    }
    assert!(!invalidates_discovery(BridgeMethod::Snapshot, ChangeProgress::Succeeded));
    assert!(!invalidates_discovery(BridgeMethod::AgentPluginApply, ChangeProgress::Succeeded));
}

#[test]
fn a_refused_group_change_keeps_what_was_discovered() {
    let mut cache = DiscoveryCache::new();
    cache.keep(7);
    cache.after(BridgeMethod::GroupApply, ChangeProgress::Refused);
    assert_eq!(cache.kept(DiscoveryRead::Cached, false), Some(&7));
    cache.after(BridgeMethod::GroupApply, ChangeProgress::Failed);
    assert_eq!(cache.kept(DiscoveryRead::Cached, false), None);
}

#[test]
fn a_desktop_is_signed_by_the_same_team() {
    let evidence = |identity: &str, parent: &str, child: &str, status: u32| {
        Some(SigningEvidence {
            parent_status: Some(status),
            child_status: Some(1),
            parent_identity: Some(identity.to_string()),
            parent_team: Some(parent.to_string()),
            child_team: Some(child.to_string()),
        })
    };
    assert!(verify_signed_desktop_parent(&evidence("dev.unpin.workbench", "TEAM", "TEAM", 1)).is_ok());
    for bad in [
        evidence("dev.other", "TEAM", "TEAM", 1),
        evidence("dev.unpin.workbench", "TEAM", "OTHER", 1),
        evidence("dev.unpin.workbench", "", "", 1),
        evidence("dev.unpin.workbench", "TEAM", "TEAM", 0),
        evidence("dev.unpin.workbench", "TEAM", "TEAM", 3),
    ] {
        assert_eq!(
            verify_signed_desktop_parent(&bad).err(),
            Some("bridge-signing-identity-mismatch")
        );
    }
    assert_eq!(
        verify_signed_desktop_parent(&None).err(),
        Some("bridge-signing-identity-unavailable")
    );
}

#[test]
fn parser_rejects_malformed_contracts_with_stable_codes() {
    let too_long_id = "i".repeat(MAX_REQUEST_ID_BYTES + 1);
    let too_long_method = "m".repeat(129);
    let version = PROTOCOL_VERSION;
    let next_version = PROTOCOL_VERSION + 1;
    let cases: Vec<(&str, String, Option<&str>, &str)> = vec![
        ("malformed-json", "{".to_string(), None, "malformed-request"),
        (
            "unknown-field",
            format!("{{\"version\":{version},\"id\":\"unknown-field\",\"method\":\"handshake\",\"extra\":true}}"),
            Some("unknown-field"),
            "unknown-request-field",
        ),
        (
            "missing-id",
            format!("{{\"version\":{version},\"method\":\"handshake\"}}"),
            None,
            "missing-request-id",
        ),
        (
            "empty-id",
            format!("{{\"version\":{version},\"id\":\"\",\"method\":\"handshake\"}}"),
            Some(""),
            "invalid-request-id",
        ),
        (
            "control-id",
            format!("{{\"version\":{version},\"id\":\"bad\\nrequest\",\"method\":\"handshake\"}}"),
            Some("bad\nrequest"),
            "invalid-request-id",
        ),
        (
            "too-long-id",
            format!("{{\"version\":{version},\"id\":\"{too_long_id}\",\"method\":\"handshake\"}}"),
            Some(too_long_id.as_str()),
            "invalid-request-id",
        ),
        (
            "unsupported-version",
            format!("{{\"version\":{next_version},\"id\":\"unsupported-version\",\"method\":\"handshake\"}}"),
            Some("unsupported-version"),
            "unsupported-protocol-version",
        ),
        (
            "missing-method",
            format!("{{\"version\":{version},\"id\":\"missing-method\"}}"),
            Some("missing-method"),
            "invalid-method",
        ),
        (
            "empty-method",
            format!("{{\"version\":{version},\"id\":\"empty-method\",\"method\":\"\"}}"),
            Some("empty-method"),
            "invalid-method",
        ),
        (
            "too-long-method",
            format!("{{\"version\":{version},\"id\":\"too-long-method\",\"method\":\"{too_long_method}\"}}"),
            Some("too-long-method"),
            "invalid-method",
        ),
        (
            "invalid-params",
            format!("{{\"version\":{version},\"id\":\"invalid-params\",\"method\":\"handshake\",\"params\":[]}}"),
            Some("invalid-params"),
            "invalid-params",
        ),
        (
            "invalid-auth",
            format!("{{\"version\":{version},\"id\":\"invalid-auth\",\"method\":\"snapshot\",\"auth\":{{}}}}"),
            Some("invalid-auth"),
            "invalid-bridge-auth",
        ),
    ];

    for (name, frame, expected_id, expected_code) in cases {
        let error = match parse_request(frame.as_bytes()) {
            Ok(_) => panic!("{name} should be rejected"),
            Err(error) => error,
        };
        assert_eq!(error.id.as_deref(), expected_id, "{name} id");
        assert_eq!(error.code, expected_code, "{name} code");
    }
}

/// Runs the bridge over an input and gives its responses.
fn run_with_io(input: Vec<u8>) -> Vec<Json> {
    let mut state = State::new();
    let mut seen = RecentRequestIds::new();
    let mut reader = ByteReader::new(input);
    let mut frame = Vec::new();
    let mut responses = Vec::new();
    let mut output = Vec::new();
    while let Some(status) = read_frame(&mut reader, &mut frame, 64) {
        let response = match handle_frame(status, &frame, &mut seen) {
            FrameAction::Respond(response) => response,
            FrameAction::Handle(request) => answer(&mut state, &request),
        };
        write_response(&mut output, &response).expect("written");
        let stop = is_shutdown(&response);
        responses.push(response);
        if stop {
            break;
        }
    }
    assert_eq!(output.iter().filter(|byte| **byte == b'\n').count(), responses.len());
    responses
}

#[test]
fn stdio_contract_errors_recover_on_the_following_valid_request() {
    let version = PROTOCOL_VERSION;
    let next_version = PROTOCOL_VERSION + 1;
    let line = |text: String| text.into_bytes();
    let cases: Vec<(&str, Vec<Vec<u8>>, Option<&str>, &str, usize)> = vec![
        ("malformed-json", vec![b"{".to_vec()], None, "malformed-request", 0),
        (
            "unknown-field",
            vec![line(format!("{{\"version\":{version},\"id\":\"unknown-field\",\"method\":\"handshake\",\"extra\":true}}"))],
            Some("unknown-field"),
            "unknown-request-field",
            0,
        ),
        (
            "missing-id",
            vec![line(format!("{{\"version\":{version},\"method\":\"handshake\"}}"))],
            None,
            "missing-request-id",
            0,
        ),
        (
            "invalid-id",
            vec![line(format!("{{\"version\":{version},\"id\":\"\",\"method\":\"handshake\"}}"))],
            Some(""),
            "invalid-request-id",
            0,
        ),
        (
            "unsupported-version",
            vec![line(format!("{{\"version\":{next_version},\"id\":\"unsupported-version\",\"method\":\"handshake\"}}"))],
            Some("unsupported-version"),
            "unsupported-protocol-version",
            0,
        ),
        (
            "missing-method",
            vec![line(format!("{{\"version\":{version},\"id\":\"missing-method\"}}"))],
            Some("missing-method"),
            "invalid-method",
            0,
        ),
        (
            "invalid-method",
            vec![line(format!("{{\"version\":{version},\"id\":\"invalid-method\",\"method\":\"\"}}"))],
            Some("invalid-method"),
            "invalid-method",
            0,
        ),
        (
            "bridge-handshake-required",
            vec![encoded_request("unknown-method", "unknown.method", None)],
            Some("unknown-method"),
            "bridge-handshake-required",
            0,
        ),
        (
            "invalid-params",
            vec![line(format!("{{\"version\":{version},\"id\":\"invalid-params\",\"method\":\"handshake\",\"params\":[]}}"))],
            Some("invalid-params"),
            "invalid-params",
            0,
        ),
        (
            "duplicate-id",
            vec![
                encoded_request("duplicate-id", "handshake", None),
                encoded_request("duplicate-id", "handshake", None),
            ],
            Some("duplicate-id"),
            "duplicate-request-id",
            1,
        ),
    ];

    for (name, prefix, expected_id, expected_code, error_index) in cases {
        let mut input = Vec::new();
        for frame in prefix {
            input.extend_from_slice(&frame);
            input.push(b'\n');
        }
        input.extend_from_slice(&encoded_request("recovery", "handshake", Some(&handshake_params())));
        input.push(b'\n');
        input.extend_from_slice(&encoded_request("shutdown", "shutdown", None));
        input.push(b'\n');
        let responses = run_with_io(input);
        assert_eq!(text_at(&responses[error_index], &["id"]), expected_id, "{name} error id");
        assert_eq!(
            text_at(&responses[error_index], &["error", "code"]),
            Some(expected_code),
            "{name} error code"
        );
        let recovery_index = error_index + 1;
        assert_eq!(text_at(&responses[recovery_index], &["id"]), Some("recovery"), "{name} recovery id");
        assert_eq!(
            at(&responses[recovery_index], &["result", "protocolVersion"]).as_u64(),
            Some(PROTOCOL_VERSION),
            "{name} recovery result"
        );
        assert_eq!(
            text_at(responses.last().expect("shutdown response"), &["id"]),
            Some("shutdown")
        );
    }
}

#[test]
fn frames_are_bounded_and_lines_lose_their_ends() {
    let mut input = vec![b'x'; MAX_FRAME_BYTES + 1];
    input.extend_from_slice(b"\nnext\r\nlast");
    let mut reader = ByteReader::new(input);
    let mut frame = Vec::new();
    assert!(matches!(read_frame(&mut reader, &mut frame, 4096), Some(FrameStatus::Oversized)));
    assert_eq!(frame.len(), MAX_FRAME_BYTES);
    assert!(matches!(read_frame(&mut reader, &mut frame, 4096), Some(FrameStatus::Complete)));
    assert_eq!(frame, b"next".to_vec());
    assert!(matches!(read_frame(&mut reader, &mut frame, 4096), Some(FrameStatus::Complete)));
    assert_eq!(frame, b"last".to_vec());
    assert!(read_frame(&mut reader, &mut frame, 4096).is_none());
    assert!(frame.is_empty());
    match handle_frame(FrameStatus::Oversized, b"", &mut RecentRequestIds::new()) {
        FrameAction::Respond(response) => {
            assert_eq!(text_at(&response, &["error", "code"]), Some("frame-too-large"))
        }
        FrameAction::Handle(_) => panic!("nothing to handle"),
    }
}

#[test]
fn responses_are_written_on_one_line() {
    let mut output = Vec::new();
    write_response(&mut output, &error_response(Some("a\nb"), "code")).expect("written");
    let written = String::from_utf8(output).expect("text");
    assert!(written.ends_with('\n'));
    assert_eq!(written.matches('\n').count(), 1);
    assert!(written.contains("\"id\":\"a\\nb\""));
    let mut too_large = Vec::new();
    let large = respond("large", Ok(text(&"x".repeat(MAX_FRAME_BYTES))));
    write_response(&mut too_large, &large).expect("a fallback is written");
    assert!(too_large.len() < MAX_FRAME_BYTES);
}

#[test]
fn an_authenticated_shutdown_ends_the_bridge() {
    let mut state = State::new();
    complete_test_handshake(&mut state);
    let mut request = parsed_request("stop", "shutdown", "{}");
    authenticate_test_request(&state, &mut request, 1);
    assert!(is_shutdown(&answer(&mut state, &request)));
    let mut unknown = parsed_request("unknown", "no.such.method", "{}");
    authenticate_test_request(&state, &mut unknown, 2);
    assert_eq!(
        text_at(&answer(&mut state, &unknown), &["error", "code"]),
        Some("unknown-method")
    );
}

#[test]
fn request_ids_are_bounded_without_hiding_duplicates() {
    let mut seen = RecentRequestIds::new();
    record_request_id(&mut seen, "already-seen").expect("first request id");
    assert_eq!(record_request_id(&mut seen, "already-seen"), Err("duplicate-request-id"));
    for index in 1..MAX_SEEN_REQUEST_IDS {
        record_request_id(&mut seen, &format!("request-{index}")).expect("request id within limit");
    }
    record_request_id(&mut seen, "one-too-many")
        .expect("oldest request id is evicted from the replay window");
    assert_eq!(record_request_id(&mut seen, "request-1"), Err("duplicate-request-id"));
    record_request_id(&mut seen, "already-seen")
        .expect("evicted request ids can be reused after the replay window");
}

#[test]
fn parameters_are_checked_by_name_and_length() {
    let params = object(vec![("name", text("value")), ("empty", text("")), ("none", Json::Null)]);
    assert!(require_only_params(&params, &["name", "empty", "none"]).is_ok());
    assert_eq!(require_only_params(&params, &["name"]), Err("unknown-parameter"));
    assert_eq!(require_only_params(&Json::Null, &["name"]), Err("invalid-params"));
    assert_eq!(required_string(&params, "name"), Ok("value"));
    assert_eq!(required_string(&params, "empty"), Err("invalid-params"));
    assert_eq!(required_string(&params, "missing"), Err("invalid-params"));
    assert_eq!(optional_bounded_string(&params, "none"), Ok(None));
    assert_eq!(optional_bounded_string(&params, "name"), Ok(Some("value")));
    assert_eq!(optional_bounded_string(&params, "empty"), Err("invalid-params"));
    let long = object(vec![("name", text(&"x".repeat(1025)))]);
    assert_eq!(required_string(&long, "name"), Err("invalid-params"));
    assert!(valid_request_id("request"));
    assert!(!valid_request_id("bad\u{7f}"));
}

#[test]
fn texts_are_compared_in_full() {
    assert!(constant_time_text_equal("abc", "abc"));
    assert!(!constant_time_text_equal("abc", "abd"));
    assert!(!constant_time_text_equal("abc", "ab"));
}

#[test]
fn the_clock_never_runs_out_of_range() {
    assert_eq!(unix_now(None), 0);
    assert_eq!(unix_now(Some(17)), 17);
    assert_eq!(unix_now(Some(u64::MAX)), i64::MAX);
}

fn lease(suffix: &str) -> WorkflowLease {
    WorkflowLease {
        session_id: format!("session-{suffix}"),
        repository_key: "repository".to_string(),
        workspace_key: "workspace".to_string(),
        active: true,
        workflow: Some(LeaseWorkflow {
            workflow_id: format!("delivery-{suffix}"),
            proposal_id: format!("proposal-{suffix}"),
            active_mode: "planning".to_string(),
            profile_revisions: vec![ModeRevision {
                mode: "planning".to_string(),
                revision: "b".repeat(64),
            }],
        }),
        desired_revision: "b".repeat(64),
        observed_revision: "b".repeat(64),
        exposures_agree: true,
        live: LiveExposureStatus::Other,
        live_status: text("live"),
        state_sequence: 1,
        admission_open: true,
    }
}

#[test]
fn reconnect_requires_explicit_selection_for_multiple_matching_workflow_sessions() {
    let mut state = State::new();
    complete_test_handshake(&mut state);
    let mut request = parsed_request("workflow-status", "workflow.status", "{}");
    authenticate_test_request(&state, &mut request, 1);
    let tag = expected_tag(&state, &request);
    assert!(matches!(
        handle_request(&mut state, &request, &tag, NOW),
        Ok(Route::Serve(BridgeMethod::WorkflowStatus))
    ));

    let leases = vec![lease("one"), lease("two")];
    assert_eq!(
        discover_current_workflow_session(&leases, &state.workflow_session_id, "repository", "workspace"),
        Err("workflow-session-selection-required")
    );
    assert!(state.workflow_session_id.is_none());

    let only = vec![lease("one")];
    let found =
        discover_current_workflow_session(&only, &state.workflow_session_id, "repository", "workspace");
    assert_eq!(found, Ok(Some(0)));
    adopt_session(&mut state.workflow_session_id, Some(&only[0]));
    assert_eq!(state.workflow_session_id.as_deref(), Some("session-one"));
    adopt_session(&mut state.workflow_session_id, Some(&leases[1]));
    assert_eq!(state.workflow_session_id.as_deref(), Some("session-one"));
}

#[test]
fn authenticated_workflow_requests_compose_validate_and_propose() {
    let mut state = State::new();
    complete_test_handshake(&mut state);

    let mut compose = parsed_request(
        "workflow-compose",
        "workflow.compose",
        "{\"workflowId\":\"delivery\",\"displayName\":\"Delivery\",\"description\":\"Plan and implement\",\"provider\":\"codex\",\"baselineProfileId\":\"baseline\",\"entryMode\":\"planning\",\"modes\":[{\"name\":\"planning\",\"profileId\":\"baseline\"}]}",
    );
    authenticate_test_request(&state, &mut compose, 1);
    let tag = expected_tag(&state, &compose);
    assert!(matches!(
        handle_request(&mut state, &compose, &tag, NOW),
        Ok(Route::Serve(BridgeMethod::WorkflowCompose))
    ));
    let draft = compose_workflow(&compose.params, true).ok().expect("a draft");
    let revision = digest(b"delivery");
    let composed = store_workflow(&mut state.workflows, draft, Some(revision))
        .ok()
        .expect("composed");
    assert_eq!(text_at(&composed, &["status"]), Some("composed"));
    let workflow_revision = text_at(&composed, &["workflowRevision"]).expect("workflow revision").to_string();

    let mut validate = parsed_request(
        "workflow-validate",
        "workflow.validate",
        &format!("{{\"workflowId\":\"delivery\",\"provider\":\"codex\",\"workflowRevision\":\"{workflow_revision}\"}}"),
    );
    authenticate_test_request(&state, &mut validate, 2);
    let tag = expected_tag(&state, &validate);
    assert!(handle_request(&mut state, &validate, &tag, NOW).is_ok());
    let id = validate_workflow(&state.workflows, &validate.params, true).expect("a workflow");
    let compiled = CompiledWorkflow {
        revision_digest: digest(b"compiled"),
        entry_mode: "build".to_string(),
        profiles: Vec::new(),
        provider: "codex".to_string(),
        capability_count: 0,
        reload_limitation: text("live-refresh-expected"),
        definition_digest: Some(workflow_revision),
    };
    let validated = validated_workflow(state.workflows.get(&id).expect("draft"), &compiled)
        .ok()
        .expect("valid");
    assert_eq!(text_at(&validated, &["status"]), Some("valid"));
    assert_eq!(text_at(&validated, &["provider"]), Some("codex"));

    let private_prompt = "Implement the private customer task";
    let mut propose = parsed_request(
        "workflow-propose",
        "workflow.propose",
        &format!("{{\"prompt\":\"{private_prompt}\",\"provider\":\"codex\"}}"),
    );
    authenticate_test_request(&state, &mut propose, 3);
    let tag = expected_tag(&state, &propose);
    assert!(handle_request(&mut state, &propose, &tag, NOW).is_ok());
    let id = propose_workflow(&state.workflows, &propose.params, &Some("codex".to_string()))
        .expect("a workflow to propose");
    assert_eq!(id, "delivery");
    let proposal = object(vec![
        ("workflowId", text(&id)),
        ("promptDigest", text(&digest(private_prompt.as_bytes()))),
    ]);
    let proposed = proposed_workflow(proposal, state.workflows.get(&id).expect("draft"));
    assert_eq!(text_at(&proposed, &["status"]), Some("proposed"));
    assert_eq!(text_at(&proposed, &["proposal", "workflowId"]), Some("delivery"));
    assert!(text_at(&proposed, &["proposal", "promptDigest"]).is_some());
    assert!(!compact_json(&proposed).expect("proposal response").contains(private_prompt));
}

#[test]
fn every_capability_is_a_method() {
    let mut state = State::new();
    complete_test_handshake(&mut state);
    let binding = state.session.binding.as_ref().expect("binding");
    let response = handshake_response_for_binding("0.1.0", binding);
    let capabilities = at(&response, &["capabilities"]).as_array().expect("capabilities");
    assert_eq!(capabilities.len(), 28);
    for capability in capabilities {
        assert!(method_of(capability.as_text().expect("a name")).is_some());
    }
    assert_eq!(text_at(&response, &["binding", "projectRoot"]), Some("/work/project"));
    assert!(compact_json(&response).expect("text").find(&"11".repeat(32)).is_none());
    assert!(matches!(array(Vec::new()), Json::Array(items) if items.is_empty()));
}
