use unpin::broker::{
    authorize_same_user, client_code_requirement, code_requirement, judge_code_signature,
    legacy_keyring_fallback_allowed, legacy_keyring_fallback_allowed_for_paths, next_poll_millis,
    request_or_start_broker, request_ready_broker, request_ready_broker_with,
    stable_broker_executable_path, validate_broker_socket_directory_for_client,
    verify_broker_code_signature, BrokerCall, FileMetadata, FileStatus, InstallationEvidence,
    PeerKind, ReadyStep, StartEvent, StartStage, StartStep, BROKER_CODE_IDENTIFIER,
    BROKER_OPERATION_TIMEOUT_MILLIS, EXISTING_BROKER_PROBE_TIMEOUT_MILLIS,
};
use unpin::broker_install::{
    ensure_socket_directory, ensure_stable_broker_directory, install_stable_broker_from,
    parse_broker_arguments, temporary_name, validate_regular_broker_file, BrokerCommand,
    DirectoryEvent, DirectoryStage, DirectoryStep, InstallEvent, InstallStage, InstallStep,
};
use unpin::broker_protocol::{
    broker_socket_directory, broker_socket_path, read_request, read_response, validate_account,
    write_request, write_response, BrokerRequest, BrokerResponse, ByteReader, MAX_SECRET_BYTES,
    OP_SET,
};
use unpin::broker_server::{
    answer_delete, answer_get, answer_request, answer_set, run, serve, serve_client, AcceptEvent, ListenEvent, ListenStage, ListenStep,
    ServeStep, IDLE_TIMEOUT_MILLIS, MAX_ACTIVE_CLIENTS,
};
use unpin::secret_store::{MemorySecretStore, SecretStore, KEYCHAIN_SERVICE};

fn get(account: &str) -> BrokerRequest {
    BrokerRequest::Get { account: account.to_string() }
}

fn put(account: &str, secret: Vec<u8>) -> BrokerRequest {
    BrokerRequest::Put { account: account.to_string(), secret }
}

fn delete(account: &str) -> BrokerRequest {
    BrokerRequest::Delete { account: account.to_string() }
}

fn encoded(request: &BrokerRequest) -> Vec<u8> {
    let mut bytes = Vec::new();
    write_request(&mut bytes, request).expect("encode request");
    bytes
}

#[test]
fn protocol_round_trips_bounded_keychain_operations() {
    for request in [
        BrokerRequest::Ping,
        get("transition-approval-key-v1"),
        put("cursor-dashboard-cookie-v1", vec![0x53; 64]),
        delete("cursor-dashboard-cookie-v1"),
    ] {
        let decoded = read_request(&mut ByteReader::new(encoded(&request)))
            .ok()
            .expect("decode request");
        assert!(decoded == request);
    }

    for response in [
        BrokerResponse::Value(vec![0x11; 32]),
        BrokerResponse::Success,
        BrokerResponse::NotFound,
        BrokerResponse::Error("keychain operation failed".to_string()),
    ] {
        let mut bytes = Vec::new();
        write_response(&mut bytes, &response).expect("encode response");
        let decoded = read_response(&mut ByteReader::new(bytes)).ok().expect("decode response");
        assert!(decoded == response);
    }
}

#[test]
fn protocol_rejects_oversized_secret_before_reading_payload() {
    let mut bytes = encoded(&BrokerRequest::Ping)[..8].to_vec();
    bytes.push(OP_SET);
    bytes.extend_from_slice(&1_u16.to_be_bytes());
    bytes.extend_from_slice(&((MAX_SECRET_BYTES as u32) + 1).to_be_bytes());
    bytes.push(b'a');

    let error = read_request(&mut ByteReader::new(bytes)).err().expect("oversized request");

    assert!(error.contains("secret exceeds size limit"));
}

#[test]
fn protocol_rejects_control_bytes_in_account() {
    let error = write_request(&mut Vec::new(), &get("approval\nkey")).expect_err("invalid account");

    assert!(error.contains("account is invalid"));
}

#[test]
fn protocol_rejects_damaged_messages() {
    let mut wrong_magic = encoded(&BrokerRequest::Ping);
    wrong_magic[0] ^= 1;
    let error = read_request(&mut ByteReader::new(wrong_magic)).err().expect("wrong magic");
    assert_eq!(error, "credential broker protocol magic is invalid");

    let mut cut = encoded(&get("account"));
    cut.pop();
    assert!(read_request(&mut ByteReader::new(cut)).is_err());

    let mut unknown = encoded(&BrokerRequest::Ping);
    unknown[8] = 9;
    assert!(read_request(&mut ByteReader::new(unknown)).is_err());

    assert!(validate_account("account").is_ok());
    assert!(validate_account("").is_err());
    assert!(validate_account(&"a".repeat(513)).is_err());
}

#[test]
fn descriptions_show_no_secret() {
    assert_eq!(
        put("cursor\"cookie", vec![7; 5]).describe(),
        "Set { account: \"cursor\\\"cookie\", secret_bytes: 5 }"
    );
    assert_eq!(BrokerResponse::Value(vec![1; 3]).describe(), "Value { secret_bytes: 3 }");
    assert_eq!(BrokerRequest::Ping.describe(), "Ping");
}

#[test]
fn wiping_clears_the_secret() {
    let mut request = put("account", vec![7; 5]);
    request.wipe();
    assert!(request == put("account", Vec::new()));
    let mut response = BrokerResponse::Value(vec![7; 5]);
    response.wipe();
    assert!(response == BrokerResponse::Value(Vec::new()));
}

#[test]
fn linux_same_uid_socket_peer_is_authorized() {
    authorize_same_user(Some(501), 501, "credential broker").expect("authorize server peer");
    authorize_same_user(Some(501), 501, "credential broker client").expect("authorize client peer");
    assert_eq!(
        authorize_same_user(Some(502), 501, "credential broker").unwrap_err(),
        "credential broker socket peer owner is invalid"
    );
    assert_eq!(
        authorize_same_user(None, 501, "credential broker").unwrap_err(),
        "credential broker socket peer credentials are unavailable"
    );
}

#[test]
fn unix_broker_socket_path_is_short_for_deep_app_state_roots() {
    let deep_root = format!("/private/var/folders/{}/{}/state", "a".repeat(64), "b".repeat(64));
    let socket = broker_socket_path(deep_root.as_bytes());

    assert!(socket.starts_with("/tmp/"));
    assert!(socket.len() < 104);
    let directory = broker_socket_directory(deep_root.as_bytes());
    assert!(socket.starts_with(&directory));
    let directory_name = directory.strip_prefix("/tmp/").expect("broker socket directory name");
    assert!(directory_name.starts_with("unpin-stable-credential-broker-v1-"));
    assert!(!directory_name.starts_with("unpin-credential-broker-v1-"));
    assert_ne!(broker_socket_path(b"/one"), broker_socket_path(b"/two"));
}

#[test]
fn ready_broker_receives_ping_then_real_request_once() {
    let request = delete("cursor-dashboard-cookie-v1");
    let mut operations = Vec::new();
    let mut call = request_ready_broker();
    let response = loop {
        let reply = match call {
            BrokerCall::Probe { timeout_millis } => {
                operations.push("ping");
                assert_eq!(timeout_millis, EXISTING_BROKER_PROBE_TIMEOUT_MILLIS);
                Ok(BrokerResponse::Success)
            }
            BrokerCall::Perform { timeout_millis } => {
                assert!(request == delete("cursor-dashboard-cookie-v1"));
                operations.push("delete");
                assert_eq!(timeout_millis, BROKER_OPERATION_TIMEOUT_MILLIS);
                Ok(BrokerResponse::NotFound)
            }
        };
        match request_ready_broker_with(call, reply) {
            ReadyStep::Call(next) => call = next,
            ReadyStep::Answered(response) => break response,
            _ => panic!("the broker is ready"),
        }
    };

    assert!(response == BrokerResponse::NotFound);
    assert_eq!(operations, ["ping", "delete"]);
}

#[test]
fn a_broker_that_does_not_answer_the_probe_is_not_ready() {
    assert!(matches!(
        request_ready_broker_with(request_ready_broker(), Err("refused".to_string())),
        ReadyStep::NotReady
    ));
    assert!(matches!(
        request_ready_broker_with(request_ready_broker(), Ok(BrokerResponse::NotFound)),
        ReadyStep::NotReady
    ));
}

#[test]
fn a_broker_is_started_and_given_up_after_its_time() {
    let mut stages = Vec::new();
    let mut stage = StartStage::TryExisting;
    for _ in 0..4 {
        stages.push(stage);
        let event = if stage == StartStage::TryExisting {
            StartEvent::NotReady
        } else {
            StartEvent::Done
        };
        stage = match request_or_start_broker(stage, event) {
            StartStep::Continue(next) => next,
            _ => panic!("the start goes on"),
        };
    }
    assert!(matches!(stages[1], StartStage::Locate));
    assert!(matches!(stages[2], StartStage::Install));
    assert!(matches!(stages[3], StartStage::Spawn));
    assert!(matches!(stage, StartStage::Wait));
    match request_or_start_broker(StartStage::Wait, StartEvent::TimedOut) {
        StartStep::Fail { error, terminate_child } => {
            assert_eq!(error, "credential broker did not become ready");
            assert!(terminate_child);
        }
        _ => panic!("the wait is over"),
    }
    assert!(matches!(
        request_or_start_broker(StartStage::Install, StartEvent::NotReady),
        StartStep::Continue(StartStage::Install)
    ));
    assert_eq!(next_poll_millis(0), Some(20));
    assert_eq!(next_poll_millis(1990), Some(10));
    assert_eq!(next_poll_millis(2000), None);
}

/// Files as the installation sees them: an executable that may be installed,
/// and a candidate for it.
struct Files {
    installed: Option<Vec<u8>>,
    temporary: Option<Vec<u8>>,
}

struct Candidate {
    bytes: Option<Vec<u8>>,
    symlink: bool,
}

fn metadata(symlink: bool, directory: bool, uid: u32, mode: u32) -> FileMetadata {
    FileMetadata { symlink, directory, regular: !symlink && !directory, uid, mode }
}

/// Prepares directories that all look like the given one to the user 501.
fn prepare(
    next: fn(u32, DirectoryStage, DirectoryEvent) -> DirectoryStep,
    seen: FileMetadata,
) -> Result<(), String> {
    let mut stage = DirectoryStage::CreateRoot;
    loop {
        let happened = match stage {
            DirectoryStage::InspectRoot => DirectoryEvent::Found(metadata(false, true, 501, 0o700)),
            DirectoryStage::Inspect { .. } => DirectoryEvent::Found(seen),
            _ => DirectoryEvent::Done,
        };
        match next(501, stage, happened) {
            DirectoryStep::Continue(next) => stage = next,
            DirectoryStep::Ready => return Ok(()),
            DirectoryStep::Fail(error) => return Err(error),
        }
    }
}

fn install(
    files: &mut Files,
    candidate: &Candidate,
    verify: fn(&[u8]) -> Result<(), String>,
) -> Result<(), String> {
    fn event(result: Result<(), String>) -> InstallEvent {
        match result {
            Ok(()) => InstallEvent::Done,
            Err(error) => InstallEvent::Failed(error),
        }
    }
    let mut stage = InstallStage::EnsureDirectory;
    loop {
        let happened = match stage {
            InstallStage::EnsureDirectory => {
                event(prepare(ensure_stable_broker_directory, metadata(false, true, 501, 0o700)))
            }
            InstallStage::FindInstalled => {
                if files.installed.is_some() {
                    InstallEvent::Done
                } else {
                    InstallEvent::Missing
                }
            }
            InstallStage::FindCandidate => {
                if candidate.bytes.is_some() {
                    InstallEvent::Done
                } else {
                    InstallEvent::Missing
                }
            }
            InstallStage::ValidateCandidate => event(validate_regular_broker_file(
                &FileStatus::Present(metadata(candidate.symlink, false, 501, 0o755)),
            )),
            InstallStage::VerifyCandidate => {
                event(verify(candidate.bytes.as_deref().unwrap_or_default()))
            }
            InstallStage::CopyTemporary => {
                files.temporary = candidate.bytes.clone();
                InstallEvent::Done
            }
            InstallStage::VerifyTemporary => {
                event(verify(files.temporary.as_deref().unwrap_or_default()))
            }
            InstallStage::VerifyInstalled => {
                event(verify(files.installed.as_deref().unwrap_or_default()))
            }
            InstallStage::Link => {
                files.installed = files.temporary.clone();
                InstallEvent::Done
            }
            InstallStage::CleanUp => {
                files.temporary = None;
                InstallEvent::Done
            }
            InstallStage::CompareOwners => InstallEvent::Owners { installed: 501, root: 501 },
            _ => InstallEvent::Done,
        };
        match install_stable_broker_from(stage, happened) {
            InstallStep::Continue(next) => stage = next,
            InstallStep::Installed => return Ok(()),
            InstallStep::Fail(error) => return Err(error),
            InstallStep::CleanUpThenFail(error) => {
                files.temporary = None;
                return Err(error);
            }
        }
    }
}

fn empty_files() -> Files {
    Files { installed: None, temporary: None }
}

fn candidate(bytes: &[u8]) -> Candidate {
    Candidate { bytes: Some(bytes.to_vec()), symlink: false }
}

fn accept(_: &[u8]) -> Result<(), String> {
    Ok(())
}

fn reject(_: &[u8]) -> Result<(), String> {
    Err("signature rejected".to_string())
}

#[test]
fn stable_broker_install_is_create_once_across_companion_updates() {
    let mut files = empty_files();
    install(&mut files, &candidate(b"stable broker bytes"), accept).expect("first broker install");
    install(&mut files, &candidate(b"updated companion bytes"), accept)
        .expect("reuse installed broker");

    assert_eq!(files.installed.expect("installed broker bytes"), b"stable broker bytes".to_vec());
    assert!(files.temporary.is_none());
}

#[test]
fn stable_broker_install_reuses_existing_when_companion_is_missing() {
    let mut files = empty_files();
    install(&mut files, &candidate(b"stable broker bytes"), accept).expect("first broker install");
    install(&mut files, &Candidate { bytes: None, symlink: false }, accept)
        .expect("reuse installed broker without a companion");

    assert_eq!(files.installed.expect("installed broker bytes"), b"stable broker bytes".to_vec());
}

#[test]
fn missing_companion_has_recovery_diagnostic_when_no_stable_broker_exists() {
    let error = install(&mut empty_files(), &Candidate { bytes: None, symlink: false }, accept)
        .expect_err("missing companion must fail");

    assert_eq!(
        error,
        "credential broker companion is missing; reinstall unpin and unpin-credential-broker together"
    );
}

#[test]
fn stable_broker_install_rejects_unverified_candidate_without_partial_state() {
    let mut files = empty_files();
    let error = install(&mut files, &candidate(b"untrusted broker"), reject)
        .expect_err("unverified candidate must fail");

    assert!(error.contains("signature rejected"));
    assert!(files.installed.is_none());
    assert!(files.temporary.is_none());
}

#[test]
fn stable_broker_install_rejects_symlink_candidate() {
    let mut files = empty_files();
    let error = install(
        &mut files,
        &Candidate { bytes: Some(b"broker".to_vec()), symlink: true },
        accept,
    )
    .expect_err("symlink candidate must fail");

    assert_eq!(error, "credential broker must be a regular file");
    assert!(files.installed.is_none());
}

fn present(metadata: FileMetadata) -> FileStatus {
    FileStatus::Present(metadata)
}

fn missing() -> FileStatus {
    FileStatus::Missing("No such file or directory (os error 2)".to_string())
}

fn evidence() -> InstallationEvidence {
    InstallationEvidence {
        root: present(metadata(false, true, 501, 0o700)),
        broker_directory: missing(),
        protocol_directory: missing(),
        stable_executable: missing(),
        bundled_executable: missing(),
        socket_directory: missing(),
        socket: missing(),
        effective_uid: 501,
    }
}

#[test]
fn first_broker_update_allows_legacy_keyring_only_when_binaries_are_absent() {
    assert!(legacy_keyring_fallback_allowed_for_paths(&evidence()).expect("missing broker paths"));

    let mut seen = evidence();
    seen.bundled_executable = present(metadata(false, false, 501, 0o755));
    assert!(!legacy_keyring_fallback_allowed_for_paths(&seen).expect("present companion"));

    let mut running = evidence();
    running.socket_directory = present(metadata(false, true, 501, 0o700));
    assert!(legacy_keyring_fallback_allowed_for_paths(&running).expect("no socket"));
    running.socket = present(metadata(false, false, 501, 0o600));
    assert!(!legacy_keyring_fallback_allowed_for_paths(&running).expect("a socket"));
    assert!(legacy_keyring_fallback_allowed(Err("no companion path".to_string())).is_err());
}

#[test]
fn first_broker_update_rejects_symlinked_stable_broker_directory() {
    let mut seen = evidence();
    seen.broker_directory = present(metadata(true, false, 501, 0o777));

    let error = legacy_keyring_fallback_allowed_for_paths(&seen)
        .expect_err("symlinked stable broker directory must fail");

    assert_eq!(error, "credential broker installation directory is invalid");
}

#[test]
fn foreign_owned_predictable_socket_directory_is_rejected() {
    let actual_uid: u32 = 501;
    let foreign_uid = actual_uid.wrapping_add(1);

    let error = validate_broker_socket_directory_for_client(
        &present(metadata(false, true, actual_uid, 0o700)),
        foreign_uid,
    )
    .expect_err("foreign-owned socket directory must fail");

    assert_eq!(error, "credential broker socket directory owner is invalid");
}

#[test]
fn permissive_or_symlinked_socket_directory_is_rejected() {
    assert_eq!(
        validate_broker_socket_directory_for_client(
            &present(metadata(false, true, 501, 0o40755)),
            501
        )
        .expect_err("permissive socket directory must fail"),
        "credential broker socket directory permissions are invalid"
    );
    assert_eq!(
        validate_broker_socket_directory_for_client(
            &present(metadata(true, false, 501, 0o777)),
            501
        )
        .expect_err("symlinked socket directory must fail"),
        "credential broker socket directory must be a regular directory"
    );
    assert!(validate_broker_socket_directory_for_client(
        &present(metadata(false, true, 501, 0o40700)),
        501
    )
    .is_ok());
    assert_eq!(
        validate_broker_socket_directory_for_client(&missing(), 501)
            .expect_err("missing socket directory must fail"),
        "credential broker socket directory is unavailable: No such file or directory (os error 2)"
    );
}

#[test]
fn prepared_directories_belong_to_the_user() {
    let own = metadata(false, true, 501, 0o40755);
    assert!(prepare(ensure_socket_directory, own).is_ok());
    assert!(prepare(ensure_stable_broker_directory, own).is_ok());
    for wrong in [
        metadata(true, false, 501, 0o777),
        metadata(false, true, 502, 0o40700),
        metadata(false, false, 501, 0o700),
    ] {
        assert_eq!(
            prepare(ensure_socket_directory, wrong).expect_err("socket directory"),
            "credential broker directory must be a regular directory"
        );
        assert_eq!(
            prepare(ensure_stable_broker_directory, wrong).expect_err("installation directory"),
            "credential broker installation directory is invalid"
        );
    }
    let foreign = DirectoryEvent::Found(metadata(false, true, 502, 0o40700));
    assert!(matches!(
        ensure_socket_directory(501, DirectoryStage::InspectRoot, foreign),
        DirectoryStep::Fail(error)
            if error == "credential broker app state root must be a regular directory"
    ));
    let failed = DirectoryEvent::Failed("denied".to_string());
    assert!(matches!(
        ensure_stable_broker_directory(501, DirectoryStage::Create { index: 1 }, failed),
        DirectoryStep::Fail(error) if error == "denied"
    ));
    assert!(matches!(
        ensure_stable_broker_directory(
            501,
            DirectoryStage::Restrict { index: 0 },
            DirectoryEvent::Done
        ),
        DirectoryStep::Continue(DirectoryStage::Create { index: 1 })
    ));
    assert_eq!(temporary_name("0011"), ".broker-install-0011");
}

#[test]
fn the_stable_executable_lies_below_the_state() {
    let path = stable_broker_executable_path("/state");
    assert!(path.starts_with("/state/"));
    assert!(path.ends_with("/unpin-credential-broker"));
}

#[test]
fn requirement_pins_broker_identifier_and_certificate() {
    let fingerprint = "0123456789ABCDEF0123456789ABCDEF01234567";

    assert_eq!(
        code_requirement(BROKER_CODE_IDENTIFIER, fingerprint).expect("requirement"),
        "identifier \"dev.unpin.credential-broker\" and certificate leaf = H\"0123456789abcdef0123456789abcdef01234567\""
    );
    assert!(code_requirement(BROKER_CODE_IDENTIFIER, "not-a-fingerprint").is_err());
    assert!(code_requirement("unsafe identifier", fingerprint).is_err());
    assert!(verify_broker_code_signature(None).is_err());
    assert!(judge_code_signature(Ok(false)).is_err());
    assert!(judge_code_signature(Ok(true)).is_ok());
}

#[test]
fn macos_requirement_pins_cli_and_desktop_bridge_to_one_certificate() {
    let fingerprint = "0123456789ABCDEF0123456789ABCDEF01234567";

    assert_eq!(
        client_code_requirement(fingerprint).expect("client requirement"),
        "(identifier \"dev.unpin.cli\" or identifier \"dev.unpin.workbench.bridge\") and certificate leaf = H\"0123456789abcdef0123456789abcdef01234567\""
    );
    assert!(client_code_requirement("not-a-fingerprint").is_err());
}

fn round_trip(request: BrokerRequest, store: &mut MemorySecretStore) -> BrokerResponse {
    let mut input = ByteReader::new(encoded(&request));
    let mut output = Vec::new();
    serve_client(Ok(()), &mut input, &mut output, store).expect("serve client");
    read_response(&mut ByteReader::new(output)).ok().expect("response")
}

#[test]
fn broker_authorizes_client_before_touching_backend() {
    let mut store = MemorySecretStore::new();
    let mut input = ByteReader::new(encoded(&put("transition-approval-key-v1", vec![1; 32])));
    let mut output = Vec::new();

    let error = serve_client(
        Err("client signature rejected".to_string()),
        &mut input,
        &mut output,
        &mut store,
    )
    .expect_err("unauthorized client must fail");

    assert!(error.contains("client signature rejected"));
    assert_eq!(store.write_count(), 0);
    assert!(output.is_empty());
}

#[test]
fn authorized_client_can_use_bounded_keychain_operations() {
    let mut store = MemorySecretStore::new();
    let account = "session-authority-key-v1";

    assert!(round_trip(BrokerRequest::Ping, &mut store) == BrokerResponse::Success);
    assert_eq!(store.write_count(), 0);
    assert!(round_trip(put(account, vec![0x53; 32]), &mut store) == BrokerResponse::Success);
    assert!(round_trip(get(account), &mut store) == BrokerResponse::Value(vec![0x53; 32]));
    assert!(round_trip(delete(account), &mut store) == BrokerResponse::Success);
    assert!(round_trip(get(account), &mut store) == BrokerResponse::NotFound);
    assert!(round_trip(delete(account), &mut store) == BrokerResponse::NotFound);
}

#[test]
fn requests_reach_one_service_only() {
    let mut store = MemorySecretStore::new();
    store.set("other.service", "account", b"foreign").unwrap();
    assert!(answer_request(&mut store, &get("account")) == BrokerResponse::NotFound);
    store.set(KEYCHAIN_SERVICE, "account", b"own").unwrap();
    assert!(answer_request(&mut store, &get("account")) == BrokerResponse::Value(b"own".to_vec()));
}

#[test]
fn clients_and_idle_time_are_bounded() {
    assert!(matches!(serve(0, AcceptEvent::Client), ServeStep::Admit));
    assert!(matches!(serve(MAX_ACTIVE_CLIENTS - 1, AcceptEvent::Client), ServeStep::Admit));
    assert!(matches!(serve(MAX_ACTIVE_CLIENTS, AcceptEvent::Client), ServeStep::TurnAway));
    let idle = |idle_millis: u64| serve(0, AcceptEvent::Nobody { idle_millis });
    assert!(matches!(idle(IDLE_TIMEOUT_MILLIS - 1), ServeStep::Pause { millis: 20 }));
    assert!(matches!(idle(IDLE_TIMEOUT_MILLIS), ServeStep::Stop));
    assert!(matches!(
        serve(0, AcceptEvent::Failed("closed".to_string())),
        ServeStep::Fail(error) if error == "closed"
    ));
}

#[test]
fn a_socket_in_use_is_not_taken_over() {
    let taken = || ListenEvent::Taken("in use".to_string());
    assert!(matches!(
        run(ListenStage::Bind, taken()),
        ListenStep::Continue(ListenStage::Connect)
    ));
    assert!(matches!(run(ListenStage::Connect, ListenEvent::Done), ListenStep::AlreadyServed));
    assert!(matches!(
        run(ListenStage::Connect, ListenEvent::Failed("refused".to_string())),
        ListenStep::Continue(ListenStage::RemoveStale)
    ));
    assert!(matches!(
        run(ListenStage::BindAgain, taken()),
        ListenStep::Fail(error) if error == "in use"
    ));
    assert!(matches!(
        run(ListenStage::Serve, ListenEvent::Failed("closed".to_string())),
        ListenStep::Close(Err(error)) if error == "closed"
    ));
    assert!(matches!(run(ListenStage::Serve, ListenEvent::Done), ListenStep::Close(Ok(()))));
}

/// A store that fails at everything.
struct FailingStore;

impl SecretStore for FailingStore {
    fn secrets(&self) -> unpin::secret_store::Secrets {
        unreachable!()
    }

    fn answers(&self) -> bool {
        unreachable!()
    }

    fn writes(&self) -> unpin::secret_store::Writes {
        unreachable!()
    }

    fn get(&self, _service: &str, _account: &str) -> Result<Option<Vec<u8>>, String> {
        Err("unreadable".to_string())
    }

    fn set(&mut self, _service: &str, _account: &str, _secret: &[u8]) -> Result<(), String> {
        Err("unwritable".to_string())
    }

    fn delete(&mut self, _service: &str, _account: &str) -> Result<bool, String> {
        Err("unremovable".to_string())
    }
}

#[test]
fn what_a_store_says_is_handed_on() {
    let failed = || "locked keychain".to_string();
    let error = || BrokerResponse::Error(failed());
    assert!(answer_get(Ok(Some(vec![1, 2]))) == BrokerResponse::Value(vec![1, 2]));
    assert!(answer_get(Ok(None)) == BrokerResponse::NotFound);
    assert!(answer_get(Err(failed())) == error());
    assert!(answer_set(Ok(())) == BrokerResponse::Success);
    assert!(answer_set(Err(failed())) == error());
    assert!(answer_delete(Ok(true)) == BrokerResponse::Success);
    assert!(answer_delete(Ok(false)) == BrokerResponse::NotFound);
    assert!(answer_delete(Err(failed())) == error());
}

#[test]
fn failures_of_the_store_are_answered() {
    let mut store = FailingStore;
    let error = |text: &str| BrokerResponse::Error(text.to_string());
    assert!(answer_request(&mut store, &BrokerRequest::Ping) == BrokerResponse::Success);
    assert!(answer_request(&mut store, &get("account")) == error("unreadable"));
    assert!(answer_request(&mut store, &put("account", vec![1])) == error("unwritable"));
    assert!(answer_request(&mut store, &delete("account")) == error("unremovable"));

    let mut output = Vec::new();
    let mut input = ByteReader::new(encoded(&get("account")));
    serve_client(Ok(()), &mut input, &mut output, &mut store).expect("serve client");
    assert!(
        read_response(&mut ByteReader::new(output)).ok().expect("response") == error("unreadable")
    );
}

#[test]
fn peers_are_named_in_errors() {
    assert_ne!(PeerKind::Broker.socket_error(), PeerKind::Client.socket_error());
    assert_ne!(PeerKind::Broker.signature_error(), PeerKind::Client.signature_error());
    assert_eq!(PeerKind::Client.description(), "credential broker client");
    assert_eq!(
        PeerKind::Broker.requirement(None).expect_err("no fingerprint"),
        "Unpin was not built with a broker certificate fingerprint"
    );
    assert_eq!(
        PeerKind::Client.requirement(None).expect_err("no fingerprint"),
        "credential broker was not built with an Unpin client certificate"
    );
    let fingerprint = "0123456789ABCDEF0123456789ABCDEF01234567";
    assert_eq!(
        PeerKind::Broker.requirement(Some(fingerprint)),
        code_requirement(BROKER_CODE_IDENTIFIER, fingerprint)
    );
    assert_eq!(
        PeerKind::Client.requirement(Some(fingerprint)),
        client_code_requirement(fingerprint)
    );
}

#[test]
fn broker_arguments_name_the_state() {
    let args = |list: &[&str]| list.iter().map(|text| text.to_string()).collect::<Vec<String>>();
    assert!(matches!(parse_broker_arguments(&args(&["--version"])), BrokerCommand::Version));
    assert!(matches!(parse_broker_arguments(&args(&["-h"])), BrokerCommand::Help));
    assert!(matches!(
        parse_broker_arguments(&args(&["--app-state-root", "/state"])),
        BrokerCommand::Serve { app_state_root } if app_state_root == "/state"
    ));
    assert!(matches!(
        parse_broker_arguments(&args(&["--app-state-root"])),
        BrokerCommand::Usage { message } if message == "credential broker app state root is missing"
    ));
    assert!(matches!(
        parse_broker_arguments(&args(&["--app-state-root", "/state", "more"])),
        BrokerCommand::Usage { message } if message == "credential broker received unexpected arguments"
    ));
    assert!(matches!(parse_broker_arguments(&args(&[])), BrokerCommand::Usage { .. }));
}
