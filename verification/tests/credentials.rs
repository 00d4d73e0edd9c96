use unpin::credential_bundle::{
    decode_bundle, encode_bundle, load_bundle_from_store, refresh_incomplete_bundle,
    CredentialBundle, APPROVAL_ACCOUNT, BACKUP_AUTHENTICATION_ACCOUNT, BUNDLE_BYTES,
    BUNDLE_VERSION, CREDENTIAL_BUNDLE_ACCOUNT, SESSION_AUTHORITY_ACCOUNT,
};
use unpin::cursor_dashboard::{
    cursor_dashboard_credential_status, decode_cursor_dashboard_cookie,
    remove_cursor_dashboard_cookie, store_cursor_dashboard_cookie, validate_cursor_dashboard_cookie,
    CursorDashboardCredentialRemoval, CursorDashboardCredentialState,
    CursorDashboardCredentialUpdate, CURSOR_DASHBOARD_ACCOUNT, CURSOR_DASHBOARD_CREDENTIAL_PREFIX,
    MAX_CURSOR_DASHBOARD_COOKIE_BYTES,
};
use unpin::gateway_credential::{
    fixture_gateway_material, resolve_gateway_credential_from_store,
    validate_gateway_credential_key_id, GATEWAY_CREDENTIAL_ACCOUNT_PREFIX,
};
use unpin::keys::{
    approval_key_status, backup_authentication_status, initialize_approval_key,
    initialize_key_with, install_suffix, random_suffix, resolve_key, session_authority_key_status,
    suffix_from_bytes, KeyInitialization, KeyKind, KeyState,
};
use unpin::secret_store::{MemorySecretStore, SecretEntry, SecretStore, KEYCHAIN_SERVICE};

fn store_with(service: &str, account: &str, secret: Vec<u8>) -> MemorySecretStore {
    MemorySecretStore::holding(vec![SecretEntry {
        service: service.to_string(),
        account: account.to_string(),
        secret,
    }])
}

fn cookie_prefix() -> Vec<u8> {
    CURSOR_DASHBOARD_CREDENTIAL_PREFIX.as_bytes().to_vec()
}

#[test]
fn resolves_gateway_secret_by_authenticated_key_id_without_exposing_other_accounts() {
    let mut store = MemorySecretStore::new();
    store
        .set(
            KEYCHAIN_SERVICE,
            &format!("{GATEWAY_CREDENTIAL_ACCOUNT_PREFIX}gateway-token-a"),
            b"secret-token",
        )
        .expect("store gateway credential");
    store
        .set(KEYCHAIN_SERVICE, "gateway-token-b", b"other-account")
        .expect("store non-gateway credential");

    let token = resolve_gateway_credential_from_store(&store, "gateway-token-a")
        .expect("resolve gateway credential")
        .expect("gateway credential present");

    assert_eq!(token.as_str(), "secret-token");
    assert!(resolve_gateway_credential_from_store(&store, "gateway-token-b")
        .expect("resolve missing credential")
        .is_none());
}

#[test]
fn rejects_invalid_gateway_credential_material() {
    let mut store = MemorySecretStore::new();
    store
        .set(
            KEYCHAIN_SERVICE,
            &format!("{GATEWAY_CREDENTIAL_ACCOUNT_PREFIX}gateway-token-a"),
            &[0xff],
        )
        .expect("store invalid gateway credential");

    assert!(resolve_gateway_credential_from_store(&store, "gateway-token-a").is_err());
    assert!(resolve_gateway_credential_from_store(&store, "bad\nkey").is_err());
}

#[test]
fn gateway_key_ids_are_bounded() {
    assert!(validate_gateway_credential_key_id("gateway-token-a").is_ok());
    assert!(validate_gateway_credential_key_id("").is_err());
    assert!(fixture_gateway_material(None, "gateway-token-a").expect("no fixture").is_none());
}

#[test]
fn initializes_separate_approval_key_and_reports_id() {
    let mut store = MemorySecretStore::new();
    let created = initialize_key_with(&mut store, KeyKind::Approval, Ok([0x33; 32]))
        .expect("initialize approval key");
    assert!(matches!(created, KeyInitialization::Created { key } if key == [0x33; 32]));
    assert!(matches!(
        approval_key_status(&store).unwrap(),
        KeyState::Ready { key } if key == [0x33; 32]
    ));
}

#[test]
fn initializes_once_and_reports_non_secret_key_id() {
    let mut store = MemorySecretStore::new();
    let created = initialize_key_with(&mut store, KeyKind::BackupAuthentication, Ok([0x11; 32]))
        .expect("initialize key");
    assert!(matches!(created, KeyInitialization::Created { key } if key == [0x11; 32]));
    assert!(matches!(
        backup_authentication_status(&store).expect("key status"),
        KeyState::Ready { key } if key == [0x11; 32]
    ));

    let existing = initialize_key_with(
        &mut store,
        KeyKind::BackupAuthentication,
        Err("existing key must not be replaced".to_string()),
    )
    .expect("existing key");
    assert!(matches!(existing, KeyInitialization::AlreadyExists { key } if key == [0x11; 32]));
    assert_eq!(store.write_count(), 1);
}

#[test]
fn rejects_malformed_stored_key_without_replacing_it() {
    let mut store = store_with(KEYCHAIN_SERVICE, BACKUP_AUTHENTICATION_ACCOUNT, vec![0x11; 31]);
    let error = initialize_key_with(&mut store, KeyKind::BackupAuthentication, Ok([0x22; 32]))
        .err()
        .expect("malformed key must fail");
    assert!(error.contains("exactly 32 bytes"));
    assert_eq!(store.write_count(), 0);
}

#[test]
fn reports_missing_key() {
    let store = MemorySecretStore::new();
    assert!(matches!(
        backup_authentication_status(&store).expect("key status"),
        KeyState::Missing
    ));
}

#[test]
fn initializes_dedicated_session_authority_key_and_reports_id() {
    let mut store = MemorySecretStore::new();
    let created = initialize_key_with(&mut store, KeyKind::SessionAuthority, Ok([0x53; 32]))
        .expect("initialize session authority key");
    assert!(matches!(created, KeyInitialization::Created { key } if key == [0x53; 32]));
    assert!(matches!(
        session_authority_key_status(&store).unwrap(),
        KeyState::Ready { key } if key == [0x53; 32]
    ));
    assert!(matches!(backup_authentication_status(&store).unwrap(), KeyState::Missing));
    assert!(matches!(approval_key_status(&store).unwrap(), KeyState::Missing));
}

#[test]
fn a_failed_draw_writes_no_key() {
    let mut store = MemorySecretStore::new();
    let error = initialize_key_with(&mut store, KeyKind::Approval, Err("no entropy".to_string()))
        .err()
        .expect("a draw that failed");
    assert!(error.contains("no entropy"));
    assert_eq!(store.write_count(), 0);
}

#[test]
fn drawn_keys_and_suffixes_differ() {
    let mut first = MemorySecretStore::new();
    let mut second = MemorySecretStore::new();
    let one = initialize_approval_key(&mut first).expect("first key");
    let two = initialize_approval_key(&mut second).expect("second key");
    match (one, two) {
        (KeyInitialization::Created { key: a }, KeyInitialization::Created { key: b }) => {
            assert_ne!(a, b);
            assert_ne!(a, [0; 32]);
        }
        _ => panic!("both stores were empty"),
    }
    let a = random_suffix().expect("suffix");
    let b = random_suffix().expect("suffix");
    assert_eq!(a.len(), 32);
    assert!(a.chars().all(|c| c.is_ascii_hexdigit() && !c.is_ascii_uppercase()));
    assert_ne!(a, b);
    assert_ne!(install_suffix().expect("suffix"), install_suffix().expect("suffix"));
}

#[test]
fn a_suffix_is_the_hex_of_its_bytes() {
    assert_eq!(suffix_from_bytes(Ok(vec![0x00, 0x0f, 0xa5, 0xff])).expect("suffix"), "000fa5ff");
    assert!(suffix_from_bytes(Err("no entropy".to_string())).is_err());
}

#[test]
fn a_fixture_key_comes_before_a_bundled_one() {
    assert_eq!(resolve_key(Some([1; 32]), Some([2; 32])), Some([1; 32]));
    assert_eq!(resolve_key(None, Some([2; 32])), Some([2; 32]));
    assert_eq!(resolve_key(None, None), None);
}

#[test]
fn credential_bundle_round_trip_preserves_present_values() {
    let bundle = CredentialBundle {
        approval: Some([0x11; 32]),
        backup_authentication: None,
        session_authority: Some([0x53; 32]),
    };

    let encoded = encode_bundle(&bundle);
    let decoded = decode_bundle(&encoded).ok().expect("decode credential bundle");

    assert_eq!(encoded.len(), BUNDLE_BYTES);
    assert_eq!(decoded.approval(), Some([0x11; 32]));
    assert_eq!(decoded.backup_authentication(), None);
    assert_eq!(decoded.session_authority(), Some([0x53; 32]));
}

#[test]
fn credential_bundle_rejects_invalid_fields() {
    let mut encoded = [0; BUNDLE_BYTES];
    encoded[0] = BUNDLE_VERSION;
    encoded[1] = 2;

    assert!(decode_bundle(encoded.as_slice()).is_err());
}

#[test]
fn credential_bundle_rejects_other_versions_and_lengths() {
    let mut encoded = [0; BUNDLE_BYTES];
    encoded[0] = BUNDLE_VERSION + 1;
    assert!(decode_bundle(encoded.as_slice()).is_err());
    encoded[0] = BUNDLE_VERSION;
    assert!(decode_bundle(encoded.as_slice()).is_ok());
    assert!(decode_bundle(&encoded[..BUNDLE_BYTES - 1]).is_err());
    encoded[2] = 7;
    assert!(decode_bundle(encoded.as_slice()).is_err());
}

#[test]
fn complete_legacy_credentials_migrate_once_to_a_bundle() {
    let mut store = MemorySecretStore::new();
    for (account, value) in [
        (APPROVAL_ACCOUNT, 0x11),
        (BACKUP_AUTHENTICATION_ACCOUNT, 0x42),
        (SESSION_AUTHORITY_ACCOUNT, 0x53),
    ] {
        store
            .set(KEYCHAIN_SERVICE, account, &[value; 32])
            .expect("store legacy credential");
    }
    let writes_before_migration = store.write_count();

    let first = load_bundle_from_store(&mut store)
        .ok()
        .expect("migrate complete legacy credentials");
    let second = load_bundle_from_store(&mut store).ok().expect("load migrated credentials");

    assert_eq!(first.approval(), Some([0x11; 32]));
    assert_eq!(first.backup_authentication(), Some([0x42; 32]));
    assert_eq!(first.session_authority(), Some([0x53; 32]));
    assert_eq!(second.approval(), Some([0x11; 32]));
    assert_eq!(store.write_count(), writes_before_migration + 1);
}

#[test]
fn incomplete_bundle_refreshes_after_a_missing_key_is_initialized() {
    let mut store = MemorySecretStore::new();
    store
        .set(KEYCHAIN_SERVICE, APPROVAL_ACCOUNT, &[0x11; 32])
        .expect("store approval key");
    store
        .set(KEYCHAIN_SERVICE, BACKUP_AUTHENTICATION_ACCOUNT, &[0x42; 32])
        .expect("store backup key");
    let mut bundle = load_bundle_from_store(&mut store).ok().expect("load partial bundle");
    assert_eq!(bundle.session_authority(), None);

    store
        .set(KEYCHAIN_SERVICE, SESSION_AUTHORITY_ACCOUNT, &[0x53; 32])
        .expect("initialize session key");
    refresh_incomplete_bundle(&mut bundle, &mut store).expect("refresh incomplete bundle");

    assert_eq!(bundle.session_authority(), Some([0x53; 32]));
    assert!(bundle.is_complete());
}

#[test]
fn a_damaged_bundle_is_reported() {
    let mut store = store_with(KEYCHAIN_SERVICE, CREDENTIAL_BUNDLE_ACCOUNT, vec![9; 4]);
    assert!(load_bundle_from_store(&mut store).is_err());
}

#[test]
fn cursor_dashboard_cookie_uses_separate_non_exporting_keychain_slot() {
    let mut store = MemorySecretStore::new();
    let cookie = b"WorkosCursorSessionToken=private-value";
    assert!(matches!(
        store_cursor_dashboard_cookie(&mut store, cookie).unwrap(),
        CursorDashboardCredentialUpdate::Created
    ));
    assert!(matches!(
        cursor_dashboard_credential_status(&store).unwrap(),
        CursorDashboardCredentialState::Ready
    ));
    let stored = store
        .get(KEYCHAIN_SERVICE, CURSOR_DASHBOARD_ACCOUNT)
        .unwrap()
        .expect("bound Cursor credential");
    assert!(stored.starts_with(&cookie_prefix()));
    assert_eq!(decode_cursor_dashboard_cookie(&stored).unwrap(), cookie);
    assert!(matches!(backup_authentication_status(&store).unwrap(), KeyState::Missing));
    assert!(matches!(approval_key_status(&store).unwrap(), KeyState::Missing));
    assert!(matches!(
        store_cursor_dashboard_cookie(&mut store, b"WorkosCursorSessionToken=replaced").unwrap(),
        CursorDashboardCredentialUpdate::Updated
    ));
    assert!(matches!(
        remove_cursor_dashboard_cookie(&mut store).unwrap(),
        CursorDashboardCredentialRemoval::Removed
    ));
    assert!(matches!(
        cursor_dashboard_credential_status(&store).unwrap(),
        CursorDashboardCredentialState::Missing
    ));
    assert!(matches!(
        remove_cursor_dashboard_cookie(&mut store).unwrap(),
        CursorDashboardCredentialRemoval::Missing
    ));
}

#[test]
fn cursor_dashboard_cookie_rejects_empty_control_and_oversized_values() {
    let mut store = MemorySecretStore::new();
    for secret in [
        Vec::new(),
        b"cookie\nvalue".to_vec(),
        vec![b'x'; MAX_CURSOR_DASHBOARD_COOKIE_BYTES + 1],
    ] {
        assert!(store_cursor_dashboard_cookie(&mut store, &secret).is_err());
    }
    assert!(matches!(
        cursor_dashboard_credential_status(&store).unwrap(),
        CursorDashboardCredentialState::Missing
    ));
    assert!(validate_cursor_dashboard_cookie(&[b'x'; 16]).is_ok());
}

#[test]
fn cursor_dashboard_cookie_rejects_wrong_service_account_and_unbound_payloads() {
    for (service, account) in [
        ("dev.unpin.workspace-substitution", CURSOR_DASHBOARD_ACCOUNT),
        (KEYCHAIN_SERVICE, "cursor-dashboard-cookie-project-v1"),
    ] {
        let mut secret = cookie_prefix();
        secret.extend_from_slice(b"WorkosCursorSessionToken=private-value");
        let store = store_with(service, account, secret);
        assert!(matches!(
            cursor_dashboard_credential_status(&store).unwrap(),
            CursorDashboardCredentialState::Missing
        ));
    }

    let store = store_with(
        KEYCHAIN_SERVICE,
        CURSOR_DASHBOARD_ACCOUNT,
        b"WorkosCursorSessionToken=unbound".to_vec(),
    );
    assert_eq!(
        cursor_dashboard_credential_status(&store).err().unwrap(),
        "stored Cursor dashboard credential is invalid"
    );
}

#[test]
fn a_store_gives_back_what_was_written_last() {
    let mut store = MemorySecretStore::new();
    store.set("service", "account", b"one").unwrap();
    store.set("service", "account", b"two").unwrap();
    store.set("service", "other", b"three").unwrap();
    assert_eq!(store.get("service", "account").unwrap().unwrap(), b"two".to_vec());
    assert!(store.delete("service", "account").unwrap());
    assert!(!store.delete("service", "account").unwrap());
    assert!(store.get("service", "account").unwrap().is_none());
    assert_eq!(store.get("service", "other").unwrap().unwrap(), b"three".to_vec());
}
