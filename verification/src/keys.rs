//! The three signing keys that stand in the secret store, each under an
//! account of its own: loading, reporting and creating them.
use vstd::prelude::*;

use crate::credential_bundle::{
    key_at, APPROVAL_ACCOUNT, BACKUP_AUTHENTICATION_ACCOUNT, SESSION_AUTHORITY_ACCOUNT,
};
use crate::secret_store::{same_but_slot, slot, with_slot, SecretStore, Secrets, KEYCHAIN_SERVICE};
use crate::text::{hex_of, joined, optional, to_hex};

verus! {

/// Which key an operation is about.
#[derive(Clone, Copy, PartialEq, Eq, Structural)]
pub enum KeyKind {
    Approval,
    BackupAuthentication,
    SessionAuthority,
}

/// The account that keeps a key.
pub open spec fn key_account(kind: KeyKind) -> Seq<char> {
    match kind {
        KeyKind::Approval => APPROVAL_ACCOUNT@,
        KeyKind::BackupAuthentication => BACKUP_AUTHENTICATION_ACCOUNT@,
        KeyKind::SessionAuthority => SESSION_AUTHORITY_ACCOUNT@,
    }
}

/// The error of a stored secret that is no key.
pub open spec fn malformed_key(kind: KeyKind) -> Seq<char> {
    match kind {
        KeyKind::Approval => "stored approval key is invalid: key must be exactly 32 bytes"@,
        KeyKind::BackupAuthentication =>
            "stored backup authentication key is invalid: key must be exactly 32 bytes"@,
        KeyKind::SessionAuthority =>
            "stored session authority key is invalid: key must be exactly 32 bytes"@,
    }
}

/// The error of a stored secret that is no key: each has its own words.
pub proof fn law_words_of_malformed_key(kind: KeyKind)
    ensures
        kind is Approval ==> malformed_key(kind)
            == "stored approval key is invalid: key must be exactly 32 bytes"@,
        kind is BackupAuthentication ==> malformed_key(kind)
            == "stored backup authentication key is invalid: key must be exactly 32 bytes"@,
        kind is SessionAuthority ==> malformed_key(kind)
            == "stored session authority key is invalid: key must be exactly 32 bytes"@,
{
}

/// How the error of a failed generation starts.
pub open spec fn generation_failure(kind: KeyKind) -> Seq<char> {
    match kind {
        KeyKind::Approval => "approval key generation failed: "@,
        KeyKind::BackupAuthentication => "backup authentication key generation failed: "@,
        KeyKind::SessionAuthority => "session authority key generation failed: "@,
    }
}

/// How the error of a failed generation starts: each has its own words.
pub proof fn law_words_of_generation_failure(kind: KeyKind)
    ensures
        kind is Approval ==> generation_failure(kind) == "approval key generation failed: "@,
        kind is BackupAuthentication ==> generation_failure(kind)
            == "backup authentication key generation failed: "@,
        kind is SessionAuthority ==> generation_failure(kind)
            == "session authority key generation failed: "@,
{
}

/// Whether a key is stored. The key itself is handed on so that its public
/// identifier can be derived from it.
#[derive(Clone, Copy, PartialEq, Eq)]
pub enum KeyState {
    Missing,
    Ready { key: [u8; 32] },
}

/// What an initialization did.
#[derive(Clone, Copy, PartialEq, Eq)]
pub enum KeyInitialization {
    Created { key: [u8; 32] },
    AlreadyExists { key: [u8; 32] },
}

/// The key in the secret that was found for its account.
pub open spec fn stored_key(kind: KeyKind, found: Option<Seq<u8>>) -> Result<
    Option<Seq<u8>>,
    Seq<char>,
> {
    match found {
        None => Ok(None),
        Some(secret) => if secret.len() == 32 {
            Ok(Some(secret))
        } else {
            Err(malformed_key(kind))
        },
    }
}

/// The key that a store holds.
pub open spec fn loaded_key(kind: KeyKind, secrets: Secrets) -> Result<Option<Seq<u8>>, Seq<char>> {
    stored_key(kind, slot(secrets, key_account(kind)))
}

impl KeyKind {
    pub fn account(self) -> (account: &'static str)
        ensures
            account@ == key_account(self),
    {
        match self {
            KeyKind::Approval => APPROVAL_ACCOUNT,
            KeyKind::BackupAuthentication => BACKUP_AUTHENTICATION_ACCOUNT,
            KeyKind::SessionAuthority => SESSION_AUTHORITY_ACCOUNT,
        }
    }

    fn malformed(self) -> (error: &'static str)
        ensures
            error@ == malformed_key(self),
    {
        match self {
            KeyKind::Approval => "stored approval key is invalid: key must be exactly 32 bytes",
            KeyKind::BackupAuthentication =>
                "stored backup authentication key is invalid: key must be exactly 32 bytes",
            KeyKind::SessionAuthority =>
                "stored session authority key is invalid: key must be exactly 32 bytes",
        }
    }

    fn failure(self) -> (prefix: &'static str)
        ensures
            prefix@ == generation_failure(self),
    {
        match self {
            KeyKind::Approval => "approval key generation failed: ",
            KeyKind::BackupAuthentication => "backup authentication key generation failed: ",
            KeyKind::SessionAuthority => "session authority key generation failed: ",
        }
    }
}

/// The key in the secret that was found for its account.
pub fn key_from_stored_secret(kind: KeyKind, found: Option<Vec<u8>>) -> (r: Result<
    Option<[u8; 32]>,
    String,
>)
    ensures
        match stored_key(kind, optional(found)) {
            Ok(key) => r is Ok && optional(r->Ok_0) == key,
            Err(error) => r is Err && r->Err_0@ == error,
        },
{
    match found {
        None => Ok(None),
        Some(mut secret) => {
            if secret.len() != 32 {
                crate::broker_protocol::wipe_bytes(&mut secret);
                return Err(kind.malformed().to_owned());
            }
            let key = key_at(secret.as_slice(), 0);
            assert(key@ =~= secret@);
            crate::broker_protocol::wipe_bytes(&mut secret);
            Ok(Some(key))
        },
    }
}

/// Loads a key from the store.
pub fn load_key<S: SecretStore>(store: &S, kind: KeyKind) -> (r: Result<Option<[u8; 32]>, String>)
    ensures
        store.answers() || r is Ok ==> match loaded_key(kind, store.secrets()) {
            Ok(key) => r is Ok && optional(r->Ok_0) == key,
            Err(error) => r is Err && r->Err_0@ == error,
        },
{
    match store.get(KEYCHAIN_SERVICE, kind.account()) {
        Ok(found) => key_from_stored_secret(kind, found),
        Err(error) => Err(error),
    }
}

/// What `key_status` reports of a loaded key.
pub open spec fn status_reports(
    r: Result<KeyState, String>,
    loaded: Result<Option<Seq<u8>>, Seq<char>>,
) -> bool {
    match loaded {
        Ok(None) => r is Ok && r->Ok_0 is Missing,
        Ok(Some(key)) => r is Ok && r->Ok_0 is Ready && r->Ok_0->Ready_key@ == key,
        Err(error) => r is Err && r->Err_0@ == error,
    }
}

fn key_status<S: SecretStore>(store: &S, kind: KeyKind) -> (r: Result<KeyState, String>)
    ensures
        store.answers() || r is Ok ==> status_reports(r, loaded_key(kind, store.secrets())),
{
    match load_key(store, kind) {
        Ok(Some(key)) => Ok(KeyState::Ready { key }),
        Ok(None) => Ok(KeyState::Missing),
        Err(error) => Err(error),
    }
}

/// Whether the approval key is stored.
pub fn approval_key_status<S: SecretStore>(store: &S) -> (r: Result<KeyState, String>)
    ensures
        store.answers() || r is Ok ==> status_reports(
            r,
            loaded_key(KeyKind::Approval, store.secrets()),
        ),
{
    key_status(store, KeyKind::Approval)
}

/// Whether the backup authentication key is stored.
pub fn backup_authentication_status<S: SecretStore>(store: &S) -> (r: Result<KeyState, String>)
    ensures
        store.answers() || r is Ok ==> status_reports(
            r,
            loaded_key(KeyKind::BackupAuthentication, store.secrets()),
        ),
{
    key_status(store, KeyKind::BackupAuthentication)
}

/// Whether the session authority key is stored.
pub fn session_authority_key_status<S: SecretStore>(store: &S) -> (r: Result<KeyState, String>)
    ensures
        store.answers() || r is Ok ==> status_reports(
            r,
            loaded_key(KeyKind::SessionAuthority, store.secrets()),
        ),
{
    key_status(store, KeyKind::SessionAuthority)
}

/// `getrandom::fill` on a fresh buffer: that many bytes of whatever value, or
/// the text of its error.
#[verifier::external_body]
fn random_bytes(count: usize) -> (r: Result<Vec<u8>, String>)
    requires
        count <= 64,
    ensures
        r is Ok ==> r->Ok_0@.len() == count,
{
    let mut bytes = vec![0u8; count];
    getrandom::fill(&mut bytes).map_err(|error| error.to_string())?;
    Ok(bytes)
}

/// The hexadecimal suffix of sixteen generated bytes.
pub fn suffix_from_bytes(bytes: Result<Vec<u8>, String>) -> (r: Result<String, String>)
    ensures
        match bytes {
            Ok(value) => r is Ok && r->Ok_0@ == hex_of(value@),
            Err(error) => r is Err && r->Err_0 == error,
        },
{
    match bytes {
        Ok(value) => Ok(to_hex(value.as_slice())),
        Err(error) => Err(error),
    }
}

/// A fresh suffix of 32 hexadecimal digits, whatever bytes were drawn.
pub fn random_suffix() -> (r: Result<String, String>)
    ensures
        r is Ok ==> exists|bytes: Seq<u8>| bytes.len() == 16 && r->Ok_0@ == #[trigger] hex_of(bytes),
{
    suffix_from_bytes(random_bytes(16))
}

/// A fresh suffix of 16 hexadecimal digits for a temporary file.
pub fn install_suffix() -> (r: Result<String, String>)
    ensures
        r is Ok ==> exists|bytes: Seq<u8>| bytes.len() == 8 && r->Ok_0@ == #[trigger] hex_of(bytes),
{
    suffix_from_bytes(random_bytes(8))
}

/// Creates a key from generated bytes where none is stored. A stored key is
/// reported and stays; a malformed one is an error and stays too.
pub fn initialize_key_with<S: SecretStore>(
    store: &mut S,
    kind: KeyKind,
    generated: Result<[u8; 32], String>,
) -> (r: Result<KeyInitialization, String>)
    ensures
        r is Ok || old(store).answers() ==> match loaded_key(kind, old(store).secrets()) {
            Err(error) => r is Err && r->Err_0@ == error,
            Ok(Some(key)) => r is Ok && r->Ok_0 is AlreadyExists && r->Ok_0->AlreadyExists_key@
                == key,
            Ok(None) => match generated {
                Ok(key) => r == Ok::<KeyInitialization, String>(KeyInitialization::Created { key }),
                Err(error) => r is Err && r->Err_0@ == generation_failure(kind) + error@,
            },
        },
        r is Ok && r->Ok_0 is Created ==> final(store).secrets() == with_slot(
            old(store).secrets(),
            key_account(kind),
            generated->Ok_0@,
        ),
        r is Err ==> same_but_slot(
            old(store).secrets(),
            final(store).secrets(),
            key_account(kind),
        ),
        loaded_key(kind, old(store).secrets()) != Ok::<Option<Seq<u8>>, Seq<char>>(None)
            || generated is Err ==> final(store).secrets() == old(store).secrets()
            && final(store).writes() == old(store).writes(),
        r is Ok && r->Ok_0 is Created ==> final(store).writes() == old(store).writes() + 1,
        r is Err ==> old(store).writes() <= final(store).writes() <= old(store).writes() + 1,
        final(store).answers() == old(store).answers(),
        r is Ok && r->Ok_0 is Created ==> loaded_key(kind, old(store).secrets()) == Ok::<
            Option<Seq<u8>>,
            Seq<char>,
        >(None) && generated == Ok::<[u8; 32], String>(r->Ok_0->Created_key),
{
    match load_key(store, kind) {
        Err(error) => return Err(error),
        Ok(Some(key)) => return Ok(KeyInitialization::AlreadyExists { key }),
        Ok(None) => {},
    }
    match generated {
        Err(error) => Err(joined(kind.failure(), error.as_str())),
        Ok(key) => {
            match store.set(KEYCHAIN_SERVICE, kind.account(), key.as_slice()) {
                Ok(()) => Ok(KeyInitialization::Created { key }),
                Err(error) => Err(error),
            }
        },
    }
}

/// Creates a key from random bytes where none is stored; bytes are drawn only
/// then.
fn initialize_key<S: SecretStore>(store: &mut S, kind: KeyKind) -> (r: Result<
    KeyInitialization,
    String,
>)
    ensures
        initialization_outcome(
            kind,
            old(store).secrets(),
            final(store).secrets(),
            old(store).answers(),
            final(store).writes() - old(store).writes(),
            r,
        ),
{
    match load_key(store, kind) {
        Err(error) => Err(error),
        Ok(Some(key)) => Ok(KeyInitialization::AlreadyExists { key }),
        Ok(None) => {
            let generated = match random_bytes(32) {
                Ok(bytes) => Ok(key_at(bytes.as_slice(), 0)),
                Err(error) => Err(error),
            };
            let ghost drawn = generated;
            let r = initialize_key_with(store, kind, generated);
            proof {
                if drawn is Err {
                    let error = drawn->Err_0@;
                    assert(generation_failure(kind) + error == generation_failure(kind) + error);
                }
            }
            r
        },
    }
}

/// Creates the approval key from random bytes where none is stored.
pub fn initialize_approval_key<S: SecretStore>(store: &mut S) -> (r: Result<
    KeyInitialization,
    String,
>)
    ensures
        initialization_outcome(
            KeyKind::Approval,
            old(store).secrets(),
            final(store).secrets(),
            old(store).answers(),
            final(store).writes() - old(store).writes(),
            r,
        ),
{
    initialize_key(store, KeyKind::Approval)
}

/// Creates the backup authentication key from random bytes where none is
/// stored.
pub fn initialize_backup_authentication_key<S: SecretStore>(store: &mut S) -> (r: Result<
    KeyInitialization,
    String,
>)
    ensures
        initialization_outcome(
            KeyKind::BackupAuthentication,
            old(store).secrets(),
            final(store).secrets(),
            old(store).answers(),
            final(store).writes() - old(store).writes(),
            r,
        ),
{
    initialize_key(store, KeyKind::BackupAuthentication)
}

/// Creates the session authority key from random bytes where none is stored.
pub fn initialize_session_authority_key<S: SecretStore>(store: &mut S) -> (r: Result<
    KeyInitialization,
    String,
>)
    ensures
        initialization_outcome(
            KeyKind::SessionAuthority,
            old(store).secrets(),
            final(store).secrets(),
            old(store).answers(),
            final(store).writes() - old(store).writes(),
            r,
        ),
{
    initialize_key(store, KeyKind::SessionAuthority)
}

/// What an initialization from random bytes may come to: a stored key is
/// reported and stays, a malformed one is an error and stays too, and where
/// there is none a created one is the only change, and the only write. A store
/// that answers leaves one more failure, that no bytes could be drawn.
pub open spec fn initialization_outcome(
    kind: KeyKind,
    before: Secrets,
    after: Secrets,
    answers: bool,
    written: int,
    r: Result<KeyInitialization, String>,
) -> bool {
    let loaded = loaded_key(kind, before);
    &&& (r is Ok || answers ==> match loaded {
        Err(error) => r is Err && r->Err_0@ == error,
        Ok(Some(key)) => r is Ok && r->Ok_0 is AlreadyExists && r->Ok_0->AlreadyExists_key@ == key,
        Ok(None) => match r {
            Ok(created) => created is Created && after == with_slot(
                before,
                key_account(kind),
                created->Created_key@,
            ) && written == 1,
            Err(text) => exists|error: Seq<char>|
                text@ == #[trigger] (generation_failure(kind) + error),
        },
    })
    &&& (loaded != Ok::<Option<Seq<u8>>, Seq<char>>(None) ==> after == before && written == 0)
    &&& (r is Err ==> same_but_slot(before, after, key_account(kind)) && 0 <= written <= 1)
    &&& (r is Err && answers ==> after == before && written == 0)
}

/// The key of fixture mode, or the one that a bundle holds.
pub fn resolve_key(fixture: Option<[u8; 32]>, bundled: Option<[u8; 32]>) -> (key: Option<[u8; 32]>)
    ensures
        key == if fixture is Some {
            fixture
        } else {
            bundled
        },
{
    match fixture {
        Some(key) => Some(key),
        None => bundled,
    }
}

/// A key that was created is what the next load gives.
pub proof fn law_created_key_is_loaded(kind: KeyKind, secrets: Secrets, key: Seq<u8>)
    requires
        key.len() == 32,
    ensures
        loaded_key(kind, with_slot(secrets, key_account(kind), key)) == Ok::<
            Option<Seq<u8>>,
            Seq<char>,
        >(Some(key)),
{
}

/// Each key has a slot of its own: creating one never shows in another.
pub proof fn law_keys_are_separate(a: KeyKind, b: KeyKind, secrets: Secrets, key: Seq<u8>)
    requires
        a != b,
    ensures
        loaded_key(b, with_slot(secrets, key_account(a), key)) == loaded_key(b, secrets),
{
    reveal_strlit("transition-approval-key-v1");
    reveal_strlit("backup-authentication-key-v1");
    reveal_strlit("session-authority-key-v1");
    assert(APPROVAL_ACCOUNT@[0] == 't');
    assert(BACKUP_AUTHENTICATION_ACCOUNT@[0] == 'b');
    assert(SESSION_AUTHORITY_ACCOUNT@[0] == 's');
}

} // verus!
