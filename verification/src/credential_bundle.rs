//! The credential bundle: three optional keys kept in one secret, and the
//! migration of separately stored keys into it.
use vstd::prelude::*;

use crate::secret_store::{same_but_slot, slot, with_slot, SecretStore, Secrets, KEYCHAIN_SERVICE};
use crate::text::{optional, outcome};

verus! {

pub const APPROVAL_ACCOUNT: &'static str = "transition-approval-key-v1";

pub const BACKUP_AUTHENTICATION_ACCOUNT: &'static str = "backup-authentication-key-v1";

pub const SESSION_AUTHORITY_ACCOUNT: &'static str = "session-authority-key-v1";

pub const CREDENTIAL_BUNDLE_ACCOUNT: &'static str = "credential-bundle-v1";

pub const BUNDLE_VERSION: u8 = 1;

pub const BUNDLE_BYTES: usize = 100;

/// The keys that the commands work with; each may be missing.
#[derive(Clone, Copy)]
pub struct CredentialBundle {
    pub approval: Option<[u8; 32]>,
    pub backup_authentication: Option<[u8; 32]>,
    pub session_authority: Option<[u8; 32]>,
}

/// A bundle as a mathematical value.
pub struct BundleView {
    pub approval: Option<Seq<u8>>,
    pub backup_authentication: Option<Seq<u8>>,
    pub session_authority: Option<Seq<u8>>,
}

impl View for CredentialBundle {
    type V = BundleView;

    open spec fn view(&self) -> BundleView {
        BundleView {
            approval: optional(self.approval),
            backup_authentication: optional(self.backup_authentication),
            session_authority: optional(self.session_authority),
        }
    }
}

/// Whether every key is there.
pub open spec fn complete(bundle: BundleView) -> bool {
    bundle.approval is Some && bundle.backup_authentication is Some && bundle.session_authority is Some
}

/// Whether every key that is there has its 32 bytes.
pub open spec fn keys_sized(bundle: BundleView) -> bool {
    &&& (bundle.approval is Some ==> bundle.approval->0.len() == 32)
    &&& (bundle.backup_authentication is Some ==> bundle.backup_authentication->0.len() == 32)
    &&& (bundle.session_authority is Some ==> bundle.session_authority->0.len() == 32)
}

/// Thirty-two zero bytes.
pub open spec fn zeros32() -> Seq<u8> {
    Seq::new(32, |i: int| 0u8)
}

/// One field of a stored bundle: a presence byte and 32 bytes.
pub open spec fn encoded_field(key: Option<Seq<u8>>) -> Seq<u8> {
    match key {
        Some(bytes) => seq![1u8] + bytes,
        None => seq![0u8] + zeros32(),
    }
}

/// A stored bundle.
pub open spec fn encoded_bundle(bundle: BundleView) -> Seq<u8> {
    seq![BUNDLE_VERSION] + encoded_field(bundle.approval) + encoded_field(
        bundle.backup_authentication,
    ) + encoded_field(bundle.session_authority)
}

/// The key in a field from `at` on: `None` where the field is not valid.
pub open spec fn decoded_field(s: Seq<u8>, at: int) -> Option<Option<Seq<u8>>> {
    let bytes = s.subrange(at + 1, at + 33);
    if s[at] == 0 && bytes == zeros32() {
        Some(None)
    } else if s[at] == 1 {
        Some(Some(bytes))
    } else {
        None
    }
}

/// The bundle in a stored secret, or why it holds none.
pub open spec fn decoded_bundle(s: Seq<u8>) -> Result<BundleView, Seq<char>> {
    if s.len() != BUNDLE_BYTES || s[0] != BUNDLE_VERSION {
        Err("stored credential bundle has an invalid format"@)
    } else if decoded_field(s, 1) is None || decoded_field(s, 34) is None || decoded_field(s, 67) is None {
        Err("stored credential bundle has an invalid field"@)
    } else {
        Ok(
            BundleView {
                approval: decoded_field(s, 1)->0,
                backup_authentication: decoded_field(s, 34)->0,
                session_authority: decoded_field(s, 67)->0,
            },
        )
    }
}

/// The key that an account's secret holds, or why it holds none.
pub open spec fn account_key(found: Option<Seq<u8>>, account: Seq<char>) -> Result<
    Option<Seq<u8>>,
    Seq<char>,
> {
    match found {
        None => Ok(None),
        Some(secret) => if secret.len() == 32 {
            Ok(Some(secret))
        } else {
            Err("stored credential "@ + account + " must be exactly 32 bytes"@)
        },
    }
}

/// The bundle of three separately stored keys; the first malformed one decides
/// the error.
pub open spec fn legacy_bundle(secrets: Secrets) -> Result<BundleView, Seq<char>> {
    match account_key(slot(secrets, APPROVAL_ACCOUNT@), APPROVAL_ACCOUNT@) {
        Err(error) => Err(error),
        Ok(approval) => match account_key(
            slot(secrets, BACKUP_AUTHENTICATION_ACCOUNT@),
            BACKUP_AUTHENTICATION_ACCOUNT@,
        ) {
            Err(error) => Err(error),
            Ok(backup_authentication) => match account_key(
                slot(secrets, SESSION_AUTHORITY_ACCOUNT@),
                SESSION_AUTHORITY_ACCOUNT@,
            ) {
                Err(error) => Err(error),
                Ok(session_authority) => Ok(
                    BundleView { approval, backup_authentication, session_authority },
                ),
            },
        },
    }
}

/// The bundle that a store gives: the stored one, else one made of the
/// separately stored keys.
pub open spec fn loaded_bundle(secrets: Secrets) -> Result<BundleView, Seq<char>> {
    match slot(secrets, CREDENTIAL_BUNDLE_ACCOUNT@) {
        Some(serialized) => decoded_bundle(serialized),
        None => legacy_bundle(secrets),
    }
}

/// Whether loading a bundle stores it: only where there is none yet, and the
/// separately stored keys make a complete one.
pub open spec fn migrates(secrets: Secrets) -> bool {
    slot(secrets, CREDENTIAL_BUNDLE_ACCOUNT@) is None && legacy_bundle(secrets) is Ok && complete(
        legacy_bundle(secrets)->Ok_0,
    )
}

/// The secrets after a bundle was loaded: a complete set of separately stored
/// keys is now kept as a bundle too.
pub open spec fn migrated(secrets: Secrets) -> Secrets {
    if migrates(secrets) {
        with_slot(
            secrets,
            CREDENTIAL_BUNDLE_ACCOUNT@,
            encoded_bundle(legacy_bundle(secrets)->Ok_0),
        )
    } else {
        secrets
    }
}

/// The 32 bytes from `at` on.
pub fn key_at(bytes: &[u8], at: usize) -> (key: [u8; 32])
    requires
        at + 32 <= bytes@.len(),
    ensures
        key@ == bytes@.subrange(at as int, at + 32),
{
    let mut key: [u8; 32] = [0u8;32];
    let length: usize = bytes.len();
    let mut i: usize = 0;
    while i < 32
        invariant
            i <= 32,
            at + 32 <= length,
            length == bytes@.len(),
            key@.len() == 32,
            forall|j: int| 0 <= j < i ==> key@[j] == bytes@[at + j],
        decreases 32 - i,
    {
        key[i] = bytes[at + i];
        i = i + 1;
    }
    assert(key@ =~= bytes@.subrange(at as int, at + 32));
    key
}

impl CredentialBundle {
    pub fn approval(&self) -> (key: Option<[u8; 32]>)
        ensures
            key == self.approval,
    {
        self.approval
    }

    pub fn backup_authentication(&self) -> (key: Option<[u8; 32]>)
        ensures
            key == self.backup_authentication,
    {
        self.backup_authentication
    }

    pub fn session_authority(&self) -> (key: Option<[u8; 32]>)
        ensures
            key == self.session_authority,
    {
        self.session_authority
    }

    pub fn is_complete(&self) -> (r: bool)
        ensures
            r == complete(self@),
    {
        self.approval.is_some() && self.backup_authentication.is_some()
            && self.session_authority.is_some()
    }
}

fn push_field(out: &mut Vec<u8>, key: &Option<[u8; 32]>)
    ensures
        final(out)@ == old(out)@ + encoded_field(optional(*key)),
{
    match key {
        Some(bytes) => {
            out.push(1);
            out.extend_from_slice(bytes.as_slice());
            assert(out@ =~= old(out)@ + encoded_field(optional(*key)));
        },
        None => {
            let zeros: [u8; 32] = [0u8;32];
            out.push(0);
            out.extend_from_slice(zeros.as_slice());
            assert(out@ =~= old(out)@ + encoded_field(optional(*key)));
        },
    }
}

/// The stored form of a bundle.
pub fn encode_bundle(bundle: &CredentialBundle) -> (encoded: Vec<u8>)
    ensures
        encoded@ == encoded_bundle(bundle@),
        encoded@.len() == BUNDLE_BYTES,
{
    let mut encoded: Vec<u8> = Vec::with_capacity(BUNDLE_BYTES);
    encoded.push(BUNDLE_VERSION);
    push_field(&mut encoded, &bundle.approval);
    push_field(&mut encoded, &bundle.backup_authentication);
    push_field(&mut encoded, &bundle.session_authority);
    assert(encoded@ =~= encoded_bundle(bundle@));
    encoded
}

fn is_zero(key: &[u8; 32]) -> (r: bool)
    ensures
        r == (key@ == zeros32()),
{
    let mut i: usize = 0;
    while i < 32
        invariant
            i <= 32,
            key@.len() == 32,
            forall|j: int| 0 <= j < i ==> key@[j] == 0,
        decreases 32 - i,
    {
        if key[i] != 0 {
            assert(zeros32()[i as int] == 0);
            return false;
        }
        i = i + 1;
    }
    assert(key@ =~= zeros32());
    true
}

fn read_field(serialized: &[u8], at: usize) -> (r: Option<Option<[u8; 32]>>)
    requires
        at + 33 <= serialized@.len(),
    ensures
        match decoded_field(serialized@, at as int) {
            None => r is None,
            Some(key) => r is Some && optional(r->0) == key,
        },
{
    let present: u8 = serialized[at];
    let key = key_at(serialized, at + 1);
    if present == 0 && is_zero(&key) {
        Some(None)
    } else if present == 1 {
        Some(Some(key))
    } else {
        None
    }
}

/// The bundle in a stored secret.
pub fn decode_bundle(serialized: &[u8]) -> (r: Result<CredentialBundle, String>)
    ensures
        outcome(r) == decoded_bundle(serialized@),
{
    if serialized.len() != BUNDLE_BYTES || serialized[0] != BUNDLE_VERSION {
        return Err("stored credential bundle has an invalid format".to_owned());
    }
    match (read_field(serialized, 1), read_field(serialized, 34), read_field(serialized, 67)) {
        (Some(approval), Some(backup_authentication), Some(session_authority)) => Ok(
            CredentialBundle { approval, backup_authentication, session_authority },
        ),
        _ => Err("stored credential bundle has an invalid field".to_owned()),
    }
}

/// The key in the secret that was found for an account.
pub fn key_from_secret(found: Option<Vec<u8>>, account: &str) -> (r: Result<
    Option<[u8; 32]>,
    String,
>)
    ensures
        match account_key(optional(found), account@) {
            Ok(key) => r is Ok && optional(r->Ok_0) == key,
            Err(error) => r is Err && r->Err_0@ == error,
        },
{
    match found {
        None => Ok(None),
        Some(mut secret) => {
            if secret.len() != 32 {
                crate::broker_protocol::wipe_bytes(&mut secret);
                let mut error = "stored credential ".to_owned();
                error.push_str(account);
                error.push_str(" must be exactly 32 bytes");
                return Err(error);
            }
            let key = key_at(secret.as_slice(), 0);
            assert(key@ =~= secret@);
            crate::broker_protocol::wipe_bytes(&mut secret);
            Ok(Some(key))
        },
    }
}

/// Loads the key of one account.
pub fn load_account<S: SecretStore>(store: &S, account: &str) -> (r: Result<
    Option<[u8; 32]>,
    String,
>)
    ensures
        store.answers() || r is Ok ==> match account_key(slot(store.secrets(), account@), account@) {
            Ok(key) => r is Ok && optional(r->Ok_0) == key,
            Err(error) => r is Err && r->Err_0@ == error,
        },
{
    match store.get(KEYCHAIN_SERVICE, account) {
        Ok(found) => key_from_secret(found, account),
        Err(error) => Err(error),
    }
}

/// Loads the bundle, and stores it where the separately stored keys made a
/// complete one.
pub fn load_bundle_from_store<S: SecretStore>(
    store: &mut S,
) -> (r: Result<CredentialBundle, String>)
    ensures
        old(store).answers() || r is Ok ==> outcome(r) == loaded_bundle(old(store).secrets()),
        r is Ok ==> final(store).secrets() == migrated(old(store).secrets()),
        r is Err ==> same_but_slot(
            old(store).secrets(),
            final(store).secrets(),
            CREDENTIAL_BUNDLE_ACCOUNT@,
        ),
        loaded_bundle(old(store).secrets()) is Err ==> final(store).secrets()
            == old(store).secrets() && final(store).writes() == old(store).writes(),
        r is Ok ==> final(store).writes() == old(store).writes() + if migrates(
            old(store).secrets(),
        ) {
            1nat
        } else {
            0
        },
        r is Err ==> old(store).writes() <= final(store).writes() <= old(store).writes() + 1,
        final(store).answers() == old(store).answers(),
{
    match store.get(KEYCHAIN_SERVICE, CREDENTIAL_BUNDLE_ACCOUNT) {
        Err(error) => {
            return Err(error);
        },
        Ok(Some(mut serialized)) => {
            let decoded = decode_bundle(serialized.as_slice());
            crate::broker_protocol::wipe_bytes(&mut serialized);
            return decoded;
        },
        Ok(None) => {},
    }
    let approval = match load_account(store, APPROVAL_ACCOUNT) {
        Ok(key) => key,
        Err(error) => return Err(error),
    };
    let backup_authentication = match load_account(store, BACKUP_AUTHENTICATION_ACCOUNT) {
        Ok(key) => key,
        Err(error) => return Err(error),
    };
    let session_authority = match load_account(store, SESSION_AUTHORITY_ACCOUNT) {
        Ok(key) => key,
        Err(error) => return Err(error),
    };
    let bundle = CredentialBundle { approval, backup_authentication, session_authority };
    if bundle.is_complete() {
        let mut serialized = encode_bundle(&bundle);
        let written = store.set(KEYCHAIN_SERVICE, CREDENTIAL_BUNDLE_ACCOUNT, serialized.as_slice());
        crate::broker_protocol::wipe_bytes(&mut serialized);
        if let Err(error) = written {
            return Err(error);
        }
    }
    Ok(bundle)
}

/// Loads an incomplete bundle anew; a complete one stays as it is.
pub fn refresh_incomplete_bundle<S: SecretStore>(
    bundle: &mut CredentialBundle,
    store: &mut S,
) -> (r: Result<(), String>)
    ensures
        complete(old(bundle)@) ==> r is Ok && *final(bundle) == *old(bundle)
            && final(store).secrets() == old(store).secrets() && final(store).writes() == old(
            store,
        ).writes(),
        !complete(old(bundle)@) && r is Ok ==> final(store).writes() == old(store).writes()
            + if migrates(old(store).secrets()) {
            1nat
        } else {
            0
        },
        !complete(old(bundle)@) && (old(store).answers() || r is Ok) ==> match loaded_bundle(
            old(store).secrets(),
        ) {
            Ok(loaded) => r is Ok && final(bundle)@ == loaded && final(store).secrets() == migrated(
                old(store).secrets(),
            ),
            Err(error) => r is Err && r->Err_0@ == error,
        },
        r is Err ==> *final(bundle) == *old(bundle) && same_but_slot(
            old(store).secrets(),
            final(store).secrets(),
            CREDENTIAL_BUNDLE_ACCOUNT@,
        ),
        loaded_bundle(old(store).secrets()) is Err ==> final(store).secrets()
            == old(store).secrets(),
{
    if !bundle.is_complete() {
        match load_bundle_from_store(store) {
            Ok(loaded) => {
                *bundle = loaded;
            },
            Err(error) => {
                return Err(error);
            },
        }
    }
    Ok(())
}

proof fn lemma_field_round_trip(prefix: Seq<u8>, key: Option<Seq<u8>>, suffix: Seq<u8>)
    requires
        key is Some ==> key->0.len() == 32,
    ensures
        decoded_field(prefix + encoded_field(key) + suffix, prefix.len() as int) == Some(key),
{
    let s = prefix + encoded_field(key) + suffix;
    let at = prefix.len() as int;
    assert(s.subrange(at + 1, at + 33) =~= encoded_field(key).skip(1));
    match key {
        Some(bytes) => assert(encoded_field(key).skip(1) =~= bytes),
        None => assert(encoded_field(key).skip(1) =~= zeros32()),
    }
}

/// A stored bundle reads back as the bundle that was stored.
pub proof fn law_bundle_round_trip(bundle: BundleView)
    requires
        keys_sized(bundle),
    ensures
        decoded_bundle(encoded_bundle(bundle)) == Ok::<BundleView, Seq<char>>(bundle),
{
    let s = encoded_bundle(bundle);
    let a = encoded_field(bundle.approval);
    let b = encoded_field(bundle.backup_authentication);
    let c = encoded_field(bundle.session_authority);
    assert(a.len() == 33 && b.len() == 33 && c.len() == 33);
    lemma_field_round_trip(seq![BUNDLE_VERSION], bundle.approval, b + c);
    assert(s =~= seq![BUNDLE_VERSION] + a + (b + c));
    lemma_field_round_trip(seq![BUNDLE_VERSION] + a, bundle.backup_authentication, c);
    lemma_field_round_trip(seq![BUNDLE_VERSION] + a + b, bundle.session_authority, Seq::empty());
    assert(s =~= seq![BUNDLE_VERSION] + a + b + c + Seq::<u8>::empty());
}

/// Only stored forms of bundles are accepted: what decodes encodes back to the
/// same bytes.
pub proof fn law_bundle_is_canonical(s: Seq<u8>)
    requires
        decoded_bundle(s) is Ok,
    ensures
        encoded_bundle(decoded_bundle(s)->Ok_0) == s,
        keys_sized(decoded_bundle(s)->Ok_0),
{
    let bundle = decoded_bundle(s)->Ok_0;
    assert(encoded_field(bundle.approval) =~= s.subrange(1, 34)) by {
        assert(s.subrange(1, 34) =~= seq![s[1]] + s.subrange(2, 34));
    }
    assert(encoded_field(bundle.backup_authentication) =~= s.subrange(34, 67)) by {
        assert(s.subrange(34, 67) =~= seq![s[34]] + s.subrange(35, 67));
    }
    assert(encoded_field(bundle.session_authority) =~= s.subrange(67, 100)) by {
        assert(s.subrange(67, 100) =~= seq![s[67]] + s.subrange(68, 100));
    }
    assert(encoded_bundle(bundle) =~= s);
}

/// Separately stored keys migrate once: loading again gives the same bundle,
/// writes nothing and leaves the store alone.
pub proof fn law_migration_happens_once(secrets: Secrets)
    requires
        loaded_bundle(secrets) is Ok,
    ensures
        loaded_bundle(migrated(secrets)) == loaded_bundle(secrets),
        !migrates(migrated(secrets)),
        migrated(migrated(secrets)) == migrated(secrets),
{
    if migrated(secrets) != secrets {
        law_bundle_round_trip(legacy_bundle(secrets)->Ok_0);
    }
}

/// Migration adds the bundle and touches no other secret.
pub proof fn law_migration_keeps_other_secrets(
    secrets: Secrets,
    service: Seq<char>,
    account: Seq<char>,
)
    requires
        (service, account) != (KEYCHAIN_SERVICE@, CREDENTIAL_BUNDLE_ACCOUNT@),
    ensures
        crate::secret_store::stored(migrated(secrets), service, account)
            == crate::secret_store::stored(secrets, service, account),
{
}

} // verus!
