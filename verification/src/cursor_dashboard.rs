//! The dashboard cookie: kept in a slot of its own, bound to its origin and
//! purpose by a prefix.
use vstd::prelude::*;
use vstd::utf8::*;

use crate::secret_store::{
    same_but_slot, slot, with_slot, without_slot, SecretStore, Secrets, KEYCHAIN_SERVICE,
};
use crate::text::{control_byte_free, is_control_byte_free, same_bytes};

verus! {

pub const CURSOR_DASHBOARD_ACCOUNT: &'static str = "cursor-dashboard-cookie-v1";

pub const CURSOR_DASHBOARD_CREDENTIAL_PREFIX: &'static str =
    "unpin-cursor-dashboard-cookie-v1\0origin=https://cursor.com\0purpose=marketplace-plugin-mutation\0";

pub const MAX_CURSOR_DASHBOARD_COOKIE_BYTES: usize = 65536;

#[derive(Debug, Clone, Copy, PartialEq, Eq, Structural)]
pub enum CursorDashboardCredentialState {
    Missing,
    Ready,
}

#[derive(Debug, Clone, Copy, PartialEq, Eq, Structural)]
pub enum CursorDashboardCredentialUpdate {
    Created,
    Updated,
}

#[derive(Debug, Clone, Copy, PartialEq, Eq, Structural)]
pub enum CursorDashboardCredentialRemoval {
    Removed,
    Missing,
}

/// The bytes that bind a cookie to its origin and purpose.
pub open spec fn cookie_prefix() -> Seq<u8> {
    encode_utf8(CURSOR_DASHBOARD_CREDENTIAL_PREFIX@)
}

/// What is wrong with a cookie.
pub open spec fn cookie_error(secret: Seq<u8>) -> Option<Seq<char>> {
    if secret.len() == 0 {
        Some("Cursor dashboard cookie is empty"@)
    } else if secret.len() > MAX_CURSOR_DASHBOARD_COOKIE_BYTES {
        Some("Cursor dashboard cookie exceeds size limit"@)
    } else if !control_byte_free(secret) {
        Some("Cursor dashboard cookie contains control bytes"@)
    } else {
        None
    }
}

/// The stored form of a cookie.
pub open spec fn bound_cookie(secret: Seq<u8>) -> Seq<u8> {
    cookie_prefix() + secret
}

/// The cookie in a stored secret, if it is bound.
pub open spec fn unbound_cookie(stored: Seq<u8>) -> Option<Seq<u8>> {
    if stored.len() >= cookie_prefix().len() && stored.take(cookie_prefix().len() as int)
        == cookie_prefix() {
        Some(stored.skip(cookie_prefix().len() as int))
    } else {
        None
    }
}

/// What a store says of the cookie.
pub open spec fn cookie_status(secrets: Secrets) -> Result<
    CursorDashboardCredentialState,
    Seq<char>,
> {
    match slot(secrets, CURSOR_DASHBOARD_ACCOUNT@) {
        None => Ok(CursorDashboardCredentialState::Missing),
        Some(stored) => if unbound_cookie(stored) is Some && cookie_error(unbound_cookie(stored)->0)
            is None {
            Ok(CursorDashboardCredentialState::Ready)
        } else {
            Err("stored Cursor dashboard credential is invalid"@)
        },
    }
}

/// Checks a cookie.
pub fn validate_cursor_dashboard_cookie(secret: &[u8]) -> (r: Result<(), String>)
    ensures
        match cookie_error(secret@) {
            Some(error) => r is Err && r->Err_0@ == error,
            None => r is Ok,
        },
{
    if secret.len() == 0 {
        return Err("Cursor dashboard cookie is empty".to_owned());
    }
    if secret.len() > MAX_CURSOR_DASHBOARD_COOKIE_BYTES {
        return Err("Cursor dashboard cookie exceeds size limit".to_owned());
    }
    if !is_control_byte_free(secret) {
        return Err("Cursor dashboard cookie contains control bytes".to_owned());
    }
    Ok(())
}

/// The cookie in a stored secret.
pub fn decode_cursor_dashboard_cookie(stored: &[u8]) -> (r: Result<&[u8], String>)
    ensures
        match unbound_cookie(stored@) {
            Some(cookie) => r is Ok && r->Ok_0@ == cookie,
            None => r is Err && r->Err_0@
                == "stored Cursor dashboard credential binding is invalid"@,
        },
{
    let prefix = CURSOR_DASHBOARD_CREDENTIAL_PREFIX.as_bytes();
    if stored.len() < prefix.len() || !same_bytes(
        vstd::slice::slice_subrange(stored, 0, prefix.len()),
        prefix,
    ) {
        return Err("stored Cursor dashboard credential binding is invalid".to_owned());
    }
    let cookie = vstd::slice::slice_subrange(stored, prefix.len(), stored.len());
    assert(cookie@ =~= stored@.skip(prefix@.len() as int));
    Ok(cookie)
}

/// The state of the cookie, given the secret that was found for it.
pub fn cookie_state(found: Option<Vec<u8>>) -> (r: Result<CursorDashboardCredentialState, String>)
    ensures
        outcome_state(r) == (match found {
            None => Ok(CursorDashboardCredentialState::Missing),
            Some(stored) => if unbound_cookie(stored@) is Some && cookie_error(
                unbound_cookie(stored@)->0,
            ) is None {
                Ok(CursorDashboardCredentialState::Ready)
            } else {
                Err("stored Cursor dashboard credential is invalid"@)
            },
        }),
{
    match found {
        None => Ok(CursorDashboardCredentialState::Missing),
        Some(stored) => {
            let valid = match decode_cursor_dashboard_cookie(stored.as_slice()) {
                Ok(cookie) => validate_cursor_dashboard_cookie(cookie).is_ok(),
                Err(_) => false,
            };
            if valid {
                Ok(CursorDashboardCredentialState::Ready)
            } else {
                Err("stored Cursor dashboard credential is invalid".to_owned())
            }
        },
    }
}

/// The outcome of a status request.
pub open spec fn outcome_state(r: Result<CursorDashboardCredentialState, String>) -> Result<
    CursorDashboardCredentialState,
    Seq<char>,
> {
    match r {
        Ok(state) => Ok(state),
        Err(error) => Err(error@),
    }
}

/// Whether a valid cookie is stored.
pub fn cursor_dashboard_credential_status<S: SecretStore>(store: &S) -> (r: Result<
    CursorDashboardCredentialState,
    String,
>)
    ensures
        store.answers() || r is Ok ==> outcome_state(r) == cookie_status(store.secrets()),
{
    match store.get(KEYCHAIN_SERVICE, CURSOR_DASHBOARD_ACCOUNT) {
        Ok(found) => cookie_state(found),
        Err(error) => Err(error),
    }
}

/// Stores a cookie, and says whether it replaced one.
pub fn store_cursor_dashboard_cookie<S: SecretStore>(store: &mut S, secret: &[u8]) -> (r: Result<
    CursorDashboardCredentialUpdate,
    String,
>)
    ensures
        cookie_error(secret@) is Some ==> r is Err && r->Err_0@ == cookie_error(secret@)->0,
        cookie_error(secret@) is None && old(store).answers() ==> r is Ok,
        r is Ok ==> r->Ok_0 == (if slot(old(store).secrets(), CURSOR_DASHBOARD_ACCOUNT@) is Some {
            CursorDashboardCredentialUpdate::Updated
        } else {
            CursorDashboardCredentialUpdate::Created
        }),
        r is Ok ==> final(store).secrets() == with_slot(
            old(store).secrets(),
            CURSOR_DASHBOARD_ACCOUNT@,
            bound_cookie(secret@),
        ),
        r is Err ==> same_but_slot(
            old(store).secrets(),
            final(store).secrets(),
            CURSOR_DASHBOARD_ACCOUNT@,
        ),
        cookie_error(secret@) is Some ==> final(store).secrets() == old(store).secrets()
            && final(store).writes() == old(store).writes(),
        r is Ok ==> final(store).writes() == old(store).writes() + 1,
        r is Err ==> old(store).writes() <= final(store).writes() <= old(store).writes() + 1,
        final(store).answers() == old(store).answers(),
{
    if let Err(error) = validate_cursor_dashboard_cookie(secret) {
        return Err(error);
    }
    let existed = match store.get(KEYCHAIN_SERVICE, CURSOR_DASHBOARD_ACCOUNT) {
        Err(error) => return Err(error),
        Ok(Some(mut existing)) => {
            crate::broker_protocol::wipe_bytes(&mut existing);
            true
        },
        Ok(None) => false,
    };
    let mut stored: Vec<u8> = Vec::new();
    stored.extend_from_slice(CURSOR_DASHBOARD_CREDENTIAL_PREFIX.as_bytes());
    stored.extend_from_slice(secret);
    assert(stored@ =~= bound_cookie(secret@));
    let written = store.set(KEYCHAIN_SERVICE, CURSOR_DASHBOARD_ACCOUNT, stored.as_slice());
    crate::broker_protocol::wipe_bytes(&mut stored);
    match written {
        Err(error) => Err(error),
        Ok(()) => {
            if existed {
                Ok(CursorDashboardCredentialUpdate::Updated)
            } else {
                Ok(CursorDashboardCredentialUpdate::Created)
            }
        },
    }
}

/// Removes the cookie, and says whether there was one.
pub fn remove_cursor_dashboard_cookie<S: SecretStore>(store: &mut S) -> (r: Result<
    CursorDashboardCredentialRemoval,
    String,
>)
    ensures
        old(store).answers() ==> r is Ok,
        r is Ok ==> r->Ok_0 == (if slot(old(store).secrets(), CURSOR_DASHBOARD_ACCOUNT@) is Some {
            CursorDashboardCredentialRemoval::Removed
        } else {
            CursorDashboardCredentialRemoval::Missing
        }),
        r is Ok ==> final(store).secrets() == without_slot(
            old(store).secrets(),
            CURSOR_DASHBOARD_ACCOUNT@,
        ),
        final(store).writes() == old(store).writes(),
        r is Err ==> same_but_slot(
            old(store).secrets(),
            final(store).secrets(),
            CURSOR_DASHBOARD_ACCOUNT@,
        ),
{
    match store.delete(KEYCHAIN_SERVICE, CURSOR_DASHBOARD_ACCOUNT) {
        Ok(true) => Ok(CursorDashboardCredentialRemoval::Removed),
        Ok(false) => Ok(CursorDashboardCredentialRemoval::Missing),
        Err(error) => Err(error),
    }
}

/// A cookie reads back from its stored form, and a stored valid cookie is
/// reported as ready.
pub proof fn law_cookie_round_trip(secrets: Secrets, secret: Seq<u8>)
    ensures
        unbound_cookie(bound_cookie(secret)) == Some(secret),
        cookie_error(secret) is None ==> cookie_status(
            with_slot(secrets, CURSOR_DASHBOARD_ACCOUNT@, bound_cookie(secret)),
        ) == Ok::<CursorDashboardCredentialState, Seq<char>>(CursorDashboardCredentialState::Ready),
{
    let stored = bound_cookie(secret);
    let n = cookie_prefix().len() as int;
    assert(stored.take(n) =~= cookie_prefix());
    assert(stored.skip(n) =~= secret);
}

/// After a removal no cookie is reported.
pub proof fn law_removed_cookie_is_missing(secrets: Secrets)
    ensures
        cookie_status(without_slot(secrets, CURSOR_DASHBOARD_ACCOUNT@)) == Ok::<
            CursorDashboardCredentialState,
            Seq<char>,
        >(CursorDashboardCredentialState::Missing),
{
}

} // verus!
