//! Credentials of gateway upstreams, found by an authenticated key id.
use vstd::prelude::*;
use vstd::utf8::*;

use crate::secret_store::{slot, SecretStore, Secrets, KEYCHAIN_SERVICE};
use crate::text::{
    blank, byte_len, control_free, decode_text, is_blank, is_control_free, joined, optional, utf8_len,
};

verus! {

pub const GATEWAY_CREDENTIAL_ACCOUNT_PREFIX: &'static str = "gateway-upstream-v1:";

/// What counts as a key id: not blank, at most 256 bytes, no control characters.
pub open spec fn key_id_valid(key_id: Seq<char>) -> bool {
    !blank(key_id) && utf8_len(key_id) <= 256 && control_free(key_id)
}

/// The account of a gateway credential.
pub open spec fn gateway_account(key_id: Seq<char>) -> Seq<char> {
    GATEWAY_CREDENTIAL_ACCOUNT_PREFIX@ + key_id
}

/// The token in a stored secret, or why it holds none.
pub open spec fn gateway_token(found: Option<Seq<u8>>) -> Result<Option<Seq<char>>, Seq<char>> {
    match found {
        None => Ok(None),
        Some(secret) => if !valid_utf8(secret) {
            Err("stored gateway credential is not valid UTF-8"@)
        } else if decode_utf8(secret).len() == 0 || !control_free(decode_utf8(secret)) {
            Err("stored gateway credential is invalid"@)
        } else {
            Ok(Some(decode_utf8(secret)))
        },
    }
}

/// The token that a store gives for a key id.
pub open spec fn resolved_token(secrets: Secrets, key_id: Seq<char>) -> Result<
    Option<Seq<char>>,
    Seq<char>,
> {
    if key_id_valid(key_id) {
        gateway_token(slot(secrets, gateway_account(key_id)))
    } else {
        Err("gateway credential key id is invalid"@)
    }
}

/// Checks a key id.
pub fn validate_gateway_credential_key_id(key_id: &str) -> (r: Result<(), String>)
    ensures
        r is Ok == key_id_valid(key_id@),
        r is Err ==> r->Err_0@ == "gateway credential key id is invalid"@,
{
    if is_blank(key_id) || byte_len(key_id) > 256 || !is_control_free(key_id) {
        Err("gateway credential key id is invalid".to_owned())
    } else {
        Ok(())
    }
}

/// The token in the secret that was found.
pub fn token_from_secret(found: Option<Vec<u8>>) -> (r: Result<Option<String>, String>)
    ensures
        match gateway_token(optional(found)) {
            Ok(token) => r is Ok && optional(r->Ok_0) == token,
            Err(error) => r is Err && r->Err_0@ == error,
        },
{
    match found {
        None => Ok(None),
        Some(secret) => match decode_text(secret) {
            None => Err("stored gateway credential is not valid UTF-8".to_owned()),
            Some(token) => {
                if token.as_str().is_empty() || !is_control_free(token.as_str()) {
                    Err("stored gateway credential is invalid".to_owned())
                } else {
                    Ok(Some(token))
                }
            },
        },
    }
}

/// Resolves the token of a gateway upstream.
pub fn resolve_gateway_credential_from_store<S: SecretStore>(store: &S, key_id: &str) -> (r: Result<
    Option<String>,
    String,
>)
    ensures
        store.answers() || r is Ok || !key_id_valid(key_id@) ==> match resolved_token(
            store.secrets(),
            key_id@,
        ) {
            Ok(token) => r is Ok && optional(r->Ok_0) == token,
            Err(error) => r is Err && r->Err_0@ == error,
        },
{
    if let Err(error) = validate_gateway_credential_key_id(key_id) {
        return Err(error);
    }
    let account = joined(GATEWAY_CREDENTIAL_ACCOUNT_PREFIX, key_id);
    match store.get(KEYCHAIN_SERVICE, account.as_str()) {
        Ok(found) => token_from_secret(found),
        Err(error) => Err(error),
    }
}

/// In fixture mode, the bytes whose digest stands for the token; otherwise
/// `None`, and the store decides.
pub fn fixture_gateway_material(fixture: Option<[u8; 32]>, key_id: &str) -> (r: Result<
    Option<Vec<u8>>,
    String,
>)
    ensures
        !key_id_valid(key_id@) ==> r is Err && r->Err_0@ == "gateway credential key id is invalid"@,
        key_id_valid(key_id@) ==> r is Ok && optional(r->Ok_0) == (match fixture {
            Some(key) => Some(key@ + encode_utf8(key_id@)),
            None => None,
        }),
{
    if let Err(error) = validate_gateway_credential_key_id(key_id) {
        return Err(error);
    }
    match fixture {
        None => Ok(None),
        Some(key) => {
            let mut material: Vec<u8> = Vec::new();
            material.extend_from_slice(key.as_slice());
            material.extend_from_slice(key_id.as_bytes());
            assert(material@ =~= key@ + encode_utf8(key_id@));
            Ok(Some(material))
        },
    }
}

/// A key id reaches the secret under its own account and no other: what else
/// the store holds does not matter.
pub proof fn law_other_accounts_stay_hidden(a: Secrets, b: Secrets, key_id: Seq<char>)
    requires
        slot(a, gateway_account(key_id)) == slot(b, gateway_account(key_id)),
    ensures
        resolved_token(a, key_id) == resolved_token(b, key_id),
{
}

} // verus!
