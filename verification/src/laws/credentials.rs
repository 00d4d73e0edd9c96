//! Credentials: what the broker hands on, which directories and programs are
//! trusted, and where each key is kept.
use vstd::prelude::*;
use vstd::utf8::{decode_utf8, encode_utf8, valid_utf8};

use crate::broker::{
    below, broker_requirement, client_requirement, delete_reply, installation_error,
    peer_requirement, read_reply, socket_directory_error, write_reply, FileMetadata, FileStatus,
    PeerKind,
};
use crate::broker_install::{
    broker_command, directory_next, install_next, BrokerCommand, DirectoryEvent, DirectoryPurpose,
    DirectoryStage, DirectoryStepView, InstallEvent, InstallStage, InstallStepView,
};
use crate::broker_protocol::{
    decoded_account, encoded_request, encoded_response, request_header_error, request_of,
    response_header_error, response_of, socket_directory, BrokerRequest, BrokerResponse,
    RequestView, ResponseView,
};
use crate::broker_server::{reply_from, request_answered, response_written, secrets_after};
use crate::credential_bundle::{
    account_key, encoded_bundle, loaded_bundle, migrates, BundleView, CredentialBundle,
};
use crate::cursor_dashboard::{
    bound_cookie, cookie_error, cookie_status, unbound_cookie, CursorDashboardCredentialState,
};
use crate::gateway_credential::{gateway_token, resolved_token};
use crate::keys::{
    initialization_outcome, key_account, loaded_key, status_reports, stored_key, KeyInitialization,
    KeyKind, KeyState,
};
use crate::laws::texts::group_occurs;
use crate::secret_store::{same_but_slot, slot, Secrets};
use crate::text::{
    alphanumeric_char, blank, control_byte_free, control_free, hex_text, lower_text, occurs,
    optional, stands_at, utf8_len,
};

verus! {

/// What the broker answers to a request is read as what it found or did.
pub proof fn law_answers_are_read(secrets: Secrets, account: Seq<char>, secret: Seq<u8>)
    ensures
        read_reply(reply_from(secrets, RequestView::Get { account })) == Ok::<
            Option<Seq<u8>>,
            Seq<char>,
        >(slot(secrets, account)),
        write_reply(reply_from(secrets, RequestView::Put { account, secret })) == Ok::<
            (),
            Seq<char>,
        >(()),
        delete_reply(reply_from(secrets, RequestView::Delete { account })) == Ok::<bool, Seq<char>>(
            slot(secrets, account) is Some,
        ),
        write_reply(reply_from(secrets, RequestView::Ping)) == Ok::<(), Seq<char>>(()),
{
}

/// An error of the broker is handed on as it is, and an answer to another kind of
/// request is an error.
pub proof fn law_broker_errors_are_handed_on(response: BrokerResponse)
    ensures
        match response {
            BrokerResponse::Error(error) => {
                &&& read_reply(response@) == Err::<Option<Seq<u8>>, Seq<char>>(error@)
                &&& write_reply(response@) == Err::<(), Seq<char>>(error@)
                &&& delete_reply(response@) == Err::<bool, Seq<char>>(error@)
            },
            BrokerResponse::Value(value) => {
                &&& read_reply(response@) == Ok::<Option<Seq<u8>>, Seq<char>>(Some(value@))
                &&& write_reply(response@) is Err
                &&& delete_reply(response@) is Err
            },
            BrokerResponse::NotFound => {
                &&& read_reply(response@) == Ok::<Option<Seq<u8>>, Seq<char>>(None)
                &&& write_reply(response@) is Err
                &&& delete_reply(response@) == Ok::<bool, Seq<char>>(false)
            },
            BrokerResponse::Success => {
                &&& read_reply(response@) is Err
                &&& write_reply(response@) == Ok::<(), Seq<char>>(())
                &&& delete_reply(response@) == Ok::<bool, Seq<char>>(true)
            },
        },
{
}

/// A request changes the secret of its own account and no other.
pub proof fn law_requests_change_one_secret(
    secrets: Secrets,
    request: BrokerRequest,
    other: Seq<char>,
)
    ensures
        match request {
            BrokerRequest::Put { account, secret } => {
                &&& slot(secrets_after(secrets, request@), account@) == Some(secret@)
                &&& other != account@ ==> slot(secrets_after(secrets, request@), other) == slot(
                    secrets,
                    other,
                )
            },
            BrokerRequest::Delete { account } => {
                &&& slot(secrets_after(secrets, request@), account@) is None
                &&& other != account@ ==> slot(secrets_after(secrets, request@), other) == slot(
                    secrets,
                    other,
                )
            },
            _ => secrets_after(secrets, request@) == secrets,
        },
{
}

/// A request is written as eight bytes that name the protocol, one for the
/// operation, the lengths of the account and of the secret, and then the two.
pub proof fn law_requests_are_laid_out(request: BrokerRequest)
    requires
        encoded_request(request@) is Ok,
    ensures
        ({
            let frame = encoded_request(request@)->Ok_0;
            let (operation, account, secret) = match request {
                BrokerRequest::Ping => (0u8, seq![], seq![]),
                BrokerRequest::Get { account } => (1u8, account@, seq![]),
                BrokerRequest::Put { account, secret } => (2u8, account@, secret@),
                BrokerRequest::Delete { account } => (3u8, account@, seq![]),
            };
            &&& frame.len() == 15 + utf8_len(account) + secret.len()
            &&& frame.take(8) == seq![0x55u8, 0x4e, 0x50, 0x49, 0x4e, 0x43, 0x42, 0x31]
            &&& frame[8] == operation
            &&& frame[9] * 256 + frame[10] == utf8_len(account)
            &&& frame[11] * 16777216 + frame[12] * 65536 + frame[13] * 256 + frame[14]
                == secret.len()
            &&& frame.subrange(15, 15 + utf8_len(account) as int) == encode_utf8(account)
            &&& frame.skip(15 + utf8_len(account) as int) == secret
            &&& secret.len() <= 128 * 1024
            &&& !(request is Ping) ==> 0 < account.len() && utf8_len(account) <= 512 && control_byte_free(
                encode_utf8(account),
            )
        }),
{
    let frame = encoded_request(request@)->Ok_0;
    let (operation, account, secret) = match request {
        BrokerRequest::Ping => (0u8, seq![], seq![]),
        BrokerRequest::Get { account } => (1u8, account@, seq![]),
        BrokerRequest::Put { account, secret } => (2u8, account@, secret@),
        BrokerRequest::Delete { account } => (3u8, account@, seq![]),
    };
    let bytes = encode_utf8(account);
    let n = utf8_len(account);
    let m = secret.len();
    assert(frame[9] == (n / 256 % 256) as u8 && frame[10] == (n % 256) as u8);
    assert(frame.take(8) =~= seq![0x55u8, 0x4e, 0x50, 0x49, 0x4e, 0x43, 0x42, 0x31]);
    assert(frame.subrange(15, 15 + n as int) =~= bytes);
    assert(frame.skip(15 + n as int) =~= secret);
}

/// A directory of a socket is trusted exactly if it is a directory of this user
/// that nobody else can enter.
pub proof fn law_socket_directories_are_private(metadata: FileMetadata, uid: u32)
    ensures
        socket_directory_error(metadata, uid) is None <==> {
            &&& metadata.directory
            &&& !metadata.symlink
            &&& metadata.uid == uid
            &&& metadata.mode % 0o1000 == 0o700
        },
{
}

/// An installation is trusted only if the root is a directory of this user, and
/// each directory below it that is there is private to the owner of the root.
pub proof fn law_installations_are_private(
    root: FileStatus,
    first: FileStatus,
    second: FileStatus,
    uid: u32,
)
    requires
        installation_error(root, first, second, uid) is None,
    ensures
        root is Present || root is Missing,
        match root {
            FileStatus::Present(metadata) => {
                &&& metadata.directory && !metadata.symlink && metadata.uid == uid
                &&& first matches FileStatus::Present(inner) ==> {
                    &&& inner.directory && !inner.symlink && inner.uid == uid
                    &&& inner.mode % 0o1000 == 0o700
                    &&& second matches FileStatus::Present(last) ==> last.directory
                        && !last.symlink && last.uid == uid && last.mode % 0o1000 == 0o700
                }
            },
            _ => true,
        },
{
}

/// A path below another starts with it and ends with the name, with one
/// separator between.
pub proof fn law_paths_are_joined_once(base: Seq<char>, name: Seq<char>)
    ensures
        base.len() == 0 ==> below(base, name) == name,
        base.len() > 0 && base.last() == '/' ==> below(base, name) == base + name,
        base.len() > 0 && base.last() != '/' ==> {
            &&& below(base, name).len() == base.len() + 1 + name.len()
            &&& below(base, name).take(base.len() as int) == base
            &&& below(base, name)[base.len() as int] == '/'
            &&& below(base, name).skip(base.len() as int + 1) == name
        },
{
    reveal_strlit("/");
    let path = below(base, name);
    if base.len() > 0 && base.last() != '/' {
        assert(path.take(base.len() as int) =~= base);
        assert(path.skip(base.len() as int + 1) =~= name);
    }
}

/// A program is trusted only under its own name and under the certificate that
/// Unpin was built with.
pub proof fn law_programs_are_pinned(identifier: Seq<char>, fingerprint: Seq<char>)
    ensures
        match broker_requirement(identifier, fingerprint) {
            Ok(text) => {
                &&& fingerprint.len() == 40 && hex_text(fingerprint)
                &&& identifier.len() > 0
                &&& forall|i: int|
                    0 <= i < identifier.len() ==> alphanumeric_char(#[trigger] identifier[i])
                        || identifier[i] == '.' || identifier[i] == '-'
                &&& occurs(text, "identifier \""@ + identifier)
                &&& occurs(text, "\" and certificate leaf = H\""@ + lower_text(fingerprint))
            },
            Err(_) => fingerprint.len() != 40 || !hex_text(fingerprint) || identifier.len() == 0
                || exists|i: int|
                0 <= i < identifier.len() && !alphanumeric_char(#[trigger] identifier[i])
                    && identifier[i] != '.' && identifier[i] != '-',
        },
        match client_requirement(fingerprint) {
            Ok(text) => {
                &&& fingerprint.len() == 40 && hex_text(fingerprint)
                &&& occurs(
                    text,
                    "(identifier \"dev.unpin.cli\" or identifier \"dev.unpin.workbench.bridge\") and certificate leaf = H\""@
                        + lower_text(fingerprint),
                )
            },
            Err(_) => fingerprint.len() != 40 || !hex_text(fingerprint),
        },
{
    broadcast use group_occurs;

}

/// Each side demands of the other the program that it should be, and nothing is
/// trusted where no certificate is known.
pub proof fn law_peers_are_told_apart(fingerprint: Seq<char>)
    ensures
        peer_requirement(PeerKind::Broker, None) is Err,
        peer_requirement(PeerKind::Client, None) is Err,
        peer_requirement(PeerKind::Broker, Some(fingerprint)) == broker_requirement(
            "dev.unpin.credential-broker"@,
            fingerprint,
        ),
        peer_requirement(PeerKind::Client, Some(fingerprint)) == client_requirement(fingerprint),
{
}

/// Every step of an installation that succeeds leads on, and only an executable
/// of the owner of the root counts as installed in the end.
pub proof fn law_installation_moves_on(stage: InstallStage, installed: u32, root: u32)
    ensures
        !(stage is CompareOwners) ==> install_next(stage, InstallEvent::Done)
            != InstallStepView::Continue(stage),
        install_next(
            InstallStage::CompareOwners,
            InstallEvent::Owners { installed, root },
        ) is Installed <==> installed == root,
        install_next(stage, InstallEvent::Done) is Installed ==> stage is VerifyInstalled,
{
}

/// Every step towards a directory that succeeds leads on, and only a directory of
/// this user does.
pub proof fn law_directories_move_on(
    purpose: DirectoryPurpose,
    uid: u32,
    index: u8,
    metadata: FileMetadata,
)
    ensures
        ({
            let owned = metadata.directory && !metadata.symlink && metadata.uid == uid;
            let looked = directory_next(
                purpose,
                uid,
                DirectoryStage::Inspect { index },
                DirectoryEvent::Found(metadata),
            );
            let root = directory_next(
                purpose,
                uid,
                DirectoryStage::InspectRoot,
                DirectoryEvent::Found(metadata),
            );
            &&& owned ==> looked == DirectoryStepView::Continue(DirectoryStage::Restrict { index })
            &&& !owned ==> looked is Fail
            &&& owned ==> root == DirectoryStepView::Continue(DirectoryStage::Create { index: 0 })
            &&& !owned ==> root is Fail
        }),
        directory_next(
            DirectoryPurpose::Installation,
            uid,
            DirectoryStage::Restrict { index: 0 },
            DirectoryEvent::Done,
        ) == DirectoryStepView::Continue(DirectoryStage::Create { index: 1 }),
        directory_next(
            DirectoryPurpose::Installation,
            uid,
            DirectoryStage::Restrict { index: 1 },
            DirectoryEvent::Done,
        ) is Ready,
        directory_next(
            DirectoryPurpose::Socket,
            uid,
            DirectoryStage::Restrict { index: 0 },
            DirectoryEvent::Done,
        ) is Ready,
{
}

/// The broker serves the root that its arguments give, and only where they give
/// nothing else.
pub proof fn law_broker_serves_its_argument(arguments: Seq<String>, command: BrokerCommand)
    requires
        broker_command(arguments, command),
    ensures
        match command {
            BrokerCommand::Serve { app_state_root } => arguments.len() == 2 && arguments[0]@
                == "--app-state-root"@ && arguments[1]@ == app_state_root@,
            BrokerCommand::Version => arguments.len() == 1 && arguments[0]@ == "--version"@,
            BrokerCommand::Help => arguments.len() == 1 && (arguments[0]@ == "--help"@
                || arguments[0]@ == "-h"@),
            BrokerCommand::Usage { .. } => !(arguments.len() == 2 && arguments[0]@
                == "--app-state-root"@) || arguments[0]@ == "--version"@,
        },
{
}

/// The socket of a state root lies in a directory of its own, under a name of
/// sixteen digits.
pub proof fn law_sockets_have_their_directory(root: Seq<u8>)
    ensures
        stands_at(socket_directory(root), "/tmp/unpin-stable-credential-broker-v1-"@, 0),
        socket_directory(root).len() == "/tmp/unpin-stable-credential-broker-v1-"@.len() + 16,
        hex_text(
            socket_directory(root).skip("/tmp/unpin-stable-credential-broker-v1-"@.len() as int),
        ),
{
    let start = "/tmp/unpin-stable-credential-broker-v1-"@;
    let name = crate::text::hex_of(
        crate::broker_protocol::be64(crate::broker_protocol::fnv1a(root)),
    );
    let path = socket_directory(root);
    crate::laws::texts::law_hex_is_read_back(
        crate::broker_protocol::be64(crate::broker_protocol::fnv1a(root)),
    );
    assert(path.subrange(0, start.len() as int) =~= start);
    assert(path.skip(start.len() as int) =~= name);
}

/// A key is loaded from the account that is its own, and only if it is whole.
pub proof fn law_keys_are_loaded_from_their_account(kind: KeyKind, secrets: Secrets)
    ensures
        ({
            let found = slot(
                secrets,
                match kind {
                    KeyKind::Approval => "transition-approval-key-v1"@,
                    KeyKind::BackupAuthentication => "backup-authentication-key-v1"@,
                    KeyKind::SessionAuthority => "session-authority-key-v1"@,
                },
            );
            &&& found is None ==> loaded_key(kind, secrets) == Ok::<Option<Seq<u8>>, Seq<char>>(None)
            &&& found is Some && found->0.len() == 32 ==> loaded_key(kind, secrets) == Ok::<
                Option<Seq<u8>>,
                Seq<char>,
            >(found)
            &&& found is Some && found->0.len() != 32 ==> loaded_key(kind, secrets) is Err
        }),
{
}

/// Without a bundle each key is taken from its own account; with one, all three
/// come out of it.
pub proof fn law_bundles_hold_each_key(secrets: Secrets, bundle: CredentialBundle)
    requires
        loaded_bundle(secrets) == Ok::<BundleView, Seq<char>>(bundle@),
    ensures
        slot(secrets, "credential-bundle-v1"@) is None ==> {
            &&& optional(bundle.approval) == slot(secrets, "transition-approval-key-v1"@)
            &&& optional(bundle.backup_authentication) == slot(
                secrets,
                "backup-authentication-key-v1"@,
            )
            &&& optional(bundle.session_authority) == slot(secrets, "session-authority-key-v1"@)
        },
        slot(secrets, "credential-bundle-v1"@) is Some ==> {
            let stored = slot(secrets, "credential-bundle-v1"@)->0;
            &&& stored.len() == 100
            &&& stored[0] == 1
            &&& bundle.approval is Some <==> stored[1] == 1
            &&& bundle.approval is Some ==> stored.subrange(2, 34) == bundle.approval->0@
            &&& bundle.backup_authentication is Some <==> stored[34] == 1
            &&& bundle.backup_authentication is Some ==> stored.subrange(35, 67)
                == bundle.backup_authentication->0@
            &&& bundle.session_authority is Some <==> stored[67] == 1
            &&& bundle.session_authority is Some ==> stored.subrange(68, 100)
                == bundle.session_authority->0@
        },
{
    assert(optional(bundle.approval) == bundle@.approval);
    assert(optional(bundle.backup_authentication) == bundle@.backup_authentication);
    assert(optional(bundle.session_authority) == bundle@.session_authority);
}

/// A bundle is written as its version and then each key behind a mark that says
/// whether it is there.
pub proof fn law_bundles_are_laid_out(bundle: CredentialBundle)
    ensures
        ({
            let encoded = encoded_bundle(bundle@);
            &&& encoded.len() == 100
            &&& encoded[0] == 1
            &&& encoded[1] == if bundle.approval is Some {
                1u8
            } else {
                0u8
            }
            &&& bundle.approval is Some ==> encoded.subrange(2, 34) == bundle.approval->0@
            &&& encoded[34] == if bundle.backup_authentication is Some {
                1u8
            } else {
                0u8
            }
            &&& bundle.backup_authentication is Some ==> encoded.subrange(35, 67)
                == bundle.backup_authentication->0@
            &&& encoded[67] == if bundle.session_authority is Some {
                1u8
            } else {
                0u8
            }
            &&& bundle.session_authority is Some ==> encoded.subrange(68, 100)
                == bundle.session_authority->0@
        }),
{
    let encoded = encoded_bundle(bundle@);
    assert(optional(bundle.approval) == bundle@.approval);
    assert(optional(bundle.backup_authentication) == bundle@.backup_authentication);
    assert(optional(bundle.session_authority) == bundle@.session_authority);
    if bundle.approval is Some {
        assert(bundle.approval->0@.len() == 32);
        assert(encoded.subrange(2, 34) =~= bundle.approval->0@);
    }
    if bundle.backup_authentication is Some {
        assert(bundle.backup_authentication->0@.len() == 32);
        assert(encoded.subrange(35, 67) =~= bundle.backup_authentication->0@);
    }
    if bundle.session_authority is Some {
        assert(bundle.session_authority->0@.len() == 32);
        assert(encoded.subrange(68, 100) =~= bundle.session_authority->0@);
    }
}

/// Keys are put together into a bundle exactly if there is none yet and all three
/// are there and whole.
pub proof fn law_only_whole_keys_are_bundled(secrets: Secrets)
    ensures
        migrates(secrets) <==> {
            let a = slot(secrets, "transition-approval-key-v1"@);
            let b = slot(secrets, "backup-authentication-key-v1"@);
            let c = slot(secrets, "session-authority-key-v1"@);
            &&& slot(secrets, "credential-bundle-v1"@) is None
            &&& a is Some && a->0.len() == 32
            &&& b is Some && b->0.len() == 32
            &&& c is Some && c->0.len() == 32
        },
{
}

/// A cookie is taken exactly if it is not empty, not too large, and holds no
/// control bytes; it is stored behind its mark, and what lacks the mark is not
/// read.
pub proof fn law_cookies_are_checked(secret: Seq<u8>, secrets: Secrets)
    ensures
        cookie_error(secret) is None <==> 0 < secret.len() <= 64 * 1024 && control_byte_free(secret),
        unbound_cookie(bound_cookie(secret)) == Some(secret),
        cookie_status(secrets) == Ok::<CursorDashboardCredentialState, Seq<char>>(
            CursorDashboardCredentialState::Missing,
        ) <==> slot(secrets, "cursor-dashboard-cookie-v1"@) is None,
        cookie_status(secrets) == Ok::<CursorDashboardCredentialState, Seq<char>>(
            CursorDashboardCredentialState::Ready,
        ) <==> slot(secrets, "cursor-dashboard-cookie-v1"@) is Some && exists|cookie: Seq<u8>|
            slot(secrets, "cursor-dashboard-cookie-v1"@)->0 == #[trigger] bound_cookie(cookie)
                && cookie_error(cookie) is None,
{
    let prefix = crate::cursor_dashboard::cookie_prefix();
    let n = prefix.len() as int;
    assert(bound_cookie(secret).take(n) =~= prefix);
    assert(bound_cookie(secret).skip(n) =~= secret);
    let found = slot(secrets, "cursor-dashboard-cookie-v1"@);
    if found is Some {
        let stored = found->0;
        if unbound_cookie(stored) is Some {
            assert(bound_cookie(unbound_cookie(stored)->0) =~= stored);
        }
        if exists|cookie: Seq<u8>|
            stored == #[trigger] bound_cookie(cookie) && cookie_error(cookie) is None {
            let cookie = choose|cookie: Seq<u8>|
                stored == #[trigger] bound_cookie(cookie) && cookie_error(cookie) is None;
            assert(stored.take(n) =~= prefix);
            assert(stored.skip(n) =~= cookie);
        }
    }
}

/// The token of a gateway is the text that is kept under its key id, and only
/// where that names something and the text could stand in a header.
pub proof fn law_gateway_tokens_are_kept_by_id(
    secrets: Secrets,
    key_id: Seq<char>,
    token: Seq<char>,
)
    ensures
        resolved_token(secrets, key_id) == Ok::<Option<Seq<char>>, Seq<char>>(Some(token)) ==> {
            let found = slot(secrets, "gateway-upstream-v1:"@ + key_id);
            &&& !blank(key_id) && utf8_len(key_id) <= 256 && control_free(key_id)
            &&& found is Some
            &&& vstd::utf8::valid_utf8(found->0)
            &&& vstd::utf8::decode_utf8(found->0) == token
            &&& token.len() > 0 && control_free(token)
        },
        resolved_token(secrets, key_id) == Ok::<Option<Seq<char>>, Seq<char>>(None) ==> slot(
            secrets,
            "gateway-upstream-v1:"@ + key_id,
        ) is None,
        !blank(key_id) && utf8_len(key_id) <= 256 && control_free(key_id) && slot(
            secrets,
            "gateway-upstream-v1:"@ + key_id,
        ) is None ==> resolved_token(secrets, key_id) == Ok::<Option<Seq<char>>, Seq<char>>(None),
{
}

/// The start of a request is taken exactly if it names the protocol and an
/// operation, and gives lengths that the operation may have.
pub proof fn law_request_headers_are_checked(header: Seq<u8>)
    requires
        header.len() == 15,
    ensures
        ({
            let operation = header[8];
            let account = header[9] * 256 + header[10];
            let secret = header[11] * 16777216 + header[12] * 65536 + header[13] * 256 + header[14];
            request_header_error(header) is None <==> {
                &&& header.take(8) == seq![0x55u8, 0x4e, 0x50, 0x49, 0x4e, 0x43, 0x42, 0x31]
                &&& operation <= 3
                &&& operation == 0 ==> account == 0 && secret == 0
                &&& operation != 0 ==> 0 < account <= 512
                &&& operation == 2 ==> secret <= 128 * 1024
                &&& operation != 2 ==> secret == 0
            }
        }),
{
}

/// The start of a response is taken exactly if it names the protocol and a
/// status, and gives a length that the status may have.
pub proof fn law_response_headers_are_checked(header: Seq<u8>)
    requires
        header.len() == 13,
    ensures
        ({
            let status = header[8];
            let length = header[9] * 16777216 + header[10] * 65536 + header[11] * 256 + header[12];
            response_header_error(header) is None <==> {
                &&& header.take(8) == seq![0x55u8, 0x4e, 0x50, 0x49, 0x4e, 0x43, 0x42, 0x31]
                &&& status <= 3
                &&& status == 0 || status == 2 ==> length == 0
                &&& status == 1 ==> length <= 128 * 1024
                &&& status == 3 ==> length <= 4096
            }
        }),
{
}

/// What the broker answers is true of what it keeps: a value is the secret, a
/// success was carried out, and after an error no other account has changed.
pub proof fn law_answers_are_true(
    before: Secrets,
    after: Secrets,
    request: BrokerRequest,
    response: BrokerResponse,
    other: Seq<char>,
)
    requires
        request_answered(before, after, request@, response@),
    ensures
        match (request, response) {
            (BrokerRequest::Get { account }, BrokerResponse::Value(secret)) => slot(before, account@)
                == Some(secret@) && after == before,
            (BrokerRequest::Get { account }, BrokerResponse::NotFound) => slot(before, account@)
                is None && after == before,
            (BrokerRequest::Get { .. }, BrokerResponse::Success) => false,
            (BrokerRequest::Put { account, secret }, BrokerResponse::Success) => slot(
                after,
                account@,
            ) == Some(secret@) && (other != account@ ==> slot(after, other) == slot(before, other)),
            (BrokerRequest::Delete { account }, BrokerResponse::Success) => slot(before, account@)
                is Some && slot(after, account@) is None && (other != account@ ==> slot(after, other)
                == slot(before, other)),
            (BrokerRequest::Delete { account }, BrokerResponse::NotFound) => slot(before, account@)
                is None && slot(after, account@) is None,
            (BrokerRequest::Ping, response) => response is Success && after == before,
            _ => true,
        },
        match (request, response) {
            (BrokerRequest::Get { .. }, BrokerResponse::Error(_)) => after == before,
            (
                BrokerRequest::Put { account, .. } | BrokerRequest::Delete { account },
                BrokerResponse::Error(_),
            ) => other != account@ ==> slot(after, other) == slot(before, other),
            _ => true,
        },
{
    match (request, response) {
        (
            BrokerRequest::Put { account, .. } | BrokerRequest::Delete { account },
            BrokerResponse::Error(_),
        ) => {
            if other != account@ {
                law_one_secret_may_differ(before, after, account@, other);
            }
        },
        _ => {},
    }
}

/// Two states of a store that agree on every secret but one agree on every other
/// account.
pub proof fn law_one_secret_may_differ(
    before: Secrets,
    after: Secrets,
    account: Seq<char>,
    other: Seq<char>,
)
    requires
        same_but_slot(before, after, account),
        other != account,
    ensures
        slot(after, other) == slot(before, other),
{
    let service = crate::secret_store::KEYCHAIN_SERVICE@;
    let key = (service, other);
    let gone = (service, account);
    assert(after.remove(gone).contains_key(key) == before.remove(gone).contains_key(key));
    if after.contains_key(key) {
        assert(after.remove(gone)[key] == after[key]);
        assert(before.remove(gone)[key] == before[key]);
    }
}

/// The status of a key is ready with the key that is kept, and missing exactly if
/// none is.
pub proof fn law_key_status_is_true(
    kind: KeyKind,
    secrets: Secrets,
    r: Result<KeyState, String>,
)
    requires
        status_reports(r, loaded_key(kind, secrets)),
    ensures
        match r {
            Ok(KeyState::Ready { key }) => slot(secrets, key_account(kind)) == Some(key@),
            Ok(KeyState::Missing) => slot(secrets, key_account(kind)) is None,
            Err(_) => slot(secrets, key_account(kind)) is Some && slot(
                secrets,
                key_account(kind),
            )->0.len() != 32,
        },
{
}

/// A key that is made is kept under its account, where none was; a key that is
/// there is left as it is.
pub proof fn law_keys_are_made_once(
    kind: KeyKind,
    before: Secrets,
    after: Secrets,
    answers: bool,
    written: int,
    r: Result<KeyInitialization, String>,
    other: Seq<char>,
)
    requires
        initialization_outcome(kind, before, after, answers, written, r),
        other != key_account(kind),
    ensures
        match r {
            Ok(KeyInitialization::Created { key }) => {
                &&& slot(before, key_account(kind)) is None
                &&& slot(after, key_account(kind)) == Some(key@)
                &&& written == 1
            },
            Ok(KeyInitialization::AlreadyExists { key }) => {
                &&& slot(before, key_account(kind)) == Some(key@)
                &&& after == before
                &&& written == 0
            },
            Err(_) => answers ==> after == before,
        },
        slot(after, other) == slot(before, other),
{
    if r is Err {
        law_one_secret_may_differ(before, after, key_account(kind), other);
    }
}

/// A request is put together from its parts: by its operation, with its account
/// and, where it writes, its secret.
pub proof fn law_requests_are_put_together(account: Seq<char>, secret: Seq<u8>)
    ensures
        request_of(0, account, secret) == RequestView::Ping,
        request_of(1, account, secret) == (RequestView::Get { account }),
        request_of(2, account, secret) == (RequestView::Put { account, secret }),
        request_of(3, account, secret) == (RequestView::Delete { account }),
{
}

/// A response is put together from its status and what follows it.
pub proof fn law_responses_are_put_together(payload: Seq<u8>)
    ensures
        response_of(0, payload) == Ok::<ResponseView, Seq<char>>(ResponseView::Success),
        response_of(1, payload) == Ok::<ResponseView, Seq<char>>(ResponseView::Value(payload)),
        response_of(2, payload) == Ok::<ResponseView, Seq<char>>(ResponseView::NotFound),
        valid_utf8(payload) ==> response_of(3, payload) == Ok::<ResponseView, Seq<char>>(
            ResponseView::Error(decode_utf8(payload)),
        ),
        !valid_utf8(payload) ==> response_of(3, payload) is Err,
{
}

/// An account is read as it was written, and only where it names something.
pub proof fn law_accounts_are_read_back(operation: u8, account: Seq<char>)
    requires
        account.len() > 0,
        utf8_len(account) <= 512,
        control_byte_free(encode_utf8(account)),
    ensures
        decoded_account(operation, encode_utf8(account)) == Ok::<Seq<char>, Seq<char>>(account),
{
    vstd::utf8::encode_utf8_valid_utf8(account);
    vstd::utf8::encode_utf8_decode_utf8(account);
}

/// A key is taken from a secret exactly if that is thirty-two bytes long.
pub proof fn law_keys_are_whole_secrets(kind: KeyKind, secret: Seq<u8>, account: Seq<char>)
    ensures
        secret.len() == 32 ==> stored_key(kind, Some(secret)) == Ok::<Option<Seq<u8>>, Seq<char>>(
            Some(secret),
        ) && account_key(Some(secret), account) == Ok::<Option<Seq<u8>>, Seq<char>>(Some(secret)),
        secret.len() != 32 ==> stored_key(kind, Some(secret)) is Err && account_key(
            Some(secret),
            account,
        ) is Err,
        stored_key(kind, None) == Ok::<Option<Seq<u8>>, Seq<char>>(None),
        account_key(None, account) == Ok::<Option<Seq<u8>>, Seq<char>>(None),
{
}

/// A token is taken from a secret that is a text, not empty and without control
/// characters.
pub proof fn law_tokens_are_plain_texts(token: Seq<char>)
    ensures
        token.len() > 0 && control_free(token) ==> gateway_token(Some(encode_utf8(token))) == Ok::<
            Option<Seq<char>>,
            Seq<char>,
        >(Some(token)),
        token.len() == 0 || !control_free(token) ==> gateway_token(Some(encode_utf8(token)))
            is Err,
        gateway_token(None) == Ok::<Option<Seq<char>>, Seq<char>>(None),
{
    vstd::utf8::encode_utf8_valid_utf8(token);
    vstd::utf8::encode_utf8_decode_utf8(token);
}

/// A response is written behind what was written before, or not at all.
pub proof fn law_responses_are_written_whole(
    before: Seq<u8>,
    after: Seq<u8>,
    response: ResponseView,
    r: Result<(), String>,
)
    requires
        response_written(before, after, response, r),
    ensures
        r is Ok ==> encoded_response(response) is Ok && after == before + encoded_response(
            response,
        )->Ok_0,
        r is Err ==> after == before,
{
}

} // verus!
