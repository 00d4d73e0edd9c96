//! Refusals: which fault of an input is named, where several could be, and what
//! the refused side is told.
use vstd::prelude::*;
use vstd::utf8::{decode_utf8, valid_utf8};

use crate::agent_plugin::PluginPackage;
use crate::approval::{
    request_error, resource_error, response_text, terminal_error, ApprovalExpectation,
    ApprovalResource, TerminalAccess,
};
use crate::bridge_frame::{error_view, FrameStatus};
use crate::bridge_request::{
    auth_in, frame_outcome, params_error, request_in, BridgeRequestAuth, BridgeRequestView, Request,
};
use crate::bridge_session::{
    authentication_error, claim_error, handshake_keys, handshake_outcome, properly_signed,
    signing_error, BridgeSession, ClaimView, HandshakeClaim, HandshakeFacts, SigningEvidence,
};
use crate::broker::{
    fallback_decision, installation_error, socket_directory_error, FileMetadata, FileStatus,
    InstallationEvidence,
};
use crate::broker_protocol::{
    decoded_request, decoded_response, request_header_error, response_header_error, RequestView,
    ResponseView,
};
use crate::commands::agent_plugins::{
    request_failure, BulkTogglePlanError, PackageRequestError,
};
use crate::commands::flow::CommandStatus;
use crate::commands::group::{challenge_in, member_in, GroupScope, MemberTextView, MemberView};
use crate::commands::session::{origin_named, pinned, PinnedView};
use crate::commands::toggle::{
    category_named, kind_named, known_providers, layer_named, reach_of, NamedProvider,
    ProviderReachArg, ReachView,
};
use crate::commands::workflow::{
    mutation_error, upserts, MutationArguments, MutationRequest, NamedDefinition,
};
use crate::credential_bundle::{account_key, decoded_bundle, BundleView};
use crate::cursor_dashboard::cookie_error;
use crate::gateway_credential::{gateway_token, resolved_token};
use crate::group_definition::{
    change_in, definition_in, definition_keys, existing_in, expected_in, planned_change, scope_in,
    ActionView, DefinitionFacts, ExistingGroup,
};
use crate::json::{field, JsonView};
use crate::laws::approval::fits_a_line;
use crate::laws::shown::{gives_text, only_keys};
use crate::plan_request::{
    group_request_in, plugin_request_in, reach_in, PluginRequestView,
};
use crate::reviewed_plans::{approval_error, plan_error, PlanFamily, PlanView};
use crate::secret_store::Secrets;
use crate::text::{blank, control_free, cut, hex_text, trimmed, utf8_len};
use crate::workflow::{
    command_in, command_part, compose_keys, draft_in, has_mode, launch_in, proposes,
    transition_in, transition_keys, validated_id, DraftView, ProposalView, TransitionView,
    WorkflowLease,
};

verus! {

/// The first fault of a request's header is the one that is named.
pub proof fn law_request_faults_are_named(header: Seq<u8>)
    requires
        header.len() == 15,
    ensures
        ({
            let named = header.take(8) == seq![0x55u8, 0x4e, 0x50, 0x49, 0x4e, 0x43, 0x42, 0x31];
            let operation = header[8];
            let account = header[9] * 256 + header[10];
            let secret = header[11] * 16777216 + header[12] * 65536 + header[13] * 256 + header[14];
            let error = request_header_error(header);
            &&& !named ==> error == Some("credential broker protocol magic is invalid"@)
            &&& named && operation == 0 && (account > 0 || secret > 0) ==> error == Some(
                "credential broker ping payload is invalid"@,
            )
            &&& named && operation != 0 && !(0 < account <= 512) ==> error == Some(
                "credential broker account is invalid"@,
            )
            &&& named && operation != 0 && 0 < account <= 512 && secret > 131072 ==> error == Some(
                "credential broker secret exceeds size limit"@,
            )
            &&& named && operation != 0 && operation != 2 && 0 < account <= 512 && 0 < secret
                <= 131072 ==> error == Some("credential broker request payload is invalid"@)
            &&& named && operation > 3 && 0 < account <= 512 && secret == 0 ==> error == Some(
                "credential broker operation is invalid"@,
            )
        }),
{
}

/// The first fault of a response's header is the one that is named.
pub proof fn law_response_faults_are_named(header: Seq<u8>)
    requires
        header.len() == 13,
    ensures
        ({
            let named = header.take(8) == seq![0x55u8, 0x4e, 0x50, 0x49, 0x4e, 0x43, 0x42, 0x31];
            let status = header[8];
            let length = header[9] * 16777216 + header[10] * 65536 + header[11] * 256 + header[12];
            let most: int = if status == 3 {
                4096
            } else {
                131072
            };
            let error = response_header_error(header);
            &&& !named ==> error == Some("credential broker protocol magic is invalid"@)
            &&& named && length > most ==> error == Some(
                "credential broker response exceeds size limit"@,
            )
            &&& named && (status == 0 || status == 2) && 0 < length <= most ==> error == Some(
                "credential broker response payload is invalid"@,
            )
            &&& named && status > 3 && length <= most ==> error == Some(
                "credential broker response status is invalid"@,
            )
        }),
{
}

/// A stream that ends inside of a frame gives an error and is used up; a faulty
/// header is judged before anything behind it is read.
pub proof fn law_cut_frames_are_refused(stream: Seq<u8>)
    ensures
        stream.len() < 15 ==> decoded_request(stream) == (
            Err::<RequestView, Seq<char>>("failed to fill whole buffer"@),
            Seq::<u8>::empty(),
        ),
        stream.len() >= 15 && request_header_error(stream.take(15)) is Some ==> decoded_request(
            stream,
        ) == (
            Err::<RequestView, Seq<char>>(request_header_error(stream.take(15))->0),
            stream.skip(15),
        ),
        stream.len() >= 15 && request_header_error(stream.take(15)) is None && stream.len() < 15
            + stream[9] * 256 + stream[10] ==> decoded_request(stream) == (
            Err::<RequestView, Seq<char>>("failed to fill whole buffer"@),
            Seq::<u8>::empty(),
        ),
        stream.len() >= 15 && stream.len() < 15 + stream[9] * 256 + stream[10] + stream[11]
            * 16777216 + stream[12] * 65536 + stream[13] * 256 + stream[14] ==> decoded_request(
            stream,
        ).0 is Err,
        stream.len() < 13 ==> decoded_response(stream) == (
            Err::<ResponseView, Seq<char>>("failed to fill whole buffer"@),
            Seq::<u8>::empty(),
        ),
        stream.len() >= 13 && response_header_error(stream.take(13)) is Some ==> decoded_response(
            stream,
        ) == (
            Err::<ResponseView, Seq<char>>(response_header_error(stream.take(13))->0),
            stream.skip(13),
        ),
        stream.len() >= 13 && response_header_error(stream.take(13)) is None && stream.len() < 13
            + stream[9] * 16777216 + stream[10] * 65536 + stream[11] * 256 + stream[12]
            ==> decoded_response(stream) == (
            Err::<ResponseView, Seq<char>>("failed to fill whole buffer"@),
            Seq::<u8>::empty(),
        ),
{
}

/// A response that was read tells its kind by the status byte, and holds the
/// bytes behind the header, as many as the header says.
pub proof fn law_read_responses_are_the_payload(stream: Seq<u8>)
    requires
        decoded_response(stream).0 is Ok,
    ensures
        ({
            let response = decoded_response(stream).0->Ok_0;
            let length = stream[9] * 16777216 + stream[10] * 65536 + stream[11] * 256 + stream[12];
            &&& stream.len() >= 13 + length
            &&& stream.take(8) == seq![0x55u8, 0x4e, 0x50, 0x49, 0x4e, 0x43, 0x42, 0x31]
            &&& stream[8] <= 3
            &&& response is Success <==> stream[8] == 0
            &&& response is Value <==> stream[8] == 1
            &&& response is NotFound <==> stream[8] == 2
            &&& response is Error <==> stream[8] == 3
            &&& response is Value ==> response->Value_0 == stream.subrange(13, 13 + length)
            &&& response is Error ==> valid_utf8(stream.subrange(13, 13 + length))
                && response->Error_0 == decode_utf8(stream.subrange(13, 13 + length))
            &&& decoded_response(stream).1 == stream.skip(13 + length)
        }),
{
    let length = stream[9] * 16777216 + stream[10] * 65536 + stream[11] * 256 + stream[12];
    assert(stream.take(13).take(8) =~= stream.take(8));
    assert(stream.skip(13).take(length) =~= stream.subrange(13, 13 + length));
    assert(stream.skip(13).skip(length) =~= stream.skip(13 + length));
}

/// The first fault of a request is the one that is named, under the id of the
/// request as soon as that can be read.
pub proof fn law_bridge_request_faults_are_named(value: JsonView, id: Seq<char>)
    ensures
        ({
            let known = only_keys(value, seq!["version"@, "id"@, "method"@, "params"@, "auth"@]);
            let given = field(value, "id"@) == Some(JsonView::Text(id));
            let short = 0 < id.len() && utf8_len(id) <= 128 && control_free(id);
            let version = field(value, "version"@) == Some(JsonView::Unsigned(2));
            let method = field(value, "method"@);
            let names = method is Some && method->0 is Text && 0 < method->0->Text_0.len()
                && utf8_len(method->0->Text_0) <= 128;
            let params = field(value, "params"@);
            let fits = params is Some ==> params->0 is Object;
            let auth = field(value, "auth"@);
            let found = request_in(value);
            &&& !(value is Object) ==> found == refused(None, "malformed-request"@)
            &&& value is Object && !known && given ==> found == refused(
                Some(id),
                "unknown-request-field"@,
            )
            &&& known && !(field(value, "id"@) is Some && field(value, "id"@)->0 is Text) ==> found
                == refused(None, "missing-request-id"@)
            &&& known && given && !short ==> found == refused(Some(id), "invalid-request-id"@)
            &&& known && given && short && !version ==> found == refused(
                Some(id),
                "unsupported-protocol-version"@,
            )
            &&& known && given && short && version && !names ==> found == refused(
                Some(id),
                "invalid-method"@,
            )
            &&& known && given && short && version && names && !fits ==> found == refused(
                Some(id),
                "invalid-params"@,
            )
            &&& known && given && short && version && names && fits && auth is Some && auth_in(
                auth->0,
            ) is None ==> found == refused(Some(id), "invalid-bridge-auth"@)
        }),
{
}

/// A request that is refused, under an id where one is known.
pub open spec fn refused(id: Option<Seq<char>>, code: Seq<char>) -> Result<
    BridgeRequestView,
    (Option<Seq<char>>, Seq<char>),
> {
    Err((id, code))
}

/// What is wrong with a frame is answered under the id of its request: a frame
/// that is too large has none.
pub proof fn law_refused_frames_are_answered(
    value: JsonView,
    seen: Seq<Seq<char>>,
    request: Request,
    parsed: Option<JsonView>,
)
    ensures
        frame_outcome(FrameStatus::Oversized, parsed, seen) == Err::<BridgeRequestView, JsonView>(
            error_view(None, "frame-too-large"@),
        ),
        request_in(value) == Ok::<BridgeRequestView, (Option<Seq<char>>, Seq<char>)>(request@)
            && seen.contains(request.id@) ==> frame_outcome(
            FrameStatus::Complete,
            Some(value),
            seen,
        ) == Err::<BridgeRequestView, JsonView>(
            error_view(Some(request.id@), "duplicate-request-id"@),
        ),
        request_in(value) is Err ==> frame_outcome(FrameStatus::Complete, Some(value), seen) == Err::<
            BridgeRequestView,
            JsonView,
        >(error_view(request_in(value)->Err_0.0, request_in(value)->Err_0.1)),
{
}

/// The first fault of an authentication is the one that is named: nothing is said
/// of the tag before the rest of it holds.
pub proof fn law_authentication_faults_are_named(
    session: BridgeSession,
    auth: BridgeRequestAuth,
    tag: Seq<char>,
)
    ensures
        ({
            let binding = session.binding->0;
            let ours = {
                &&& auth.parent_pid == binding.parent_pid
                &&& auth.parent_start_marker@ == binding.parent_start_marker@
                &&& auth.child_pid == binding.child_pid
                &&& auth.child_start_marker@ == binding.child_start_marker@
                &&& auth.project_root@ == binding.project_root@
                &&& auth.app_state_root@ == binding.app_state_root@
                &&& auth.process_generation@ == binding.process_generation@
            };
            let last = session.next_authenticated_sequence;
            let formed = {
                &&& 0 < auth.operation_id@.len() && utf8_len(auth.operation_id@) <= 256
                &&& auth.fingerprint@.len() == 64 && hex_text(auth.fingerprint@)
                &&& auth.auth_tag@.len() == 64 && hex_text(auth.auth_tag@)
            };
            let error = authentication_error(session@, Some(auth@), tag);
            &&& session.binding is None ==> error == Some("bridge-handshake-required"@)
            &&& session.binding is None ==> authentication_error(session@, None, tag) == Some(
                "bridge-handshake-required"@,
            )
            &&& session.binding is Some ==> authentication_error(session@, None, tag) == Some(
                "bridge-auth-required"@,
            )
            &&& session.binding is Some && !ours ==> error == Some("bridge-binding-mismatch"@)
            &&& session.binding is Some && ours && last == u64::MAX ==> error == Some(
                "bridge-sequence-overflow"@,
            )
            &&& session.binding is Some && ours && last < u64::MAX && auth.sequence != last + 1
                ==> error == Some("bridge-sequence-mismatch"@)
            &&& session.binding is Some && ours && last < u64::MAX && auth.sequence == last + 1
                && !formed ==> error == Some("invalid-bridge-request-auth"@)
            &&& session.binding is Some && ours && last < u64::MAX && auth.sequence == last + 1
                && formed && auth.auth_tag@ != tag ==> error == Some(
                "bridge-authentication-failed"@,
            )
        }),
{
}

/// A second handshake is refused, and a claim that is not true of this process is
/// refused for what is untrue.
pub proof fn law_handshake_faults_are_named(
    session: BridgeSession,
    params: JsonView,
    facts: HandshakeFacts,
    claim: HandshakeClaim,
)
    ensures
        session.binding is Some && handshake_outcome(
            session@,
            params,
            facts,
        ) is Err && params_error(
            params,
            handshake_keys(),
        ) is None ==> handshake_outcome(session@, params, facts) == Err::<ClaimView, Seq<char>>(
            "bridge-handshake-already-complete"@,
        ),
        session.binding is Some ==> handshake_outcome(session@, params, facts) is Err,
        ({
            let rooted = claim.project_root@ == facts.project_root@ && claim.app_state_root@
                == facts.app_state_root@;
            let ours = claim.child_pid == facts.process_id && claim.parent_pid
                == facts.parent_process_id;
            let error = claim_error(claim@, facts);
            &&& !rooted ==> error == Some("bridge-root-mismatch"@)
            &&& rooted && !facts.sandbox_ok ==> error == Some("fixture-write-sandbox-blocked"@)
            &&& rooted && facts.sandbox_ok && !ours ==> error == Some("bridge-process-mismatch"@)
            &&& rooted && facts.sandbox_ok && ours && !facts.fixture_mode ==> error
                == signing_error(facts.signing)
            &&& rooted && facts.sandbox_ok && ours && facts.fixture_mode ==> error is None
        }),
{
}

/// Evidence that could not be had is told apart from evidence that is of another
/// program.
pub proof fn law_signing_faults_are_named(seen: SigningEvidence)
    ensures
        signing_error(None) == Some("bridge-signing-identity-unavailable"@),
        seen.parent_status is None || seen.child_status is None ==> signing_error(Some(seen))
            == Some("bridge-signing-identity-unavailable"@),
        seen.parent_status is Some && seen.child_status is Some && !(properly_signed(
            seen.parent_status->0,
        ) && properly_signed(seen.child_status->0)) ==> signing_error(Some(seen)) == Some(
            "bridge-signing-identity-mismatch"@,
        ),
        seen.parent_status is Some && seen.child_status is Some && properly_signed(
            seen.parent_status->0,
        ) && properly_signed(seen.child_status->0) ==> {
            &&& seen.parent_identity is None ==> signing_error(Some(seen)) == Some(
                "bridge-signing-identity-unavailable"@,
            )
            &&& seen.parent_identity is Some && seen.parent_identity->0@ != "dev.unpin.workbench"@
                ==> signing_error(Some(seen)) == Some("bridge-signing-identity-mismatch"@)
            &&& seen.parent_identity is Some && seen.parent_identity->0@ == "dev.unpin.workbench"@
                && (seen.parent_team is None || seen.child_team is None) ==> signing_error(
                Some(seen),
            ) == Some("bridge-signing-identity-unavailable"@)
            &&& seen.parent_identity is Some && seen.parent_identity->0@ == "dev.unpin.workbench"@
                && seen.parent_team is Some && seen.child_team is Some && (
            seen.parent_team->0@.len() == 0 || seen.parent_team->0@ != seen.child_team->0@)
                ==> signing_error(Some(seen)) == Some("bridge-signing-identity-mismatch"@)
        },
{
}

/// The first value that could not be shown is the one that an approval is refused
/// for.
pub proof fn law_approval_faults_are_named(expectation: ApprovalExpectation, plan: Seq<char>)
    requires
        expectation.effect_graph_digest@ == plan,
    ensures
        ({
            let error = request_error(expectation@, plan, Some(plan));
            let prefix = "invalid human approval "@;
            let whose = fits_a_line(plan);
            let id = whose && fits_a_line(expectation.operation_id@);
            let kind = id && fits_a_line(expectation.operation_kind@);
            let repository = kind && fits_a_line(expectation.repository_key@);
            let workspace = repository && fits_a_line(expectation.workspace_key@);
            let session = workspace && (expectation.session_id is Some ==> fits_a_line(
                expectation.session_id->0@,
            ));
            let profile = session && (expectation.profile_digest is Some ==> fits_a_line(
                expectation.profile_digest->0@,
            ));
            &&& !whose ==> error == Some(prefix + "plan fingerprint"@)
            &&& whose && !id ==> error == Some(prefix + "operation id"@)
            &&& id && !kind ==> error == Some(prefix + "operation kind"@)
            &&& kind && !repository ==> error == Some(prefix + "repository scope"@)
            &&& repository && !workspace ==> error == Some(prefix + "workspace scope"@)
            &&& workspace && !session ==> error == Some(prefix + "session scope"@)
            &&& session && !profile ==> error == Some(prefix + "profile scope"@)
            &&& profile && expectation.resources@.len() == 0 ==> error == Some(
                "human approval expectation has no resources"@,
            )
        }),
{
}

/// A resource is refused for its id before its fingerprint.
pub proof fn law_resource_faults_are_named(resource: ApprovalResource)
    ensures
        ({
            let error = resource_error(resource@);
            let id = fits_a_line(resource.resource_id@);
            let state = resource.pre_state_fingerprint is Some ==> fits_a_line(
                resource.pre_state_fingerprint->0@,
            );
            &&& !id ==> error == Some("invalid human approval "@ + "resource id"@)
            &&& id && !state ==> error == Some("invalid human approval "@ + "resource fingerprint"@)
            &&& id && state ==> error is None
        }),
{
}

/// A terminal that could not be opened is told with why, and one that is none is
/// told from a platform without any.
pub proof fn law_terminal_faults_are_told(error: String)
    ensures
        terminal_error(TerminalAccess::Failed(error)) == Some(
            "interactive human approval requires a controlling terminal; --confirm and stdin are insufficient: "@
                + error@,
        ),
        terminal_error(TerminalAccess::Unsupported) == Some(
            "interactive human approval is unsupported on this platform; live apply is blocked"@,
        ),
        terminal_error(TerminalAccess::Detached) == Some(
            "interactive human approval requires a controlling terminal; --confirm and stdin are insufficient: standard streams are not terminals"@,
        ),
{
}

/// An answer that is no text is refused.
pub proof fn law_answers_are_texts(bytes: Seq<u8>)
    ensures
        valid_utf8(bytes) ==> response_text(bytes) == Ok::<Seq<char>, Seq<char>>(
            decode_utf8(bytes),
        ),
        !valid_utf8(bytes) ==> response_text(bytes) == Err::<Seq<char>, Seq<char>>(
            "human approval response is invalid"@,
        ),
{
}

/// A directory of the broker is refused for being none, for its owner, and for
/// being open to others, in this order.
pub proof fn law_directory_faults_are_named(metadata: FileMetadata, uid: u32, second: FileStatus)
    ensures
        ({
            let error = socket_directory_error(metadata, uid);
            let genuine = metadata.directory && !metadata.symlink;
            &&& !genuine ==> error == Some(
                "credential broker socket directory must be a regular directory"@,
            )
            &&& genuine && metadata.uid != uid ==> error == Some(
                "credential broker socket directory owner is invalid"@,
            )
            &&& genuine && metadata.uid == uid && metadata.mode % 512 != 448 ==> error == Some(
                "credential broker socket directory permissions are invalid"@,
            )
            &&& genuine && metadata.uid == uid && metadata.mode % 512 == 448 ==> error is None
            &&& !(genuine && metadata.uid == uid) ==> installation_error(
                FileStatus::Present(metadata),
                second,
                second,
                uid,
            ) == Some("credential broker app state root must be a regular directory"@)
        }),
{
}

/// What could not be looked at is told with why, and the keyring is not used
/// meanwhile.
pub proof fn law_unknown_installations_are_refused(seen: InstallationEvidence, error: String)
    requires
        installation_error(
            seen.root,
            seen.broker_directory,
            seen.protocol_directory,
            seen.effective_uid,
        ) is None,
    ensures
        ({
            let decided = fallback_decision(seen);
            let stable = seen.stable_executable;
            let bundled = seen.bundled_executable;
            let unchecked = Err::<bool, Seq<char>>(
                "credential broker availability could not be checked: "@ + error@,
            );
            let no_executable = stable is Missing && bundled is Missing;
            &&& stable == FileStatus::Failed(error) ==> decided == unchecked
            &&& stable is Missing && bundled == FileStatus::Failed(error) ==> decided == unchecked
            &&& stable is Present || (stable is Missing && bundled is Present) ==> decided == Ok::<
                bool,
                Seq<char>,
            >(false)
            &&& no_executable && seen.socket_directory is Missing ==> decided == Ok::<
                bool,
                Seq<char>,
            >(true)
            &&& no_executable && seen.socket_directory == FileStatus::Failed(error) ==> decided
                == Err::<bool, Seq<char>>(
                "credential broker directory availability could not be checked: "@ + error@,
            )
            &&& no_executable && seen.socket_directory is Present && socket_directory_error(
                seen.socket_directory->Present_0,
                seen.effective_uid,
            ) is None ==> {
                &&& seen.socket is Present ==> decided == Ok::<bool, Seq<char>>(false)
                &&& seen.socket is Missing ==> decided == Ok::<bool, Seq<char>>(true)
                &&& seen.socket == FileStatus::Failed(error) ==> decided == Err::<bool, Seq<char>>(
                    "credential broker socket availability could not be checked: "@ + error@,
                )
            }
        }),
{
}

/// A challenge is refused for its size, for being no text, and for holding
/// nothing, in this order.
pub proof fn law_challenge_faults_are_named(bytes: Seq<u8>, limit: nat)
    ensures
        bytes.len() > limit ==> challenge_in(bytes, limit) == Err::<Seq<char>, Seq<char>>(
            "inventory group challenge input is too large"@,
        ),
        bytes.len() <= limit && !valid_utf8(bytes) ==> challenge_in(bytes, limit) == Err::<
            Seq<char>,
            Seq<char>,
        >("inventory group challenge input is not valid UTF-8"@),
        bytes.len() <= limit && valid_utf8(bytes) && trimmed(decode_utf8(bytes)).len() == 0
            ==> challenge_in(bytes, limit) == Err::<Seq<char>, Seq<char>>(
            "inventory group challenge input is empty"@,
        ),
        bytes.len() <= limit && valid_utf8(bytes) && trimmed(decode_utf8(bytes)).len() > 0
            ==> challenge_in(bytes, limit) == Ok::<Seq<char>, Seq<char>>(
            trimmed(decode_utf8(bytes)),
        ),
{
}

/// A pin is refused where it contradicts itself, lacks a part, or names no
/// origin.
pub proof fn law_pin_faults_are_named(
    id: Option<Seq<char>>,
    digest: Option<Seq<char>>,
    definition: Option<Seq<char>>,
    origin: Option<Seq<char>>,
)
    ensures
        ({
            let any = id is Some || digest is Some || definition is Some || origin is Some;
            let all = id is Some && digest is Some && definition is Some;
            &&& any ==> pinned(true, id, digest, definition, origin) == Err::<PinnedView, Seq<char>>(
                "--native cannot be combined with profile fields"@,
            )
            &&& any && !all ==> pinned(false, id, digest, definition, origin) == Err::<
                PinnedView,
                Seq<char>,
            >("profile id, profile digest, and definition digest must be supplied together"@)
            &&& all && origin_named(origin) is None ==> pinned(
                false,
                id,
                digest,
                definition,
                origin,
            ) == Err::<PinnedView, Seq<char>>(
                "profile origin must be global, repository, workspace, or session"@,
            )
        }),
{
}

/// A change of workflow definitions is refused in a workspace, and without what it
/// would change.
pub proof fn law_workflow_change_faults_are_named(arguments: MutationArguments)
    ensures
        ({
            let error = mutation_error(arguments);
            let nameless = arguments.id is None && arguments.restore_history_id is None
                && !(arguments.scope is Workspace);
            &&& arguments.scope is Workspace ==> error == Some(
                (
                    CommandStatus::Blocked,
                    "workflow definition mutation is global-only; workspace definitions are fixed-source"@,
                ),
            )
            &&& nameless && arguments.action is Upsert && !arguments.file_given ==> error == Some(
                (CommandStatus::Failed, "upsert requires --file or --id"@),
            )
            &&& nameless && arguments.action is Delete ==> error == Some(
                (CommandStatus::Failed, "delete requires --id"@),
            )
            &&& error is None ==> !(arguments.scope is Workspace)
        }),
{
}

/// A definition that is stored under another id than was asked for is refused.
pub proof fn law_mismatched_definitions_are_refused<D>(
    id: String,
    found: NamedDefinition<D>,
    r: Result<MutationRequest<D>, String>,
)
    requires
        upserts(Some(id), found, r),
    ensures
        id@ != found.id@ ==> r is Err && r->Err_0@ == "workflow id does not match definition id"@,
        id@ == found.id@ ==> r == Ok::<MutationRequest<D>, String>(MutationRequest::Upsert(found)),
{
}

/// Reach to one provider is refused without the provider.
pub proof fn law_reach_needs_its_provider(provider: Seq<char>)
    ensures
        reach_of(ProviderReachArg::Selected, None) == Err::<ReachView, Seq<char>>(
            "selected-provider reach requires --provider"@,
        ),
        reach_of(ProviderReachArg::Selected, Some(provider)) == Ok::<ReachView, Seq<char>>(
            ReachView::Selected(provider),
        ),
        reach_of(ProviderReachArg::All, Some(provider)) == Ok::<ReachView, Seq<char>>(
            ReachView::All,
        ),
{
}

/// The first provider that is not known is the one that is named.
pub proof fn law_unknown_providers_are_named(list: Seq<NamedProvider>, i: int)
    requires
        0 <= i < list.len(),
        !list[i].known,
        forall|j: int| 0 <= j < i ==> (#[trigger] list[j]).known,
    ensures
        known_providers(list) == Err::<Seq<Seq<char>>, Seq<char>>(
            "invalid provider: "@ + list[i].name@,
        ),
    decreases list.len(),
{
    let shorter = list.drop_last();
    assert(forall|j: int| 0 <= j < shorter.len() ==> shorter[j] == #[trigger] list[j]);
    if i < shorter.len() {
        law_unknown_providers_are_named(shorter, i);
    } else {
        lemma_known_are_read(shorter);
    }
}

proof fn lemma_known_are_read(list: Seq<NamedProvider>)
    requires
        forall|j: int| 0 <= j < list.len() ==> (#[trigger] list[j]).known,
    ensures
        known_providers(list) is Ok,
    decreases list.len(),
{
    if list.len() > 0 {
        let shorter = list.drop_last();
        assert(forall|j: int| 0 <= j < shorter.len() ==> shorter[j] == #[trigger] list[j]);
        lemma_known_are_read(shorter);
    }
}

/// A stored key of another size is refused by the name of its account, and a
/// stored bundle for its form before its fields.
pub proof fn law_stored_key_faults_are_named(secret: Seq<u8>, account: Seq<char>)
    ensures
        secret.len() != 32 ==> account_key(Some(secret), account) == Err::<
            Option<Seq<u8>>,
            Seq<char>,
        >("stored credential "@ + account + " must be exactly 32 bytes"@),
        secret.len() == 32 ==> account_key(Some(secret), account) == Ok::<
            Option<Seq<u8>>,
            Seq<char>,
        >(Some(secret)),
        secret.len() != 100 || secret[0] != 1 ==> decoded_bundle(secret) == Err::<
            BundleView,
            Seq<char>,
        >("stored credential bundle has an invalid format"@),
        secret.len() == 100 && secret[0] == 1 && (secret[1] > 1 || secret[34] > 1 || secret[67] > 1)
            ==> decoded_bundle(secret) == Err::<BundleView, Seq<char>>(
            "stored credential bundle has an invalid field"@,
        ),
{
}

/// A cookie is refused for holding nothing, for its size, and for control bytes,
/// in this order.
pub proof fn law_cookie_faults_are_named(secret: Seq<u8>)
    ensures
        secret.len() == 0 ==> cookie_error(secret) == Some("Cursor dashboard cookie is empty"@),
        secret.len() > 65536 ==> cookie_error(secret) == Some(
            "Cursor dashboard cookie exceeds size limit"@,
        ),
        0 < secret.len() <= 65536 && (exists|i: int|
            0 <= i < secret.len() && (#[trigger] secret[i] < 32 || secret[i] == 127))
            ==> cookie_error(secret) == Some("Cursor dashboard cookie contains control bytes"@),
{
}

/// A stored token is refused for being no text before what the text holds, and a
/// key id that names nothing before either.
pub proof fn law_token_faults_are_named(secrets: Secrets, key_id: Seq<char>, secret: Seq<u8>)
    ensures
        !valid_utf8(secret) ==> gateway_token(Some(secret)) == Err::<Option<Seq<char>>, Seq<char>>(
            "stored gateway credential is not valid UTF-8"@,
        ),
        valid_utf8(secret) && (decode_utf8(secret).len() == 0 || !control_free(decode_utf8(secret)))
            ==> gateway_token(Some(secret)) == Err::<Option<Seq<char>>, Seq<char>>(
            "stored gateway credential is invalid"@,
        ),
        blank(key_id) || utf8_len(key_id) > 256 || !control_free(key_id) ==> resolved_token(
            secrets,
            key_id,
        ) == Err::<Option<Seq<char>>, Seq<char>>("gateway credential key id is invalid"@),
{
}

/// A change of definitions is refused for the first parameter that cannot be
/// used, by the code of that parameter.
pub proof fn law_definition_faults_are_named<D>(
    params: JsonView,
    facts: DefinitionFacts<D>,
    text: Seq<char>,
)
    ensures
        gives_text(params, "action"@, text) && text != "create"@ && text != "replace"@ && text
            != "rename"@ && text != "delete"@ && text != "restore"@ ==> change_in(params, facts)
            == Err::<(ActionView<D>, Seq<char>), Seq<char>>("invalid-group-definition-action"@),
        gives_text(params, "scope"@, text) && text != "personal"@ && text != "repository"@
            ==> scope_in(params) == Err::<GroupScope, Seq<char>>("invalid-group-scope"@),
        gives_text(params, "expectedRevision"@, text) && facts.expected_revision is None
            ==> expected_in(params, facts) == Err::<Seq<char>, Seq<char>>(
            "invalid-group-revision"@,
        ),
        gives_text(params, "qualifiedName"@, text) && !(facts.reference is Some
            && facts.reference->0 is Some) ==> existing_in(params, facts) == Err::<
            ExistingGroup,
            Seq<char>,
        >("invalid-group-reference"@),
        gives_text(params, "name"@, text) && field(params, "members"@) is Some
            && !facts.members_readable ==> definition_in(params, facts) == Err::<
            (Seq<char>, u64, D),
            Seq<char>,
        >("invalid-group-members"@),
        gives_text(params, "name"@, text) && field(params, "members"@) is Some
            && facts.members_readable && facts.definition is None ==> definition_in(params, facts)
            == Err::<(Seq<char>, u64, D), Seq<char>>("group-definition-invalid"@),
        gives_text(params, "name"@, text) && field(params, "members"@) is None ==> definition_in(
            params,
            facts,
        ) == Err::<(Seq<char>, u64, D), Seq<char>>("invalid-params"@),
{
}

/// No more changes are planned than are kept, nor than can be numbered.
pub proof fn law_definition_plans_are_limited<D>(
    count: nat,
    next: u64,
    params: JsonView,
    facts: DefinitionFacts<D>,
)
    requires
        params_error(params, definition_keys()) is None,
    ensures
        count >= 32 ==> planned_change(count, next, params, facts)
            == Err::<(ActionView<D>, Seq<char>), Seq<char>>(
            "group-definition-plan-limit-reached"@,
        ),
        count < 32 && change_in(params, facts) is Ok && next == u64::MAX
            ==> planned_change(count, next, params, facts) == Err::<
            (ActionView<D>, Seq<char>),
            Seq<char>,
        >("group-definition-session-exhausted"@),
        count < 32 && (change_in(params, facts) is Err || next
            < u64::MAX) ==> planned_change(count, next, params, facts) == change_in(params, facts),
{
}

/// A plan is refused for a target or a reach that is none.
pub proof fn law_plan_faults_are_named(
    params: JsonView,
    name: Seq<char>,
    target: Seq<char>,
    selected: Option<Seq<char>>,
)
    ensures
        only_keys(params, seq!["qualifiedName"@, "target"@]) && gives_text(
            params,
            "qualifiedName"@,
            name,
        ) && gives_text(params, "target"@, target) && target != "enable"@ && target != "disable"@
            ==> group_request_in(params, true) == Err::<(Seq<char>, bool), Seq<char>>(
            "invalid-group-target"@,
        ),
        only_keys(params, seq!["qualifiedName"@, "target"@]) && gives_text(
            params,
            "qualifiedName"@,
            name,
        ) && gives_text(params, "target"@, target) && (target == "enable"@ || target
            == "disable"@) ==> group_request_in(params, false) == Err::<
            (Seq<char>, bool),
            Seq<char>,
        >("invalid-group-reference"@),
        gives_text(params, "reach"@, target) && target != "all"@ && target != "selected"@
            ==> reach_in(params, selected) == Err::<ReachView, Seq<char>>(
            "invalid-agent-plugin-reach"@,
        ),
{
}

/// A launch is refused for its proposal, for a session that runs, for its command
/// and for a draft that is gone, in this order.
pub proof fn law_launch_faults_are_named(
    launches: Map<Seq<char>, (ProposalView, i64)>,
    workflows: Map<Seq<char>, DraftView>,
    params: JsonView,
    id: Seq<char>,
    fingerprint: Seq<char>,
)
    requires
        only_keys(params, seq!["proposalId"@, "proposalFingerprint"@, "hostCommand"@]),
        gives_text(params, "proposalId"@, id),
        gives_text(params, "proposalFingerprint"@, fingerprint),
    ensures
        ({
            let known = launches.contains_key(id);
            let same = known && launches[id].0.proposal_fingerprint == fingerprint;
            let idle = launch_in(launches, workflows, false, params);
            &&& !known ==> idle == unlaunched("workflow-proposal-unavailable"@)
            &&& known && !same ==> idle == unlaunched("workflow-proposal-fingerprint-mismatch"@)
            &&& same ==> launch_in(launches, workflows, true, params) == unlaunched(
                "workflow-session-already-active"@,
            )
            &&& same && command_in(params) is Err ==> idle == unlaunched(command_in(params)->Err_0)
            &&& same && command_in(params) is Ok && !workflows.contains_key(
                launches[id].0.workflow_id,
            ) ==> idle == unlaunched("workflow-draft-unavailable"@)
        }),
{
}

/// A launch that is refused.
pub open spec fn unlaunched(code: Seq<char>) -> Result<
    (Seq<char>, Seq<char>, Seq<Seq<char>>),
    Seq<char>,
> {
    Err(code)
}

/// A command is refused for having no parts or too many, and for a part that
/// holds nothing or is none.
pub proof fn law_command_faults_are_named(params: JsonView, list: Seq<JsonView>, i: int)
    ensures
        !(field(params, "hostCommand"@) is Some && field(params, "hostCommand"@)->0 is Array)
            ==> command_in(params) == Err::<Seq<Seq<char>>, Seq<char>>(
            "workflow-host-command-required"@,
        ),
        field(params, "hostCommand"@) == Some(JsonView::Array(list)) && (list.len() == 0
            || list.len() > 128) ==> command_in(params) == Err::<Seq<Seq<char>>, Seq<char>>(
            "workflow-host-command-required"@,
        ),
        field(params, "hostCommand"@) == Some(JsonView::Array(list)) && command_in(params) is Ok
            && 0 <= i < list.len() ==> list[i] is Text && list[i]->Text_0.len() > 0,
        field(params, "hostCommand"@) == Some(JsonView::Array(list)) && 0 <= i < list.len()
            && list.len() <= 128 && !(list[i] is Text && list[i]->Text_0.len() > 0)
            ==> command_in(params) == Err::<Seq<Seq<char>>, Seq<char>>(
            "invalid-workflow-host-command"@,
        ),
{
    if field(params, "hostCommand"@) == Some(JsonView::Array(list)) && 0 <= i < list.len() {
        assert(!(list[i] is Text && list[i]->Text_0.len() > 0) ==> command_part(list[i]) is None);
    }
}

/// A validation is refused for its provider, for a workflow that is not there and
/// for another revision of it, in this order.
pub proof fn law_validation_faults_are_named(
    workflows: Map<Seq<char>, DraftView>,
    params: JsonView,
    id: Seq<char>,
    provider: Seq<char>,
    revision: Seq<char>,
)
    requires
        only_keys(params, seq!["workflowId"@, "provider"@, "workflowRevision"@]),
        gives_text(params, "workflowId"@, id),
        gives_text(params, "provider"@, provider),
    ensures
        validated_id(workflows, params, false) == Err::<Seq<char>, Seq<char>>(
            "invalid-workflow-provider"@,
        ),
        !workflows.contains_key(id) ==> validated_id(workflows, params, true) == Err::<
            Seq<char>,
            Seq<char>,
        >("workflow-draft-unavailable"@),
        workflows.contains_key(id) && gives_text(params, "workflowRevision"@, revision) && revision
            != workflows[id].workflow_revision ==> validated_id(workflows, params, true) == Err::<
            Seq<char>,
            Seq<char>,
        >("workflow-revision-mismatch"@),
{
}

/// A proposal is refused without a provider, for a workflow that is not there, and
/// where none is of the provider.
pub proof fn law_proposal_faults_are_named(
    workflows: Map<Seq<char>, DraftView>,
    params: JsonView,
    prompt: Seq<char>,
    id: Seq<char>,
    given: Seq<char>,
    r: Result<Seq<char>, Seq<char>>,
)
    requires
        only_keys(params, seq!["prompt"@, "workflowId"@, "provider"@]),
        gives_text(params, "prompt"@, prompt),
    ensures
        field(params, "workflowId"@) is None && field(params, "provider"@) is None && proposes(
            workflows,
            params,
            None,
            r,
        ) ==> r == Err::<Seq<char>, Seq<char>>("workflow-provider-required"@),
        gives_text(params, "workflowId"@, id) && gives_text(params, "provider"@, given) && proposes(
            workflows,
            params,
            Some(given),
            r,
        ) ==> r == if workflows.contains_key(id) {
            Ok::<Seq<char>, Seq<char>>(id)
        } else {
            Err::<Seq<char>, Seq<char>>("workflow-draft-unavailable"@)
        },
        field(params, "workflowId"@) is None && gives_text(params, "provider"@, given) && (
        forall|key: Seq<char>| #[trigger]
            workflows.contains_key(key) ==> workflows[key].provider != given) && proposes(
            workflows,
            params,
            Some(given),
            r,
        ) ==> r == Err::<Seq<char>, Seq<char>>("workflow-selection-required"@),
{
}

/// A transition without a sequence or a time is refused.
pub proof fn law_transition_faults_are_named(
    lease: WorkflowLease,
    params: JsonView,
    mode: Seq<char>,
)
    requires
        params_error(params, transition_keys()) is None,
        gives_text(params, "targetMode"@, mode),
    ensures
        transition_in(false, Ok(lease), params) == Err::<TransitionView, Seq<char>>(
            "workflow-session-unavailable"@,
        ),
        lease.workflow is None ==> transition_in(true, Ok(lease), params) == Err::<
            TransitionView,
            Seq<char>,
        >("workflow-session-unavailable"@),
        lease.workflow is Some && !has_mode(lease.workflow->0.profile_revisions@, mode)
            ==> transition_in(true, Ok(lease), params) == Err::<TransitionView, Seq<char>>(
            "workflow-expansion-requires-review"@,
        ),
        lease.workflow is Some && has_mode(lease.workflow->0.profile_revisions@, mode) && (field(
            params,
            "sourceStateSequence"@,
        ) is None || field(params, "requestedAtUnix"@) is None) ==> transition_in(
            true,
            Ok(lease),
            params,
        ) == Err::<TransitionView, Seq<char>>("invalid-workflow-transition"@),
{
}

/// A group member is refused for the number of its parts and then for the first
/// part that is not known.
pub proof fn law_member_faults_are_named(member: MemberTextView)
    ensures
        ({
            let fields = cut(member.text, ':', 5);
            let found = member_in(member);
            let whole = fields.len() == 5;
            let provider = whole && member.provider_known;
            let layer = provider && layer_named(fields[1]) is Some;
            let kind = layer && kind_named(fields[2]) is Some;
            let category = kind && category_named(fields[3]) is Some;
            &&& !whole ==> found == Err::<MemberView, Seq<char>>(
                "member must use provider:layer:kind:category:id full identity"@,
            )
            &&& whole && !provider ==> found == Err::<MemberView, Seq<char>>(
                "unsupported provider"@,
            )
            &&& provider && !layer ==> found == Err::<MemberView, Seq<char>>(
                "unsupported member layer"@,
            )
            &&& layer && !kind ==> found == Err::<MemberView, Seq<char>>(
                "unsupported member kind"@,
            )
            &&& kind && !category ==> found == Err::<MemberView, Seq<char>>(
                "unsupported member category"@,
            )
        }),
{
}

/// A package plan is refused for a target that is neither on nor off.
pub proof fn law_plugin_targets_are_named(
    params: JsonView,
    id: Seq<char>,
    target: Seq<char>,
    packages: Result<Seq<PluginPackage>, Seq<char>>,
    started: Result<(), BulkTogglePlanError>,
    provider: Option<Seq<char>>,
)
    requires
        only_keys(params, seq!["logicalId"@, "target"@, "reach"@, "selectedProvider"@]),
        gives_text(params, "logicalId"@, id),
        gives_text(params, "target"@, target),
        target != "on"@ && target != "enable"@ && target != "off"@ && target != "disable"@,
    ensures
        plugin_request_in(params, packages, started, provider) == Err::<
            PluginRequestView,
            Seq<char>,
        >("invalid-agent-plugin-target"@),
{
}

/// A draft is refused for a provider that is not known and for modes that are no
/// list.
pub proof fn law_draft_faults_are_named(params: JsonView, provider: Seq<char>)
    requires
        params_error(params, compose_keys()) is None,
        gives_text(params, "provider"@, provider),
    ensures
        draft_in(params, false) == Err::<DraftView, Seq<char>>("invalid-workflow-provider"@),
        !(field(params, "modes"@) is Some && field(params, "modes"@)->0 is Array) ==> draft_in(
            params,
            true,
        ) == Err::<DraftView, Seq<char>>("invalid-workflow-modes"@),
{
}

/// A plan that would do nothing is not approved, but for a restore.
pub proof fn law_idle_plans_are_not_approved<P, A>(
    plans: Map<Seq<char>, PlanView<P, A>>,
    reference: (Seq<char>, Seq<char>),
)
    requires
        plans.contains_key(reference.0),
        !plans[reference.0].actionable,
    ensures
        plan_error(plans, PlanFamily::Group, reference) is None ==> approval_error(
            plans,
            PlanFamily::Group,
            reference,
        ) == Some("plan-fingerprint-mismatch"@),
        plan_error(plans, PlanFamily::AgentPlugin, reference) is None ==> approval_error(
            plans,
            PlanFamily::AgentPlugin,
            reference,
        ) == Some("agent-plugin-plan-not-actionable"@),
        plan_error(plans, PlanFamily::Restore, reference) is None ==> approval_error(
            plans,
            PlanFamily::Restore,
            reference,
        ) is None,
{
}

/// A package request that is refused before a plan is told what it lacks.
pub proof fn law_package_request_faults_are_told(error: PackageRequestError)
    ensures
        error is ReachRequired ==> request_failure(error).1
            == "choose explicit package reach with --reach selected --provider <id> or --reach all"@,
        error is Reach ==> request_failure(error).1
            == "selected package reach requires explicit --provider authority"@,
        error is InvalidProvider ==> request_failure(error).1
            == "selected package reach names an unsupported provider"@,
        error is ProviderWithAllReach ==> request_failure(error).1
            == "--provider is only valid with selected package reach"@,
{
}

} // verus!
