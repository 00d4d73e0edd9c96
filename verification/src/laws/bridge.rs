//! The desktop bridge: what a request carries, who is served, and what is
//! answered.
use vstd::prelude::*;

use crate::bridge_frame::{
    accept_buffer, chosen_frame, error_view, line_len, response_frame, result_view, stripped,
    FrameEnd, FrameState,
};
use crate::bridge_request::{
    acts_on, auth_in, frame_outcome, request_in, request_in_frame, window_with, BridgeRequestAuth,
    BridgeRequestView, FrameAction, Request,
};
use crate::bridge_session::{
    authentication_error, binding_text, bound, capability_methods, capability_names,
    child_marker_text, handshake_outcome, handshake_view, method_named, properly_signed,
    request_material, route, signing_error, BridgeBinding, BridgeMethod, BridgeSession, ClaimView,
    HandshakeClaim, HandshakeFacts, Route, SigningEvidence,
};
use crate::bridge_stage::{work_error, work_stages, BridgeStage, BridgeWork};
use crate::discovery_cache::{
    discovers, invalidates, kept_after, read_of, ChangeProgress, DiscoveryRead,
};
use crate::json::{encoded_json, field, JsonView};
use crate::laws::shown::{gives_text, lemma_shows_all, only_keys, shows, shows_only};
use crate::laws::texts::group_occurs;
use crate::reviewed_plans::{
    apply_error, approval_error, approval_view, current, expired, flag_view, fresh, plan_error,
    reference_in, referenced, with_authorization, PlanFamily, PlanReference, PlanView, Reviewed,
    ReviewedPlan,
};
use crate::text::{control_free, decimal_of, hex_text, lower_text, occurs, utf8_len};

verus! {

/// Whether a value carries an authentication.
pub open spec fn carries(value: JsonView, auth: BridgeRequestAuth) -> bool {
    &&& field(value, "parentPid"@) == Some(JsonView::Unsigned(auth.parent_pid as u64))
    &&& field(value, "parentStartMarker"@) == Some(JsonView::Text(auth.parent_start_marker@))
    &&& field(value, "childPid"@) == Some(JsonView::Unsigned(auth.child_pid as u64))
    &&& field(value, "childStartMarker"@) == Some(JsonView::Text(auth.child_start_marker@))
    &&& field(value, "projectRoot"@) == Some(JsonView::Text(auth.project_root@))
    &&& field(value, "appStateRoot"@) == Some(JsonView::Text(auth.app_state_root@))
    &&& field(value, "processGeneration"@) == Some(JsonView::Text(auth.process_generation@))
    &&& field(value, "sequence"@) == Some(JsonView::Unsigned(auth.sequence))
    &&& field(value, "operationId"@) == Some(JsonView::Text(auth.operation_id@))
    &&& field(value, "fingerprint"@) == Some(JsonView::Text(auth.fingerprint@))
    &&& field(value, "authTag"@) == Some(JsonView::Text(auth.auth_tag@))
}

/// A request is read as it stands: its id, its method, its parameters and its
/// authentication.
pub proof fn law_request_is_read_as_written(value: JsonView, request: Request)
    requires
        request_in(value) == Ok::<BridgeRequestView, (Option<Seq<char>>, Seq<char>)>(request@),
    ensures
        only_keys(value, seq!["version"@, "id"@, "method"@, "params"@, "auth"@]),
        field(value, "version"@) == Some(JsonView::Unsigned(2)),
        field(value, "id"@) == Some(JsonView::Text(request.id@)),
        0 < request.id@.len(),
        utf8_len(request.id@) <= 128,
        control_free(request.id@),
        field(value, "method"@) == Some(JsonView::Text(request.method@)),
        0 < request.method@.len(),
        utf8_len(request.method@) <= 128,
        request.params@ is Object,
        field(value, "params"@) is Some ==> field(value, "params"@) == Some(request.params@),
        field(value, "params"@) is None ==> shows_only(request.params@, 0),
        request.auth is None ==> field(value, "auth"@) is None,
        request.auth is Some ==> field(value, "auth"@) is Some && carries(
            field(value, "auth"@)->0,
            request.auth->0,
        ) && shows_only(field(value, "auth"@)->0, 11),
{
}

/// A request that is well formed is read, and one that is not is refused under
/// its own id.
pub proof fn law_valid_requests_are_read(value: JsonView, id: Seq<char>, method: Seq<char>)
    requires
        only_keys(value, seq!["version"@, "id"@, "method"@, "params"@, "auth"@]),
        field(value, "id"@) == Some(JsonView::Text(id)),
        0 < id.len(),
        utf8_len(id) <= 128,
        control_free(id),
    ensures
        field(value, "version"@) == Some(JsonView::Unsigned(2)) && field(value, "method"@) == Some(
            JsonView::Text(method),
        ) && 0 < method.len() && utf8_len(method) <= 128 && field(value, "params"@) is None
            && field(value, "auth"@) is None ==> request_in(value) is Ok,
        request_in(value) is Err ==> request_in(value)->Err_0.0 == Some(id),
{
}

/// An authentication holds every part that was sent, and none that was not.
pub proof fn law_authentication_is_read_as_written(value: JsonView, auth: BridgeRequestAuth)
    requires
        auth_in(value) == Some(auth@),
    ensures
        carries(value, auth),
        shows_only(value, 11),
{
}

/// A request is handled once: an id that was seen is refused, whatever else the
/// request holds, and a frame that is too large is not read at all.
pub proof fn law_seen_requests_are_refused(
    value: JsonView,
    seen: Seq<Seq<char>>,
    request: Request,
)
    requires
        request_in(value) == Ok::<BridgeRequestView, (Option<Seq<char>>, Seq<char>)>(request@),
    ensures
        ({
            let complete = crate::bridge_frame::FrameStatus::Complete;
            let oversized = crate::bridge_frame::FrameStatus::Oversized;
            &&& seen.contains(request.id@) ==> frame_outcome(complete, Some(value), seen) is Err
            &&& !seen.contains(request.id@) ==> frame_outcome(complete, Some(value), seen) == Ok::<
                BridgeRequestView,
                JsonView,
            >(request@)
            &&& frame_outcome(oversized, Some(value), seen) is Err
            &&& frame_outcome(complete, None, seen) is Err
            &&& window_with(seen, request.id@).len() > 0
            &&& window_with(seen, request.id@).last() == request.id@
            &&& seen.len() < 4096 ==> window_with(seen, request.id@).len() == seen.len() + 1
                && window_with(seen, request.id@).drop_last() == seen
            &&& seen.len() == 4096 ==> window_with(seen, request.id@).len() == 4096 && forall|i: int|
                0 <= i < 4095 ==> #[trigger] window_with(seen, request.id@)[i] == seen[i + 1]
        }),
{
    let after = window_with(seen, request.id@);
    if seen.len() < 4096 {
        assert(after.drop_last() =~= seen);
    }
}

/// A handshake binds what the desktop claims, and only where the claim is true of
/// this process: the roots, the two processes and, outside of fixtures, the
/// signatures.
pub proof fn law_handshake_claims_are_true(
    session: BridgeSession,
    params: JsonView,
    facts: HandshakeFacts,
    claim: HandshakeClaim,
)
    requires
        handshake_outcome(session@, params, facts) == Ok::<ClaimView, Seq<char>>(claim@),
    ensures
        session.binding is None,
        gives_text(params, "sessionSecret"@, claim.session_secret@),
        claim.session_secret@.len() == 64,
        hex_text(claim.session_secret@),
        field(params, "parentPid"@) == Some(JsonView::Unsigned(claim.parent_pid as u64)),
        field(params, "childPid"@) == Some(JsonView::Unsigned(claim.child_pid as u64)),
        gives_text(params, "parentStartMarker"@, claim.parent_start_marker@),
        gives_text(params, "processGeneration"@, claim.process_generation@),
        gives_text(params, "projectRoot"@, claim.project_root@),
        gives_text(params, "appStateRoot"@, claim.app_state_root@),
        utf8_len(claim.project_root@) <= 256 && control_free(claim.project_root@),
        utf8_len(claim.app_state_root@) <= 256 && control_free(claim.app_state_root@),
        utf8_len(claim.parent_start_marker@) <= 256 && control_free(claim.parent_start_marker@),
        utf8_len(claim.process_generation@) <= 256 && control_free(claim.process_generation@),
        claim.project_root@ == facts.project_root@,
        claim.app_state_root@ == facts.app_state_root@,
        claim.child_pid == facts.process_id,
        claim.parent_pid == facts.parent_process_id,
        claim.child_pid != 0,
        claim.parent_pid != 0,
        facts.sandbox_ok,
        facts.fixture_mode || signing_error(facts.signing) is None,
{
    assert(session@.binding is None);
}

/// A parent is trusted only if both processes are validly signed, the parent as
/// the desktop, and both by one team.
pub proof fn law_parents_are_signed(evidence: Option<SigningEvidence>)
    ensures
        signing_error(evidence) is None <==> evidence is Some && {
            let seen = evidence->0;
            &&& seen.parent_status is Some && properly_signed(seen.parent_status->0)
            &&& seen.child_status is Some && properly_signed(seen.child_status->0)
            &&& seen.parent_identity is Some && seen.parent_identity->0@ == "dev.unpin.workbench"@
            &&& seen.parent_team is Some && seen.child_team is Some
            &&& seen.parent_team->0@ == seen.child_team->0@
            &&& seen.parent_team->0@.len() > 0
        },
{
}

/// A binding is the claim, with its secret in lower case and the start of this
/// process.
pub proof fn law_binding_is_the_claim(
    claim: HandshakeClaim,
    marker: Seq<char>,
    binding: BridgeBinding,
)
    requires
        bound(claim@, marker) == binding@,
    ensures
        binding.session_secret@ == lower_text(claim.session_secret@),
        binding.parent_pid == claim.parent_pid,
        binding.parent_start_marker@ == claim.parent_start_marker@,
        binding.child_pid == claim.child_pid,
        binding.child_start_marker@ == marker,
        binding.project_root@ == claim.project_root@,
        binding.app_state_root@ == claim.app_state_root@,
        binding.process_generation@ == claim.process_generation@,
{
}

/// A request is authenticated exactly if it is bound to this session, is the next
/// one, is well formed, and carries the tag that was computed for it.
pub proof fn law_authenticated_requests_are_next(
    session: BridgeSession,
    auth: BridgeRequestAuth,
    tag: Seq<char>,
)
    ensures
        authentication_error(session@, Some(auth@), tag) is None <==> session.binding is Some && {
            let binding = session.binding->0;
            &&& auth.parent_pid == binding.parent_pid
            &&& auth.parent_start_marker@ == binding.parent_start_marker@
            &&& auth.child_pid == binding.child_pid
            &&& auth.child_start_marker@ == binding.child_start_marker@
            &&& auth.project_root@ == binding.project_root@
            &&& auth.app_state_root@ == binding.app_state_root@
            &&& auth.process_generation@ == binding.process_generation@
            &&& auth.sequence == session.next_authenticated_sequence + 1
            &&& 0 < auth.operation_id@.len() && utf8_len(auth.operation_id@) <= 256
            &&& auth.fingerprint@.len() == 64 && hex_text(auth.fingerprint@)
            &&& auth.auth_tag@.len() == 64 && hex_text(auth.auth_tag@)
            &&& auth.auth_tag@ == tag
        },
        authentication_error(session@, None, tag) is Some,
{
}

/// The tag of a request is computed from the secret, the sequence, the id, the
/// method, the operation, the fingerprint and the parameters, each after a
/// separator.
pub proof fn law_tags_cover_the_request(
    secret: Seq<char>,
    request: Request,
    auth: BridgeRequestAuth,
    params_digest: Seq<char>,
)
    ensures
        ({
            let material = request_material(secret, request@, auth@, params_digest);
            &&& occurs(material, "unpin.desktop.bridge.request.v1\0"@ + secret)
            &&& occurs(material, "\0"@ + decimal_of(auth.sequence as nat))
            &&& occurs(material, "\0"@ + request.id@)
            &&& occurs(material, "\0"@ + request.method@)
            &&& occurs(material, "\0"@ + auth.operation_id@)
            &&& occurs(material, "\0"@ + auth.fingerprint@)
            &&& occurs(material, "\0"@ + params_digest)
        }),
{
    broadcast use group_occurs;

}

/// The start of this process is marked by the secret, the process and the time.
pub proof fn law_markers_cover_the_start(secret: Seq<char>, child_pid: u32, now: u64)
    ensures
        ({
            let marker = child_marker_text(secret, child_pid, now);
            &&& occurs(marker, "unpin.desktop.bridge.child.v1\0"@ + secret)
            &&& occurs(marker, "\0"@ + decimal_of(child_pid as nat))
            &&& occurs(marker, "\0"@ + decimal_of(now as nat))
        }),
{
    broadcast use group_occurs;

}

/// The name under which a method is asked for.
pub open spec fn method_name(method: BridgeMethod) -> Seq<char> {
    match method {
        BridgeMethod::Snapshot => "snapshot"@,
        BridgeMethod::GroupPlan => "group.plan"@,
        BridgeMethod::GroupApprove => "group.approve"@,
        BridgeMethod::GroupApply => "group.apply"@,
        BridgeMethod::GroupDiscard => "group.discard"@,
        BridgeMethod::AgentPluginInspect => "agentPlugins.inspect"@,
        BridgeMethod::AgentPluginPlan => "agentPlugins.plan"@,
        BridgeMethod::AgentPluginApprove => "agentPlugins.approve"@,
        BridgeMethod::AgentPluginApply => "agentPlugins.apply"@,
        BridgeMethod::AgentPluginDiscard => "agentPlugins.discard"@,
        BridgeMethod::DefinitionPlan => "group.definition.plan"@,
        BridgeMethod::DefinitionApply => "group.definition.apply"@,
        BridgeMethod::DefinitionDiscard => "group.definition.discard"@,
        BridgeMethod::DefinitionHistory => "group.definition.history"@,
        BridgeMethod::RecoverySnapshot => "recovery.snapshot"@,
        BridgeMethod::RestorePlan => "restore.plan"@,
        BridgeMethod::RestoreApprove => "restore.approve"@,
        BridgeMethod::RestoreApply => "restore.apply"@,
        BridgeMethod::RestoreDiscard => "restore.discard"@,
        BridgeMethod::WorkflowCompose => "workflow.compose"@,
        BridgeMethod::WorkflowValidate => "workflow.validate"@,
        BridgeMethod::WorkflowPropose => "workflow.propose"@,
        BridgeMethod::WorkflowLaunch => "workflow.launch"@,
        BridgeMethod::WorkflowTransition => "workflow.transition"@,
        BridgeMethod::WorkflowObserve => "workflow.observe"@,
        BridgeMethod::WorkflowCancel => "workflow.cancel-transition"@,
        BridgeMethod::WorkflowStatus => "workflow.status"@,
        BridgeMethod::WorkflowRecovery => "workflow.recovery"@,
        BridgeMethod::Shutdown => "shutdown"@,
    }
}

/// A request is served by the method that it names, and by no other.
pub proof fn law_methods_serve_their_names(name: Seq<char>)
    ensures
        method_named(name) is Some ==> name == method_name(method_named(name)->0),
        capability_names().contains(name) ==> method_named(name) is Some,
        method_named("shutdown"@) is Some,
{
    let names = capability_names();
    let methods = capability_methods();
    if names.contains(name) {
        names.index_of_first_ensures(name);
        let at = names.index_of_first(name)->0;
        assert(0 <= at < 28 && names[at] == name);
        assert(method_named(name) == Some(methods[at]));
        if at == 0 {
            assert(methods[0] is Snapshot && names[0] == "snapshot"@);
        }
        if at == 1 {
            assert(methods[1] is GroupPlan && names[1] == "group.plan"@);
        }
        if at == 2 {
            assert(methods[2] is GroupApprove && names[2] == "group.approve"@);
        }
        if at == 3 {
            assert(methods[3] is GroupApply && names[3] == "group.apply"@);
        }
        if at == 4 {
            assert(methods[4] is GroupDiscard && names[4] == "group.discard"@);
        }
        if at == 5 {
            assert(methods[5] is AgentPluginInspect && names[5] == "agentPlugins.inspect"@);
        }
        if at == 6 {
            assert(methods[6] is AgentPluginPlan && names[6] == "agentPlugins.plan"@);
        }
        if at == 7 {
            assert(methods[7] is AgentPluginApprove && names[7] == "agentPlugins.approve"@);
        }
        if at == 8 {
            assert(methods[8] is AgentPluginApply && names[8] == "agentPlugins.apply"@);
        }
        if at == 9 {
            assert(methods[9] is AgentPluginDiscard && names[9] == "agentPlugins.discard"@);
        }
        if at == 10 {
            assert(methods[10] is DefinitionPlan && names[10] == "group.definition.plan"@);
        }
        if at == 11 {
            assert(methods[11] is DefinitionApply && names[11] == "group.definition.apply"@);
        }
        if at == 12 {
            assert(methods[12] is DefinitionDiscard && names[12] == "group.definition.discard"@);
        }
        if at == 13 {
            assert(methods[13] is DefinitionHistory && names[13] == "group.definition.history"@);
        }
        if at == 14 {
            assert(methods[14] is RecoverySnapshot && names[14] == "recovery.snapshot"@);
        }
        if at == 15 {
            assert(methods[15] is RestorePlan && names[15] == "restore.plan"@);
        }
        if at == 16 {
            assert(methods[16] is RestoreApprove && names[16] == "restore.approve"@);
        }
        if at == 17 {
            assert(methods[17] is RestoreApply && names[17] == "restore.apply"@);
        }
        if at == 18 {
            assert(methods[18] is RestoreDiscard && names[18] == "restore.discard"@);
        }
        if at == 19 {
            assert(methods[19] is WorkflowCompose && names[19] == "workflow.compose"@);
        }
        if at == 20 {
            assert(methods[20] is WorkflowValidate && names[20] == "workflow.validate"@);
        }
        if at == 21 {
            assert(methods[21] is WorkflowPropose && names[21] == "workflow.propose"@);
        }
        if at == 22 {
            assert(methods[22] is WorkflowLaunch && names[22] == "workflow.launch"@);
        }
        if at == 23 {
            assert(methods[23] is WorkflowTransition && names[23] == "workflow.transition"@);
        }
        if at == 24 {
            assert(methods[24] is WorkflowObserve && names[24] == "workflow.observe"@);
        }
        if at == 25 {
            assert(methods[25] is WorkflowCancel && names[25] == "workflow.cancel-transition"@);
        }
        if at == 26 {
            assert(methods[26] is WorkflowStatus && names[26] == "workflow.status"@);
        }
        if at == 27 {
            assert(methods[27] is WorkflowRecovery && names[27] == "workflow.recovery"@);
        }
    }
}

/// What is served is the method that the request names, once it is authenticated;
/// only a handshake needs no authentication.
pub proof fn law_requests_are_served_as_named(
    session: BridgeSession,
    request: Request,
    tag: Seq<char>,
)
    ensures
        match route(session@, request@, tag) {
            Ok(Route::Handshake) => request.method@ == "handshake"@,
            Ok(Route::Serve(method)) => {
                &&& request.method@ != "handshake"@
                &&& request.method@ == method_name(method)
                &&& request.auth is Some
                &&& authentication_error(session@, Some(request.auth->0@), tag) is None
            },
            Err(_) => request.method@ != "handshake"@,
        },
{
    law_methods_serve_their_names(request.method@);
}

/// An answer to a handshake shows the version, what can be asked for, and what
/// was bound, but not the secret.
pub proof fn law_handshake_answers_show_the_binding(version: Seq<char>, binding: BridgeBinding)
    ensures
        ({
            let answer = handshake_view(version, binding@);
            let shown = answer->Object_0[3].1;
            &&& shows_only(answer, 4)
            &&& shows(answer, "protocolVersion"@, JsonView::Unsigned(2))
            &&& shows(answer, "binaryVersion"@, JsonView::Text(version))
            &&& shows(
                answer,
                "capabilities"@,
                JsonView::Array(crate::json::text_values(capability_names())),
            )
            &&& shows(answer, "binding"@, shown)
            &&& shows_only(shown, 7)
            &&& shows(shown, "parentPid"@, JsonView::Unsigned(binding.parent_pid as u64))
            &&& shows(shown, "parentStartMarker"@, JsonView::Text(binding.parent_start_marker@))
            &&& shows(shown, "childPid"@, JsonView::Unsigned(binding.child_pid as u64))
            &&& shows(shown, "childStartMarker"@, JsonView::Text(binding.child_start_marker@))
            &&& shows(shown, "projectRoot"@, JsonView::Text(binding.project_root@))
            &&& shows(shown, "appStateRoot"@, JsonView::Text(binding.app_state_root@))
            &&& shows(shown, "processGeneration"@, JsonView::Text(binding.process_generation@))
        }),
{
    let answer = handshake_view(version, binding@);
    let shown = answer->Object_0[3].1;
    lemma_shows_all(answer);
    lemma_shows_all(shown);
    let a = answer->Object_0;
    let b = shown->Object_0;
    assert(a[0] == a[0] && a[1] == a[1] && a[2] == a[2] && a[3] == a[3]);
    assert(b[0] == b[0] && b[1] == b[1] && b[2] == b[2] && b[3] == b[3] && b[4] == b[4] && b[5]
        == b[5] && b[6] == b[6]);
}

/// An answer goes to the request that was made, and holds its result or its
/// error, never both.
pub proof fn law_answers_name_their_request(
    id: Option<Seq<char>>,
    code: Seq<char>,
    result: JsonView,
)
    ensures
        ({
            let error = error_view(id, code);
            &&& shows_only(error, 3)
            &&& shows(error, "version"@, JsonView::Unsigned(2))
            &&& id is Some ==> shows(error, "id"@, JsonView::Text(id->0))
            &&& id is None ==> shows(error, "id"@, JsonView::Null)
            &&& shows(error, "error"@, JsonView::Object(seq![("code"@, JsonView::Text(code))]))
        }),
        id is Some ==> {
            let answer = result_view(id->0, result);
            &&& shows_only(answer, 3)
            &&& shows(answer, "version"@, JsonView::Unsigned(2))
            &&& shows(answer, "id"@, JsonView::Text(id->0))
            &&& shows(answer, "result"@, result)
        },
{
    let error = error_view(id, code);
    lemma_shows_all(error);
    let a = error->Object_0;
    assert(a[0] == a[0] && a[1] == a[1] && a[2] == a[2]);
    if id is Some {
        let answer = result_view(id->0, result);
        lemma_shows_all(answer);
        let b = answer->Object_0;
        assert(b[0] == b[0] && b[1] == b[1] && b[2] == b[2]);
    }
}

/// A frame that is written ends with a newline and holds the answer where that
/// fits, and otherwise what was put in its place.
pub proof fn law_written_frames_hold_the_answer(
    encoded: Option<Seq<u8>>,
    fallback: Option<Seq<u8>>,
)
    ensures
        match chosen_frame(encoded, fallback) {
            Some(frame) => {
                &&& frame.len() > 0
                &&& frame.last() == 10
                &&& encoded is Some
                &&& encoded->0.len() <= 1024 * 1024 ==> frame.drop_last() == encoded->0
                &&& encoded->0.len() > 1024 * 1024 ==> fallback is Some && frame.drop_last()
                    == fallback->0
            },
            None => encoded is None || (encoded->0.len() > 1024 * 1024 && fallback is None),
        },
{
    if encoded is Some {
        assert(encoded->0.push(10).drop_last() =~= encoded->0);
    }
    if fallback is Some {
        assert(fallback->0.push(10).drop_last() =~= fallback->0);
    }
}

/// A line reaches to the first newline, or to the end where there is none.
pub proof fn law_lines_end_at_newlines(s: Seq<u8>)
    ensures
        line_len(s) <= s.len(),
        s.len() > 0 ==> line_len(s) > 0,
        forall|i: int| 0 <= i < line_len(s) - 1 ==> #[trigger] s[i] != 10,
        line_len(s) < s.len() ==> s[line_len(s) - 1] == 10,
    decreases s.len(),
{
    if s.len() > 0 && s[0] != 10 {
        let rest = s.skip(1);
        law_lines_end_at_newlines(rest);
        assert forall|i: int| 0 <= i < line_len(s) - 1 implies #[trigger] s[i] != 10 by {
            if i > 0 {
                assert(rest[i - 1] == s[i]);
            }
        }
        if line_len(s) < s.len() {
            assert(rest[line_len(rest) - 1] == s[line_len(s) - 1]);
        }
    }
}

/// Stripping a line takes off its end, a newline or a return and a newline, and
/// nothing else.
pub proof fn law_stripping_takes_the_end(body: Seq<u8>)
    requires
        forall|i: int| 0 <= i < body.len() ==> #[trigger] body[i] != 10,
        body.len() > 0 ==> body.last() != 13,
    ensures
        stripped(body) == body,
        stripped(body + seq![10u8]) == body,
        stripped(body + seq![13u8, 10u8]) == body,
{
    let line = body + seq![10u8];
    assert(line.drop_last() =~= body);
    let long = body + seq![13u8, 10u8];
    assert(long.drop_last() =~= body + seq![13u8]);
    assert((body + seq![13u8]).drop_last() =~= body);
}

/// A review lapses once more than fifteen minutes have passed.
pub proof fn law_reviews_lapse(reviewed_at: i64, now: i64)
    ensures
        expired(reviewed_at, now) <==> now - reviewed_at > 15 * 60,
{
}

/// Of the plans under review those are kept that have not lapsed, unchanged.
pub proof fn law_only_lapsed_reviews_go<T: Reviewed>(
    plans: Map<Seq<char>, T::V>,
    now: i64,
    id: Seq<char>,
)
    ensures
        current::<T>(plans, now).contains_key(id) <==> plans.contains_key(id) && now
            - T::reviewed_at(plans[id]) <= 15 * 60,
        current::<T>(plans, now).contains_key(id) ==> current::<T>(plans, now)[id] == plans[id],
{
}

/// A plan is named by its operation and its fingerprint, as the request gives
/// them.
pub proof fn law_plans_are_named_as_given(params: JsonView, reference: PlanReference)
    requires
        reference_in(params) == Ok::<(Seq<char>, Seq<char>), Seq<char>>(reference@),
    ensures
        only_keys(params, seq!["operationId"@, "planFingerprint"@]),
        gives_text(params, "operationId"@, reference.operation_id@),
        gives_text(params, "planFingerprint"@, reference.plan_fingerprint@),
{
}

/// A plan is approved only under review, under its own fingerprint, and, but for
/// a restore, only if it would change something.
pub proof fn law_approvals_are_of_reviewed_plans<P, A>(
    plans: Map<Seq<char>, PlanView<P, A>>,
    family: PlanFamily,
    params: JsonView,
    reference: PlanReference,
)
    requires
        referenced(
            params,
            |r: (Seq<char>, Seq<char>)| approval_error(plans, family, r),
        ) == Ok::<(Seq<char>, Seq<char>), Seq<char>>(reference@),
    ensures
        gives_text(params, "operationId"@, reference.operation_id@),
        gives_text(params, "planFingerprint"@, reference.plan_fingerprint@),
        plans.contains_key(reference.operation_id@),
        plans[reference.operation_id@].fingerprint == reference.plan_fingerprint@,
        !(family is Restore) ==> plans[reference.operation_id@].actionable,
{
}

/// A plan is applied only under review, under its own fingerprint, and only if it
/// was approved.
pub proof fn law_applied_plans_were_approved<P, A>(
    plans: Map<Seq<char>, PlanView<P, A>>,
    family: PlanFamily,
    params: JsonView,
    reference: PlanReference,
)
    requires
        referenced(
            params,
            |r: (Seq<char>, Seq<char>)| apply_error(plans, family, r),
        ) == Ok::<(Seq<char>, Seq<char>), Seq<char>>(reference@),
    ensures
        gives_text(params, "operationId"@, reference.operation_id@),
        gives_text(params, "planFingerprint"@, reference.plan_fingerprint@),
        plans.contains_key(reference.operation_id@),
        plans[reference.operation_id@].fingerprint == reference.plan_fingerprint@,
        plans[reference.operation_id@].authorization is Some,
{
}

/// Whatever a plan may do is refused in one order: unknown, of another
/// fingerprint, and only then for its own state.
pub proof fn law_unknown_plans_are_refused<P, A>(
    plans: Map<Seq<char>, PlanView<P, A>>,
    family: PlanFamily,
    id: Seq<char>,
    fingerprint: Seq<char>,
)
    ensures
        !plans.contains_key(id) ==> plan_error(plans, family, (id, fingerprint)) == Some(
            match family {
                PlanFamily::Group => "group-plan-unavailable"@,
                PlanFamily::AgentPlugin => "agent-plugin-plan-unavailable"@,
                PlanFamily::Restore => "restore-plan-unavailable"@,
            },
        ),
        plans.contains_key(id) && plans[id].fingerprint != fingerprint ==> plan_error(
            plans,
            family,
            (id, fingerprint),
        ) == Some("plan-fingerprint-mismatch"@),
        plans.contains_key(id) && plans[id].fingerprint == fingerprint ==> plan_error(
            plans,
            family,
            (id, fingerprint),
        ) is None,
        plan_error(plans, family, (id, fingerprint)) is Some ==> apply_error(
            plans,
            family,
            (id, fingerprint),
        ) == plan_error(plans, family, (id, fingerprint)) && approval_error(
            plans,
            family,
            (id, fingerprint),
        ) == plan_error(plans, family, (id, fingerprint)),
        plan_error(plans, family, (id, fingerprint)) is None && plans[id].authorization is Some
            ==> apply_error(plans, family, (id, fingerprint)) is None,
        plan_error(plans, family, (id, fingerprint)) is None && plans[id].actionable
            ==> approval_error(plans, family, (id, fingerprint)) is None,
{
}

/// A plan that is remembered is the one that was made, not yet approved, and
/// reviewed now.
pub proof fn law_fresh_plans_are_not_approved<P, A>(
    plan: P,
    fingerprint: Seq<char>,
    actionable: bool,
    now: i64,
    held: ReviewedPlan<P, A>,
)
    requires
        held@ == fresh::<P, A>(plan, fingerprint, actionable, now),
    ensures
        held.plan == plan,
        held.plan_fingerprint@ == fingerprint,
        held.actionable == actionable,
        held.authorization is None,
        held.reviewed_at_unix == now,
{
}

/// An approval changes nothing of a plan but its authorization, and nothing of
/// any other plan.
pub proof fn law_approval_touches_one_plan<P, A>(
    plans: Map<Seq<char>, PlanView<P, A>>,
    id: Seq<char>,
    authorization: Option<A>,
    other: Seq<char>,
)
    requires
        plans.contains_key(id),
    ensures
        ({
            let after = with_authorization(plans, id, authorization);
            &&& after.dom() =~= plans.dom()
            &&& after[id].authorization == authorization
            &&& after[id].plan == plans[id].plan
            &&& after[id].fingerprint == plans[id].fingerprint
            &&& after[id].actionable == plans[id].actionable
            &&& after[id].reviewed_at == plans[id].reviewed_at
            &&& other != id && plans.contains_key(other) ==> after[other] == plans[other]
        }),
{
}

/// An approval is answered with what was approved.
pub proof fn law_approvals_show_their_plan(reference: PlanReference, key: Seq<char>)
    ensures
        shows_only(approval_view(reference@), 3),
        shows(approval_view(reference@), "operationId"@, JsonView::Text(reference.operation_id@)),
        shows(
            approval_view(reference@),
            "planFingerprint"@,
            JsonView::Text(reference.plan_fingerprint@),
        ),
        shows(approval_view(reference@), "approval"@, JsonView::Text("current"@)),
        shows_only(flag_view(key), 1),
        shows(flag_view(key), key, JsonView::Bool(true)),
{
    lemma_shows_all(approval_view(reference@));
    let a = approval_view(reference@)->Object_0;
    assert(a[0] == a[0] && a[1] == a[1] && a[2] == a[2]);
    lemma_shows_all(flag_view(key));
    let b = flag_view(key)->Object_0;
    assert(b[0] == b[0]);
}

/// What was discovered is used again only where a request allows it and it has
/// not lapsed; requests that plan or change anything discover anew.
pub proof fn law_changes_discover_anew<D>(found: D, lapsed: bool)
    ensures
        discovers(Some(found), DiscoveryRead::Cached, lapsed) <==> lapsed,
        discovers(Some(found), DiscoveryRead::Fresh, lapsed),
        discovers(None::<D>, DiscoveryRead::Cached, lapsed),
        read_of(BridgeMethod::AgentPluginPlan) == Some(DiscoveryRead::Fresh),
        read_of(BridgeMethod::AgentPluginApply) == Some(DiscoveryRead::Fresh),
        read_of(BridgeMethod::WorkflowValidate) == Some(DiscoveryRead::Fresh),
        read_of(BridgeMethod::WorkflowPropose) == Some(DiscoveryRead::Fresh),
        read_of(BridgeMethod::WorkflowLaunch) == Some(DiscoveryRead::Fresh),
        read_of(BridgeMethod::Snapshot) == Some(DiscoveryRead::Cached),
        read_of(BridgeMethod::RecoverySnapshot) == Some(DiscoveryRead::Cached),
        read_of(BridgeMethod::AgentPluginInspect) == Some(DiscoveryRead::Cached),
{
}

/// What was discovered is forgotten after a change that may have touched it, and
/// kept after every other request.
pub proof fn law_changes_forget_what_was_found<D>(
    found: Option<D>,
    method: BridgeMethod,
    progress: ChangeProgress,
)
    ensures
        kept_after(found, method, progress) == found || kept_after(found, method, progress) is None,
        invalidates(method, progress) ==> kept_after(found, method, progress) is None,
        !invalidates(method, progress) ==> kept_after(found, method, progress) == found,
        invalidates(method, progress) ==> method is GroupApply || method is DefinitionApply
            || method is RestoreApply,
        progress is Succeeded && (method is GroupApply || method is DefinitionApply || method
            is RestoreApply) ==> invalidates(method, progress),
        method is GroupApply && progress is Failed ==> invalidates(method, progress),
        progress is Refused ==> !invalidates(method, progress),
{
}

/// A step that failed is reported by its own code, and a request whose steps are
/// all done by none.
pub proof fn law_failed_steps_are_reported(work: BridgeWork, done: nat)
    ensures
        done >= work_stages(work).len() ==> work_error(work, done) is None,
        done < work_stages(work).len() ==> work_error(work, done) == Some(
            step_code(work_stages(work)[done as int]),
        ),
{
}

/// The code of a step that failed.
pub open spec fn step_code(stage: BridgeStage) -> Seq<char> {
    match stage {
        BridgeStage::Discover => "discovery-unavailable"@,
        BridgeStage::GroupContext => "group-context-unavailable"@,
        BridgeStage::ListGroups => "group-state-unavailable"@,
        BridgeStage::ApprovalContext => "approval-context-unavailable"@,
        BridgeStage::BackupKey => "backup-authentication-unavailable"@,
        BridgeStage::SessionKey => "session-authority-unavailable"@,
        BridgeStage::PlanGroup | BridgeStage::GroupExpectation => "group-plan-unavailable"@,
        BridgeStage::PackageApprovalContext
        | BridgeStage::PackageExpectation => "agent-plugin-approval-unavailable"@,
        BridgeStage::PackageApplyContext => "agent-plugin-apply-blocked"@,
        BridgeStage::PlanRestore | BridgeStage::RestoreExpectation => "restore-plan-unavailable"@,
        BridgeStage::Decision => "desktop-approval-blocked"@,
        BridgeStage::WriteSandbox => "fixture-write-sandbox-blocked"@,
        BridgeStage::ResolveDefinition => "group-definition-unavailable"@,
        BridgeStage::CheckMembers => "group-definition-members-blocked"@,
        BridgeStage::ComputeRevision => "group-definition-invalid"@,
        BridgeStage::ReadHistory => "group-definition-history-unavailable"@,
    }
}

/// Whatever needs a key to write needs that key, and whatever writes is kept
/// inside the sandbox of a fixture.
pub proof fn law_work_needs_its_keys(work: BridgeWork)
    ensures
        work is GroupController || work is RestoreApply ==> work_stages(work).contains(
            BridgeStage::BackupKey,
        ) && work_stages(work).contains(BridgeStage::SessionKey),
        work is RestorePlan || work is DefinitionStore || work is DefinitionHistory ==> work_stages(
            work,
        ).contains(BridgeStage::BackupKey),
        work is GroupWrite || work is PackageApply || work is RestoreApply ==> work_stages(
            work,
        ).contains(BridgeStage::WriteSandbox),
        work is GroupApproval || work is PackageApproval || work is RestoreApproval ==> work_stages(
            work,
        ).contains(BridgeStage::Decision),
{
    let stages = work_stages(work);
    assert(stages.len() > 0 ==> stages[0] == stages[0]);
    if stages.len() > 1 {
        assert(stages[1] == stages[1]);
    }
    if stages.len() > 2 {
        assert(stages[2] == stages[2]);
    }
    if stages.len() > 3 {
        assert(stages[3] == stages[3]);
    }
    if stages.len() > 4 {
        assert(stages[4] == stages[4]);
    }
}

/// A process counts as signed exactly if its status says valid and does not say
/// ad hoc.
pub proof fn law_signatures_are_valid_and_real(status: u32)
    ensures
        properly_signed(status) <==> status & 1 == 1 && status & 2 == 0,
{
    assert(status % 2 == 1 <==> status & 1 == 1) by (bit_vector);
    assert(status / 2 % 2 == 0 <==> status & 2 == 0) by (bit_vector);
}

/// A line that comes whole makes a frame at once; one that does not is kept until
/// its end comes; one that is too long is dropped to its end.
pub proof fn law_frames_are_assembled(held: Seq<u8>, line: Seq<u8>, rest: Seq<u8>)
    requires
        held.len() + line.len() + 1 <= 1024 * 1024,
        forall|i: int| 0 <= i < line.len() ==> #[trigger] line[i] != 10,
    ensures
        accept_buffer(FrameState { frame: held, oversized: false }, line + seq![10u8] + rest) == (
            FrameState { frame: stripped(held + line + seq![10u8]), oversized: false },
            (line.len() + 1) as nat,
            Some(FrameEnd::Complete),
        ),
        line.len() > 0 ==> accept_buffer(FrameState { frame: held, oversized: false }, line) == (
            FrameState { frame: held + line, oversized: false },
            line.len(),
            None::<FrameEnd>,
        ),
        accept_buffer(FrameState { frame: held, oversized: true }, line + seq![10u8] + rest) == (
            FrameState { frame: held, oversized: true },
            (line.len() + 1) as nat,
            Some(FrameEnd::Oversized),
        ),
        accept_buffer(FrameState { frame: seq![], oversized: false }, seq![]).2 == Some(
            FrameEnd::EndOfInput,
        ),
        held.len() > 0 ==> accept_buffer(FrameState { frame: held, oversized: false }, seq![]).2
            == Some(FrameEnd::Complete),
{
    let whole = line + seq![10u8] + rest;
    let n = line.len() as int;
    law_lines_end_at_newlines(whole);
    law_lines_end_at_newlines(line);
    assert(whole[n] == 10);
    assert forall|i: int| 0 <= i < n implies #[trigger] whole[i] != 10 by {
        assert(whole[i] == line[i]);
    }
    let m = line_len(whole) as int;
    if m - 1 > n {
        assert(whole[n] != 10);
    }
    if m < whole.len() && m - 1 < n {
        assert(whole[m - 1] != 10);
    }
    assert(m == n + 1);
    assert(held + whole.take(m) =~= held + line + seq![10u8]);
    if n > 0 {
        let k = line_len(line) as int;
        if k < n {
            assert(line[k - 1] == 10);
        }
        assert(line.take(n) =~= line);
        assert(line[n - 1] != 10);
    }
}

/// A response is written whole where it fits; where it does not, the same request
/// is told that it was too large.
pub proof fn law_large_answers_are_replaced(response: JsonView, id: Seq<char>)
    requires
        field(response, "id"@) == Some(JsonView::Text(id)),
    ensures
        ({
            let whole = encoded_json(response);
            let instead = encoded_json(error_view(Some(id), "response-too-large"@));
            &&& whole is Some && whole->0.len() <= 1024 * 1024 ==> response_frame(response) == Some(
                whole->0.push(10),
            )
            &&& whole is Some && whole->0.len() > 1024 * 1024 && instead is Some
                ==> response_frame(response) == Some(instead->0.push(10))
            &&& whole is None ==> response_frame(response) is None
        }),
{
}

/// A frame that is no value is malformed, and any other is read as a request.
pub proof fn law_frames_hold_requests(value: JsonView)
    ensures
        request_in_frame(Some(value)) == request_in(value),
        request_in_frame(None) == Err::<BridgeRequestView, (Option<Seq<char>>, Seq<char>)>(
            (None, "malformed-request"@),
        ),
{
}

/// What is done with a frame is what came of it: the request is handled, or the
/// answer is sent.
pub proof fn law_frames_are_acted_on(
    action: FrameAction,
    outcome: Result<BridgeRequestView, JsonView>,
)
    requires
        acts_on(action, outcome),
    ensures
        match action {
            FrameAction::Handle(request) => outcome == Ok::<BridgeRequestView, JsonView>(request@),
            FrameAction::Respond(answer) => outcome == Err::<BridgeRequestView, JsonView>(answer@),
        },
{
}

/// A part of a binding is taken exactly if it is given, is short and holds no
/// control characters.
pub proof fn law_binding_texts_are_short(params: JsonView, key: Seq<char>, text: Seq<char>)
    ensures
        binding_text(params, key) == Ok::<Seq<char>, Seq<char>>(text) <==> gives_text(
            params,
            key,
            text,
        ) && utf8_len(text) <= 256 && control_free(text),
{
}

} // verus!
