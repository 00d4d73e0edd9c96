//! The session of the desktop bridge: the handshake that binds it to one
//! process, the authentication of each request, and the methods it serves.
use vstd::prelude::*;
use vstd::utf8::*;

use crate::bridge_frame::PROTOCOL_VERSION;
use crate::bridge_request::{
    coded, params_error, pid_field, pid_in, require_only_params, required_string, required_text,
    texts, AuthView, BridgeRequestAuth, BridgeRequestView, Request,
};
use crate::json::{
    array, canonical, canonicalize, encode_json, encoded_json, field, item_views, text, text_values,
    Json, JsonView, ObjectBuilder,
};
use crate::text::{
    byte_len, chars_of, control_free, decimal_of, hex_text, is_control_free, is_hex_text, lower_text,
    optional, same_text, to_decimal, to_lower_text, utf8_len,
};

verus! {

pub const MAX_BRIDGE_IDENTIFIER_BYTES: usize = 256;

pub const DESKTOP_SIGNING_IDENTITY: &'static str = "dev.unpin.workbench";

/// The process that a session is bound to.
pub struct BridgeBinding {
    pub session_secret: String,
    pub parent_pid: u32,
    pub parent_start_marker: String,
    pub child_pid: u32,
    pub child_start_marker: String,
    pub project_root: String,
    pub app_state_root: String,
    pub process_generation: String,
}

pub struct BindingView {
    pub session_secret: Seq<char>,
    pub parent_pid: u32,
    pub parent_start_marker: Seq<char>,
    pub child_pid: u32,
    pub child_start_marker: Seq<char>,
    pub project_root: Seq<char>,
    pub app_state_root: Seq<char>,
    pub process_generation: Seq<char>,
}

impl View for BridgeBinding {
    type V = BindingView;

    open spec fn view(&self) -> BindingView {
        BindingView {
            session_secret: self.session_secret@,
            parent_pid: self.parent_pid,
            parent_start_marker: self.parent_start_marker@,
            child_pid: self.child_pid,
            child_start_marker: self.child_start_marker@,
            project_root: self.project_root@,
            app_state_root: self.app_state_root@,
            process_generation: self.process_generation@,
        }
    }
}

/// A session: unbound until its handshake, then counting its requests.
pub struct BridgeSession {
    pub binding: Option<BridgeBinding>,
    pub next_authenticated_sequence: u64,
}

pub struct SessionView {
    pub binding: Option<BindingView>,
    pub sequence: u64,
}

impl View for BridgeSession {
    type V = SessionView;

    open spec fn view(&self) -> SessionView {
        SessionView {
            binding: optional(self.binding),
            sequence: self.next_authenticated_sequence,
        }
    }
}

impl BridgeSession {
    /// A session before its handshake.
    pub fn new() -> (session: BridgeSession)
        ensures
            session@ == (SessionView { binding: None, sequence: 0 }),
    {
        BridgeSession { binding: None, next_authenticated_sequence: 0 }
    }
}

/// What the system says of the signatures of both processes; `None` where it
/// does not say.
pub struct SigningEvidence {
    pub parent_status: Option<u32>,
    pub child_status: Option<u32>,
    pub parent_identity: Option<String>,
    pub parent_team: Option<String>,
    pub child_team: Option<String>,
}

/// A valid signature that is not ad hoc.
pub open spec fn properly_signed(status: u32) -> bool {
    status % 2 == 1 && status / 2 % 2 == 0
}

/// What is wrong with the signature of the parent.
pub open spec fn signing_error(evidence: Option<SigningEvidence>) -> Option<Seq<char>> {
    let unavailable = Some("bridge-signing-identity-unavailable"@);
    let mismatch = Some("bridge-signing-identity-mismatch"@);
    match evidence {
        None => unavailable,
        Some(seen) => if seen.parent_status is None || seen.child_status is None {
            unavailable
        } else if !properly_signed(seen.parent_status->0) || !properly_signed(seen.child_status->0) {
            mismatch
        } else if seen.parent_identity is None {
            unavailable
        } else if seen.parent_identity->0@ != DESKTOP_SIGNING_IDENTITY@ {
            mismatch
        } else if seen.parent_team is None || seen.child_team is None {
            unavailable
        } else if seen.parent_team->0@.len() == 0 || seen.parent_team->0@ != seen.child_team->0@ {
            mismatch
        } else {
            None
        },
    }
}

/// Whether the parent is the signed desktop application of the same team; no
/// evidence means that the platform has none to give.
pub fn verify_signed_desktop_parent(evidence: &Option<SigningEvidence>) -> (r: Result<
    (),
    &'static str,
>)
    ensures
        match signing_error(*evidence) {
            Some(code) => r is Err && r->Err_0@ == code,
            None => r is Ok,
        },
{
    let seen = match evidence {
        None => return Err("bridge-signing-identity-unavailable"),
        Some(seen) => seen,
    };
    let (parent, child): (u32, u32) = match (seen.parent_status, seen.child_status) {
        (Some(parent), Some(child)) => (parent, child),
        _ => return Err("bridge-signing-identity-unavailable"),
    };
    if parent % 2 != 1 || parent / 2 % 2 != 0 || child % 2 != 1 || child / 2 % 2 != 0 {
        return Err("bridge-signing-identity-mismatch");
    }
    match &seen.parent_identity {
        None => return Err("bridge-signing-identity-unavailable"),
        Some(identity) => {
            if !same_text(identity.as_str(), DESKTOP_SIGNING_IDENTITY) {
                return Err("bridge-signing-identity-mismatch");
            }
        },
    }
    match (&seen.parent_team, &seen.child_team) {
        (Some(parent_team), Some(child_team)) => {
            if parent_team.as_str().is_empty() || !same_text(
                parent_team.as_str(),
                child_team.as_str(),
            ) {
                Err("bridge-signing-identity-mismatch")
            } else {
                Ok(())
            }
        },
        _ => Err("bridge-signing-identity-unavailable"),
    }
}

/// What the bridge knows of its own process when a handshake comes.
pub struct HandshakeFacts {
    pub project_root: String,
    pub app_state_root: String,
    /// Whether the roots of a fixture lie in temporary storage.
    pub sandbox_ok: bool,
    pub process_id: u32,
    pub parent_process_id: u32,
    pub fixture_mode: bool,
    pub signing: Option<SigningEvidence>,
}

/// The parameters of a handshake.
pub open spec fn handshake_keys() -> Seq<Seq<char>> {
    seq![
        "sessionSecret"@,
        "parentPid"@,
        "parentStartMarker"@,
        "childPid"@,
        "processGeneration"@,
        "projectRoot"@,
        "appStateRoot"@,
    ]
}

/// A session secret: 64 hexadecimal digits.
pub open spec fn secret_valid(secret: Seq<char>) -> bool {
    secret.len() == 64 && hex_text(secret)
}

/// A text that names a part of the binding.
pub open spec fn binding_text(params: JsonView, key: Seq<char>) -> Result<Seq<char>, Seq<char>> {
    match required_text(params, key) {
        Err(code) => Err(code),
        Ok(value) => if utf8_len(value) <= MAX_BRIDGE_IDENTIFIER_BYTES && control_free(value) {
            Ok(value)
        } else {
            Err("invalid-bridge-binding"@)
        },
    }
}

/// A process id that is not zero.
pub open spec fn live_pid(value: Option<JsonView>) -> Option<u32> {
    match pid_in(value) {
        Some(pid) => if pid != 0 {
            Some(pid)
        } else {
            None
        },
        None => None,
    }
}

/// What a handshake asks to be bound to; the child's own marker is still to
/// come.
pub struct HandshakeClaim {
    pub session_secret: String,
    pub parent_pid: u32,
    pub parent_start_marker: String,
    pub child_pid: u32,
    pub process_generation: String,
    pub project_root: String,
    pub app_state_root: String,
}

pub struct ClaimView {
    pub session_secret: Seq<char>,
    pub parent_pid: u32,
    pub parent_start_marker: Seq<char>,
    pub child_pid: u32,
    pub process_generation: Seq<char>,
    pub project_root: Seq<char>,
    pub app_state_root: Seq<char>,
}

impl View for HandshakeClaim {
    type V = ClaimView;

    open spec fn view(&self) -> ClaimView {
        ClaimView {
            session_secret: self.session_secret@,
            parent_pid: self.parent_pid,
            parent_start_marker: self.parent_start_marker@,
            child_pid: self.child_pid,
            process_generation: self.process_generation@,
            project_root: self.project_root@,
            app_state_root: self.app_state_root@,
        }
    }
}

/// The claim in well-formed parameters, or the first thing that is wrong.
pub open spec fn claim_in(params: JsonView) -> Result<ClaimView, Seq<char>> {
    let secret = required_text(params, "sessionSecret"@);
    let parent = live_pid(field(params, "parentPid"@));
    let child = live_pid(field(params, "childPid"@));
    let marker = binding_text(params, "parentStartMarker"@);
    let generation = binding_text(params, "processGeneration"@);
    let project = binding_text(params, "projectRoot"@);
    let state = binding_text(params, "appStateRoot"@);
    if secret is Err {
        Err(secret->Err_0)
    } else if !secret_valid(secret->Ok_0) {
        Err("invalid-bridge-session-secret"@)
    } else if parent is None {
        Err("invalid-bridge-parent"@)
    } else if child is None {
        Err("invalid-bridge-child"@)
    } else if marker is Err {
        Err(marker->Err_0)
    } else if generation is Err {
        Err(generation->Err_0)
    } else if project is Err {
        Err(project->Err_0)
    } else if state is Err {
        Err(state->Err_0)
    } else {
        Ok(
            ClaimView {
                session_secret: secret->Ok_0,
                parent_pid: parent->0,
                parent_start_marker: marker->Ok_0,
                child_pid: child->0,
                process_generation: generation->Ok_0,
                project_root: project->Ok_0,
                app_state_root: state->Ok_0,
            },
        )
    }
}

/// What is wrong with a claim in view of the facts.
pub open spec fn claim_error(claim: ClaimView, facts: HandshakeFacts) -> Option<Seq<char>> {
    if claim.project_root != facts.project_root@ || claim.app_state_root != facts.app_state_root@ {
        Some("bridge-root-mismatch"@)
    } else if !facts.sandbox_ok {
        Some("fixture-write-sandbox-blocked"@)
    } else if claim.child_pid != facts.process_id || claim.parent_pid != facts.parent_process_id {
        Some("bridge-process-mismatch"@)
    } else if !facts.fixture_mode && signing_error(facts.signing) is Some {
        signing_error(facts.signing)
    } else {
        None
    }
}

/// What a handshake comes to: an accepted claim or a code.
pub open spec fn handshake_outcome(
    session: SessionView,
    params: JsonView,
    facts: HandshakeFacts,
) -> Result<ClaimView, Seq<char>> {
    match params_error(params, handshake_keys()) {
        Some(code) => Err(code),
        None => if session.binding is Some {
            Err("bridge-handshake-already-complete"@)
        } else {
            match claim_in(params) {
                Err(code) => Err(code),
                Ok(claim) => match claim_error(claim, facts) {
                    Some(code) => Err(code),
                    None => Ok(claim),
                },
            }
        },
    }
}

/// A text that names a part of the binding.
pub fn bounded_bridge_string<'a>(params: &'a Json, key: &str) -> (r: Result<&'a str, &'static str>)
    ensures
        coded(r) == binding_text(params@, key@),
{
    match required_string(params, key) {
        Err(code) => Err(code),
        Ok(value) => {
            if byte_len(value) > MAX_BRIDGE_IDENTIFIER_BYTES || !is_control_free(value) {
                Err("invalid-bridge-binding")
            } else {
                Ok(value)
            }
        },
    }
}

fn live_pid_field(params: &Json, key: &str) -> (r: Option<u32>)
    ensures
        r == live_pid(field(params@, key@)),
{
    match pid_field(params, key) {
        Some(pid) => {
            if pid != 0 {
                Some(pid)
            } else {
                None
            }
        },
        None => None,
    }
}

fn is_secret(secret: &str) -> (r: bool)
    ensures
        r == secret_valid(secret@),
{
    chars_of(secret).len() == 64 && is_hex_text(secret)
}

fn read_claim(params: &Json) -> (r: Result<HandshakeClaim, &'static str>)
    ensures
        coded(r) == claim_in(params@),
{
    let secret = match required_string(params, "sessionSecret") {
        Ok(secret) => secret,
        Err(code) => return Err(code),
    };
    if !is_secret(secret) {
        return Err("invalid-bridge-session-secret");
    }
    let parent_pid: u32 = match live_pid_field(params, "parentPid") {
        Some(pid) => pid,
        None => return Err("invalid-bridge-parent"),
    };
    let child_pid: u32 = match live_pid_field(params, "childPid") {
        Some(pid) => pid,
        None => return Err("invalid-bridge-child"),
    };
    let marker = match bounded_bridge_string(params, "parentStartMarker") {
        Ok(value) => value,
        Err(code) => return Err(code),
    };
    let generation = match bounded_bridge_string(params, "processGeneration") {
        Ok(value) => value,
        Err(code) => return Err(code),
    };
    let project_root = match bounded_bridge_string(params, "projectRoot") {
        Ok(value) => value,
        Err(code) => return Err(code),
    };
    let app_state_root = match bounded_bridge_string(params, "appStateRoot") {
        Ok(value) => value,
        Err(code) => return Err(code),
    };
    Ok(
        HandshakeClaim {
            session_secret: secret.to_owned(),
            parent_pid,
            parent_start_marker: marker.to_owned(),
            child_pid,
            process_generation: generation.to_owned(),
            project_root: project_root.to_owned(),
            app_state_root: app_state_root.to_owned(),
        },
    )
}

/// Decides on a handshake: its parameters, then the processes behind it.
pub fn handle_handshake(
    session: &BridgeSession,
    params: &Json,
    facts: &HandshakeFacts,
) -> (r: Result<
    HandshakeClaim,
    &'static str,
>)
    ensures
        coded(r) == handshake_outcome(session@, params@, *facts),
{
    let allowed: [&'static str; 7] = [
        "sessionSecret",
        "parentPid",
        "parentStartMarker",
        "childPid",
        "processGeneration",
        "projectRoot",
        "appStateRoot",
    ];
    assert(texts(allowed@) =~= handshake_keys());
    if let Err(code) = require_only_params(params, allowed.as_slice()) {
        return Err(code);
    }
    if session.binding.is_some() {
        return Err("bridge-handshake-already-complete");
    }
    let claim = match read_claim(params) {
        Ok(claim) => claim,
        Err(code) => return Err(code),
    };
    if !same_text(claim.project_root.as_str(), facts.project_root.as_str()) || !same_text(
        claim.app_state_root.as_str(),
        facts.app_state_root.as_str(),
    ) {
        return Err("bridge-root-mismatch");
    }
    if !facts.sandbox_ok {
        return Err("fixture-write-sandbox-blocked");
    }
    if claim.child_pid != facts.process_id || claim.parent_pid != facts.parent_process_id {
        return Err("bridge-process-mismatch");
    }
    if !facts.fixture_mode {
        if let Err(code) = verify_signed_desktop_parent(&facts.signing) {
            return Err(code);
        }
    }
    Ok(claim)
}

/// The text whose digest marks the start of the child process.
pub open spec fn child_marker_text(secret: Seq<char>, child_pid: u32, now: u64) -> Seq<char> {
    "unpin.desktop.bridge.child.v1\0"@ + secret + "\0"@ + decimal_of(child_pid as nat) + "\0"@
        + decimal_of(now as nat)
}

/// The text whose digest marks the start of the child process.
pub fn child_marker_material(claim: &HandshakeClaim, now_unix: u64) -> (material: String)
    ensures
        material@ == child_marker_text(claim@.session_secret, claim@.child_pid, now_unix),
{
    let mut material = "unpin.desktop.bridge.child.v1\0".to_owned();
    material.push_str(claim.session_secret.as_str());
    material.push_str("\0");
    material.push_str(to_decimal(claim.child_pid as u64).as_str());
    material.push_str("\0");
    material.push_str(to_decimal(now_unix).as_str());
    material
}

/// The binding that an accepted claim gives.
pub open spec fn bound(claim: ClaimView, child_start_marker: Seq<char>) -> BindingView {
    BindingView {
        session_secret: lower_text(claim.session_secret),
        parent_pid: claim.parent_pid,
        parent_start_marker: claim.parent_start_marker,
        child_pid: claim.child_pid,
        child_start_marker,
        project_root: claim.project_root,
        app_state_root: claim.app_state_root,
        process_generation: claim.process_generation,
    }
}

/// Binds the session to an accepted claim and starts its count of requests.
pub fn complete_handshake(
    session: &mut BridgeSession,
    claim: &HandshakeClaim,
    child_start_marker: &str,
)
    ensures
        final(session)@ == (SessionView {
            binding: Some(bound(claim@, child_start_marker@)),
            sequence: 0,
        }),
{
    session.binding = Some(
        BridgeBinding {
            session_secret: to_lower_text(claim.session_secret.as_str()),
            parent_pid: claim.parent_pid,
            parent_start_marker: claim.parent_start_marker.clone(),
            child_pid: claim.child_pid,
            child_start_marker: child_start_marker.to_owned(),
            project_root: claim.project_root.clone(),
            app_state_root: claim.app_state_root.clone(),
            process_generation: claim.process_generation.clone(),
        },
    );
    session.next_authenticated_sequence = 0;
}

/// The methods of the bridge.
#[derive(Debug, Clone, Copy, PartialEq, Eq, Structural)]
pub enum BridgeMethod {
    Snapshot,
    GroupPlan,
    GroupApprove,
    GroupApply,
    GroupDiscard,
    AgentPluginInspect,
    AgentPluginPlan,
    AgentPluginApprove,
    AgentPluginApply,
    AgentPluginDiscard,
    DefinitionPlan,
    DefinitionApply,
    DefinitionDiscard,
    DefinitionHistory,
    RecoverySnapshot,
    RestorePlan,
    RestoreApprove,
    RestoreApply,
    RestoreDiscard,
    WorkflowCompose,
    WorkflowValidate,
    WorkflowPropose,
    WorkflowLaunch,
    WorkflowTransition,
    WorkflowObserve,
    WorkflowCancel,
    WorkflowStatus,
    WorkflowRecovery,
    Shutdown,
}

/// The names of the methods that a handshake offers, in their order.
pub open spec fn capability_names() -> Seq<Seq<char>> {
    seq![
        "snapshot"@,
        "group.plan"@,
        "group.approve"@,
        "group.apply"@,
        "group.discard"@,
        "agentPlugins.inspect"@,
        "agentPlugins.plan"@,
        "agentPlugins.approve"@,
        "agentPlugins.apply"@,
        "agentPlugins.discard"@,
        "group.definition.plan"@,
        "group.definition.apply"@,
        "group.definition.discard"@,
        "group.definition.history"@,
        "recovery.snapshot"@,
        "restore.plan"@,
        "restore.approve"@,
        "restore.apply"@,
        "restore.discard"@,
        "workflow.compose"@,
        "workflow.validate"@,
        "workflow.propose"@,
        "workflow.launch"@,
        "workflow.transition"@,
        "workflow.observe"@,
        "workflow.cancel-transition"@,
        "workflow.status"@,
        "workflow.recovery"@,
    ]
}

/// The methods that a handshake offers, in the order of their names.
pub open spec fn capability_methods() -> Seq<BridgeMethod> {
    seq![
        BridgeMethod::Snapshot,
        BridgeMethod::GroupPlan,
        BridgeMethod::GroupApprove,
        BridgeMethod::GroupApply,
        BridgeMethod::GroupDiscard,
        BridgeMethod::AgentPluginInspect,
        BridgeMethod::AgentPluginPlan,
        BridgeMethod::AgentPluginApprove,
        BridgeMethod::AgentPluginApply,
        BridgeMethod::AgentPluginDiscard,
        BridgeMethod::DefinitionPlan,
        BridgeMethod::DefinitionApply,
        BridgeMethod::DefinitionDiscard,
        BridgeMethod::DefinitionHistory,
        BridgeMethod::RecoverySnapshot,
        BridgeMethod::RestorePlan,
        BridgeMethod::RestoreApprove,
        BridgeMethod::RestoreApply,
        BridgeMethod::RestoreDiscard,
        BridgeMethod::WorkflowCompose,
        BridgeMethod::WorkflowValidate,
        BridgeMethod::WorkflowPropose,
        BridgeMethod::WorkflowLaunch,
        BridgeMethod::WorkflowTransition,
        BridgeMethod::WorkflowObserve,
        BridgeMethod::WorkflowCancel,
        BridgeMethod::WorkflowStatus,
        BridgeMethod::WorkflowRecovery,
    ]
}

fn capabilities() -> (names: [&'static str; 28])
    ensures
        texts(names@) == capability_names(),
{
    let names: [&'static str; 28] = [
        "snapshot",
        "group.plan",
        "group.approve",
        "group.apply",
        "group.discard",
        "agentPlugins.inspect",
        "agentPlugins.plan",
        "agentPlugins.approve",
        "agentPlugins.apply",
        "agentPlugins.discard",
        "group.definition.plan",
        "group.definition.apply",
        "group.definition.discard",
        "group.definition.history",
        "recovery.snapshot",
        "restore.plan",
        "restore.approve",
        "restore.apply",
        "restore.discard",
        "workflow.compose",
        "workflow.validate",
        "workflow.propose",
        "workflow.launch",
        "workflow.transition",
        "workflow.observe",
        "workflow.cancel-transition",
        "workflow.status",
        "workflow.recovery",
    ];
    assert(texts(names@) =~= capability_names());
    names
}

fn capability_at(i: usize) -> (method: BridgeMethod)
    requires
        i < 28,
    ensures
        method == capability_methods()[i as int],
{
    match i {
        0 => BridgeMethod::Snapshot,
        1 => BridgeMethod::GroupPlan,
        2 => BridgeMethod::GroupApprove,
        3 => BridgeMethod::GroupApply,
        4 => BridgeMethod::GroupDiscard,
        5 => BridgeMethod::AgentPluginInspect,
        6 => BridgeMethod::AgentPluginPlan,
        7 => BridgeMethod::AgentPluginApprove,
        8 => BridgeMethod::AgentPluginApply,
        9 => BridgeMethod::AgentPluginDiscard,
        10 => BridgeMethod::DefinitionPlan,
        11 => BridgeMethod::DefinitionApply,
        12 => BridgeMethod::DefinitionDiscard,
        13 => BridgeMethod::DefinitionHistory,
        14 => BridgeMethod::RecoverySnapshot,
        15 => BridgeMethod::RestorePlan,
        16 => BridgeMethod::RestoreApprove,
        17 => BridgeMethod::RestoreApply,
        18 => BridgeMethod::RestoreDiscard,
        19 => BridgeMethod::WorkflowCompose,
        20 => BridgeMethod::WorkflowValidate,
        21 => BridgeMethod::WorkflowPropose,
        22 => BridgeMethod::WorkflowLaunch,
        23 => BridgeMethod::WorkflowTransition,
        24 => BridgeMethod::WorkflowObserve,
        25 => BridgeMethod::WorkflowCancel,
        26 => BridgeMethod::WorkflowStatus,
        _ => BridgeMethod::WorkflowRecovery,
    }
}

/// The method with a name: an offered one, or the end of the session.
pub open spec fn method_named(name: Seq<char>) -> Option<BridgeMethod> {
    if capability_names().contains(name) {
        Some(capability_methods()[capability_names().index_of_first(name)->0])
    } else if name == "shutdown"@ {
        Some(BridgeMethod::Shutdown)
    } else {
        None
    }
}

/// Finds the method with a name.
pub fn method_of(name: &str) -> (method: Option<BridgeMethod>)
    ensures
        method == method_named(name@),
{
    let names = capabilities();
    let mut i: usize = 0;
    while i < 28
        invariant
            i <= 28,
            texts(names@) == capability_names(),
            forall|j: int| 0 <= j < i ==> #[trigger] capability_names()[j] != name@,
        decreases 28 - i,
    {
        assert(capability_names()[i as int] == names@[i as int]@);
        if same_text(names[i], name) {
            proof {
                assert(capability_names().contains(name@));
                capability_names().index_of_first_ensures(name@);
                let first = capability_names().index_of_first(name@)->0;
                assert(first == i) by {
                    if first < i {
                        assert(capability_names()[first] != name@);
                    }
                }
            }
            return Some(capability_at(i));
        }
        i = i + 1;
    }
    assert(!capability_names().contains(name@));
    if same_text(name, "shutdown") {
        Some(BridgeMethod::Shutdown)
    } else {
        None
    }
}

/// The response to a handshake.
pub open spec fn handshake_view(version: Seq<char>, binding: BindingView) -> JsonView {
    JsonView::Object(
        seq![
            ("protocolVersion"@, JsonView::Unsigned(PROTOCOL_VERSION)),
            ("binaryVersion"@, JsonView::Text(version)),
            ("capabilities"@, JsonView::Array(text_values(capability_names()))),
            (
                "binding"@,
                JsonView::Object(
                    seq![
                        ("parentPid"@, JsonView::Unsigned(binding.parent_pid as u64)),
                        ("parentStartMarker"@, JsonView::Text(binding.parent_start_marker)),
                        ("childPid"@, JsonView::Unsigned(binding.child_pid as u64)),
                        ("childStartMarker"@, JsonView::Text(binding.child_start_marker)),
                        ("projectRoot"@, JsonView::Text(binding.project_root)),
                        ("appStateRoot"@, JsonView::Text(binding.app_state_root)),
                        ("processGeneration"@, JsonView::Text(binding.process_generation)),
                    ],
                ),
            ),
        ],
    )
}

/// The response to a handshake. The session's secret is not part of it.
pub fn handshake_response_for_binding(binary_version: &str, binding: &BridgeBinding) -> (response:
    Json)
    ensures
        response@ == handshake_view(binary_version@, binding@),
{
    let names = capabilities();
    let mut offered: Vec<Json> = Vec::new();
    let mut i: usize = 0;
    while i < 28
        invariant
            i <= 28,
            texts(names@) == capability_names(),
            offered@.len() == i,
            forall|j: int|
                0 <= j < i ==> (#[trigger] offered@[j])@ == JsonView::Text(capability_names()[j]),
        decreases 28 - i,
    {
        assert(capability_names()[i as int] == names@[i as int]@);
        offered.push(text(names[i]));
        i = i + 1;
    }
    assert(item_views(offered@) =~= text_values(capability_names()));
    let mut bound = ObjectBuilder::new();
    bound.put("parentPid", Json::Unsigned(binding.parent_pid as u64));
    bound.put_text("parentStartMarker", binding.parent_start_marker.as_str());
    bound.put("childPid", Json::Unsigned(binding.child_pid as u64));
    bound.put_text("childStartMarker", binding.child_start_marker.as_str());
    bound.put_text("projectRoot", binding.project_root.as_str());
    bound.put_text("appStateRoot", binding.app_state_root.as_str());
    bound.put_text("processGeneration", binding.process_generation.as_str());
    let mut response = ObjectBuilder::new();
    response.put("protocolVersion", Json::Unsigned(PROTOCOL_VERSION));
    response.put_text("binaryVersion", binary_version);
    response.put("capabilities", array(offered));
    let ghost bound_members = bound@;
    response.put("binding", bound.finish());
    proof {
        let expected = handshake_view(binary_version@, binding@)->Object_0;
        assert(bound_members =~= expected[3].1->Object_0);
        assert(response@ =~= expected);
    }
    response.finish()
}

/// Whether an authentication names the bound process.
pub open spec fn binds(auth: AuthView, binding: BindingView) -> bool {
    &&& auth.parent_pid == binding.parent_pid
    &&& auth.parent_start_marker == binding.parent_start_marker
    &&& auth.child_pid == binding.child_pid
    &&& auth.child_start_marker == binding.child_start_marker
    &&& auth.project_root == binding.project_root
    &&& auth.app_state_root == binding.app_state_root
    &&& auth.process_generation == binding.process_generation
}

/// Whether the texts of an authentication have their form.
pub open spec fn auth_well_formed(auth: AuthView) -> bool {
    &&& auth.operation_id.len() > 0
    &&& utf8_len(auth.operation_id) <= MAX_BRIDGE_IDENTIFIER_BYTES
    &&& auth.fingerprint.len() == 64
    &&& hex_text(auth.fingerprint)
    &&& auth.auth_tag.len() == 64
    &&& hex_text(auth.auth_tag)
}

/// Why a request is not authenticated.
pub open spec fn authentication_error(
    session: SessionView,
    auth: Option<AuthView>,
    expected_tag: Seq<char>,
) -> Option<Seq<char>> {
    if session.binding is None {
        Some("bridge-handshake-required"@)
    } else if auth is None {
        Some("bridge-auth-required"@)
    } else if !binds(auth->0, session.binding->0) {
        Some("bridge-binding-mismatch"@)
    } else if session.sequence == u64::MAX {
        Some("bridge-sequence-overflow"@)
    } else if auth->0.sequence != session.sequence + 1 {
        Some("bridge-sequence-mismatch"@)
    } else if !auth_well_formed(auth->0) {
        Some("invalid-bridge-request-auth"@)
    } else if expected_tag != auth->0.auth_tag {
        Some("bridge-authentication-failed"@)
    } else {
        None
    }
}

proof fn lemma_difference(difference: u8, a: u8, b: u8)
    ensures
        (difference | (a ^ b)) == 0 <==> difference == 0 && a == b,
{
    assert((difference | (a ^ b)) == 0 <==> difference == 0 && a == b) by (bit_vector);
}

/// Compares two texts without stopping at the first difference.
pub fn constant_time_text_equal(left: &str, right: &str) -> (r: bool)
    ensures
        r == (left@ == right@),
{
    let a = left.as_bytes();
    let b = right.as_bytes();
    if a.len() != b.len() {
        return false;
    }
    let mut difference: u8 = 0;
    let mut i: usize = 0;
    while i < a.len()
        invariant
            i <= a.len(),
            a@.len() == b@.len(),
            difference == 0 <==> (forall|j: int| 0 <= j < i ==> a@[j] == b@[j]),
        decreases a.len() - i,
    {
        proof {
            lemma_difference(difference, a@[i as int], b@[i as int]);
        }
        difference = difference | (a[i] ^ b[i]);
        i = i + 1;
    }
    proof {
        if difference == 0 {
            assert(a@ =~= b@);
            crate::text::utf8_is_injective(left@, right@);
        }
    }
    difference == 0
}

/// Whether a text has 64 hexadecimal digits.
fn is_digest(value: &str) -> (r: bool)
    ensures
        r == (value@.len() == 64 && hex_text(value@)),
{
    chars_of(value).len() == 64 && is_hex_text(value)
}

/// Authenticates a request against the session. `expected_tag` is the digest
/// of the request's material under the session's secret. Only a request that
/// passes moves the session on, by one.
pub fn authenticate_request(
    session: &mut BridgeSession,
    auth: &Option<BridgeRequestAuth>,
    expected_tag: &str,
) -> (r: Result<(), &'static str>)
    ensures
        match authentication_error(old(session)@, optional(*auth), expected_tag@) {
            Some(code) => r is Err && r->Err_0@ == code && final(session)@ == old(session)@,
            None => r is Ok && final(session)@ == (SessionView {
                binding: old(session)@.binding,
                sequence: (old(session)@.sequence + 1) as u64,
            }),
        },
{
    let binding = match &session.binding {
        Some(binding) => binding,
        None => return Err("bridge-handshake-required"),
    };
    let auth = match auth {
        Some(auth) => auth,
        None => return Err("bridge-auth-required"),
    };
    if auth.parent_pid != binding.parent_pid || !same_text(
        auth.parent_start_marker.as_str(),
        binding.parent_start_marker.as_str(),
    ) || auth.child_pid != binding.child_pid || !same_text(
        auth.child_start_marker.as_str(),
        binding.child_start_marker.as_str(),
    ) || !same_text(auth.project_root.as_str(), binding.project_root.as_str()) || !same_text(
        auth.app_state_root.as_str(),
        binding.app_state_root.as_str(),
    ) || !same_text(auth.process_generation.as_str(), binding.process_generation.as_str()) {
        return Err("bridge-binding-mismatch");
    }
    if session.next_authenticated_sequence == u64::MAX {
        return Err("bridge-sequence-overflow");
    }
    let expected_sequence: u64 = session.next_authenticated_sequence + 1;
    if auth.sequence != expected_sequence {
        return Err("bridge-sequence-mismatch");
    }
    if auth.operation_id.as_str().is_empty() || byte_len(auth.operation_id.as_str())
        > MAX_BRIDGE_IDENTIFIER_BYTES || !is_digest(auth.fingerprint.as_str()) || !is_digest(
        auth.auth_tag.as_str(),
    ) {
        return Err("invalid-bridge-request-auth");
    }
    if !constant_time_text_equal(expected_tag, auth.auth_tag.as_str()) {
        return Err("bridge-authentication-failed");
    }
    session.next_authenticated_sequence = expected_sequence;
    Ok(())
}

/// The material whose digest authenticates a request.
pub open spec fn request_material(
    secret: Seq<char>,
    request: BridgeRequestView,
    auth: AuthView,
    params_digest: Seq<char>,
) -> Seq<char> {
    "unpin.desktop.bridge.request.v1\0"@ + secret + "\0"@ + decimal_of(auth.sequence as nat) + "\0"@
        + request.id + "\0"@ + request.method + "\0"@ + auth.operation_id + "\0"@
        + auth.fingerprint + "\0"@ + params_digest
}

/// The material whose digest authenticates a request: it binds the sequence,
/// the request, the operation and the digest of the parameters.
pub fn bridge_request_material(
    secret: &str,
    request: &Request,
    auth: &BridgeRequestAuth,
    params_digest: &str,
) -> (material: String)
    ensures
        material@ == request_material(secret@, request@, auth@, params_digest@),
{
    let mut material = "unpin.desktop.bridge.request.v1\0".to_owned();
    material.push_str(secret);
    material.push_str("\0");
    material.push_str(to_decimal(auth.sequence).as_str());
    material.push_str("\0");
    material.push_str(request.id.as_str());
    material.push_str("\0");
    material.push_str(request.method.as_str());
    material.push_str("\0");
    material.push_str(auth.operation_id.as_str());
    material.push_str("\0");
    material.push_str(auth.fingerprint.as_str());
    material.push_str("\0");
    material.push_str(params_digest);
    material
}

/// The bytes of the parameters in canonical form, whose digest a request
/// binds.
pub fn canonical_params(params: &Json) -> (r: Option<Vec<u8>>)
    ensures
        optional(r) == encoded_json(canonical(params@)),
{
    let ordered = canonicalize(params);
    encode_json(&ordered)
}

/// Where a request goes.
#[derive(Debug, Clone, Copy, PartialEq, Eq, Structural)]
pub enum Route {
    Handshake,
    Serve(BridgeMethod),
}

/// Where a request goes, or the code that answers it.
pub open spec fn route(
    session: SessionView,
    request: BridgeRequestView,
    expected_tag: Seq<char>,
) -> Result<Route, Seq<char>> {
    if request.method == "handshake"@ {
        Ok(Route::Handshake)
    } else {
        match authentication_error(session, request.auth, expected_tag) {
            Some(code) => Err(code),
            None => match method_named(request.method) {
                Some(method) => Ok(Route::Serve(method)),
                None => Err("unknown-method"@),
            },
        }
    }
}

/// Routes a request: everything but a handshake is authenticated first, even
/// a method that does not exist.
pub fn handle_request(session: &mut BridgeSession, request: &Request, expected_tag: &str) -> (r:
    Result<Route, &'static str>)
    ensures
        match route(old(session)@, request@, expected_tag@) {
            Ok(to) => r == Ok::<Route, &'static str>(to),
            Err(code) => r is Err && r->Err_0@ == code,
        },
        final(session)@ == if request@.method != "handshake"@ && authentication_error(
            old(session)@,
            request@.auth,
            expected_tag@,
        ) is None {
            SessionView {
                binding: old(session)@.binding,
                sequence: (old(session)@.sequence + 1) as u64,
            }
        } else {
            old(session)@
        },
{
    if same_text(request.method.as_str(), "handshake") {
        return Ok(Route::Handshake);
    }
    if let Err(code) = authenticate_request(session, &request.auth, expected_tag) {
        return Err(code);
    }
    match method_of(request.method.as_str()) {
        Some(method) => Ok(Route::Serve(method)),
        None => Err("unknown-method"),
    }
}

/// The seconds since the epoch as a signed number: zero before the epoch, and
/// never beyond what fits.
pub fn unix_now(elapsed_seconds: Option<u64>) -> (now: i64)
    ensures
        now == (match elapsed_seconds {
            None => 0,
            Some(seconds) => if seconds <= i64::MAX {
                seconds as int
            } else {
                i64::MAX as int
            },
        }),
{
    match elapsed_seconds {
        None => 0,
        Some(seconds) => {
            if seconds <= i64::MAX as u64 {
                seconds as i64
            } else {
                i64::MAX
            }
        },
    }
}

/// A request that was authenticated once is refused ever after: the session
/// has moved past its sequence number, and it only moves on.
pub proof fn law_no_replay(
    before: SessionView,
    auth: AuthView,
    tag: Seq<char>,
    later: SessionView,
    later_tag: Seq<char>,
)
    requires
        authentication_error(before, Some(auth), tag) is None,
        later.sequence >= before.sequence + 1,
    ensures
        authentication_error(later, Some(auth), later_tag) is Some,
{
}

/// Without a handshake nothing but a handshake is ever served.
pub proof fn law_unbound_sessions_serve_nothing(
    session: SessionView,
    request: BridgeRequestView,
    tag: Seq<char>,
)
    requires
        session.binding is None,
    ensures
        route(session, request, tag) == Ok::<Route, Seq<char>>(Route::Handshake) || route(
            session,
            request,
            tag,
        ) == Err::<Route, Seq<char>>("bridge-handshake-required"@),
{
}

/// The order of members in a request's parameters does not change what its
/// tag is computed from.
pub proof fn law_tag_ignores_member_order(a: crate::json::Members, b: crate::json::Members)
    requires
        crate::json::distinct_keys(a),
        crate::json::distinct_keys(b),
        forall|x: (Seq<char>, JsonView)| #[trigger] a.contains(x) == b.contains(x),
    ensures
        encoded_json(canonical(JsonView::Object(a))) == encoded_json(canonical(JsonView::Object(b))),
{
    crate::json::law_member_order_is_irrelevant(a, b);
}

} // verus!
