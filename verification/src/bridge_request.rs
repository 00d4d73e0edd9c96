//! Requests of the desktop bridge: parsing, parameters, and the window of
//! request ids that were seen.
use std::collections::VecDeque;

use vstd::prelude::*;

use crate::bridge_frame::{error_response, error_view, FrameStatus, PROTOCOL_VERSION};
use crate::json::{
    field, found_text, member, member_views, parse_json, parsed_json, text_field, text_in,
    unsigned_field, unsigned_in, Json, JsonView, Member, Members,
};
use crate::text::{byte_len, control_free, is_control_free, optional, same_text, utf8_len};

verus! {

pub const MAX_REQUEST_ID_BYTES: usize = 128;

pub const MAX_METHOD_BYTES: usize = 128;

pub const MAX_SEEN_REQUEST_IDS: usize = 4096;

pub const MAX_PARAMETER_BYTES: usize = 1024;

/// The outcome of an operation that fails with a code.
pub open spec fn coded<T: View>(r: Result<T, &'static str>) -> Result<T::V, Seq<char>> {
    match r {
        Ok(value) => Ok(value@),
        Err(code) => Err(code@),
    }
}

/// The texts of a list.
pub open spec fn texts<'a>(list: Seq<&'a str>) -> Seq<Seq<char>> {
    Seq::new(list.len(), |i: int| list[i]@)
}

/// Whether every member has an allowed key.
pub open spec fn keys_within(members: Members, allowed: Seq<Seq<char>>) -> bool {
    forall|i: int| 0 <= i < members.len() ==> allowed.contains((#[trigger] members[i]).0)
}

fn has_text(list: &[&str], text: &str) -> (r: bool)
    ensures
        r == texts(list@).contains(text@),
{
    let mut i: usize = 0;
    while i < list.len()
        invariant
            i <= list.len(),
            forall|j: int| 0 <= j < i ==> (#[trigger] texts(list@)[j]) != text@,
        decreases list.len() - i,
    {
        if same_text(list[i], text) {
            assert(texts(list@)[i as int] == text@);
            return true;
        }
        i = i + 1;
    }
    false
}

fn has_only_keys(members: &Vec<Member>, allowed: &[&str]) -> (r: bool)
    ensures
        r == keys_within(member_views(members@), texts(allowed@)),
{
    let ghost views = member_views(members@);
    let mut i: usize = 0;
    while i < members.len()
        invariant
            i <= members.len(),
            views == member_views(members@),
            forall|j: int| 0 <= j < i ==> texts(allowed@).contains((#[trigger] views[j]).0),
        decreases members.len() - i,
    {
        if !has_text(allowed, members[i].key.as_str()) {
            assert(!texts(allowed@).contains(views[i as int].0));
            return false;
        }
        i = i + 1;
    }
    true
}

/// What is wrong with the keys of parameters.
pub open spec fn params_error(params: JsonView, allowed: Seq<Seq<char>>) -> Option<Seq<char>> {
    match params {
        JsonView::Object(members) => if keys_within(members, allowed) {
            None
        } else {
            Some("unknown-parameter"@)
        },
        _ => Some("invalid-params"@),
    }
}

/// Checks that the parameters are an object with allowed keys alone.
pub fn require_only_params(params: &Json, allowed: &[&str]) -> (r: Result<(), &'static str>)
    ensures
        match params_error(params@, texts(allowed@)) {
            Some(code) => r is Err && r->Err_0@ == code,
            None => r is Ok,
        },
{
    match params.as_object() {
        None => Err("invalid-params"),
        Some(members) => {
            if has_only_keys(members, allowed) {
                Ok(())
            } else {
                Err("unknown-parameter")
            }
        },
    }
}

/// A parameter text: not empty, at most 1024 bytes.
pub open spec fn bounded(text: Seq<char>) -> bool {
    text.len() > 0 && utf8_len(text) <= MAX_PARAMETER_BYTES
}

/// The text of a required parameter.
pub open spec fn required_text(params: JsonView, key: Seq<char>) -> Result<Seq<char>, Seq<char>> {
    match text_in(field(params, key)) {
        Some(text) => if bounded(text) {
            Ok(text)
        } else {
            Err("invalid-params"@)
        },
        None => Err("invalid-params"@),
    }
}

/// The text of a parameter that may be missing or null.
pub open spec fn optional_param(params: JsonView, key: Seq<char>) -> Result<
    Option<Seq<char>>,
    Seq<char>,
> {
    match field(params, key) {
        None => Ok(None),
        Some(JsonView::Null) => Ok(None),
        Some(value) => match text_in(Some(value)) {
            Some(text) => if bounded(text) {
                Ok(Some(text))
            } else {
                Err("invalid-params"@)
            },
            None => Err("invalid-params"@),
        },
    }
}

/// The text of a required parameter.
pub fn required_string<'a>(params: &'a Json, key: &str) -> (r: Result<&'a str, &'static str>)
    ensures
        coded(r) == required_text(params@, key@),
{
    match text_field(params, key) {
        Some(text) => {
            if !text.is_empty() && byte_len(text) <= MAX_PARAMETER_BYTES {
                Ok(text)
            } else {
                Err("invalid-params")
            }
        },
        None => Err("invalid-params"),
    }
}

/// The text of a parameter that may be missing or null.
pub fn optional_bounded_string<'a>(params: &'a Json, key: &str) -> (r: Result<
    Option<&'a str>,
    &'static str,
>)
    ensures
        match optional_param(params@, key@) {
            Ok(text) => r is Ok && found_text(r->Ok_0) == text,
            Err(code) => r is Err && r->Err_0@ == code,
        },
{
    match params.get(key) {
        None => Ok(None),
        Some(Json::Null) => Ok(None),
        Some(value) => match value.as_text() {
            Some(text) => {
                if !text.is_empty() && byte_len(text) <= MAX_PARAMETER_BYTES {
                    Ok(Some(text))
                } else {
                    Err("invalid-params")
                }
            },
            None => Err("invalid-params"),
        },
    }
}

/// What a request proves about itself.
pub struct BridgeRequestAuth {
    pub parent_pid: u32,
    pub parent_start_marker: String,
    pub child_pid: u32,
    pub child_start_marker: String,
    pub project_root: String,
    pub app_state_root: String,
    pub process_generation: String,
    pub sequence: u64,
    pub operation_id: String,
    pub fingerprint: String,
    pub auth_tag: String,
}

pub struct AuthView {
    pub parent_pid: u32,
    pub parent_start_marker: Seq<char>,
    pub child_pid: u32,
    pub child_start_marker: Seq<char>,
    pub project_root: Seq<char>,
    pub app_state_root: Seq<char>,
    pub process_generation: Seq<char>,
    pub sequence: u64,
    pub operation_id: Seq<char>,
    pub fingerprint: Seq<char>,
    pub auth_tag: Seq<char>,
}

impl View for BridgeRequestAuth {
    type V = AuthView;

    open spec fn view(&self) -> AuthView {
        AuthView {
            parent_pid: self.parent_pid,
            parent_start_marker: self.parent_start_marker@,
            child_pid: self.child_pid,
            child_start_marker: self.child_start_marker@,
            project_root: self.project_root@,
            app_state_root: self.app_state_root@,
            process_generation: self.process_generation@,
            sequence: self.sequence,
            operation_id: self.operation_id@,
            fingerprint: self.fingerprint@,
            auth_tag: self.auth_tag@,
        }
    }
}

/// The keys of the authentication object.
pub open spec fn auth_keys() -> Seq<Seq<char>> {
    seq![
        "parentPid"@,
        "parentStartMarker"@,
        "childPid"@,
        "childStartMarker"@,
        "projectRoot"@,
        "appStateRoot"@,
        "processGeneration"@,
        "sequence"@,
        "operationId"@,
        "fingerprint"@,
        "authTag"@,
    ]
}

/// A process id in a member.
pub open spec fn pid_in(value: Option<JsonView>) -> Option<u32> {
    match unsigned_in(value) {
        Some(n) => if n <= u32::MAX {
            Some(n as u32)
        } else {
            None
        },
        None => None,
    }
}

/// The authentication in a value: an object with exactly its eleven keys, each
/// of its type.
pub open spec fn auth_in(value: JsonView) -> Option<AuthView> {
    match value {
        JsonView::Object(members) => if members.len() == 11 && keys_within(members, auth_keys())
            && pid_in(member(members, "parentPid"@)) is Some && text_in(
            member(members, "parentStartMarker"@),
        ) is Some && pid_in(member(members, "childPid"@)) is Some && text_in(
            member(members, "childStartMarker"@),
        ) is Some && text_in(member(members, "projectRoot"@)) is Some && text_in(
            member(members, "appStateRoot"@),
        ) is Some && text_in(member(members, "processGeneration"@)) is Some && unsigned_in(
            member(members, "sequence"@),
        ) is Some && text_in(member(members, "operationId"@)) is Some && text_in(
            member(members, "fingerprint"@),
        ) is Some && text_in(member(members, "authTag"@)) is Some {
            Some(
                AuthView {
                    parent_pid: pid_in(member(members, "parentPid"@))->0,
                    parent_start_marker: text_in(member(members, "parentStartMarker"@))->0,
                    child_pid: pid_in(member(members, "childPid"@))->0,
                    child_start_marker: text_in(member(members, "childStartMarker"@))->0,
                    project_root: text_in(member(members, "projectRoot"@))->0,
                    app_state_root: text_in(member(members, "appStateRoot"@))->0,
                    process_generation: text_in(member(members, "processGeneration"@))->0,
                    sequence: unsigned_in(member(members, "sequence"@))->0,
                    operation_id: text_in(member(members, "operationId"@))->0,
                    fingerprint: text_in(member(members, "fingerprint"@))->0,
                    auth_tag: text_in(member(members, "authTag"@))->0,
                },
            )
        } else {
            None
        },
        _ => None,
    }
}

/// The process id of a member.
pub fn pid_field(value: &Json, key: &str) -> (r: Option<u32>)
    ensures
        r == pid_in(field(value@, key@)),
{
    match unsigned_field(value, key) {
        Some(n) => {
            if n <= u32::MAX as u64 {
                Some(n as u32)
            } else {
                None
            }
        },
        None => None,
    }
}

fn owned_field(value: &Json, key: &str) -> (r: Option<String>)
    ensures
        optional(r) == text_in(field(value@, key@)),
{
    match text_field(value, key) {
        Some(text) => Some(text.to_owned()),
        None => None,
    }
}

impl BridgeRequestAuth {
    /// Reads the authentication object of a request.
    pub fn from_value(value: &Json) -> (r: Option<BridgeRequestAuth>)
        ensures
            optional(r) == auth_in(value@),
    {
        let allowed: [&'static str; 11] = [
            "parentPid",
            "parentStartMarker",
            "childPid",
            "childStartMarker",
            "projectRoot",
            "appStateRoot",
            "processGeneration",
            "sequence",
            "operationId",
            "fingerprint",
            "authTag",
        ];
        assert(texts(allowed@) =~= auth_keys());
        let members = match value.as_object() {
            Some(members) => members,
            None => return None,
        };
        if members.len() != 11 || !has_only_keys(members, allowed.as_slice()) {
            return None;
        }
        match (
            pid_field(value, "parentPid"),
            owned_field(value, "parentStartMarker"),
            pid_field(value, "childPid"),
            owned_field(value, "childStartMarker"),
            owned_field(value, "projectRoot"),
            owned_field(value, "appStateRoot"),
        ) {
            (
                Some(parent_pid),
                Some(parent_start_marker),
                Some(child_pid),
                Some(child_start_marker),
                Some(project_root),
                Some(app_state_root),
            ) => match (
                owned_field(value, "processGeneration"),
                unsigned_field(value, "sequence"),
                owned_field(value, "operationId"),
                owned_field(value, "fingerprint"),
                owned_field(value, "authTag"),
            ) {
                (
                    Some(process_generation),
                    Some(sequence),
                    Some(operation_id),
                    Some(fingerprint),
                    Some(auth_tag),
                ) => Some(
                    BridgeRequestAuth {
                        parent_pid,
                        parent_start_marker,
                        child_pid,
                        child_start_marker,
                        project_root,
                        app_state_root,
                        process_generation,
                        sequence,
                        operation_id,
                        fingerprint,
                        auth_tag,
                    },
                ),
                _ => None,
            },
            _ => None,
        }
    }
}

/// A request that was understood.
pub struct Request {
    pub id: String,
    pub method: String,
    pub params: Json,
    pub auth: Option<BridgeRequestAuth>,
}

pub struct BridgeRequestView {
    pub id: Seq<char>,
    pub method: Seq<char>,
    pub params: JsonView,
    pub auth: Option<AuthView>,
}

impl View for Request {
    type V = BridgeRequestView;

    open spec fn view(&self) -> BridgeRequestView {
        BridgeRequestView {
            id: self.id@,
            method: self.method@,
            params: self.params@,
            auth: optional(self.auth),
        }
    }
}

/// A request that was not understood: its id where it has one, and a code.
pub struct RequestError {
    pub id: Option<String>,
    pub code: &'static str,
}

/// The keys of a request.
pub open spec fn request_keys() -> Seq<Seq<char>> {
    seq!["version"@, "id"@, "method"@, "params"@, "auth"@]
}

/// What counts as a request id.
pub open spec fn request_id_valid(id: Seq<char>) -> bool {
    id.len() > 0 && utf8_len(id) <= MAX_REQUEST_ID_BYTES && control_free(id)
}

/// What counts as a method.
pub open spec fn method_valid(method: Option<Seq<char>>) -> bool {
    method is Some && method->0.len() > 0 && utf8_len(method->0) <= MAX_METHOD_BYTES
}

/// The request in a value, or the first thing that is wrong with it.
pub open spec fn request_in(value: JsonView) -> Result<
    BridgeRequestView,
    (Option<Seq<char>>, Seq<char>),
> {
    match value {
        JsonView::Object(members) => {
            let id = text_in(member(members, "id"@));
            let method = text_in(member(members, "method"@));
            let params = member(members, "params"@);
            if !keys_within(members, request_keys()) {
                Err((id, "unknown-request-field"@))
            } else if id is None {
                Err((None, "missing-request-id"@))
            } else if !request_id_valid(id->0) {
                Err((id, "invalid-request-id"@))
            } else if unsigned_in(member(members, "version"@)) != Some(PROTOCOL_VERSION) {
                Err((id, "unsupported-protocol-version"@))
            } else if !method_valid(method) {
                Err((id, "invalid-method"@))
            } else if params is Some && !(params->0 is Object) {
                Err((id, "invalid-params"@))
            } else {
                let known = match params {
                    Some(found) => found,
                    None => JsonView::Object(seq![]),
                };
                match member(members, "auth"@) {
                    None => Ok(
                        BridgeRequestView {
                            id: id->0,
                            method: method->0,
                            params: known,
                            auth: None,
                        },
                    ),
                    Some(auth) => match auth_in(auth) {
                        None => Err((id, "invalid-bridge-auth"@)),
                        Some(read) => Ok(
                            BridgeRequestView {
                                id: id->0,
                                method: method->0,
                                params: known,
                                auth: Some(read),
                            },
                        ),
                    },
                }
            }
        },
        _ => Err((None, "malformed-request"@)),
    }
}

/// The request in a frame.
pub open spec fn request_in_frame(parsed: Option<JsonView>) -> Result<
    BridgeRequestView,
    (Option<Seq<char>>, Seq<char>),
> {
    match parsed {
        None => Err((None, "malformed-request"@)),
        Some(value) => request_in(value),
    }
}

/// Whether a result is what was expected of parsing.
pub open spec fn parses_to(
    r: Result<Request, RequestError>,
    expected: Result<BridgeRequestView, (Option<Seq<char>>, Seq<char>)>,
) -> bool {
    match expected {
        Ok(request) => r is Ok && r->Ok_0@ == request,
        Err((id, code)) => r is Err && optional(r->Err_0.id) == id && r->Err_0.code@ == code,
    }
}

/// Whether a text may be a request id.
pub fn valid_request_id(value: &str) -> (r: bool)
    ensures
        r == request_id_valid(value@),
{
    !value.is_empty() && byte_len(value) <= MAX_REQUEST_ID_BYTES && is_control_free(value)
}

/// Reads the request in a value.
pub fn request_from_json(value: &Json) -> (r: Result<Request, RequestError>)
    ensures
        parses_to(r, request_in(value@)),
{
    let allowed: [&'static str; 5] = ["version", "id", "method", "params", "auth"];
    assert(texts(allowed@) =~= request_keys());
    let members = match value.as_object() {
        Some(members) => members,
        None => return Err(RequestError { id: None, code: "malformed-request" }),
    };
    if !has_only_keys(members, allowed.as_slice()) {
        return Err(RequestError { id: owned_field(value, "id"), code: "unknown-request-field" });
    }
    let id = match owned_field(value, "id") {
        Some(id) => id,
        None => return Err(RequestError { id: None, code: "missing-request-id" }),
    };
    if !valid_request_id(id.as_str()) {
        return Err(RequestError { id: Some(id), code: "invalid-request-id" });
    }
    let version_known = match unsigned_field(value, "version") {
        Some(version) => version == PROTOCOL_VERSION,
        None => false,
    };
    if !version_known {
        return Err(RequestError { id: Some(id), code: "unsupported-protocol-version" });
    }
    let method = match text_field(value, "method") {
        Some(method) => {
            if method.is_empty() || byte_len(method) > MAX_METHOD_BYTES {
                return Err(RequestError { id: Some(id), code: "invalid-method" });
            }
            method.to_owned()
        },
        None => return Err(RequestError { id: Some(id), code: "invalid-method" }),
    };
    let params = match value.get("params") {
        Some(params) => {
            if !params.is_object() {
                return Err(RequestError { id: Some(id), code: "invalid-params" });
            }
            params.duplicate()
        },
        None => {
            let empty = crate::json::ObjectBuilder::new();
            assert(empty@ =~= seq![]);
            empty.finish()
        },
    };
    let auth = match value.get("auth") {
        None => None,
        Some(found) => match BridgeRequestAuth::from_value(found) {
            Some(auth) => Some(auth),
            None => return Err(RequestError { id: Some(id), code: "invalid-bridge-auth" }),
        },
    };
    Ok(Request { id, method, params, auth })
}

/// Parses the request in a frame.
pub fn parse_request(frame: &[u8]) -> (r: Result<Request, RequestError>)
    ensures
        parses_to(r, request_in_frame(parsed_json(frame@))),
{
    match parse_json(frame) {
        None => Err(RequestError { id: None, code: "malformed-request" }),
        Some(value) => request_from_json(&value),
    }
}

/// The request ids that were seen lately, oldest first.
pub struct RecentRequestIds {
    order: VecDeque<String>,
}

impl View for RecentRequestIds {
    type V = Seq<Seq<char>>;

    closed spec fn view(&self) -> Seq<Seq<char>> {
        Seq::new(self.order@.len(), |i: int| self.order@[i]@)
    }
}

impl RecentRequestIds {
    /// An empty window.
    pub fn new() -> (ids: RecentRequestIds)
        ensures
            ids@ == Seq::<Seq<char>>::empty(),
    {
        let ids = RecentRequestIds { order: VecDeque::new() };
        assert(ids@ =~= Seq::<Seq<char>>::empty());
        ids
    }
}

/// The window after a new id: a full window loses its oldest id.
pub open spec fn window_with(ids: Seq<Seq<char>>, id: Seq<char>) -> Seq<Seq<char>> {
    if ids.len() >= MAX_SEEN_REQUEST_IDS {
        ids.skip(1).push(id)
    } else {
        ids.push(id)
    }
}

/// Records a request id; an id in the window is a duplicate.
pub fn record_request_id(seen: &mut RecentRequestIds, id: &str) -> (r: Result<(), &'static str>)
    ensures
        old(seen)@.contains(id@) ==> r is Err && r->Err_0@ == "duplicate-request-id"@
            && final(seen)@ == old(seen)@,
        !old(seen)@.contains(id@) ==> r is Ok && final(seen)@ == window_with(old(seen)@, id@),
{
    let ghost before = seen@;
    let mut i: usize = 0;
    while i < seen.order.len()
        invariant
            i <= seen.order@.len(),
            seen@ == before,
            before == old(seen)@,
            forall|j: int| 0 <= j < i ==> #[trigger] before[j] != id@,
        decreases seen.order@.len() - i,
    {
        if same_text(seen.order[i].as_str(), id) {
            assert(before[i as int] == id@);
            return Err("duplicate-request-id");
        }
        i = i + 1;
    }
    assert(!before.contains(id@));
    if seen.order.len() >= MAX_SEEN_REQUEST_IDS {
        seen.order.pop_front();
        assert(seen@ =~= before.skip(1));
    }
    seen.order.push_back(id.to_owned());
    assert(seen@ =~= window_with(before, id@));
    Ok(())
}

/// A window without duplicates and within its bound.
pub open spec fn window_sound(ids: Seq<Seq<char>>) -> bool {
    ids.len() <= MAX_SEEN_REQUEST_IDS && forall|i: int, j: int|
        0 <= i < j < ids.len() ==> #[trigger] ids[i] != #[trigger] ids[j]
}

/// The window stays bounded and without duplicates, whatever ids come.
pub proof fn law_window_stays_sound(ids: Seq<Seq<char>>, id: Seq<char>)
    requires
        window_sound(ids),
        !ids.contains(id),
    ensures
        window_sound(window_with(ids, id)),
        window_with(ids, id).contains(id),
{
    let next = window_with(ids, id);
    let shift: int = if ids.len() >= MAX_SEEN_REQUEST_IDS {
        1
    } else {
        0
    };
    assert forall|i: int, j: int| 0 <= i < j < next.len() implies #[trigger] next[i]
        != #[trigger] next[j] by {
        assert(next[i] == ids[i + shift]);
        if j < next.len() - 1 {
            assert(next[j] == ids[j + shift]);
        } else {
            assert(ids.contains(ids[i + shift]));
        }
    }
    assert(next[next.len() - 1] == id);
}

/// Only the oldest id is ever forgotten, and only by a full window.
pub proof fn law_only_the_oldest_id_is_forgotten(
    ids: Seq<Seq<char>>,
    id: Seq<char>,
    old_id: Seq<char>,
)
    requires
        ids.contains(old_id),
        !window_with(ids, id).contains(old_id),
    ensures
        ids.len() >= MAX_SEEN_REQUEST_IDS,
        ids[0] == old_id,
{
    let next = window_with(ids, id);
    let k = choose|k: int| 0 <= k < ids.len() && ids[k] == old_id;
    if ids.len() < MAX_SEEN_REQUEST_IDS {
        assert(next[k] == old_id);
    } else if k > 0 {
        assert(next[k - 1] == old_id);
    }
}

/// What to do with a frame that was read.
pub enum FrameAction {
    /// Send this response and read on.
    Respond(Json),
    /// Handle this request.
    Handle(Request),
}

/// What a frame comes to: the request to handle, or the error response.
pub open spec fn frame_outcome(
    status: FrameStatus,
    parsed: Option<JsonView>,
    seen: Seq<Seq<char>>,
) -> Result<BridgeRequestView, JsonView> {
    if status is Oversized {
        Err(error_view(None, "frame-too-large"@))
    } else {
        match request_in_frame(parsed) {
            Err((id, code)) => Err(error_view(id, code)),
            Ok(request) => if seen.contains(request.id) {
                Err(error_view(Some(request.id), "duplicate-request-id"@))
            } else {
                Ok(request)
            },
        }
    }
}

/// The window after a frame: only a request that is handled enters it.
pub open spec fn window_after(
    status: FrameStatus,
    parsed: Option<JsonView>,
    seen: Seq<Seq<char>>,
) -> Seq<Seq<char>> {
    match frame_outcome(status, parsed, seen) {
        Ok(request) => window_with(seen, request.id),
        Err(_) => seen,
    }
}

/// Whether an action is what a frame comes to.
pub open spec fn acts_on(
    action: FrameAction,
    outcome: Result<BridgeRequestView, JsonView>,
) -> bool {
    match outcome {
        Ok(request) => action is Handle && action->Handle_0@ == request,
        Err(response) => action is Respond && action->Respond_0@ == response,
    }
}

/// Decides on a frame whose parse is known.
pub fn act_on_request(
    parsed: Result<Request, RequestError>,
    seen: &mut RecentRequestIds,
) -> (action:
    FrameAction)
    ensures
        match parsed {
            Err(error) => action is Respond && action->Respond_0@ == error_view(
                optional(error.id),
                error.code@,
            ) && final(seen)@ == old(seen)@,
            Ok(request) => if old(seen)@.contains(request.id@) {
                action is Respond && action->Respond_0@ == error_view(
                    Some(request.id@),
                    "duplicate-request-id"@,
                ) && final(seen)@ == old(seen)@
            } else {
                action == FrameAction::Handle(request) && final(seen)@ == window_with(
                    old(seen)@,
                    request.id@,
                )
            },
        },
{
    match parsed {
        Ok(request) => match record_request_id(seen, request.id.as_str()) {
            Ok(()) => FrameAction::Handle(request),
            Err(code) => FrameAction::Respond(error_response(Some(request.id.as_str()), code)),
        },
        Err(error) => match &error.id {
            Some(id) => FrameAction::Respond(error_response(Some(id.as_str()), error.code)),
            None => FrameAction::Respond(error_response(None, error.code)),
        },
    }
}

/// Decides on a frame that was read from the input.
pub fn handle_frame(status: FrameStatus, frame: &[u8], seen: &mut RecentRequestIds) -> (action:
    FrameAction)
    ensures
        acts_on(action, frame_outcome(status, parsed_json(frame@), old(seen)@)),
        final(seen)@ == window_after(status, parsed_json(frame@), old(seen)@),
{
    if status == FrameStatus::Oversized {
        return FrameAction::Respond(error_response(None, "frame-too-large"));
    }
    act_on_request(parse_request(frame), seen)
}

} // verus!
