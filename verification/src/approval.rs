//! Human approval of reviewed operations: what a request must bind, what the
//! operator is shown, what counts as a yes, and what the receipt claims.
use vstd::prelude::*;
use vstd::utf8::*;

use crate::broker_protocol::ByteReader;
use crate::text::{
    byte_len, chars_of, control_free, decode_text, is_control_free, joined, optional, outcome,
    same_text, stands_at, text_of, utf8_len,
};

verus! {

pub const MAX_OPERATOR_RECEIPT_BYTES: usize = 131072;

pub const MAX_RESPONSE_BYTES: usize = 256;

pub const HUMAN_APPROVAL_SECONDS: i64 = 300;

/// One resource that an operation touches.
pub struct ApprovalResource {
    pub resource_id: String,
    pub pre_state_fingerprint: Option<String>,
}

/// What an approval must bind.
pub struct ApprovalExpectation {
    pub issuer: String,
    pub audience: String,
    pub operation_id: String,
    pub operation_kind: String,
    pub effect_graph_digest: String,
    pub repository_key: String,
    pub workspace_key: String,
    pub session_id: Option<String>,
    pub profile_digest: Option<String>,
    pub resources: Vec<ApprovalResource>,
}

pub struct ResourceView {
    pub resource_id: Seq<char>,
    pub pre_state_fingerprint: Option<Seq<char>>,
}

pub struct ExpectationView {
    pub issuer: Seq<char>,
    pub audience: Seq<char>,
    pub operation_id: Seq<char>,
    pub operation_kind: Seq<char>,
    pub effect_graph_digest: Seq<char>,
    pub repository_key: Seq<char>,
    pub workspace_key: Seq<char>,
    pub session_id: Option<Seq<char>>,
    pub profile_digest: Option<Seq<char>>,
    pub resources: Seq<ResourceView>,
}

impl View for ApprovalResource {
    type V = ResourceView;

    open spec fn view(&self) -> ResourceView {
        ResourceView {
            resource_id: self.resource_id@,
            pre_state_fingerprint: optional(self.pre_state_fingerprint),
        }
    }
}

/// The views of a list of resources.
pub open spec fn resource_views(resources: Seq<ApprovalResource>) -> Seq<ResourceView> {
    Seq::new(resources.len(), |i: int| resources[i]@)
}

impl View for ApprovalExpectation {
    type V = ExpectationView;

    open spec fn view(&self) -> ExpectationView {
        ExpectationView {
            issuer: self.issuer@,
            audience: self.audience@,
            operation_id: self.operation_id@,
            operation_kind: self.operation_kind@,
            effect_graph_digest: self.effect_graph_digest@,
            repository_key: self.repository_key@,
            workspace_key: self.workspace_key@,
            session_id: optional(self.session_id),
            profile_digest: optional(self.profile_digest),
            resources: resource_views(self.resources@),
        }
    }
}

/// The first of two errors.
pub open spec fn first_error(a: Option<Seq<char>>, b: Option<Seq<char>>) -> Option<Seq<char>> {
    if a is Some {
        a
    } else {
        b
    }
}

/// What may be shown to the operator: a short text on one line.
pub open spec fn showable(value: Seq<char>) -> bool {
    value.len() > 0 && utf8_len(value) <= 1024 && control_free(value)
}

/// What is wrong with a value that would be shown.
pub open spec fn prompt_value_error(label: Seq<char>, value: Seq<char>) -> Option<Seq<char>> {
    if showable(value) {
        None
    } else {
        Some("invalid human approval "@ + label)
    }
}

/// The same for a value that may be missing.
pub open spec fn optional_value_error(label: Seq<char>, value: Option<Seq<char>>) -> Option<
    Seq<char>,
> {
    match value {
        Some(text) => prompt_value_error(label, text),
        None => None,
    }
}

/// What is wrong with a resource.
pub open spec fn resource_error(resource: ResourceView) -> Option<Seq<char>> {
    first_error(
        prompt_value_error("resource id"@, resource.resource_id),
        optional_value_error("resource fingerprint"@, resource.pre_state_fingerprint),
    )
}

/// What is wrong with the first wrong resource.
pub open spec fn resources_error(resources: Seq<ResourceView>) -> Option<Seq<char>>
    decreases resources.len(),
{
    if resources.len() == 0 {
        None
    } else {
        first_error(resources_error(resources.drop_last()), resource_error(resources.last()))
    }
}

/// What is wrong with the scope of a request.
pub open spec fn scope_error(e: ExpectationView) -> Option<Seq<char>> {
    first_error(
        prompt_value_error("operation id"@, e.operation_id),
        first_error(
            prompt_value_error("operation kind"@, e.operation_kind),
            first_error(
                prompt_value_error("repository scope"@, e.repository_key),
                first_error(
                    prompt_value_error("workspace scope"@, e.workspace_key),
                    first_error(
                        optional_value_error("session scope"@, e.session_id),
                        optional_value_error("profile scope"@, e.profile_digest),
                    ),
                ),
            ),
        ),
    )
}

/// Why an approval is not even asked for: the reviewed fingerprint must be the
/// plan's, the plan's must be the expected one, and everything that would be
/// shown must be showable.
pub open spec fn request_error(
    e: ExpectationView,
    plan: Seq<char>,
    reviewed: Option<Seq<char>>,
) -> Option<Seq<char>> {
    if reviewed != Some(plan) {
        Some("plan-fingerprint-mismatch"@)
    } else if plan != e.effect_graph_digest {
        Some("plan fingerprint does not bind approval expectation"@)
    } else {
        first_error(
            prompt_value_error("plan fingerprint"@, plan),
            first_error(
                scope_error(e),
                if e.resources.len() == 0 {
                    Some("human approval expectation has no resources"@)
                } else {
                    resources_error(e.resources)
                },
            ),
        )
    }
}

/// Checks one value that would be shown.
pub fn validate_prompt_value(label: &str, value: &str) -> (r: Result<(), String>)
    ensures
        match prompt_value_error(label@, value@) {
            Some(error) => r is Err && r->Err_0@ == error,
            None => r is Ok,
        },
{
    if value.is_empty() || byte_len(value) > 1024 || !is_control_free(value) {
        return Err(joined("invalid human approval ", label));
    }
    Ok(())
}

fn validate_optional_value(label: &str, value: &Option<String>) -> (r: Result<(), String>)
    ensures
        match optional_value_error(label@, optional(*value)) {
            Some(error) => r is Err && r->Err_0@ == error,
            None => r is Ok,
        },
{
    match value {
        Some(text) => validate_prompt_value(label, text.as_str()),
        None => Ok(()),
    }
}

fn validate_resources(resources: &Vec<ApprovalResource>) -> (r: Result<(), String>)
    ensures
        match resources_error(resource_views(resources@)) {
            Some(error) => r is Err && r->Err_0@ == error,
            None => r is Ok,
        },
{
    let ghost views = resource_views(resources@);
    let mut i: usize = 0;
    while i < resources.len()
        invariant
            i <= resources.len(),
            views == resource_views(resources@),
            resources_error(views.take(i as int)) is None,
        decreases resources.len() - i,
    {
        proof {
            assert(views.take(i + 1).drop_last() =~= views.take(i as int));
            assert(views.take(i + 1).last() == resources@[i as int]@);
        }
        let checked = match validate_prompt_value(
            "resource id",
            resources[i].resource_id.as_str(),
        ) {
            Ok(()) => validate_optional_value(
                "resource fingerprint",
                &resources[i].pre_state_fingerprint,
            ),
            Err(error) => Err(error),
        };
        if let Err(error) = checked {
            proof {
                lemma_first_resource_error(views, i + 1);
            }
            return Err(error);
        }
        i = i + 1;
    }
    assert(views.take(i as int) =~= views);
    Ok(())
}

proof fn lemma_first_resource_error(resources: Seq<ResourceView>, n: int)
    requires
        0 <= n <= resources.len(),
        resources_error(resources.take(n)) is Some,
    ensures
        resources_error(resources) == resources_error(resources.take(n)),
    decreases resources.len(),
{
    if n == resources.len() {
        assert(resources.take(n) =~= resources);
    } else {
        assert(resources.drop_last().take(n) =~= resources.take(n));
        lemma_first_resource_error(resources.drop_last(), n);
    }
}

/// Checks a request for approval before anyone is asked.
pub fn validate_human_approval_request(
    expectation: &ApprovalExpectation,
    plan_fingerprint: &str,
    reviewed_fingerprint: Option<&str>,
) -> (r: Result<(), String>)
    ensures
        match request_error(
            expectation@,
            plan_fingerprint@,
            match reviewed_fingerprint {
                Some(text) => Some(text@),
                None => None,
            },
        ) {
            Some(error) => r is Err && r->Err_0@ == error,
            None => r is Ok,
        },
{
    let matched = match reviewed_fingerprint {
        Some(reviewed) => same_text(reviewed, plan_fingerprint),
        None => false,
    };
    if !matched {
        return Err("plan-fingerprint-mismatch".to_owned());
    }
    if !same_text(plan_fingerprint, expectation.effect_graph_digest.as_str()) {
        return Err("plan fingerprint does not bind approval expectation".to_owned());
    }
    if let Err(error) = validate_prompt_value("plan fingerprint", plan_fingerprint) {
        return Err(error);
    }
    if let Err(error) = validate_prompt_value("operation id", expectation.operation_id.as_str()) {
        return Err(error);
    }
    if let Err(error) = validate_prompt_value(
        "operation kind",
        expectation.operation_kind.as_str(),
    ) {
        return Err(error);
    }
    if let Err(error) = validate_prompt_value(
        "repository scope",
        expectation.repository_key.as_str(),
    ) {
        return Err(error);
    }
    if let Err(error) = validate_prompt_value(
        "workspace scope",
        expectation.workspace_key.as_str(),
    ) {
        return Err(error);
    }
    if let Err(error) = validate_optional_value("session scope", &expectation.session_id) {
        return Err(error);
    }
    if let Err(error) = validate_optional_value("profile scope", &expectation.profile_digest) {
        return Err(error);
    }
    if expectation.resources.len() == 0 {
        return Err("human approval expectation has no resources".to_owned());
    }
    validate_resources(&expectation.resources)
}

/// What the operator types to approve: `approve` and the start of the plan's
/// fingerprint.
pub open spec fn challenge_text(plan: Seq<char>) -> Seq<char> {
    "approve "@ + plan.take(if plan.len() < 12 {
        plan.len() as int
    } else {
        12
    })
}

/// The first twelve characters of a fingerprint.
pub fn fingerprint_start(plan_fingerprint: &str) -> (start: String)
    ensures
        start@ == plan_fingerprint@.take(
            if plan_fingerprint@.len() < 12 {
                plan_fingerprint@.len() as int
            } else {
                12
            },
        ),
{
    let chars = chars_of(plan_fingerprint);
    let count: usize = if chars.len() < 12 {
        chars.len()
    } else {
        12
    };
    let start = text_of(vstd::slice::slice_subrange(chars.as_slice(), 0, count));
    assert(start@ =~= plan_fingerprint@.take(count as int));
    start
}

/// What the operator types to approve.
pub fn approval_challenge(plan_fingerprint: &str) -> (challenge: String)
    ensures
        challenge@ == challenge_text(plan_fingerprint@),
{
    joined("approve ", fingerprint_start(plan_fingerprint).as_str())
}

/// A value that may be missing, as it is shown.
pub open spec fn shown(value: Option<Seq<char>>) -> Seq<char> {
    match value {
        Some(text) => text,
        None => "none"@,
    }
}

/// The lines that list the resources.
pub open spec fn resource_lines(resources: Seq<ResourceView>) -> Seq<char>
    decreases resources.len(),
{
    if resources.len() == 0 {
        seq![]
    } else {
        resource_lines(resources.drop_last()) + "  - "@ + resources.last().resource_id
            + " pre-state="@ + shown(resources.last().pre_state_fingerprint) + "\n"@
    }
}

/// The whole prompt.
pub open spec fn prompt_text(e: ExpectationView, plan: Seq<char>) -> Seq<char> {
    "Unpin human approval required\noperation: "@ + e.operation_kind + " ("@ + e.operation_id
        + ")\nfingerprint: "@ + plan + "\nscope: repository="@ + e.repository_key + " workspace="@
        + e.workspace_key + " session="@ + shown(e.session_id) + " profile="@ + shown(
        e.profile_digest,
    ) + "\nresources:\n"@ + resource_lines(e.resources) + "Type `"@ + challenge_text(plan)
        + "` exactly to approve; any other response cancels: "@
}

fn push_shown(out: &mut String, value: &Option<String>)
    ensures
        final(out)@ == old(out)@ + shown(optional(*value)),
{
    match value {
        Some(text) => out.push_str(text.as_str()),
        None => out.push_str("none"),
    }
}

/// The line that shows a resource.
pub open spec fn resource_line(resource: ApprovalResource) -> Seq<char> {
    "  - "@ + resource.resource_id@ + " pre-state="@ + (match resource.pre_state_fingerprint {
        Some(fingerprint) => fingerprint@,
        None => "none"@,
    }) + "\n"@
}

/// Whether a text lists resources: behind its heading each has a line of its
/// own, at the places given, in their order and with nothing between them, and
/// the question follows the last.
pub open spec fn lists_resources(
    text: Seq<char>,
    resources: Seq<ApprovalResource>,
    places: Seq<int>,
) -> bool {
    let heading = "\nresources:\n"@;
    &&& places.len() == resources.len() + 1
    &&& places[0] >= heading.len()
    &&& stands_at(text, heading, places[0] - heading.len())
    &&& forall|i: int|
        0 <= i < resources.len() ==> {
            &&& 0 <= places[i]
            &&& stands_at(text, #[trigger] resource_line(resources[i]), places[i])
            &&& places[i + 1] == places[i] + resource_line(resources[i]).len()
        }
    &&& places.last() >= 0
    &&& stands_at(text, "Type `"@, places.last())
}

proof fn lemma_lists_resources(
    head: Seq<char>,
    resources: Seq<ApprovalResource>,
    tail: Seq<char>,
) -> (places: Seq<int>)
    requires
        head.len() >= "\nresources:\n"@.len(),
        stands_at(head, "\nresources:\n"@, head.len() - "\nresources:\n"@.len()),
        stands_at(tail, "Type `"@, 0),
    ensures
        lists_resources(head + resource_lines(resource_views(resources)) + tail, resources, places),
{
    let views = resource_views(resources);
    let heading = "\nresources:\n"@;
    let text = head + resource_lines(views) + tail;
    let places: Seq<int> = Seq::new(
        resources.len() + 1,
        |i: int| (head.len() + resource_lines(views.take(i)).len()) as int,
    );
    assert(views.take(0) =~= seq![]);
    assert(views.take(resources.len() as int) =~= views);
    assert(text.subrange(head.len() - heading.len(), head.len() as int) =~= head.subrange(
        head.len() - heading.len(),
        head.len() as int,
    ));
    assert(text.subrange(places.last(), places.last() + 6) =~= tail.subrange(0, 6)) by {
        reveal_strlit("Type `");
    }
    reveal_strlit("Type `");
    assert forall|i: int| 0 <= i < resources.len() implies {
        &&& 0 <= places[i]
        &&& stands_at(text, #[trigger] resource_line(resources[i]), places[i])
        &&& places[i + 1] == places[i] + resource_line(resources[i]).len()
    } by {
        let line = resource_line(resources[i]);
        assert(views.take(i + 1).drop_last() =~= views.take(i));
        assert(views.take(i + 1).last() == resources[i]@);
        assert(resource_lines(views.take(i + 1)) =~= resource_lines(views.take(i)) + line);
        lemma_resource_lines_start(views, i + 1);
        let count = resource_lines(views.take(i + 1)).len() as int;
        assert(resource_lines(views).take(count) == resource_lines(views.take(i + 1)));
        assert(text.subrange(places[i], places[i] + line.len()) =~= resource_lines(
            views.take(i + 1),
        ).subrange(count - line.len(), count)) by {
            let from = count - line.len();
            let part = text.subrange(places[i], places[i] + line.len());
            assert forall|k: int| 0 <= k < line.len() implies #[trigger] part[k] == resource_lines(
                views.take(i + 1),
            )[from + k] by {
                assert(resource_lines(views).take(count)[from + k] == resource_lines(
                    views,
                )[from + k]);
            }
        }
        assert(resource_lines(views.take(i + 1)).subrange(count - line.len(), count) =~= line);
    }
    places
}

proof fn lemma_resource_lines_start(resources: Seq<ResourceView>, n: int)
    requires
        0 <= n <= resources.len(),
    ensures
        resource_lines(resources.take(n)).len() <= resource_lines(resources).len(),
        resource_lines(resources).take(resource_lines(resources.take(n)).len() as int)
            == resource_lines(resources.take(n)),
    decreases resources.len(),
{
    if n == resources.len() {
        assert(resources.take(n) =~= resources);
        assert(resource_lines(resources).take(resource_lines(resources).len() as int)
            =~= resource_lines(resources));
    } else {
        let shorter = resources.drop_last();
        lemma_resource_lines_start(shorter, n);
        assert(shorter.take(n) =~= resources.take(n));
        let count = resource_lines(resources.take(n)).len() as int;
        assert(resource_lines(resources).take(count) =~= resource_lines(shorter).take(count));
    }
}

/// A prompt shows every resource that it asks for, in order, and nothing between
/// them.
pub proof fn law_prompt_lists_every_resource(
    expectation: ApprovalExpectation,
    plan: Seq<char>,
)
    ensures
        exists|places: Seq<int>|
            lists_resources(prompt_text(expectation@, plan), expectation.resources@, places),
{
    let e = expectation@;
    let heading = "\nresources:\n"@;
    let head = "Unpin human approval required\noperation: "@ + e.operation_kind + " ("@
        + e.operation_id + ")\nfingerprint: "@ + plan + "\nscope: repository="@ + e.repository_key
        + " workspace="@ + e.workspace_key + " session="@ + shown(e.session_id) + " profile="@
        + shown(e.profile_digest) + heading;
    let tail = "Type `"@ + challenge_text(plan)
        + "` exactly to approve; any other response cancels: "@;
    assert(head.subrange(head.len() - heading.len(), head.len() as int) =~= heading);
    assert(tail.subrange(0, "Type `"@.len() as int) =~= "Type `"@);
    let places = lemma_lists_resources(head, expectation.resources@, tail);
    assert(prompt_text(e, plan) =~= head + resource_lines(e.resources) + tail);
}

/// Renders the prompt that the operator answers.
pub fn render_human_approval_prompt(
    expectation: &ApprovalExpectation,
    plan_fingerprint: &str,
) -> (out: String)
    ensures
        out@ == prompt_text(expectation@, plan_fingerprint@),
        exists|places: Seq<int>| lists_resources(out@, expectation.resources@, places),
{
    proof {
        law_prompt_lists_every_resource(*expectation, plan_fingerprint@);
    }
    let mut out = "Unpin human approval required\noperation: ".to_owned();
    out.push_str(expectation.operation_kind.as_str());
    out.push_str(" (");
    out.push_str(expectation.operation_id.as_str());
    out.push_str(")\nfingerprint: ");
    out.push_str(plan_fingerprint);
    out.push_str("\nscope: repository=");
    out.push_str(expectation.repository_key.as_str());
    out.push_str(" workspace=");
    out.push_str(expectation.workspace_key.as_str());
    out.push_str(" session=");
    push_shown(&mut out, &expectation.session_id);
    out.push_str(" profile=");
    push_shown(&mut out, &expectation.profile_digest);
    out.push_str("\nresources:\n");
    let ghost head = out@;
    let ghost views = resource_views(expectation.resources@);
    let mut i: usize = 0;
    assert(out@ =~= head + resource_lines(views.take(0)));
    while i < expectation.resources.len()
        invariant
            i <= expectation.resources.len(),
            views == resource_views(expectation.resources@),
            out@ == head + resource_lines(views.take(i as int)),
        decreases expectation.resources.len() - i,
    {
        let ghost before = out@;
        out.push_str("  - ");
        out.push_str(expectation.resources[i].resource_id.as_str());
        out.push_str(" pre-state=");
        push_shown(&mut out, &expectation.resources[i].pre_state_fingerprint);
        out.push_str("\n");
        i = i + 1;
        proof {
            assert(views.take(i as int).drop_last() =~= views.take(i - 1));
            assert(views.take(i as int).last() == expectation.resources@[i - 1]@);
            assert(out@ =~= head + resource_lines(views.take(i as int)));
        }
    }
    assert(views.take(i as int) =~= views);
    out.push_str("Type `");
    out.push_str(approval_challenge(plan_fingerprint).as_str());
    out.push_str("` exactly to approve; any other response cancels: ");
    assert(out@ =~= prompt_text(expectation@, plan_fingerprint@));
    out
}

/// The text in the bytes of a response.
pub open spec fn response_text(bytes: Seq<u8>) -> Result<Seq<char>, Seq<char>> {
    if valid_utf8(bytes) {
        Ok(decode_utf8(bytes))
    } else {
        Err("human approval response is invalid"@)
    }
}

/// One read from the terminal.
pub enum ReadEvent {
    End,
    Byte(u8),
    Interrupted,
    Failed(String),
}

/// A response as it is typed, byte by byte.
pub struct PresenceResponse {
    bytes: Vec<u8>,
}

impl View for PresenceResponse {
    type V = Seq<u8>;

    closed spec fn view(&self) -> Seq<u8> {
        self.bytes@
    }
}

impl PresenceResponse {
    pub fn new() -> (response: PresenceResponse)
        ensures
            response@ == Seq::<u8>::empty(),
    {
        PresenceResponse { bytes: Vec::new() }
    }

    /// Takes one read; gives the outcome once the response is complete.
    pub fn accept(&mut self, event: ReadEvent) -> (r: Option<Result<String, String>>)
        ensures
            r is Some ==> final(self)@ == old(self)@,
            match event {
                ReadEvent::End => r is Some && outcome(r->0) == if old(self)@.len() == 0 {
                    Err("human approval cancelled"@)
                } else {
                    response_text(old(self)@)
                },
                ReadEvent::Byte(byte) => if byte == 10 || byte == 13 {
                    r is Some && outcome(r->0) == response_text(old(self)@)
                } else if old(self)@.len() >= MAX_RESPONSE_BYTES {
                    r is Some && outcome(r->0) == Err::<Seq<char>, Seq<char>>(
                        "human approval response is too long"@,
                    )
                } else {
                    r is None && final(self)@ == old(self)@.push(byte)
                },
                ReadEvent::Interrupted => r is Some && outcome(r->0) == Err::<Seq<char>, Seq<char>>(
                    "human approval cancelled"@,
                ),
                ReadEvent::Failed(error) => r is Some && outcome(r->0) == Err::<
                    Seq<char>,
                    Seq<char>,
                >("human approval response could not be read: "@ + error@),
            },
    {
        match event {
            ReadEvent::End => {
                if self.bytes.len() == 0 {
                    return Some(Err("human approval cancelled".to_owned()));
                }
                Some(self.finished())
            },
            ReadEvent::Byte(byte) => {
                if byte == 10 || byte == 13 {
                    return Some(self.finished());
                }
                if self.bytes.len() >= MAX_RESPONSE_BYTES {
                    return Some(Err("human approval response is too long".to_owned()));
                }
                self.bytes.push(byte);
                None
            },
            ReadEvent::Interrupted => Some(Err("human approval cancelled".to_owned())),
            ReadEvent::Failed(error) => Some(
                Err(joined("human approval response could not be read: ", error.as_str())),
            ),
        }
    }

    fn finished(&self) -> (r: Result<String, String>)
        ensures
            outcome(r) == response_text(self@),
    {
        match decode_text(self.bytes.clone()) {
            Some(text) => Ok(text),
            None => Err("human approval response is invalid".to_owned()),
        }
    }
}

/// The number of bytes before the end of the first line.
pub open spec fn line_length(s: Seq<u8>) -> nat
    decreases s.len(),
{
    if s.len() == 0 || s[0] == 10 || s[0] == 13 {
        0
    } else {
        1 + line_length(s.skip(1))
    }
}

proof fn lemma_line_length(s: Seq<u8>, n: int)
    requires
        0 <= n <= s.len(),
        forall|j: int| 0 <= j < n ==> s[j] != 10 && s[j] != 13,
    ensures
        n <= line_length(s) <= s.len(),
        n == s.len() || s[n] == 10 || s[n] == 13 ==> line_length(s) == n,
    decreases s.len(),
{
    if n > 0 {
        assert forall|j: int| 0 <= j < n - 1 implies s.skip(1)[j] != 10 && s.skip(1)[j] != 13 by {
            assert(s.skip(1)[j] == s[j + 1]);
        }
        lemma_line_length(s.skip(1), n - 1);
        if n < s.len() {
            assert(s.skip(1)[n - 1] == s[n]);
        }
    } else if s.len() > 0 && s[0] != 10 && s[0] != 13 {
        lemma_line_length(s.skip(1), 0);
    }
}

/// The response in a stream of bytes, and what of the stream is left.
pub open spec fn presence_response(s: Seq<u8>) -> (Result<Seq<char>, Seq<char>>, Seq<u8>) {
    let n = line_length(s) as int;
    if s.len() == 0 {
        (Err("human approval cancelled"@), seq![])
    } else if n > MAX_RESPONSE_BYTES {
        (Err("human approval response is too long"@), s.skip(MAX_RESPONSE_BYTES + 1))
    } else {
        (
            response_text(s.take(n)),
            if n < s.len() {
                s.skip(n + 1)
            } else {
                seq![]
            },
        )
    }
}

/// Reads one line of response from a stream.
pub fn read_human_presence_response(input: &mut ByteReader) -> (r: Result<String, String>)
    ensures
        (outcome(r), final(input)@) == presence_response(old(input)@),
{
    let ghost s = input@;
    let mut response = PresenceResponse::new();
    let mut i: usize = 0;
    loop
        invariant
            s == old(input)@,
            i <= s.len(),
            i <= MAX_RESPONSE_BYTES,
            input@ == s.skip(i as int),
            response@ == s.take(i as int),
            forall|j: int| 0 <= j < i ==> s[j] != 10 && s[j] != 13,
        decreases MAX_RESPONSE_BYTES - i,
    {
        let event = match input.read_exact(1) {
            Ok(byte) => ReadEvent::Byte(byte[0]),
            Err(_) => ReadEvent::End,
        };
        proof {
            lemma_line_length(s, i as int);
            if event is End {
                assert(s.skip(i as int).len() == 0);
            } else {
                assert(s.skip(i as int).take(1)[0] == s[i as int]);
                assert(s.skip(i as int).skip(1) =~= s.skip(i + 1));
                if event->Byte_0 != 10 && event->Byte_0 != 13 {
                    lemma_line_length(s, i + 1);
                }
            }
        }
        if let Some(outcome) = response.accept(event) {
            return outcome;
        }
        i = i + 1;
        assert(response@ =~= s.take(i as int));
    }
}

/// What a response decides.
pub open spec fn presence_decision(response: Seq<char>, plan: Seq<char>) -> Result<(), Seq<char>> {
    if response == challenge_text(plan) {
        Ok(())
    } else if response.len() == 0 {
        Err("human approval cancelled"@)
    } else {
        Err("human approval rejected: response did not match challenge"@)
    }
}

/// Decides on a response: only the exact challenge approves.
pub fn validate_human_presence_response(response: &str, plan_fingerprint: &str) -> (r: Result<
    (),
    String,
>)
    ensures
        outcome(r) == presence_decision(response@, plan_fingerprint@),
{
    if same_text(response, approval_challenge(plan_fingerprint).as_str()) {
        Ok(())
    } else if response.is_empty() {
        Err("human approval cancelled".to_owned())
    } else {
        Err("human approval rejected: response did not match challenge".to_owned())
    }
}

/// How far the terminal can be reached.
pub enum TerminalAccess {
    /// The platform has no controlling terminal.
    Unsupported,
    /// No standard stream is a terminal.
    Detached,
    Opened,
    Failed(String),
}

/// Why nobody can be asked at the terminal.
pub open spec fn terminal_error(access: TerminalAccess) -> Option<Seq<char>> {
    match access {
        TerminalAccess::Unsupported => Some(
            "interactive human approval is unsupported on this platform; live apply is blocked"@,
        ),
        TerminalAccess::Detached => Some(
            "interactive human approval requires a controlling terminal; --confirm and stdin are insufficient: standard streams are not terminals"@,
        ),
        TerminalAccess::Opened => None,
        TerminalAccess::Failed(error) => Some(
            "interactive human approval requires a controlling terminal; --confirm and stdin are insufficient: "@
                + error@,
        ),
    }
}

/// Whether a terminal is there to ask.
pub fn require_controlling_terminal(access: &TerminalAccess) -> (r: Result<(), String>)
    ensures
        match terminal_error(*access) {
            Some(error) => r is Err && r->Err_0@ == error,
            None => r is Ok,
        },
{
    match access {
        TerminalAccess::Unsupported => Err(
            "interactive human approval is unsupported on this platform; live apply is blocked".to_owned(),
        ),
        TerminalAccess::Detached => Err(
            "interactive human approval requires a controlling terminal; --confirm and stdin are insufficient: standard streams are not terminals".to_owned(),
        ),
        TerminalAccess::Opened => Ok(()),
        TerminalAccess::Failed(error) => Err(
            joined(
                "interactive human approval requires a controlling terminal; --confirm and stdin are insufficient: ",
                error.as_str(),
            ),
        ),
    }
}

/// Whether a live change may go on; fixtures need no terminal.
pub fn require_live_apply_terminal(fixture_mode: bool, access: &TerminalAccess) -> (r: Result<
    (),
    String,
>)
    ensures
        fixture_mode ==> r is Ok,
        !fixture_mode ==> match terminal_error(*access) {
            Some(error) => r is Err && r->Err_0@ == error,
            None => r is Ok,
        },
{
    if fixture_mode {
        return Ok(());
    }
    require_controlling_terminal(access)
}

/// Whether the whole effect of a group plan can be shown before it is approved.
/// Standard streams do not matter for that.
pub fn render_inventory_group_review(access: &TerminalAccess) -> (r: Result<(), String>)
    ensures
        outcome(r) == (match *access {
            TerminalAccess::Unsupported => Err(
                "inventory group approval is unsupported on this platform"@,
            ),
            TerminalAccess::Failed(error) => Err(
                "inventory group approval requires a controlling terminal: "@ + error@,
            ),
            _ => Ok(()),
        }),
{
    match access {
        TerminalAccess::Unsupported => Err(
            "inventory group approval is unsupported on this platform".to_owned(),
        ),
        TerminalAccess::Failed(error) => Err(
            joined("inventory group approval requires a controlling terminal: ", error.as_str()),
        ),
        _ => Ok(()),
    }
}

/// What a receipt claims.
pub struct ApprovalClaims {
    pub version: u32,
    pub receipt_id: String,
    pub nonce: String,
    pub operation_id: String,
    pub operation_kind: String,
    pub effect_graph_digest: String,
    pub repository_key: String,
    pub workspace_key: String,
    pub session_id: Option<String>,
    pub profile_digest: Option<String>,
    pub resources: Vec<ApprovalResource>,
    pub issued_at_unix: i64,
    pub expires_at_unix: i64,
}

/// Whether claims bind exactly what was expected, for a given suffix and time.
pub open spec fn claims_bind(
    claims: ApprovalClaims,
    e: ExpectationView,
    suffix: Seq<char>,
    issued: int,
    expires: int,
) -> bool {
    &&& claims.version == 1
    &&& claims.receipt_id@ == "human-approval-"@ + suffix
    &&& claims.nonce@ == "human-approval-nonce-"@ + suffix
    &&& claims.operation_id@ == e.operation_id
    &&& claims.operation_kind@ == e.operation_kind
    &&& claims.effect_graph_digest@ == e.effect_graph_digest
    &&& claims.repository_key@ == e.repository_key
    &&& claims.workspace_key@ == e.workspace_key
    &&& optional(claims.session_id) == e.session_id
    &&& optional(claims.profile_digest) == e.profile_digest
    &&& resource_views(claims.resources@) == e.resources
    &&& claims.issued_at_unix == issued
    &&& claims.expires_at_unix == expires
}

/// What is asked for next on the way to an approval.
#[derive(Clone, Copy, PartialEq, Eq, Structural)]
pub enum ApprovalStage {
    /// The presence of the operator.
    Presence,
    /// The signing key.
    Key,
    /// The issuer that signs with it.
    Issuer,
    /// The suffix of the receipt's identifiers.
    Suffix,
}

/// What came of a stage.
pub enum ApprovalEvent {
    Done,
    /// There is no key.
    Missing,
    Suffix(String),
    Failed(String),
}

/// What to do next.
pub enum ApprovalStep {
    Ask(ApprovalStage),
    Refuse(String),
    Issue(ApprovalClaims),
}

/// How long an approval lives.
pub open spec fn approval_lifetime(maximum_seconds: i64) -> i64 {
    if maximum_seconds < HUMAN_APPROVAL_SECONDS {
        maximum_seconds
    } else {
        HUMAN_APPROVAL_SECONDS
    }
}

/// The first step: a request that does not bind its plan is refused before the
/// operator is asked.
pub fn begin_human_approval(
    expectation: &ApprovalExpectation,
    plan_fingerprint: &str,
    reviewed_fingerprint: Option<&str>,
) -> (step: ApprovalStep)
    ensures
        match request_error(
            expectation@,
            plan_fingerprint@,
            match reviewed_fingerprint {
                Some(text) => Some(text@),
                None => None,
            },
        ) {
            Some(error) => step is Refuse && step->Refuse_0@ == error,
            None => step == ApprovalStep::Ask(ApprovalStage::Presence),
        },
{
    match validate_human_approval_request(expectation, plan_fingerprint, reviewed_fingerprint) {
        Ok(()) => ApprovalStep::Ask(ApprovalStage::Presence),
        Err(error) => ApprovalStep::Refuse(error),
    }
}

/// The first step at the desktop, which only one platform supports; a fixture
/// has nobody to ask.
pub fn begin_desktop_approval(
    fixture_mode: bool,
    macos: bool,
    expectation: &ApprovalExpectation,
    plan_fingerprint: &str,
    reviewed_fingerprint: Option<&str>,
) -> (step: ApprovalStep)
    ensures
        !fixture_mode && !macos ==> step is Refuse && step->Refuse_0@
            == "desktop approval is supported only on macOS"@,
        fixture_mode || macos ==> match request_error(
            expectation@,
            plan_fingerprint@,
            match reviewed_fingerprint {
                Some(text) => Some(text@),
                None => None,
            },
        ) {
            Some(error) => step is Refuse && step->Refuse_0@ == error,
            None => step == ApprovalStep::Ask(ApprovalStage::Presence),
        },
{
    if !fixture_mode && !macos {
        return ApprovalStep::Refuse("desktop approval is supported only on macOS".to_owned());
    }
    begin_human_approval(expectation, plan_fingerprint, reviewed_fingerprint)
}

/// The first step for a decision that is its own review: the plan is what the
/// expectation speaks of.
pub fn authorize_control_decision(expectation: &ApprovalExpectation) -> (step: ApprovalStep)
    ensures
        match request_error(
            expectation@,
            expectation@.effect_graph_digest,
            Some(expectation@.effect_graph_digest),
        ) {
            Some(error) => step is Refuse && step->Refuse_0@ == error,
            None => step == ApprovalStep::Ask(ApprovalStage::Presence),
        },
{
    begin_human_approval(
        expectation,
        expectation.effect_graph_digest.as_str(),
        Some(expectation.effect_graph_digest.as_str()),
    )
}

fn copy_optional(value: &Option<String>) -> (out: Option<String>)
    ensures
        optional(out) == optional(*value),
{
    match value {
        Some(text) => Some(text.clone()),
        None => None,
    }
}

fn copy_resources(resources: &Vec<ApprovalResource>) -> (out: Vec<ApprovalResource>)
    ensures
        resource_views(out@) == resource_views(resources@),
{
    let mut out: Vec<ApprovalResource> = Vec::new();
    let mut i: usize = 0;
    while i < resources.len()
        invariant
            i <= resources.len(),
            out@.len() == i,
            forall|j: int| 0 <= j < i ==> (#[trigger] out@[j])@ == resources@[j]@,
        decreases resources.len() - i,
    {
        out.push(
            ApprovalResource {
                resource_id: resources[i].resource_id.clone(),
                pre_state_fingerprint: copy_optional(&resources[i].pre_state_fingerprint),
            },
        );
        i = i + 1;
    }
    assert(resource_views(out@) =~= resource_views(resources@));
    out
}

/// How far an approval has come.
pub enum ApprovalProgress {
    Ask(ApprovalStage),
    Refused,
    Issued,
}

/// How far a step is.
pub open spec fn progress_of(step: ApprovalStep) -> ApprovalProgress {
    match step {
        ApprovalStep::Ask(stage) => ApprovalProgress::Ask(stage),
        ApprovalStep::Refuse(_) => ApprovalProgress::Refused,
        ApprovalStep::Issue(_) => ApprovalProgress::Issued,
    }
}

/// How far an approval is after what came of a stage, if it would expire at the
/// given time.
pub open spec fn approval_next(
    stage: ApprovalStage,
    event: ApprovalEvent,
    expires: int,
) -> ApprovalProgress {
    match (stage, event) {
        (_, ApprovalEvent::Failed(_)) => ApprovalProgress::Refused,
        (ApprovalStage::Presence, ApprovalEvent::Done) => ApprovalProgress::Ask(
            ApprovalStage::Key,
        ),
        (ApprovalStage::Key, ApprovalEvent::Done) => ApprovalProgress::Ask(ApprovalStage::Issuer),
        (ApprovalStage::Key, ApprovalEvent::Missing) => ApprovalProgress::Refused,
        (ApprovalStage::Issuer, ApprovalEvent::Done) => ApprovalProgress::Ask(
            ApprovalStage::Suffix,
        ),
        (ApprovalStage::Suffix, ApprovalEvent::Suffix(_)) => if i64::MIN <= expires <= i64::MAX {
            ApprovalProgress::Issued
        } else {
            ApprovalProgress::Refused
        },
        (_, _) => ApprovalProgress::Ask(stage),
    }
}

/// An approval after a list of events: how far it is, whether presence was
/// shown, and whether a key was found.
pub open spec fn approval_run(
    e: ExpectationView,
    plan: Seq<char>,
    reviewed: Option<Seq<char>>,
    events: Seq<ApprovalEvent>,
    expires: int,
) -> (ApprovalProgress, bool, bool)
    decreases events.len(),
{
    if events.len() == 0 {
        (
            if request_error(e, plan, reviewed) is None {
                ApprovalProgress::Ask(ApprovalStage::Presence)
            } else {
                ApprovalProgress::Refused
            },
            false,
            false,
        )
    } else {
        let (progress, present, keyed) = approval_run(
            e,
            plan,
            reviewed,
            events.drop_last(),
            expires,
        );
        let event = events.last();
        match progress {
            ApprovalProgress::Ask(stage) => (
                approval_next(stage, event, expires),
                present || (stage is Presence && event is Done),
                keyed || (stage is Key && event is Done),
            ),
            _ => (progress, present, keyed),
        }
    }
}

/// Whatever happens on the way, the key is asked for only once presence was
/// shown, and an approval is issued only for a request that binds its plan,
/// after presence was shown and a key was found.
pub proof fn law_approval_needs_presence_and_key(
    e: ExpectationView,
    plan: Seq<char>,
    reviewed: Option<Seq<char>>,
    events: Seq<ApprovalEvent>,
    expires: int,
)
    ensures
        ({
            let (progress, present, keyed) = approval_run(e, plan, reviewed, events, expires);
            &&& progress == ApprovalProgress::Ask(ApprovalStage::Key) ==> present
            &&& progress is Issued ==> request_error(e, plan, reviewed) is None && present && keyed
        }),
{
    lemma_approval_run(e, plan, reviewed, events, expires);
}

proof fn lemma_approval_run(
    e: ExpectationView,
    plan: Seq<char>,
    reviewed: Option<Seq<char>>,
    events: Seq<ApprovalEvent>,
    expires: int,
)
    ensures
        ({
            let (progress, present, keyed) = approval_run(e, plan, reviewed, events, expires);
            match progress {
                ApprovalProgress::Ask(stage) => {
                    &&& request_error(e, plan, reviewed) is None
                    &&& !(stage is Presence) ==> present
                    &&& stage is Issuer || stage is Suffix ==> keyed
                },
                ApprovalProgress::Issued => request_error(e, plan, reviewed) is None && present
                    && keyed,
                ApprovalProgress::Refused => true,
            }
        }),
    decreases events.len(),
{
    if events.len() > 0 {
        lemma_approval_run(e, plan, reviewed, events.drop_last(), expires);
    }
}

/// The step after each stage: presence comes before the key, the key before
/// the suffix, and the receipt lives for at most 300 seconds. An event that
/// does not answer its stage leaves it open.
pub fn issue_human_approval_with(
    stage: ApprovalStage,
    event: ApprovalEvent,
    expectation: &ApprovalExpectation,
    now_unix: i64,
    maximum_lifetime_seconds: i64,
) -> (step: ApprovalStep)
    ensures
        match (stage, event) {
            (_, ApprovalEvent::Failed(error)) => step == ApprovalStep::Refuse(error),
            (ApprovalStage::Presence, ApprovalEvent::Done) => step == ApprovalStep::Ask(
                ApprovalStage::Key,
            ),
            (ApprovalStage::Key, ApprovalEvent::Done) => step == ApprovalStep::Ask(
                ApprovalStage::Issuer,
            ),
            (ApprovalStage::Key, ApprovalEvent::Missing) => step is Refuse && step->Refuse_0@
                == "approval key missing; run `unpin auth approval init`"@,
            (ApprovalStage::Issuer, ApprovalEvent::Done) => step == ApprovalStep::Ask(
                ApprovalStage::Suffix,
            ),
            (ApprovalStage::Suffix, ApprovalEvent::Suffix(suffix)) => {
                let expires = now_unix + approval_lifetime(maximum_lifetime_seconds);
                if i64::MIN <= expires <= i64::MAX {
                    step is Issue && claims_bind(
                        step->Issue_0,
                        expectation@,
                        suffix@,
                        now_unix as int,
                        expires,
                    )
                } else {
                    step is Refuse && step->Refuse_0@ == "approval expiry overflow"@
                }
            },
            (_, _) => step == ApprovalStep::Ask(stage),
        },
        progress_of(step) == approval_next(
            stage,
            event,
            now_unix + approval_lifetime(maximum_lifetime_seconds),
        ),
{
    if let ApprovalEvent::Failed(error) = event {
        return ApprovalStep::Refuse(error);
    }
    match stage {
        ApprovalStage::Presence => match event {
            ApprovalEvent::Done => ApprovalStep::Ask(ApprovalStage::Key),
            _ => ApprovalStep::Ask(stage),
        },
        ApprovalStage::Key => match event {
            ApprovalEvent::Done => ApprovalStep::Ask(ApprovalStage::Issuer),
            ApprovalEvent::Missing => ApprovalStep::Refuse(
                "approval key missing; run `unpin auth approval init`".to_owned(),
            ),
            _ => ApprovalStep::Ask(stage),
        },
        ApprovalStage::Issuer => match event {
            ApprovalEvent::Done => ApprovalStep::Ask(ApprovalStage::Suffix),
            _ => ApprovalStep::Ask(stage),
        },
        ApprovalStage::Suffix => match event {
            ApprovalEvent::Suffix(suffix) => {
                let lifetime: i64 = if maximum_lifetime_seconds < HUMAN_APPROVAL_SECONDS {
                    maximum_lifetime_seconds
                } else {
                    HUMAN_APPROVAL_SECONDS
                };
                match now_unix.checked_add(lifetime) {
                    None => ApprovalStep::Refuse("approval expiry overflow".to_owned()),
                    Some(expires_at_unix) => ApprovalStep::Issue(
                        ApprovalClaims {
                            version: 1,
                            receipt_id: joined("human-approval-", suffix.as_str()),
                            nonce: joined("human-approval-nonce-", suffix.as_str()),
                            operation_id: expectation.operation_id.clone(),
                            operation_kind: expectation.operation_kind.clone(),
                            effect_graph_digest: expectation.effect_graph_digest.clone(),
                            repository_key: expectation.repository_key.clone(),
                            workspace_key: expectation.workspace_key.clone(),
                            session_id: copy_optional(&expectation.session_id),
                            profile_digest: copy_optional(&expectation.profile_digest),
                            resources: copy_resources(&expectation.resources),
                            issued_at_unix: now_unix,
                            expires_at_unix,
                        },
                    ),
                }
            },
            _ => ApprovalStep::Ask(ApprovalStage::Suffix),
        },
    }
}

/// Whether a plan of an inventory group is the one that an approval expects.
pub fn group_plan_binds(plan_fingerprint: &str, expectation: &ApprovalExpectation) -> (r: Result<
    (),
    String,
>)
    ensures
        outcome(r) == if plan_fingerprint@ == expectation@.effect_graph_digest {
            Ok::<(), Seq<char>>(())
        } else {
            Err("group plan does not match approval expectation"@)
        },
{
    if same_text(plan_fingerprint, expectation.effect_graph_digest.as_str()) {
        Ok(())
    } else {
        Err("group plan does not match approval expectation".to_owned())
    }
}

/// Whether a receipt may be read from a descriptor: never from a standard
/// stream.
pub fn operator_descriptor_allowed(descriptor: i32) -> (r: Result<(), String>)
    ensures
        outcome(r) == if descriptor > 2 {
            Ok::<(), Seq<char>>(())
        } else {
            Err("approval-principal-unverified"@)
        },
{
    if descriptor <= 2 {
        Err("approval-principal-unverified".to_owned())
    } else {
        Ok(())
    }
}

/// Whether an operator's receipt is read at all: the request must bind its plan,
/// and the descriptor must be one of theirs. Every failure looks the same from
/// outside.
pub fn operator_request_allowed(
    expectation: &ApprovalExpectation,
    plan_fingerprint: &str,
    reviewed_fingerprint: Option<&str>,
    descriptor: i32,
) -> (r: Result<(), String>)
    ensures
        outcome(r) == if descriptor > 2 && request_error(
            expectation@,
            plan_fingerprint@,
            match reviewed_fingerprint {
                Some(text) => Some(text@),
                None => None,
            },
        ) is None {
            Ok::<(), Seq<char>>(())
        } else {
            Err("approval-principal-unverified"@)
        },
{
    match validate_human_approval_request(expectation, plan_fingerprint, reviewed_fingerprint) {
        Ok(()) => operator_descriptor_allowed(descriptor),
        Err(_) => Err("approval-principal-unverified".to_owned()),
    }
}

/// The bytes of a receipt that were read, where they are not too many. Every
/// failure looks the same from outside.
pub fn operator_receipt_bytes(read: Result<Vec<u8>, String>) -> (r: Result<Vec<u8>, String>)
    ensures
        read is Ok && read->Ok_0@.len() <= MAX_OPERATOR_RECEIPT_BYTES ==> r == read,
        read is Err || read->Ok_0@.len() > MAX_OPERATOR_RECEIPT_BYTES ==> r is Err && r->Err_0@
            == "approval-principal-unverified"@,
{
    match read {
        Ok(bytes) => {
            if bytes.len() > MAX_OPERATOR_RECEIPT_BYTES {
                Err("approval-principal-unverified".to_owned())
            } else {
                Ok(bytes)
            }
        },
        Err(_) => Err("approval-principal-unverified".to_owned()),
    }
}

/// What came of a receipt that was read: whether its bytes hold a receipt at
/// all, the key that verifies it, and the authorization that the receipt, the
/// key and the expectation give. Every failure looks the same from outside.
pub fn operator_authorization<T>(
    parsed: Result<(), String>,
    key: Result<Option<[u8; 32]>, String>,
    authorized: Result<T, String>,
) -> (r: Result<T, String>)
    ensures
        parsed is Ok && key is Ok && key->Ok_0 is Some && authorized is Ok ==> r == authorized,
        !(parsed is Ok && key is Ok && key->Ok_0 is Some && authorized is Ok) ==> r is Err
            && r->Err_0@ == "approval-principal-unverified"@,
{
    match (parsed, key, authorized) {
        (Ok(()), Ok(Some(_)), Ok(authorization)) => Ok(authorization),
        _ => Err("approval-principal-unverified".to_owned()),
    }
}

/// What came of an operator's descriptor: the bytes that were read from it, and
/// what came of them.
pub struct OperatorEvidence<T> {
    pub read: Result<Vec<u8>, String>,
    pub parsed: Result<(), String>,
    pub key: Result<Option<[u8; 32]>, String>,
    pub authorized: Result<T, String>,
}

/// Whether an operator's receipt authorizes: the request binds its plan, the
/// descriptor is one of theirs, the receipt is not too long, and everything
/// that came of it went well.
pub open spec fn operator_accepted<T>(
    e: ExpectationView,
    plan: Seq<char>,
    reviewed: Option<Seq<char>>,
    descriptor: i32,
    evidence: OperatorEvidence<T>,
) -> bool {
    &&& request_error(e, plan, reviewed) is None
    &&& descriptor > 2
    &&& evidence.read is Ok
    &&& evidence.read->Ok_0@.len() <= MAX_OPERATOR_RECEIPT_BYTES
    &&& evidence.parsed is Ok
    &&& evidence.key is Ok
    &&& evidence.key->Ok_0 is Some
    &&& evidence.authorized is Ok
}

/// Decides on an operator's receipt. There is one answer to every failure.
pub fn authorize_operator_descriptor<T>(
    expectation: &ApprovalExpectation,
    plan_fingerprint: &str,
    reviewed_fingerprint: Option<&str>,
    descriptor: i32,
    evidence: OperatorEvidence<T>,
) -> (r: Result<T, String>)
    ensures
        ({
            let accepted = operator_accepted(
                expectation@,
                plan_fingerprint@,
                match reviewed_fingerprint {
                    Some(text) => Some(text@),
                    None => None,
                },
                descriptor,
                evidence,
            );
            &&& accepted ==> r == evidence.authorized
            &&& !accepted ==> r is Err && r->Err_0@ == "approval-principal-unverified"@
        }),
{
    if let Err(error) = operator_request_allowed(
        expectation,
        plan_fingerprint,
        reviewed_fingerprint,
        descriptor,
    ) {
        return Err(error);
    }
    if let Err(error) = operator_receipt_bytes(evidence.read) {
        return Err(error);
    }
    operator_authorization(evidence.parsed, evidence.key, evidence.authorized)
}

/// Everything that a prompt shows stands on one line, so no value can add or
/// forge a line of the prompt.
pub proof fn law_prompt_values_cannot_forge_lines(
    e: ExpectationView,
    plan: Seq<char>,
    reviewed: Option<Seq<char>>,
)
    requires
        request_error(e, plan, reviewed) is None,
    ensures
        reviewed == Some(plan),
        plan == e.effect_graph_digest,
        showable(plan) && showable(e.operation_id) && showable(e.operation_kind) && showable(
            e.repository_key,
        ) && showable(e.workspace_key),
        e.session_id is Some ==> showable(e.session_id->0),
        e.profile_digest is Some ==> showable(e.profile_digest->0),
        e.resources.len() > 0,
        forall|i: int| 0 <= i < e.resources.len() ==> showable((#[trigger] e.resources[i]).resource_id),
        forall|i: int|
            0 <= i < e.resources.len() && (#[trigger] e.resources[i]).pre_state_fingerprint is Some
                ==> showable(e.resources[i].pre_state_fingerprint->0),
{
    lemma_resources_showable(e.resources);
}

proof fn lemma_resources_showable(resources: Seq<ResourceView>)
    requires
        resources_error(resources) is None,
    ensures
        forall|i: int| 0 <= i < resources.len() ==> resource_error(#[trigger] resources[i]) is None,
    decreases resources.len(),
{
    if resources.len() > 0 {
        lemma_resources_showable(resources.drop_last());
        assert forall|i: int| 0 <= i < resources.len() implies resource_error(
            #[trigger] resources[i],
        ) is None by {
            if i < resources.len() - 1 {
                assert(resources.drop_last()[i] == resources[i]);
            }
        }
    }
}

/// A response that approves one plan approves no plan whose fingerprint starts
/// otherwise.
pub proof fn law_challenge_is_bound_to_plan(response: Seq<char>, a: Seq<char>, b: Seq<char>)
    requires
        a.len() >= 12,
        b.len() >= 12,
        a.take(12) != b.take(12),
        presence_decision(response, a) is Ok,
    ensures
        presence_decision(response, b) is Err,
{
    let prefix = "approve "@;
    if challenge_text(a) == challenge_text(b) {
        assert(challenge_text(a).skip(prefix.len() as int) =~= a.take(12));
        assert(challenge_text(b).skip(prefix.len() as int) =~= b.take(12));
    }
}

} // verus!
