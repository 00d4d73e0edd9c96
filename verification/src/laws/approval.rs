//! Approvals: what an operator is shown, what counts as a yes, and what a receipt
//! binds.
use vstd::prelude::*;

use crate::approval::{
    approval_lifetime, challenge_text, claims_bind, line_length, operator_accepted,
    presence_decision, presence_response, prompt_text, request_error, resource_error,
    resource_views, resources_error, terminal_error, ApprovalClaims, ApprovalExpectation,
    OperatorEvidence, ResourceView, TerminalAccess,
};
use crate::text::{control_char, occurs, optional, stands_at, utf8_len};

verus! {

proof fn lemma_occurs(text: Seq<char>, before: Seq<char>, part: Seq<char>, after: Seq<char>)
    requires
        text == before + part + after,
    ensures
        occurs(text, part),
{
    let at = before.len() as int;
    assert(text.subrange(at, at + part.len()) =~= part);
    assert(stands_at(text, part, before.len() as int));
}

/// A prompt names the operation, the plan and its whole scope, each on a line
/// with its label, and ends with the words that approve this very plan.
#[verifier::rlimit(40)]
pub proof fn law_prompt_shows_what_is_approved(expectation: ApprovalExpectation, plan: Seq<char>)
    ensures
        ({
            let text = prompt_text(expectation@, plan);
            let session = match expectation.session_id {
                Some(id) => id@,
                None => "none"@,
            };
            let profile = match expectation.profile_digest {
                Some(digest) => digest@,
                None => "none"@,
            };
            let question = "Type `approve "@ + plan.take(
                if plan.len() < 12 {
                    plan.len() as int
                } else {
                    12
                },
            ) + "` exactly to approve; any other response cancels: "@;
            &&& occurs(
                text,
                "\noperation: "@ + expectation.operation_kind@ + " ("@ + expectation.operation_id@
                    + ")\n"@,
            )
            &&& occurs(text, "\nfingerprint: "@ + plan + "\n"@)
            &&& occurs(
                text,
                "\nscope: repository="@ + expectation.repository_key@ + " workspace="@
                    + expectation.workspace_key@ + " session="@ + session + " profile="@ + profile
                    + "\n"@,
            )
            &&& text.len() >= question.len()
            &&& text.skip(text.len() - question.len()) == question
        }),
{
    let e = expectation@;
    let session = crate::approval::shown(e.session_id);
    let profile = crate::approval::shown(e.profile_digest);
    let p1 = "Unpin human approval required\noperation: "@ + e.operation_kind + " ("@
        + e.operation_id;
    let p2 = p1 + ")\nfingerprint: "@;
    let p3 = p2 + plan;
    let p4 = p3 + "\nscope: repository="@;
    let s1 = e.repository_key + " workspace="@ + e.workspace_key + " session="@ + session
        + " profile="@ + profile;
    let p5 = p4 + e.repository_key + " workspace="@ + e.workspace_key + " session="@ + session
        + " profile="@ + profile;
    let p6 = p5 + "\nresources:\n"@;
    let p7 = p6 + crate::approval::resource_lines(e.resources);
    let p8 = p7 + "Type `"@ + challenge_text(plan);
    let text = prompt_text(e, plan);
    assert(text == p8 + "` exactly to approve; any other response cancels: "@);
    lemma_grouped(
        p4,
        e.repository_key,
        " workspace="@,
        e.workspace_key,
        " session="@,
        session,
        " profile="@,
        profile,
    );
    lemma_operation_line(e.operation_kind, e.operation_id);
    lemma_fingerprint_line(p1, plan);
    lemma_scope_line(p3, s1);
    let operation = "\noperation: "@ + e.operation_kind + " ("@ + e.operation_id + ")\n"@;
    let fingerprint = "\nfingerprint: "@ + plan + "\n"@;
    let scope = "\nscope: repository="@ + e.repository_key + " workspace="@ + e.workspace_key
        + " session="@ + session + " profile="@ + profile + "\n"@;
    lemma_grouped(
        "\nscope: repository="@,
        e.repository_key,
        " workspace="@,
        e.workspace_key,
        " session="@,
        session,
        " profile="@,
        profile,
    );
    assert(scope == "\nscope: repository="@ + s1 + "\n"@);
    lemma_occurs_on(p2, operation, plan);
    lemma_occurs_on(p3, operation, "\nscope: repository="@);
    lemma_occurs_on(p4, operation, s1);
    lemma_occurs_on(p5, operation, "\nresources:\n"@);
    lemma_occurs_on(p4, fingerprint, s1);
    lemma_occurs_on(p5, fingerprint, "\nresources:\n"@);
    let rest = crate::approval::resource_lines(e.resources) + "Type `"@ + challenge_text(plan)
        + "` exactly to approve; any other response cancels: "@;
    lemma_grouped_short(
        p6,
        crate::approval::resource_lines(e.resources),
        "Type `"@,
        challenge_text(plan),
        "` exactly to approve; any other response cancels: "@,
    );
    assert(text == p6 + rest);
    lemma_occurs_on(p6, operation, rest);
    lemma_occurs_on(p6, fingerprint, rest);
    lemma_occurs_on(p6, scope, rest);
    lemma_question(p7, plan);
}

proof fn lemma_grouped(
    start: Seq<char>,
    a: Seq<char>,
    b: Seq<char>,
    c: Seq<char>,
    d: Seq<char>,
    e: Seq<char>,
    f: Seq<char>,
    g: Seq<char>,
)
    ensures
        start + a + b + c + d + e + f + g == start + (a + b + c + d + e + f + g),
{
    lemma_grouped_short(start, a, b, c, d);
    lemma_grouped_short(start, a + b + c + d, e, f, g);
}

proof fn lemma_grouped_short(
    start: Seq<char>,
    a: Seq<char>,
    b: Seq<char>,
    c: Seq<char>,
    d: Seq<char>,
)
    ensures
        start + a + b + c + d == start + (a + b + c + d),
{
    assert(start + a + b =~= start + (a + b));
    assert(start + (a + b) + c =~= start + (a + b + c));
    assert(start + (a + b + c) + d =~= start + (a + b + c + d));
}

proof fn lemma_occurs_on(text: Seq<char>, part: Seq<char>, more: Seq<char>)
    requires
        occurs(text, part),
    ensures
        occurs(text + more, part),
{
    let i = choose|i: int| 0 <= i && #[trigger] stands_at(text, part, i);
    assert((text + more).subrange(i, i + part.len()) =~= text.subrange(i, i + part.len()));
    assert(stands_at(text + more, part, i));
}

proof fn lemma_operation_line(kind: Seq<char>, id: Seq<char>)
    ensures
        occurs(
            "Unpin human approval required\noperation: "@ + kind + " ("@ + id
                + ")\nfingerprint: "@,
            "\noperation: "@ + kind + " ("@ + id + ")\n"@,
        ),
{
    reveal_strlit("Unpin human approval required\noperation: ");
    reveal_strlit("Unpin human approval required");
    reveal_strlit("\noperation: ");
    reveal_strlit(")\nfingerprint: ");
    reveal_strlit(")\n");
    reveal_strlit("fingerprint: ");
    let before = "Unpin human approval required"@;
    let part = "\noperation: "@ + kind + " ("@ + id + ")\n"@;
    assert("Unpin human approval required\noperation: "@ =~= before + "\noperation: "@);
    assert(")\nfingerprint: "@ =~= ")\n"@ + "fingerprint: "@);
    let text = "Unpin human approval required\noperation: "@ + kind + " ("@ + id
        + ")\nfingerprint: "@;
    assert(text =~= before + part + "fingerprint: "@);
    lemma_occurs(text, before, part, "fingerprint: "@);
}

proof fn lemma_fingerprint_line(start: Seq<char>, plan: Seq<char>)
    ensures
        occurs(
            start + ")\nfingerprint: "@ + plan + "\nscope: repository="@,
            "\nfingerprint: "@ + plan + "\n"@,
        ),
{
    reveal_strlit(")\nfingerprint: ");
    reveal_strlit(")");
    reveal_strlit("\nfingerprint: ");
    reveal_strlit("\nscope: repository=");
    reveal_strlit("scope: repository=");
    reveal_strlit("\n");
    assert(")\nfingerprint: "@ =~= ")"@ + "\nfingerprint: "@);
    assert("\nscope: repository="@ =~= "\n"@ + "scope: repository="@);
    let text = start + ")\nfingerprint: "@ + plan + "\nscope: repository="@;
    let part = "\nfingerprint: "@ + plan + "\n"@;
    assert(text =~= (start + ")"@) + part + "scope: repository="@);
    lemma_occurs(text, start + ")"@, part, "scope: repository="@);
}

proof fn lemma_scope_line(start: Seq<char>, scope: Seq<char>)
    ensures
        occurs(
            start + "\nscope: repository="@ + scope + "\nresources:\n"@,
            "\nscope: repository="@ + scope + "\n"@,
        ),
{
    reveal_strlit("\nresources:\n");
    reveal_strlit("resources:\n");
    reveal_strlit("\n");
    assert("\nresources:\n"@ =~= "\n"@ + "resources:\n"@);
    let text = start + "\nscope: repository="@ + scope + "\nresources:\n"@;
    let part = "\nscope: repository="@ + scope + "\n"@;
    assert(text =~= start + part + "resources:\n"@);
    lemma_occurs(text, start, part, "resources:\n"@);
}

proof fn lemma_question(start: Seq<char>, plan: Seq<char>)
    ensures
        ({
            let ending = "` exactly to approve; any other response cancels: "@;
            let text = start + "Type `"@ + challenge_text(plan) + ending;
            let question = "Type `approve "@ + plan.take(
                if plan.len() < 12 {
                    plan.len() as int
                } else {
                    12
                },
            ) + ending;
            text.len() >= question.len() && text.skip(text.len() - question.len()) == question
        }),
{
    let ending = "` exactly to approve; any other response cancels: "@;
    let text = start + "Type `"@ + challenge_text(plan) + ending;
    let question = "Type `approve "@ + plan.take(
        if plan.len() < 12 {
            plan.len() as int
        } else {
            12
        },
    ) + ending;
    reveal_strlit("Type `");
    reveal_strlit("approve ");
    reveal_strlit("Type `approve ");
    assert("Type `approve "@ =~= "Type `"@ + "approve "@);
    assert(text =~= start + question);
    assert(text.skip(text.len() - question.len()) =~= question);
}

/// A response approves exactly if it is the word and the start of the plan's
/// fingerprint, up to its twelfth character; anything else is refused, and an
/// empty one counts as cancelled.
pub proof fn law_only_the_challenge_approves(response: Seq<char>, plan: Seq<char>)
    ensures
        presence_decision(response, plan) is Ok <==> {
            &&& response.len() == 8 + (if plan.len() < 12 {
                plan.len()
            } else {
                12
            })
            &&& response.take(8) == "approve "@
            &&& forall|i: int| 8 <= i < response.len() ==> response[i] == plan[i - 8]
        },
        response.len() == 0 ==> presence_decision(response, plan) == Err::<(), Seq<char>>(
            "human approval cancelled"@,
        ),
        response.len() > 0 && presence_decision(response, plan) is Err ==> presence_decision(
            response,
            plan,
        ) == Err::<(), Seq<char>>("human approval rejected: response did not match challenge"@),
{
    reveal_strlit("approve ");
    let challenge = challenge_text(plan);
    if response == challenge {
        assert(response.take(8) =~= "approve "@);
    }
    if response.len() == challenge.len() && response.take(8) == "approve "@ && (forall|i: int|
        8 <= i < response.len() ==> response[i] == plan[i - 8]) {
        assert forall|i: int| 0 <= i < response.len() implies response[i] == challenge[i] by {
            if i < 8 {
                assert(response.take(8)[i] == response[i]);
            }
        }
        assert(response =~= challenge);
    }
}

/// A response is the first line of what was typed, and only that line is taken
/// from the input.
pub proof fn law_response_is_the_first_line(typed: Seq<u8>)
    ensures
        presence_response(typed).0 is Ok ==> exists|n: int|
            #![trigger typed.take(n)]
            {
                &&& 0 <= n <= 256 && n <= typed.len()
                &&& forall|i: int| 0 <= i < n ==> typed[i] != 10 && typed[i] != 13
                &&& n == typed.len() || typed[n] == 10 || typed[n] == 13
                &&& presence_response(typed).0 == Ok::<Seq<char>, Seq<char>>(
                    vstd::utf8::decode_utf8(typed.take(n)),
                )
                &&& n < typed.len() ==> presence_response(typed).1 == typed.skip(n + 1)
                &&& n == typed.len() ==> presence_response(typed).1.len() == 0
            },
        typed.len() == 0 ==> presence_response(typed).0 == Err::<Seq<char>, Seq<char>>(
            "human approval cancelled"@,
        ),
        typed.len() > 256 && (forall|i: int| 0 <= i <= 256 ==> typed[i] != 10 && typed[i] != 13)
            ==> presence_response(typed).0 == Err::<Seq<char>, Seq<char>>(
            "human approval response is too long"@,
        ),
{
    lemma_line_end(typed);
    let n = line_length(typed) as int;
    assert(typed.take(n) == typed.take(n));
}

proof fn lemma_line_end(s: Seq<u8>)
    ensures
        line_length(s) <= s.len(),
        forall|i: int| 0 <= i < line_length(s) ==> s[i] != 10 && s[i] != 13,
        line_length(s) == s.len() || s[line_length(s) as int] == 10 || s[line_length(s) as int]
            == 13,
    decreases s.len(),
{
    if s.len() > 0 && s[0] != 10 && s[0] != 13 {
        lemma_line_end(s.skip(1));
        assert forall|i: int| 0 <= i < line_length(s) implies s[i] != 10 && s[i] != 13 by {
            if i > 0 {
                assert(s.skip(1)[i - 1] == s[i]);
            }
        }
        if line_length(s) < s.len() {
            assert(s.skip(1)[line_length(s) - 1] == s[line_length(s) as int]);
        }
    }
}

/// What may be put before an operator: something, at most 1024 bytes of it, and
/// no control characters, so that it stays on its line.
pub open spec fn fits_a_line(value: Seq<char>) -> bool {
    &&& value.len() > 0
    &&& utf8_len(value) <= 1024
    &&& forall|i: int| 0 <= i < value.len() ==> !control_char(#[trigger] value[i])
}

/// An approval is asked for exactly if the plan that was reviewed is the plan
/// that is approved and the one that is expected, there is a resource, and all
/// that would be shown fits its line.
pub proof fn law_requests_bind_their_plan(
    expectation: ApprovalExpectation,
    plan: Seq<char>,
    reviewed: Option<Seq<char>>,
)
    ensures
        request_error(expectation@, plan, reviewed) is None <==> {
            &&& reviewed == Some(plan)
            &&& expectation.effect_graph_digest@ == plan
            &&& fits_a_line(plan)
            &&& fits_a_line(expectation.operation_id@)
            &&& fits_a_line(expectation.operation_kind@)
            &&& fits_a_line(expectation.repository_key@)
            &&& fits_a_line(expectation.workspace_key@)
            &&& expectation.session_id is Some ==> fits_a_line(expectation.session_id->0@)
            &&& expectation.profile_digest is Some ==> fits_a_line(expectation.profile_digest->0@)
            &&& expectation.resources@.len() > 0
            &&& forall|i: int|
                0 <= i < expectation.resources@.len() ==> {
                    let resource = #[trigger] expectation.resources@[i];
                    &&& fits_a_line(resource.resource_id@)
                    &&& resource.pre_state_fingerprint is Some ==> fits_a_line(
                        resource.pre_state_fingerprint->0@,
                    )
                }
        },
        reviewed != Some(plan) ==> request_error(expectation@, plan, reviewed) == Some(
            "plan-fingerprint-mismatch"@,
        ),
        reviewed == Some(plan) && expectation.effect_graph_digest@ != plan ==> request_error(
            expectation@,
            plan,
            reviewed,
        ) == Some("plan fingerprint does not bind approval expectation"@),
{
    let views = resource_views(expectation.resources@);
    lemma_resources_error(views);
    assert forall|i: int| 0 <= i < views.len() implies (resource_error(#[trigger] views[i]) is None
        <==> {
        let resource = expectation.resources@[i];
        &&& fits_a_line(resource.resource_id@)
        &&& resource.pre_state_fingerprint is Some ==> fits_a_line(
            resource.pre_state_fingerprint->0@,
        )
    }) by {
        assert(views[i] == expectation.resources@[i]@);
    }
    if resources_error(views) is None {
        assert forall|i: int| 0 <= i < expectation.resources@.len() implies {
            let resource = #[trigger] expectation.resources@[i];
            &&& fits_a_line(resource.resource_id@)
            &&& resource.pre_state_fingerprint is Some ==> fits_a_line(
                resource.pre_state_fingerprint->0@,
            )
        } by {
            assert(resource_error(views[i]) is None);
        }
    }
}

proof fn lemma_resources_error(resources: Seq<ResourceView>)
    ensures
        resources_error(resources) is None <==> forall|i: int|
            0 <= i < resources.len() ==> resource_error(#[trigger] resources[i]) is None,
    decreases resources.len(),
{
    if resources.len() > 0 {
        let shorter = resources.drop_last();
        lemma_resources_error(shorter);
        assert(forall|i: int| 0 <= i < shorter.len() ==> shorter[i] == #[trigger] resources[i]);
        if resources_error(shorter) is None {
            assert forall|i: int| 0 <= i < shorter.len() implies resource_error(
                #[trigger] resources[i],
            ) is None by {
                assert(resource_error(shorter[i]) is None);
            }
        } else {
            let i = choose|i: int|
                0 <= i < shorter.len() && resource_error(#[trigger] shorter[i]) is Some;
            assert(resource_error(resources[i]) is Some);
        }
        assert(resources[resources.len() - 1] == resources.last());
    }
}

/// A receipt is bound to the operation that was approved: to all of its scope
/// and to each of its resources, in order.
pub proof fn law_receipt_binds_what_was_approved(
    claims: ApprovalClaims,
    expectation: ApprovalExpectation,
    suffix: Seq<char>,
    issued: int,
    expires: int,
)
    requires
        claims_bind(claims, expectation@, suffix, issued, expires),
    ensures
        claims.operation_id@ == expectation.operation_id@,
        claims.operation_kind@ == expectation.operation_kind@,
        claims.effect_graph_digest@ == expectation.effect_graph_digest@,
        claims.repository_key@ == expectation.repository_key@,
        claims.workspace_key@ == expectation.workspace_key@,
        optional(claims.session_id) == optional(expectation.session_id),
        optional(claims.profile_digest) == optional(expectation.profile_digest),
        claims.resources@.len() == expectation.resources@.len(),
        forall|i: int|
            0 <= i < claims.resources@.len() ==> {
                &&& (#[trigger] claims.resources@[i]).resource_id@
                    == expectation.resources@[i].resource_id@
                &&& optional(claims.resources@[i].pre_state_fingerprint) == optional(
                    expectation.resources@[i].pre_state_fingerprint,
                )
            },
        claims.receipt_id@ == "human-approval-"@ + suffix,
        claims.nonce@ == "human-approval-nonce-"@ + suffix,
        claims.issued_at_unix == issued,
        claims.expires_at_unix == expires,
        claims.version == 1,
{
    let seen = resource_views(claims.resources@);
    let wanted = resource_views(expectation.resources@);
    assert(seen.len() == claims.resources@.len());
    assert forall|i: int| 0 <= i < claims.resources@.len() implies {
        &&& (#[trigger] claims.resources@[i]).resource_id@
            == expectation.resources@[i].resource_id@
        &&& optional(claims.resources@[i].pre_state_fingerprint) == optional(
            expectation.resources@[i].pre_state_fingerprint,
        )
    } by {
        assert(seen[i] == wanted[i]);
        assert(seen[i] == claims.resources@[i]@);
        assert(wanted[i] == expectation.resources@[i]@);
    }
}

/// An approval is short-lived: never longer than five minutes, nor than what is
/// allowed, and as long as one of them.
pub proof fn law_approvals_are_short(maximum: i64)
    ensures
        approval_lifetime(maximum) <= 300,
        approval_lifetime(maximum) <= maximum,
        approval_lifetime(maximum) == 300 || approval_lifetime(maximum) == maximum,
{
}

/// Nobody is asked without a terminal that was opened.
pub proof fn law_only_an_open_terminal_asks(access: TerminalAccess)
    ensures
        terminal_error(access) is None <==> access is Opened,
{
}

/// An operator's receipt counts only under a descriptor of its own, for a plan
/// that binds, while it is no longer than 128 KiB, and where a key was there to
/// verify it and it was verified.
pub proof fn law_operator_receipts_are_verified<T>(
    expectation: ApprovalExpectation,
    plan: Seq<char>,
    reviewed: Option<Seq<char>>,
    descriptor: i32,
    evidence: OperatorEvidence<T>,
)
    ensures
        operator_accepted(expectation@, plan, reviewed, descriptor, evidence) <==> {
            &&& reviewed == Some(plan)
            &&& request_error(expectation@, plan, reviewed) is None
            &&& descriptor >= 3
            &&& evidence.read is Ok && evidence.read->Ok_0@.len() <= 128 * 1024
            &&& evidence.parsed is Ok
            &&& evidence.key matches Ok(Some(_))
            &&& evidence.authorized is Ok
        },
{
}

} // verus!
