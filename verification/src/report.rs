//! What the commands print: values for programs, lines for people.
use vstd::prelude::*;

use crate::json::{pretty_json, pretty_text, Json, JsonView, ObjectBuilder};
use crate::laws::shown::{lemma_shows_all, shows, shows_only};
use crate::text::{optional, string_views};

pub mod agent_plugins;
pub mod catalog;
pub mod gateway;
pub mod group;
pub mod hook;
pub mod profile;
pub mod session;
pub mod toggle;
pub mod workflow;

verus! {

/// What a command prints: the value, or the lines.
pub open spec fn printed(json: bool, value: JsonView, lines: Seq<Seq<char>>) -> Option<
    Seq<Seq<char>>,
> {
    if json {
        match pretty_text(value) {
            Some(text) => Some(seq![text]),
            None => None,
        }
    } else {
        Some(lines)
    }
}

/// What a command prints: for a program the value over several lines, for
/// people the lines. There is nothing to print where the value holds a number
/// that is none.
pub fn print_report(json: bool, value: &Json, lines: Vec<String>) -> (out: Option<Vec<String>>)
    ensures
        match out {
            Some(out) => printed(json, value@, string_views(lines@)) == Some(string_views(out@)),
            None => printed(json, value@, string_views(lines@)) is None,
        },
{
    if !json {
        return Some(lines);
    }
    match pretty_json(value) {
        Some(text) => {
            let mut out: Vec<String> = Vec::new();
            out.push(text);
            assert(string_views(out@) =~= seq![text@]);
            Some(out)
        },
        None => None,
    }
}

/// What is left to a person.
pub open spec fn human_action_view(code: Seq<char>, guidance: Seq<char>) -> JsonView {
    JsonView::Object(
        seq![("code"@, JsonView::Text(code)), ("guidance"@, JsonView::Text(guidance))],
    )
}

/// What is left to a person: each part under its own name, and nothing else.
pub proof fn law_shown_human_action(code: Seq<char>, guidance: Seq<char>)
    ensures
        ({
            let shown = human_action_view(code, guidance);
            &&& shows_only(shown, 2)
            &&& shows(shown, "code"@, JsonView::Text(code))
            &&& shows(shown, "guidance"@, JsonView::Text(guidance))
        }),
{
    let shown = human_action_view(code, guidance);
    lemma_shows_all(shown);
    let at = shown->Object_0;
    assert(at[0] == at[0] && at[1] == at[1]);
}

/// What is left to a person.
pub fn human_action(code: &str, guidance: &str) -> (value: Json)
    ensures
        value@ == human_action_view(code@, guidance@),
{
    let mut out = ObjectBuilder::new();
    out.put_text("code", code);
    out.put_text("guidance", guidance);
    assert(out@ =~= human_action_view(code@, guidance@)->Object_0);
    out.finish()
}

/// How far an operation has come.
#[derive(Debug, Clone, Copy, PartialEq, Eq, Structural)]
pub enum OperationLifecycle {
    Planned,
    Blocked,
    Applied,
    NoOp,
}

/// What is left to a person.
pub struct HumanAction {
    pub code: &'static str,
    pub guidance: &'static str,
}

/// What an operation is announced with: how far it has come, what is left to a
/// person, whether they must approve, and which providers it is about.
pub struct OperationTerms {
    pub lifecycle: OperationLifecycle,
    pub action: Option<HumanAction>,
    pub approval_required: bool,
    pub providers: Vec<String>,
}

/// The providers of an operation: the one that it names, or all.
pub open spec fn concerned(provider: Option<Seq<char>>, all: Seq<Seq<char>>) -> Seq<Seq<char>> {
    match provider {
        Some(provider) => seq![provider],
        None => all,
    }
}

/// The providers of an operation: the one that it names, or all.
pub fn concerned_providers(provider: &Option<String>, all: &Vec<String>) -> (providers: Vec<String>)
    ensures
        string_views(providers@) == concerned(optional(*provider), string_views(all@)),
{
    let mut providers: Vec<String> = Vec::new();
    match provider {
        Some(provider) => {
            providers.push(provider.clone());
            assert(string_views(providers@) =~= seq![provider@]);
        },
        None => {
            let mut i: usize = 0;
            while i < all.len()
                invariant
                    i <= all@.len(),
                    providers@.len() == i,
                    forall|j: int| 0 <= j < i ==> (#[trigger] providers@[j])@ == all@[j]@,
                decreases all@.len() - i,
            {
                providers.push(all[i].clone());
                i = i + 1;
            }
            assert(string_views(providers@) =~= string_views(all@));
        },
    }
    providers
}

/// The providers that are shown where one may be asked for, as by the status of
/// the gateway, the coverage of hooks and the validation of a workflow: that
/// one, or all.
pub fn shown_providers(provider: &Option<String>, all: &Vec<String>) -> (shown: Vec<String>)
    ensures
        string_views(shown@) == (match *provider {
            Some(provider) => seq![provider@],
            None => string_views(all@),
        }),
{
    concerned_providers(provider, all)
}

/// Whether a person is asked to confirm a plan with this guidance.
pub open spec fn asks_to_confirm(action: Option<HumanAction>, guidance: Seq<char>) -> bool {
    action is Some && action->0.code@ == "confirm-and-apply"@ && action->0.guidance@ == guidance
}

/// How a plan is announced: a person confirms it before anything is done. A plan
/// that is blocked leaves them nothing to do.
pub fn planned_operation(blocked: bool, provider: &Option<String>, all: &Vec<String>) -> (terms:
    OperationTerms)
    ensures
        blocked ==> terms.lifecycle is Blocked && terms.action is None,
        !blocked ==> terms.lifecycle is Planned && asks_to_confirm(
            terms.action,
            "Re-run with --apply --confirm and this plan fingerprint"@,
        ),
        terms.approval_required,
        string_views(terms.providers@) == concerned(optional(*provider), string_views(all@)),
{
    let providers = concerned_providers(provider, all);
    if blocked {
        return OperationTerms {
            lifecycle: OperationLifecycle::Blocked,
            action: None,
            approval_required: true,
            providers,
        };
    }
    OperationTerms {
        lifecycle: OperationLifecycle::Planned,
        action: Some(
            HumanAction {
                code: "confirm-and-apply",
                guidance: "Re-run with --apply --confirm and this plan fingerprint",
            },
        ),
        approval_required: true,
        providers,
    }
}

/// How the plan of a change to a definition is announced: it is about no
/// provider.
pub fn planned_definition_change() -> (terms: OperationTerms)
    ensures
        terms.lifecycle is Planned,
        asks_to_confirm(
            terms.action,
            "Re-run with --apply --confirm and this plan fingerprint."@,
        ),
        terms.approval_required,
        terms.providers@.len() == 0,
{
    OperationTerms {
        lifecycle: OperationLifecycle::Planned,
        action: Some(
            HumanAction {
                code: "confirm-and-apply",
                guidance: "Re-run with --apply --confirm and this plan fingerprint.",
            },
        ),
        approval_required: true,
        providers: Vec::new(),
    }
}

/// How an operation that was carried out is announced: nothing is left to a
/// person.
pub fn applied_operation(no_op: bool, provider: &Option<String>, all: &Vec<String>) -> (terms:
    OperationTerms)
    ensures
        terms.lifecycle == (if no_op {
            OperationLifecycle::NoOp
        } else {
            OperationLifecycle::Applied
        }),
        terms.action is None,
        !terms.approval_required,
        string_views(terms.providers@) == concerned(optional(*provider), string_views(all@)),
{
    OperationTerms {
        lifecycle: if no_op {
            OperationLifecycle::NoOp
        } else {
            OperationLifecycle::Applied
        },
        action: None,
        approval_required: false,
        providers: concerned_providers(provider, all),
    }
}

} // verus!
