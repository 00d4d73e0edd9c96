//! Parameters, and how values are seen: what a request may hold, and that nothing
//! is lost between a value and its view.
use vstd::prelude::*;

use crate::agent_plugin::ProviderRow;
use crate::approval::{resource_views, ApprovalResource};
use crate::bridge_request::{
    coded, optional_param, params_error, parses_to, pid_in, required_text, texts, window_after,
    BridgeRequestView, Request, RequestError,
};
use crate::bridge_stage::{failure_code, BridgeStage};
use crate::broker_install::{DirectoryStep, DirectoryStepView, InstallStep, InstallStepView};
use crate::commands::flow::{CommandMove, EventView, MoveView, StepEvent};
use crate::commands::group::{member_texts, member_views, GroupMember, MemberText};
use crate::commands::hook::listing_views;
use crate::commands::toggle::{named_or, names, DiscoveryKind};
use crate::group_definition::ReviewedDefinitionChange;
use crate::json::{
    field, found, found_text, item_views, text_or_null, text_values, value_or_null, Json, JsonView,
    Member,
};
use crate::laws::bridge::step_code;
use crate::laws::shown::{gives_text, only_keys};
use crate::ordering::{entry_views, ranked_views, OrderedEntry, RankedName};
use crate::provider_roots::{sealed_views, ProviderRoot};
use crate::report::hook::HookListing;
use crate::report::profile::ProfileListing;
use crate::report::workflow::WorkflowListing;
use crate::text::{
    alphanumeric_char, blank, control_byte, control_char, hex_char, optional, outcome,
    string_views, trimmed, white_space,
};
use crate::reviewed_plans::Reviewed;
use crate::workflow::{mode_views, ReviewedWorkflowLaunch, WorkflowModeDraft, WorkflowProposal};

verus! {

/// A text parameter is read exactly if it is given, is not empty and is not too
/// long.
pub proof fn law_texts_are_required(params: JsonView, key: Seq<char>, text: Seq<char>)
    ensures
        required_text(params, key) == Ok::<Seq<char>, Seq<char>>(text) <==> gives_text(
            params,
            key,
            text,
        ),
        required_text(params, key) is Err ==> required_text(params, key) == Err::<
            Seq<char>,
            Seq<char>,
        >("invalid-params"@),
{
}

/// A text that need not be given is read where it is, and nothing is read where
/// it is absent or null.
pub proof fn law_texts_may_be_absent(params: JsonView, key: Seq<char>, text: Seq<char>)
    ensures
        optional_param(params, key) == Ok::<Option<Seq<char>>, Seq<char>>(Some(text))
            <==> gives_text(params, key, text),
        optional_param(params, key) == Ok::<Option<Seq<char>>, Seq<char>>(None) <==> field(
            params,
            key,
        ) is None || field(params, key) == Some(JsonView::Null),
{
}

/// Parameters are refused exactly if they are no object or hold a key that is
/// not known.
pub proof fn law_unknown_parameters_are_refused(params: JsonView, keys: Seq<Seq<char>>)
    ensures
        params_error(params, keys) is None <==> only_keys(params, keys),
        !(params is Object) ==> params_error(params, keys) == Some("invalid-params"@),
        params is Object && !only_keys(params, keys) ==> params_error(params, keys) == Some(
            "unknown-parameter"@,
        ),
{
}

/// A process id is read where it fits.
pub proof fn law_process_ids_are_read(n: u64, pid: u32)
    ensures
        pid_in(Some(JsonView::Unsigned(n))) == Some(pid) <==> n == pid,
        n > u32::MAX ==> pid_in(Some(JsonView::Unsigned(n))) is None,
        pid_in(None) is None,
{
}

/// What a request was read as is handed on: the request, or its id and what is
/// wrong with it.
pub proof fn law_requests_are_handed_on(
    r: Result<Request, RequestError>,
    expected: Result<BridgeRequestView, (Option<Seq<char>>, Seq<char>)>,
)
    requires
        parses_to(r, expected),
    ensures
        match r {
            Ok(request) => expected is Ok && expected->Ok_0.id == request.id@
                && expected->Ok_0.method == request.method@ && expected->Ok_0.params
                == request.params@ && expected->Ok_0.auth == optional(request.auth),
            Err(error) => expected is Err && expected->Err_0.0 == optional(error.id)
                && expected->Err_0.1 == error.code@,
        },
{
}

/// Only a request that is handled is remembered.
pub proof fn law_refused_requests_are_forgotten(parsed: Option<JsonView>, seen: Seq<Seq<char>>)
    ensures
        ({
            let complete = crate::bridge_frame::FrameStatus::Complete;
            let outcome = crate::bridge_request::frame_outcome(complete, parsed, seen);
            &&& outcome is Err ==> window_after(complete, parsed, seen) == seen
            &&& outcome is Ok ==> window_after(complete, parsed, seen).contains(outcome->Ok_0.id)
            &&& window_after(crate::bridge_frame::FrameStatus::Oversized, parsed, seen) == seen
        }),
{
    let complete = crate::bridge_frame::FrameStatus::Complete;
    let outcome = crate::bridge_request::frame_outcome(complete, parsed, seen);
    let after = window_after(complete, parsed, seen);
    if outcome is Ok {
        assert(after.last() == outcome->Ok_0.id);
        assert(after[after.len() - 1] == outcome->Ok_0.id);
    }
}

/// Each stage that fails has its code.
pub proof fn law_stages_have_their_codes(stage: BridgeStage)
    ensures
        failure_code(stage) == step_code(stage),
{
}

/// A result is seen as it is: what it holds by its view, and what went wrong by
/// its text.
pub proof fn law_outcomes_are_seen<T: View>(value: T, error: String, code: &'static str)
    ensures
        outcome(Ok::<T, String>(value)) == Ok::<T::V, Seq<char>>(value@),
        outcome(Err::<T, String>(error)) == Err::<T::V, Seq<char>>(error@),
        coded(Ok::<T, &'static str>(value)) == Ok::<T::V, Seq<char>>(value@),
        coded(Err::<T, &'static str>(code)) == Err::<T::V, Seq<char>>(code@),
        optional(Some(value)) == Some(value@),
        optional(None::<T>) == None::<T::V>,
{
}

/// What is found is seen as it is, and shown as null where nothing is.
pub proof fn law_found_values_are_seen(value: &Json, text: &str, shown: Seq<char>, json: JsonView)
    ensures
        found(Some(value)) == Some(value@),
        found(None) is None,
        found_text(Some(text)) == Some(text@),
        found_text(None) is None,
        text_or_null(Some(shown)) == JsonView::Text(shown),
        text_or_null(None) == JsonView::Null,
        value_or_null(Some(json)) == json,
        value_or_null(None) == JsonView::Null,
{
}

/// Texts are seen one by one, and shown one by one.
pub proof fn law_texts_are_seen(list: Seq<String>, names: Seq<&'static str>, shown: Seq<Seq<char>>)
    ensures
        string_views(list).len() == list.len(),
        forall|i: int| 0 <= i < list.len() ==> #[trigger] string_views(list)[i] == list[i]@,
        texts(names).len() == names.len(),
        forall|i: int| 0 <= i < names.len() ==> #[trigger] texts(names)[i] == names[i]@,
        text_values(shown).len() == shown.len(),
        forall|i: int|
            0 <= i < shown.len() ==> #[trigger] text_values(shown)[i] == JsonView::Text(shown[i]),
{
}

/// Values and members are seen one by one.
pub proof fn law_values_are_seen(items: Seq<Json>, members: Seq<Member>)
    ensures
        item_views(items).len() == items.len(),
        forall|i: int| 0 <= i < items.len() ==> #[trigger] item_views(items)[i] == items[i]@,
        crate::json::member_views(members).len() == members.len(),
        forall|i: int|
            0 <= i < members.len() ==> (#[trigger] crate::json::member_views(members)[i]).0
                == members[i].key@ && crate::json::member_views(members)[i].1 == members[i].value@,
{
}

/// A value is seen as what it is.
pub proof fn law_json_is_seen(value: Json)
    ensures
        match value {
            Json::Null => value@ == JsonView::Null,
            Json::Bool(b) => value@ == JsonView::Bool(b),
            Json::Unsigned(n) => value@ == JsonView::Unsigned(n),
            Json::Negative(n) => value@ == JsonView::Negative(n),
            Json::Decimal(text) => value@ == JsonView::Decimal(text@),
            Json::Text(text) => value@ == JsonView::Text(text@),
            Json::Array(items) => value@ == JsonView::Array(item_views(items@)),
            Json::Object(members) => value@ == JsonView::Object(
                crate::json::member_views(members@),
            ),
        },
{
    crate::json::lemma_views(value);
}

/// Entries and ranked names are seen one by one.
pub proof fn law_entries_are_seen<T: View>(list: Seq<OrderedEntry<T>>, names: Seq<RankedName>)
    ensures
        entry_views(list).len() == list.len(),
        forall|i: int|
            0 <= i < list.len() ==> (#[trigger] entry_views(list)[i]).0 == list[i].key@
                && entry_views(list)[i].1 == list[i].rank && entry_views(list)[i].2
                == list[i].value@,
        ranked_views(names).len() == names.len(),
        forall|i: int|
            0 <= i < names.len() ==> (#[trigger] ranked_views(names)[i]).0 == names[i].rank
                && ranked_views(names)[i].1 == names[i].name@,
{
}

/// Roots, resources, modes, hooks and members are seen one by one.
pub proof fn law_parts_are_seen(
    roots: Seq<ProviderRoot>,
    resources: Seq<ApprovalResource>,
    modes: Seq<WorkflowModeDraft>,
    hooks: Seq<HookListing>,
)
    ensures
        sealed_views(roots).len() == roots.len(),
        forall|i: int|
            0 <= i < roots.len() ==> (#[trigger] sealed_views(roots)[i]).provider
                == roots[i].provider && sealed_views(roots)[i].name == roots[i].name@
                && sealed_views(roots)[i].scope == roots[i].scope && sealed_views(roots)[i].root
                == roots[i].root@,
        resource_views(resources).len() == resources.len(),
        forall|i: int|
            0 <= i < resources.len() ==> (#[trigger] resource_views(resources)[i]).resource_id
                == resources[i].resource_id@ && resource_views(
                resources,
            )[i].pre_state_fingerprint == optional(resources[i].pre_state_fingerprint),
        mode_views(modes).len() == modes.len(),
        forall|i: int|
            0 <= i < modes.len() ==> (#[trigger] mode_views(modes)[i]).0 == modes[i].name@
                && mode_views(modes)[i].1 == modes[i].profile_id@,
        listing_views(hooks).len() == hooks.len(),
        forall|i: int|
            0 <= i < hooks.len() ==> (#[trigger] listing_views(hooks)[i]).0 == optional(hooks[i].id)
                && listing_views(hooks)[i].1 == hooks[i].item@ && listing_views(hooks)[i].2
                == hooks[i].trusted,
{
}

/// The members of a group are seen one by one, as they were written and as they
/// were read.
pub proof fn law_members_are_seen(written: Seq<MemberText>, members: Seq<GroupMember>)
    ensures
        member_texts(written).len() == written.len(),
        forall|i: int|
            0 <= i < written.len() ==> (#[trigger] member_texts(written)[i]).text
                == written[i].text@ && member_texts(written)[i].provider_known
                == written[i].provider_known,
        member_views(members).len() == members.len(),
        forall|i: int|
            0 <= i < members.len() ==> {
                let seen = #[trigger] member_views(members)[i];
                &&& seen.provider == members[i].provider@
                &&& seen.layer == members[i].layer
                &&& seen.kind == members[i].kind
                &&& seen.category == members[i].category
                &&& seen.id == members[i].id@
            },
{
}

/// A name that is not known is named in the complaint.
pub proof fn law_unknown_names_are_named(
    found: Option<DiscoveryKind>,
    complaint: Seq<char>,
    name: Seq<char>,
    r: Result<DiscoveryKind, String>,
)
    requires
        names(r, named_or(found, complaint, name)),
    ensures
        match r {
            Ok(kind) => found == Some(kind),
            Err(message) => found is None && message@ == complaint + name,
        },
{
}

/// A text is blank exactly if nothing of it is left by trimming.
pub proof fn law_blank_texts_trim_away(text: Seq<char>)
    ensures
        blank(text) <==> trimmed(text).len() == 0,
    decreases text.len(),
{
    crate::laws::texts::law_trimming_keeps_the_middle(text);
    let (from, to) = choose|from: int, to: int|
        crate::laws::texts::is_middle(text, from, to, trimmed(text));
    if trimmed(text).len() == 0 {
        assert(text.subrange(from, to).len() == 0);
        assert(from == to);
        assert forall|i: int| 0 <= i < text.len() implies white_space(#[trigger] text[i]) by {
            if i < from {
                assert(white_space(text[i]));
            } else {
                assert(white_space(text[i]));
            }
        }
    } else {
        assert(text.subrange(from, to)[0] == text[from]);
        assert(!white_space(text[from]));
    }
}

/// The characters that stand for nothing, those of plain text, and the digits.
pub proof fn law_characters_are_told_apart(c: char, b: u8)
    ensures
        ' ' <= c <= '~' ==> !control_char(c),
        (c as u32) < 32 || c as u32 == 127 ==> control_char(c),
        128 <= c as u32 <= 159 ==> control_char(c),
        c as u32 > 159 ==> !control_char(c),
        32 <= b <= 126 || b >= 128 ==> !control_byte(b),
        b < 32 || b == 127 ==> control_byte(b),
        '0' <= c <= '9' ==> hex_char(c) && alphanumeric_char(c),
        'a' <= c <= 'f' || 'A' <= c <= 'F' ==> hex_char(c),
        'g' <= c <= 'z' || 'G' <= c <= 'Z' ==> !hex_char(c) && alphanumeric_char(c),
        alphanumeric_char(c) ==> !white_space(c) && !control_char(c),
        hex_char(c) ==> alphanumeric_char(c),
        (9 <= c as u32 <= 13) || c == ' ' ==> white_space(c),
        '!' <= c <= '~' ==> !white_space(c),
{
}

/// A change or a launch under review is seen with what is reviewed, and lapses by
/// when it was.
pub proof fn law_reviews_are_seen<D>(
    change: ReviewedDefinitionChange<D>,
    launch: ReviewedWorkflowLaunch,
)
    ensures
        change@.action == change.action@,
        change@.fingerprint == change.plan_fingerprint@,
        change@.reviewed_at == change.reviewed_at_unix,
        ReviewedDefinitionChange::<D>::reviewed_at(change@) == change.reviewed_at_unix,
        launch@.0 == launch.proposal@,
        launch@.1 == launch.reviewed_at_unix,
        ReviewedWorkflowLaunch::reviewed_at(launch@) == launch.reviewed_at_unix,
{
}

/// A step of an installation is seen as what it is.
pub proof fn law_installation_steps_are_seen(step: InstallStep, directory: DirectoryStep)
    ensures
        match step {
            InstallStep::Continue(stage) => step@ == InstallStepView::Continue(stage),
            InstallStep::Installed => step@ == InstallStepView::Installed,
            InstallStep::Fail(error) => step@ == InstallStepView::Fail(error@),
            InstallStep::CleanUpThenFail(error) => step@ == InstallStepView::CleanUpThenFail(
                error@,
            ),
        },
        match directory {
            DirectoryStep::Continue(stage) => directory@ == DirectoryStepView::Continue(stage),
            DirectoryStep::Ready => directory@ == DirectoryStepView::Ready,
            DirectoryStep::Fail(error) => directory@ == DirectoryStepView::Fail(error@),
        },
{
}

/// What came of a step of a command, and what is done next, are seen as they are.
pub proof fn law_moves_are_seen(event: StepEvent, next: CommandMove)
    ensures
        match event {
            StepEvent::Done => event@ == EventView::Done,
            StepEvent::Missing => event@ == EventView::Missing,
            StepEvent::Failed { message, class } => event@ == (EventView::Failed {
                message: message@,
                class,
            }),
            StepEvent::Reviewed(outcome) => event@ == EventView::Reviewed(outcome),
        },
        match next {
            CommandMove::Perform(step) => next@ == MoveView::Perform(step),
            CommandMove::ShowPlan => next@ == MoveView::ShowPlan,
            CommandMove::Finish => next@ == MoveView::Finish,
            CommandMove::Stop { status, message, exit } => next@ == (MoveView::Stop {
                status: status@,
                message: message@,
                exit,
            }),
        },
{
}

/// What is listed is seen whole.
pub proof fn law_listings_are_seen(
    profile: ProfileListing,
    workflow: WorkflowListing,
    member: MemberText,
    row: ProviderRow,
)
    ensures
        profile@.scope == profile.scope@,
        profile@.display_name == profile.display_name@,
        profile@.value == profile.value@,
        workflow@.scope == workflow.scope@,
        workflow@.display_name == workflow.display_name@,
        workflow@.modes == workflow.modes,
        workflow@.value == workflow.value@,
        member@.identity == outcome(member.identity),
        row@.0 == row.provider@,
        row@.1 == row.value@,
{
}

/// A proposal is seen whole.
pub proof fn law_proposals_are_seen(proposal: WorkflowProposal)
    ensures
        proposal@.proposal_id == proposal.proposal_id@,
        proposal@.proposal_fingerprint == proposal.proposal_fingerprint@,
        proposal@.prompt_digest == proposal.prompt_digest@,
        proposal@.workflow_id == proposal.workflow_id@,
        proposal@.entry_mode == proposal.entry_mode@,
        proposal@.provider == proposal.provider@,
        proposal@.repository_key == proposal.repository_key@,
        proposal@.workspace_key == proposal.workspace_key@,
        proposal@.catalog_revision == proposal.catalog_revision@,
        proposal@.workflow_revision == proposal.workflow_revision@,
        proposal@.capability_count == proposal.capability_count,
        proposal@.gateway_required == proposal.gateway_required,
{
}

} // verus!
