//! Sessions: which profile a session is pinned to, and how its commands run.
use vstd::prelude::*;

use crate::commands::flow::{
    blocking, blocks, failing, fails, law_steps_follow_success, passed, recovering, recovers,
    reviewed_first, steps_taken, CommandStep, EventView, StepRule,
};
use crate::commands::profile::{change_error_status, ProfileSourceScope};
use crate::json::{array, item_views, Json, JsonView, ObjectBuilder};
use crate::laws::shown::{lemma_shows_all, shows, shows_only};
use crate::laws::steps::stands_before;
use crate::text::{joined, optional, same_text};

verus! {

/// What a session is pinned to.
pub enum PinnedProfile {
    Native,
    Empty,
    Profile {
        profile_id: String,
        profile_digest: String,
        origin_scope: ProfileSourceScope,
        definition_digest: String,
    },
}

pub enum PinnedView {
    Native,
    Empty,
    Profile {
        profile_id: Seq<char>,
        profile_digest: Seq<char>,
        origin_scope: ProfileSourceScope,
        definition_digest: Seq<char>,
    },
}

impl View for PinnedProfile {
    type V = PinnedView;

    open spec fn view(&self) -> PinnedView {
        match self {
            PinnedProfile::Native => PinnedView::Native,
            PinnedProfile::Empty => PinnedView::Empty,
            PinnedProfile::Profile {
                profile_id,
                profile_digest,
                origin_scope,
                definition_digest,
            } => PinnedView::Profile {
                profile_id: profile_id@,
                profile_digest: profile_digest@,
                origin_scope: *origin_scope,
                definition_digest: definition_digest@,
            },
        }
    }
}

/// The scope with a name; the workspace where none is given.
pub open spec fn origin_named(name: Option<Seq<char>>) -> Option<ProfileSourceScope> {
    match name {
        None => Some(ProfileSourceScope::Workspace),
        Some(name) => if name == "global"@ {
            Some(ProfileSourceScope::Global)
        } else if name == "repository"@ {
            Some(ProfileSourceScope::Repository)
        } else if name == "workspace"@ {
            Some(ProfileSourceScope::Workspace)
        } else if name == "session"@ {
            Some(ProfileSourceScope::Session)
        } else {
            None
        },
    }
}

/// What the arguments of a launch pin: native behaviour goes with no profile
/// field, and a profile needs its id and both digests.
pub open spec fn pinned(
    native: bool,
    id: Option<Seq<char>>,
    digest: Option<Seq<char>>,
    definition: Option<Seq<char>>,
    origin: Option<Seq<char>>,
) -> Result<PinnedView, Seq<char>> {
    let any = id is Some || digest is Some || definition is Some || origin is Some;
    if native && any {
        Err("--native cannot be combined with profile fields"@)
    } else if native {
        Ok(PinnedView::Native)
    } else if !any {
        Ok(PinnedView::Empty)
    } else if id is Some && digest is Some && definition is Some {
        match origin_named(origin) {
            None => Err("profile origin must be global, repository, workspace, or session"@),
            Some(origin_scope) => Ok(
                PinnedView::Profile {
                    profile_id: id->0,
                    profile_digest: digest->0,
                    origin_scope,
                    definition_digest: definition->0,
                },
            ),
        }
    } else {
        Err("profile id, profile digest, and definition digest must be supplied together"@)
    }
}

fn origin_of(name: &Option<String>) -> (scope: Option<ProfileSourceScope>)
    ensures
        scope == origin_named(optional(*name)),
{
    match name {
        None => Some(ProfileSourceScope::Workspace),
        Some(name) => {
            if same_text(name.as_str(), "global") {
                Some(ProfileSourceScope::Global)
            } else if same_text(name.as_str(), "repository") {
                Some(ProfileSourceScope::Repository)
            } else if same_text(name.as_str(), "workspace") {
                Some(ProfileSourceScope::Workspace)
            } else if same_text(name.as_str(), "session") {
                Some(ProfileSourceScope::Session)
            } else {
                None
            }
        },
    }
}

/// Reads what the arguments of a launch pin.
pub fn session_profile_selection(
    native: bool,
    profile_id: Option<String>,
    profile_digest: Option<String>,
    definition_digest: Option<String>,
    profile_origin: Option<String>,
) -> (r: Result<PinnedProfile, &'static str>)
    ensures
        crate::bridge_request::coded(r) == pinned(
            native,
            optional(profile_id),
            optional(profile_digest),
            optional(definition_digest),
            optional(profile_origin),
        ),
{
    let any = profile_id.is_some() || profile_digest.is_some() || definition_digest.is_some()
        || profile_origin.is_some();
    if native && any {
        return Err("--native cannot be combined with profile fields");
    }
    if native {
        return Ok(PinnedProfile::Native);
    }
    if !any {
        return Ok(PinnedProfile::Empty);
    }
    match (profile_id, profile_digest, definition_digest) {
        (Some(profile_id), Some(profile_digest), Some(definition_digest)) => match origin_of(
            &profile_origin,
        ) {
            None => Err("profile origin must be global, repository, workspace, or session"),
            Some(origin_scope) => Ok(
                PinnedProfile::Profile {
                    profile_id,
                    profile_digest,
                    origin_scope,
                    definition_digest,
                },
            ),
        },
        _ => Err("profile id, profile digest, and definition digest must be supplied together"),
    }
}

/// How the end of a session fails.
#[derive(Debug, Clone, Copy, PartialEq, Eq, Structural)]
pub enum SessionEndControlError {
    /// The durable operation must be recovered.
    DurableRecoveryRequired,
    Other,
}

/// The status of a session's end that failed.
pub fn session_end_error_status(error: SessionEndControlError) -> (status: &'static str)
    ensures
        status@ == change_error_status(error is DurableRecoveryRequired),
{
    match error {
        SessionEndControlError::DurableRecoveryRequired => "recovery-required",
        SessionEndControlError::Other => "blocked",
    }
}

/// Whether a launch is bound to other locks than the ones in force.
pub fn lock_revision_matches(requested: &Option<String>, current: &str) -> (r: bool)
    ensures
        r == (optional(*requested) is None || optional(*requested) == Some(current@)),
{
    match requested {
        None => true,
        Some(revision) => same_text(revision.as_str(), current),
    }
}

/// What is said where the backup key of a protected session cannot be read.
pub fn protected_session_error(error: &str) -> (message: String)
    ensures
        message@ == "backup authentication unavailable for protected session: "@ + error@,
{
    joined("backup authentication unavailable for protected session: ", error)
}

/// Whether a launched session ended well: its child did, and everything was
/// cleaned up.
pub fn launch_succeeded(child_exit_code: Option<i32>, cleanup_complete: bool) -> (r: bool)
    ensures
        r == (child_exit_code == Some(0i32) && cleanup_complete),
{
    match child_exit_code {
        Some(code) => code == 0 && cleanup_complete,
        None => false,
    }
}

/// How a session's end came out.
#[derive(Debug, Clone, Copy, PartialEq, Eq, Structural)]
pub enum SessionEndStatus {
    NoOp,
    AlreadyEnding,
    RevocationRequested,
}

/// Whether a session's end changed nothing.
pub fn session_end_no_op(status: SessionEndStatus) -> (r: bool)
    ensures
        r == !(status is RevocationRequested),
{
    status != SessionEndStatus::RevocationRequested
}

/// A session as it is listed.
pub struct SessionRow {
    pub repository_key: String,
    pub workspace_key: String,
    pub summary: Json,
}

/// The summaries of the sessions of one workspace, in their order.
pub open spec fn workspace_summaries(
    rows: Seq<SessionRow>,
    repository_key: Seq<char>,
    workspace_key: Seq<char>,
) -> Seq<JsonView>
    decreases rows.len(),
{
    if rows.len() == 0 {
        seq![]
    } else {
        let before = workspace_summaries(rows.drop_last(), repository_key, workspace_key);
        if rows.last().repository_key@ == repository_key && rows.last().workspace_key@
            == workspace_key {
            before.push(rows.last().summary@)
        } else {
            before
        }
    }
}

/// The list of sessions.
pub open spec fn sessions_view(sessions: Seq<JsonView>) -> JsonView {
    JsonView::Object(
        seq![("status"@, JsonView::Text("ready"@)), ("sessions"@, JsonView::Array(sessions))],
    )
}

/// The list of sessions: each part under its own name, and nothing else.
pub proof fn law_shown_sessions(sessions: Seq<JsonView>)
    ensures
        ({
            let shown = sessions_view(sessions);
            &&& shows_only(shown, 2)
            &&& shows(shown, "status"@, JsonView::Text("ready"@))
            &&& shows(shown, "sessions"@, JsonView::Array(sessions))
        }),
{
    let shown = sessions_view(sessions);
    lemma_shows_all(shown);
    let at = shown->Object_0;
    assert(at[0] == at[0] && at[1] == at[1]);
}

/// Lists the sessions of one workspace.
pub fn list_sessions(
    rows: &Vec<SessionRow>,
    repository_key: &str,
    workspace_key: &str,
) -> (response:
    Json)
    ensures
        response@ == sessions_view(
            workspace_summaries(rows@, repository_key@, workspace_key@),
        ),
{
    let mut sessions: Vec<Json> = Vec::new();
    let mut i: usize = 0;
    assert(rows@.take(0) =~= seq![]);
    assert(item_views(sessions@) =~= seq![]);
    while i < rows.len()
        invariant
            i <= rows@.len(),
            item_views(sessions@) == workspace_summaries(
                rows@.take(i as int),
                repository_key@,
                workspace_key@,
            ),
        decreases rows@.len() - i,
    {
        assert(rows@.take(i + 1).drop_last() =~= rows@.take(i as int));
        if same_text(rows[i].repository_key.as_str(), repository_key) && same_text(
            rows[i].workspace_key.as_str(),
            workspace_key,
        ) {
            let ghost before = item_views(sessions@);
            sessions.push(rows[i].summary.duplicate());
            assert(item_views(sessions@) =~= before.push(rows@[i as int].summary@));
        }
        i = i + 1;
    }
    assert(rows@.take(i as int) =~= rows@);
    let mut response = ObjectBuilder::new();
    response.put_text("status", "ready");
    response.put("sessions", array(sessions));
    assert(response@ =~= sessions_view(
        workspace_summaries(rows@, repository_key@, workspace_key@),
    )->Object_0);
    response.finish()
}

/// The steps of `session launch`.
pub open spec fn launch_rules() -> Seq<StepRule> {
    seq![
        failing(CommandStep::ParseProvider),
        failing(CommandStep::SelectProfile),
        failing(CommandStep::PreflightSocket),
        failing(CommandStep::ResolveConfig),
        failing(CommandStep::WorkspaceIdentity),
        failing(CommandStep::CapabilityLocks),
        blocking(CommandStep::LockRevision),
        failing(CommandStep::ResolveRoots),
        blocking(CommandStep::WriteSandbox),
        blocking(CommandStep::SessionKey),
        blocking(CommandStep::BackupKey),
        failing(CommandStep::Launch),
    ]
}

/// The steps of `session launch`: one after the other, and no more.
pub proof fn law_launch_in_order()
    ensures
        ({
            let rules = launch_rules();
            &&& rules.len() == 12
            &&& stands_before(
                rules,
                failing(CommandStep::ParseProvider),
                failing(CommandStep::SelectProfile),
            )
            &&& stands_before(
                rules,
                failing(CommandStep::SelectProfile),
                failing(CommandStep::PreflightSocket),
            )
            &&& stands_before(
                rules,
                failing(CommandStep::PreflightSocket),
                failing(CommandStep::ResolveConfig),
            )
            &&& stands_before(
                rules,
                failing(CommandStep::ResolveConfig),
                failing(CommandStep::WorkspaceIdentity),
            )
            &&& stands_before(
                rules,
                failing(CommandStep::WorkspaceIdentity),
                failing(CommandStep::CapabilityLocks),
            )
            &&& stands_before(
                rules,
                failing(CommandStep::CapabilityLocks),
                blocking(CommandStep::LockRevision),
            )
            &&& stands_before(
                rules,
                blocking(CommandStep::LockRevision),
                failing(CommandStep::ResolveRoots),
            )
            &&& stands_before(
                rules,
                failing(CommandStep::ResolveRoots),
                blocking(CommandStep::WriteSandbox),
            )
            &&& stands_before(
                rules,
                blocking(CommandStep::WriteSandbox),
                blocking(CommandStep::SessionKey),
            )
            &&& stands_before(
                rules,
                blocking(CommandStep::SessionKey),
                blocking(CommandStep::BackupKey),
            )
            &&& stands_before(
                rules,
                blocking(CommandStep::BackupKey),
                failing(CommandStep::Launch),
            )
        }),
{
    let rules = launch_rules();
    assert(rules[0] == failing(CommandStep::ParseProvider));
    assert(rules[1] == failing(CommandStep::SelectProfile));
    assert(rules[2] == failing(CommandStep::PreflightSocket));
    assert(rules[3] == failing(CommandStep::ResolveConfig));
    assert(rules[4] == failing(CommandStep::WorkspaceIdentity));
    assert(rules[5] == failing(CommandStep::CapabilityLocks));
    assert(rules[6] == blocking(CommandStep::LockRevision));
    assert(rules[7] == failing(CommandStep::ResolveRoots));
    assert(rules[8] == blocking(CommandStep::WriteSandbox));
    assert(rules[9] == blocking(CommandStep::SessionKey));
    assert(rules[10] == blocking(CommandStep::BackupKey));
    assert(rules[11] == failing(CommandStep::Launch));
}

/// The steps of `session launch`.
pub fn launch() -> (rules: Vec<StepRule>)
    ensures
        rules@ == launch_rules(),
{
    let mut rules: Vec<StepRule> = Vec::new();
    rules.push(fails(CommandStep::ParseProvider));
    rules.push(fails(CommandStep::SelectProfile));
    rules.push(fails(CommandStep::PreflightSocket));
    rules.push(fails(CommandStep::ResolveConfig));
    rules.push(fails(CommandStep::WorkspaceIdentity));
    rules.push(fails(CommandStep::CapabilityLocks));
    rules.push(blocks(CommandStep::LockRevision));
    rules.push(fails(CommandStep::ResolveRoots));
    rules.push(blocks(CommandStep::WriteSandbox));
    rules.push(blocks(CommandStep::SessionKey));
    rules.push(blocks(CommandStep::BackupKey));
    rules.push(fails(CommandStep::Launch));
    assert(rules@ =~= launch_rules());
    rules
}

/// The steps of `session end`.
pub open spec fn end_rules(apply: bool) -> Seq<StepRule> {
    seq![
        failing(CommandStep::ResolveConfig),
        failing(CommandStep::WorkspaceIdentity),
        failing(CommandStep::ApprovalContext),
    ] + (if apply {
        seq![
            blocking(CommandStep::WriteSandbox),
        ]
    } else {
        seq![]
    }) + seq![
        blocking(CommandStep::SessionKey),
        failing(CommandStep::PlanChange),
        blocking(CommandStep::Review),
        blocking(CommandStep::Expectation),
        blocking(CommandStep::Authorize),
        recovering(CommandStep::Apply),
    ]
}

/// The steps of `session end`: one after the other, and no more.
pub proof fn law_end_in_order(apply: bool)
    ensures
        ({
            let rules = end_rules(apply);
            &&& rules.len() == 9 + if apply {
                1int
            } else {
                0int
            }
            &&& stands_before(
                rules,
                failing(CommandStep::ResolveConfig),
                failing(CommandStep::WorkspaceIdentity),
            )
            &&& stands_before(
                rules,
                failing(CommandStep::WorkspaceIdentity),
                failing(CommandStep::ApprovalContext),
            )
            &&& apply ==> stands_before(
                rules,
                failing(CommandStep::ApprovalContext),
                blocking(CommandStep::WriteSandbox),
            )
            &&& apply ==> stands_before(
                rules,
                blocking(CommandStep::WriteSandbox),
                blocking(CommandStep::SessionKey),
            )
            &&& stands_before(
                rules,
                failing(CommandStep::ApprovalContext),
                blocking(CommandStep::SessionKey),
            )
            &&& stands_before(
                rules,
                blocking(CommandStep::SessionKey),
                failing(CommandStep::PlanChange),
            )
            &&& stands_before(
                rules,
                failing(CommandStep::PlanChange),
                blocking(CommandStep::Review),
            )
            &&& stands_before(
                rules,
                blocking(CommandStep::Review),
                blocking(CommandStep::Expectation),
            )
            &&& stands_before(
                rules,
                blocking(CommandStep::Expectation),
                blocking(CommandStep::Authorize),
            )
            &&& stands_before(
                rules,
                blocking(CommandStep::Authorize),
                recovering(CommandStep::Apply),
            )
        }),
{
    let rules = end_rules(apply);
    if apply {
        assert(rules[0] == failing(CommandStep::ResolveConfig));
        assert(rules[1] == failing(CommandStep::WorkspaceIdentity));
        assert(rules[2] == failing(CommandStep::ApprovalContext));
        assert(rules[3] == blocking(CommandStep::WriteSandbox));
        assert(rules[4] == blocking(CommandStep::SessionKey));
        assert(rules[5] == failing(CommandStep::PlanChange));
        assert(rules[6] == blocking(CommandStep::Review));
        assert(rules[7] == blocking(CommandStep::Expectation));
        assert(rules[8] == blocking(CommandStep::Authorize));
        assert(rules[9] == recovering(CommandStep::Apply));
    } else {
        assert(rules[0] == failing(CommandStep::ResolveConfig));
        assert(rules[1] == failing(CommandStep::WorkspaceIdentity));
        assert(rules[2] == failing(CommandStep::ApprovalContext));
        assert(rules[3] == blocking(CommandStep::SessionKey));
        assert(rules[4] == failing(CommandStep::PlanChange));
        assert(rules[5] == blocking(CommandStep::Review));
        assert(rules[6] == blocking(CommandStep::Expectation));
        assert(rules[7] == blocking(CommandStep::Authorize));
        assert(rules[8] == recovering(CommandStep::Apply));
    }
}

/// The steps of `session end`.
pub fn end(apply: bool) -> (rules: Vec<StepRule>)
    ensures
        rules@ == end_rules(apply),
{
    let mut rules: Vec<StepRule> = Vec::new();
    rules.push(fails(CommandStep::ResolveConfig));
    rules.push(fails(CommandStep::WorkspaceIdentity));
    rules.push(fails(CommandStep::ApprovalContext));
    if apply {
        rules.push(blocks(CommandStep::WriteSandbox));
    }
    rules.push(blocks(CommandStep::SessionKey));
    rules.push(fails(CommandStep::PlanChange));
    rules.push(blocks(CommandStep::Review));
    rules.push(blocks(CommandStep::Expectation));
    rules.push(blocks(CommandStep::Authorize));
    rules.push(recovers(CommandStep::Apply));
    assert(rules@ =~= end_rules(apply));
    rules
}

/// The steps of `session list`.
pub open spec fn list_rules() -> Seq<StepRule> {
    seq![
        failing(CommandStep::ResolveConfig),
        blocking(CommandStep::SessionKey),
        failing(CommandStep::WorkspaceIdentity),
        failing(CommandStep::ReadState),
    ]
}

/// The steps of `session list`: one after the other, and no more.
pub proof fn law_list_in_order()
    ensures
        ({
            let rules = list_rules();
            &&& rules.len() == 4
            &&& stands_before(
                rules,
                failing(CommandStep::ResolveConfig),
                blocking(CommandStep::SessionKey),
            )
            &&& stands_before(
                rules,
                blocking(CommandStep::SessionKey),
                failing(CommandStep::WorkspaceIdentity),
            )
            &&& stands_before(
                rules,
                failing(CommandStep::WorkspaceIdentity),
                failing(CommandStep::ReadState),
            )
        }),
{
    let rules = list_rules();
    assert(rules[0] == failing(CommandStep::ResolveConfig));
    assert(rules[1] == blocking(CommandStep::SessionKey));
    assert(rules[2] == failing(CommandStep::WorkspaceIdentity));
    assert(rules[3] == failing(CommandStep::ReadState));
}

/// The steps of `session list`.
pub fn list() -> (rules: Vec<StepRule>)
    ensures
        rules@ == list_rules(),
{
    let mut rules: Vec<StepRule> = Vec::new();
    rules.push(fails(CommandStep::ResolveConfig));
    rules.push(blocks(CommandStep::SessionKey));
    rules.push(fails(CommandStep::WorkspaceIdentity));
    rules.push(fails(CommandStep::ReadState));
    assert(rules@ =~= list_rules());
    rules
}

/// No session is ended without a review.
pub proof fn law_session_end_is_reviewed(apply: bool)
    ensures
        reviewed_first(end_rules(apply)),
{
    let rules = end_rules(apply);
    let g: int = if apply {
        6
    } else {
        5
    };
    assert(rules[g].step is Review);
    assert forall|i: int|
        0 <= i < rules.len() && crate::commands::flow::takes_effect(
            (#[trigger] rules[i]).step,
        ) implies exists|g: int| 0 <= g < i && (#[trigger] rules[g]).step is Review by {
        assert(i > g);
    }
}

/// A session starts only under the locks that it was reviewed with, inside the
/// sandbox, and with both keys.
pub proof fn law_launch_is_guarded(events: Seq<EventView>)
    requires
        steps_taken(launch_rules(), 0, events) == launch_rules().len(),
    ensures
        passed(launch_rules(), events, CommandStep::LockRevision),
        passed(launch_rules(), events, CommandStep::WriteSandbox),
        passed(launch_rules(), events, CommandStep::SessionKey),
        passed(launch_rules(), events, CommandStep::BackupKey),
{
    let rules = launch_rules();
    law_steps_follow_success(rules, events, 11);
    assert(rules[6].step is LockRevision && rules[8].step is WriteSandbox);
    assert(rules[9].step is SessionKey && rules[10].step is BackupKey);
}

} // verus!
