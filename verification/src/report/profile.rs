//! What the profile commands print.
use vstd::prelude::*;

use crate::laws::shown::{lemma_shows_all, shows, shows_only};
use crate::laws::texts::group_occurs;
use crate::report::{human_action, human_action_view};
use crate::commands::profile::{
    derived_name, plain_start, profile_operation_result, ProfileProviderOperationStatus,
};
use crate::json::{
    array, duplicate_items, item_views, optional_value, text, value_or_null, Json, JsonView,
    ObjectBuilder,
};
use crate::ordering::{entry_views, in_order, sort_entries, EntryView, OrderedEntry};
use crate::text::{
    bool_text, bool_word, decimal_of, join_texts, joined, joined_with, occurs, optional,
    outcome, string_views, to_decimal,
};

verus! {

/// A workspace's policy that is managed.
pub struct ManagedPolicy {
    pub record_id: String,
    pub classification: String,
    pub lifecycle: String,
    pub allowed_actions: Vec<String>,
}

/// Whether a policy is managed, in a word.
pub open spec fn managed_word(managed: bool) -> Seq<char> {
    if managed {
        "managed"@
    } else {
        "unmanaged"@
    }
}

fn managed_text(managed: bool) -> (word: &'static str)
    ensures
        word@ == managed_word(managed),
{
    if managed {
        "managed"
    } else {
        "unmanaged"
    }
}

/// What a person may do about a policy: one that is not managed can be
/// migrated.
pub open spec fn policy_action(managed: bool) -> JsonView {
    if managed {
        JsonView::Null
    } else {
        human_action_view(
            "review-migration"@,
            "Run `unpin profile policy migrate` to review the fixed workspace source."@,
        )
    }
}

fn show_policy_action(managed: bool) -> (value: Json)
    ensures
        value@ == policy_action(managed),
{
    if managed {
        Json::Null
    } else {
        human_action(
            "review-migration",
            "Run `unpin profile policy migrate` to review the fixed workspace source.",
        )
    }
}

/// The state of a workspace's policy.
pub open spec fn policy_status_view(target: Json, maintenance: Option<Json>) -> JsonView {
    JsonView::Object(
        seq![
            ("status"@, JsonView::Text(managed_word(maintenance is Some))),
            ("target"@, target@),
            ("maintenance"@, value_or_null(optional(maintenance))),
            ("humanAction"@, policy_action(maintenance is Some)),
        ],
    )
}

/// The state of a workspace's policy: each part under its own name, and nothing
/// else.
pub proof fn law_shown_policy_status(target: Json, maintenance: Option<Json>)
    ensures
        ({
            let shown = policy_status_view(target, maintenance);
            &&& shows_only(shown, 4)
            &&& shows(shown, "status"@, JsonView::Text(managed_word(maintenance is Some)))
            &&& shows(shown, "target"@, target@)
            &&& shows(shown, "maintenance"@, value_or_null(optional(maintenance)))
            &&& shows(shown, "humanAction"@, policy_action(maintenance is Some))
        }),
{
    let shown = policy_status_view(target, maintenance);
    lemma_shows_all(shown);
    let at = shown->Object_0;
    assert(at[0] == at[0] && at[1] == at[1] && at[2] == at[2] && at[3] == at[3]);
}

/// The state of a workspace's policy.
pub fn policy_status(target: &Json, maintenance: &Option<Json>) -> (value: Json)
    ensures
        value@ == policy_status_view(*target, *maintenance),
{
    let mut out = ObjectBuilder::new();
    out.put("status", text(managed_text(maintenance.is_some())));
    out.put("target", target.duplicate());
    out.put("maintenance", optional_value(maintenance));
    out.put("humanAction", show_policy_action(maintenance.is_some()));
    assert(out@ =~= policy_status_view(*target, *maintenance)->Object_0);
    out.finish()
}

/// The actions that are allowed, or that there are none.
pub open spec fn actions_text(actions: Seq<Seq<char>>) -> Seq<char> {
    if actions.len() == 0 {
        "none"@
    } else {
        joined_with(actions, ","@)
    }
}

fn show_actions(actions: &Vec<String>) -> (text: String)
    ensures
        text@ == actions_text(string_views(actions@)),
{
    if actions.len() == 0 {
        "none".to_owned()
    } else {
        join_texts(actions, ",")
    }
}

/// The line for a policy that is managed.
pub open spec fn managed_policy_line_text(policy: ManagedPolicy) -> Seq<char> {
    "workspace policy "@ + policy.record_id@ + " classification="@ + policy.classification@
        + " lifecycle="@ + policy.lifecycle@ + " actions="@
        + actions_text(string_views(policy.allowed_actions@))
}

/// The line for a policy that is managed: each part stands with its label.
pub proof fn law_line_of_managed_policy(policy: ManagedPolicy)
    ensures
        ({
            let line = managed_policy_line_text(policy);
            &&& occurs(line, "workspace policy "@ + policy.record_id@)
            &&& occurs(line, " classification="@ + policy.classification@)
            &&& occurs(line, " lifecycle="@ + policy.lifecycle@)
            &&& occurs(line, " actions="@ + actions_text(string_views(policy.allowed_actions@)))
        }),
{
    broadcast use group_occurs;

}

/// The line for a policy that is managed.
pub fn managed_policy_line(policy: &ManagedPolicy) -> (line: String)
    ensures
        line@ == managed_policy_line_text(*policy),
{
    let mut line = String::new();
    line.push_str("workspace policy ");
    line.push_str(policy.record_id.as_str());
    line.push_str(" classification=");
    line.push_str(policy.classification.as_str());
    line.push_str(" lifecycle=");
    line.push_str(policy.lifecycle.as_str());
    line.push_str(" actions=");
    line.push_str(show_actions(&policy.allowed_actions).as_str());
    assert(line@ =~= managed_policy_line_text(*policy));
    line
}

/// The line for a policy.
pub fn policy_status_line(policy: &Option<ManagedPolicy>) -> (line: String)
    ensures
        line@ == match *policy {
            Some(policy) => managed_policy_line_text(policy),
            None => "workspace policy is unmanaged; review `unpin profile policy migrate`"@,
        },
{
    match policy {
        Some(policy) => managed_policy_line(policy),
        None => "workspace policy is unmanaged; review `unpin profile policy migrate`".to_owned(),
    }
}

/// The plan of a change to a policy.
pub open spec fn maintenance_plan_view(plan: Json) -> JsonView {
    JsonView::Object(
        seq![
            ("status"@, JsonView::Text("planned"@)),
            ("plan"@, plan@),
            (
                "humanAction"@,
                human_action_view(
                    "confirm-and-apply"@,
                    "Re-run with --apply --confirm and this plan fingerprint."@,
                ),
            ),
        ],
    )
}

/// The plan of a change to a policy: each part under its own name, and nothing
/// else.
pub proof fn law_shown_maintenance_plan(plan: Json)
    ensures
        ({
            let shown = maintenance_plan_view(plan);
            &&& shows_only(shown, 3)
            &&& shows(shown, "status"@, JsonView::Text("planned"@))
            &&& shows(shown, "plan"@, plan@)
            &&& shows(
                shown,
                "humanAction"@,
                human_action_view(
                    "confirm-and-apply"@,
                    "Re-run with --apply --confirm and this plan fingerprint."@,
                ),
            )
        }),
{
    let shown = maintenance_plan_view(plan);
    lemma_shows_all(shown);
    let at = shown->Object_0;
    assert(at[0] == at[0] && at[1] == at[1] && at[2] == at[2]);
}

/// The plan of a change to a policy.
pub fn maintenance_plan(plan: &Json) -> (value: Json)
    ensures
        value@ == maintenance_plan_view(*plan),
{
    let mut out = ObjectBuilder::new();
    out.put_text("status", "planned");
    out.put("plan", plan.duplicate());
    out.put(
        "humanAction",
        human_action(
            "confirm-and-apply",
            "Re-run with --apply --confirm and this plan fingerprint.",
        ),
    );
    assert(out@ =~= maintenance_plan_view(*plan)->Object_0);
    out.finish()
}

/// The line for the plan of a change to a policy.
pub open spec fn maintenance_plan_line_text(
    operation_id: Seq<char>,
    plan_fingerprint: Seq<char>,
) -> Seq<char> {
    "policy maintenance planned operation="@ + operation_id + " fingerprint="@ + plan_fingerprint
}

/// The line for the plan of a change to a policy: each part stands with its
/// label.
pub proof fn law_line_of_maintenance_plan(operation_id: Seq<char>, plan_fingerprint: Seq<char>)
    ensures
        ({
            let line = maintenance_plan_line_text(operation_id, plan_fingerprint);
            &&& occurs(line, "policy maintenance planned operation="@ + operation_id)
            &&& occurs(line, " fingerprint="@ + plan_fingerprint)
        }),
{
    broadcast use group_occurs;

}

/// The line for the plan of a change to a policy.
pub fn maintenance_plan_line(operation_id: &str, plan_fingerprint: &str) -> (line: String)
    ensures
        line@ == maintenance_plan_line_text(operation_id@, plan_fingerprint@),
{
    let mut line = String::new();
    line.push_str("policy maintenance planned operation=");
    line.push_str(operation_id);
    line.push_str(" fingerprint=");
    line.push_str(plan_fingerprint);
    assert(line@ =~= maintenance_plan_line_text(operation_id@, plan_fingerprint@));
    line
}

/// A change to a policy that was carried out.
pub open spec fn maintenance_result_view(plan_fingerprint: Seq<char>, outcome: Json) -> JsonView {
    JsonView::Object(
        seq![
            ("status"@, JsonView::Text("applied"@)),
            ("planFingerprint"@, JsonView::Text(plan_fingerprint)),
            ("outcome"@, outcome@),
        ],
    )
}

/// A change to a policy that was carried out: each part under its own name, and
/// nothing else.
pub proof fn law_shown_maintenance_result(plan_fingerprint: Seq<char>, outcome: Json)
    ensures
        ({
            let shown = maintenance_result_view(plan_fingerprint, outcome);
            &&& shows_only(shown, 3)
            &&& shows(shown, "status"@, JsonView::Text("applied"@))
            &&& shows(shown, "planFingerprint"@, JsonView::Text(plan_fingerprint))
            &&& shows(shown, "outcome"@, outcome@)
        }),
{
    let shown = maintenance_result_view(plan_fingerprint, outcome);
    lemma_shows_all(shown);
    let at = shown->Object_0;
    assert(at[0] == at[0] && at[1] == at[1] && at[2] == at[2]);
}

/// A change to a policy that was carried out.
pub fn maintenance_result(plan_fingerprint: &str, outcome: &Json) -> (value: Json)
    ensures
        value@ == maintenance_result_view(plan_fingerprint@, *outcome),
{
    let mut out = ObjectBuilder::new();
    out.put_text("status", "applied");
    out.put_text("planFingerprint", plan_fingerprint);
    out.put("outcome", outcome.duplicate());
    assert(out@ =~= maintenance_result_view(plan_fingerprint@, *outcome)->Object_0);
    out.finish()
}

/// The line for a change to a policy that was carried out.
pub open spec fn maintenance_result_line_text(
    operation_id: Seq<char>,
    backup_id: Seq<char>,
) -> Seq<char> {
    "policy maintenance applied operation="@ + operation_id + " backup="@ + backup_id
}

/// The line for a change to a policy that was carried out: each part stands
/// with its label.
pub proof fn law_line_of_maintenance_result(operation_id: Seq<char>, backup_id: Seq<char>)
    ensures
        ({
            let line = maintenance_result_line_text(operation_id, backup_id);
            &&& occurs(line, "policy maintenance applied operation="@ + operation_id)
            &&& occurs(line, " backup="@ + backup_id)
        }),
{
    broadcast use group_occurs;

}

/// The line for a change to a policy that was carried out.
pub fn maintenance_result_line(operation_id: &str, backup_id: &str) -> (line: String)
    ensures
        line@ == maintenance_result_line_text(operation_id@, backup_id@),
{
    let mut line = String::new();
    line.push_str("policy maintenance applied operation=");
    line.push_str(operation_id);
    line.push_str(" backup=");
    line.push_str(backup_id);
    assert(line@ =~= maintenance_result_line_text(operation_id@, backup_id@));
    line
}

/// Under which name a change to a policy is made.
pub open spec fn maintenance_owner_text(operation_id: Seq<char>) -> Seq<char> {
    "unpin-cli-"@ + operation_id
}

/// Under which name a change to a policy is made: each part stands with its
/// label.
pub proof fn law_line_of_maintenance_owner(operation_id: Seq<char>)
    ensures
        ({
            let line = maintenance_owner_text(operation_id);
            &&& occurs(line, "unpin-cli-"@ + operation_id)
        }),
{
    broadcast use group_occurs;

}

/// Under which name a change to a policy is made.
pub fn maintenance_owner(operation_id: &str) -> (line: String)
    ensures
        line@ == maintenance_owner_text(operation_id@),
{
    let mut line = String::new();
    line.push_str("unpin-cli-");
    line.push_str(operation_id);
    assert(line@ =~= maintenance_owner_text(operation_id@));
    line
}

/// The plan of a lock.
pub open spec fn lock_plan_view(operation: Json, plan: Json) -> JsonView {
    JsonView::Object(
        seq![
            ("status"@, JsonView::Text("planned"@)),
            ("operation"@, operation@),
            ("plan"@, plan@),
        ],
    )
}

/// The plan of a lock: each part under its own name, and nothing else.
pub proof fn law_shown_lock_plan(operation: Json, plan: Json)
    ensures
        ({
            let shown = lock_plan_view(operation, plan);
            &&& shows_only(shown, 3)
            &&& shows(shown, "status"@, JsonView::Text("planned"@))
            &&& shows(shown, "operation"@, operation@)
            &&& shows(shown, "plan"@, plan@)
        }),
{
    let shown = lock_plan_view(operation, plan);
    lemma_shows_all(shown);
    let at = shown->Object_0;
    assert(at[0] == at[0] && at[1] == at[1] && at[2] == at[2]);
}

/// The plan of a lock.
pub fn lock_plan(operation: &Json, plan: &Json) -> (value: Json)
    ensures
        value@ == lock_plan_view(*operation, *plan),
{
    let mut out = ObjectBuilder::new();
    out.put_text("status", "planned");
    out.put("operation", operation.duplicate());
    out.put("plan", plan.duplicate());
    assert(out@ =~= lock_plan_view(*operation, *plan)->Object_0);
    out.finish()
}

/// The line for the plan of a lock.
pub open spec fn lock_plan_line_text(
    provider: Seq<char>,
    plan_fingerprint: Seq<char>,
) -> Seq<char> {
    "planned global "@ + provider + " capability lock activation=next-session-only fingerprint="@
        + plan_fingerprint
}

/// The line for the plan of a lock: each part stands with its label.
pub proof fn law_line_of_lock_plan(provider: Seq<char>, plan_fingerprint: Seq<char>)
    ensures
        ({
            let line = lock_plan_line_text(provider, plan_fingerprint);
            &&& occurs(line, "planned global "@ + provider)
            &&& occurs(
                line,
                " capability lock activation=next-session-only fingerprint="@ + plan_fingerprint,
            )
        }),
{
    broadcast use group_occurs;

}

/// The line for the plan of a lock.
pub fn lock_plan_line(provider: &str, plan_fingerprint: &str) -> (line: String)
    ensures
        line@ == lock_plan_line_text(provider@, plan_fingerprint@),
{
    let mut line = String::new();
    line.push_str("planned global ");
    line.push_str(provider);
    line.push_str(" capability lock activation=next-session-only fingerprint=");
    line.push_str(plan_fingerprint);
    assert(line@ =~= lock_plan_line_text(provider@, plan_fingerprint@));
    line
}

/// A lock that was set or cleared.
pub open spec fn lock_result_view(operation: Json, result: Json) -> JsonView {
    JsonView::Object(
        seq![
            ("status"@, JsonView::Text("applied"@)),
            ("operation"@, operation@),
            ("result"@, result@),
        ],
    )
}

/// A lock that was set or cleared: each part under its own name, and nothing
/// else.
pub proof fn law_shown_lock_result(operation: Json, result: Json)
    ensures
        ({
            let shown = lock_result_view(operation, result);
            &&& shows_only(shown, 3)
            &&& shows(shown, "status"@, JsonView::Text("applied"@))
            &&& shows(shown, "operation"@, operation@)
            &&& shows(shown, "result"@, result@)
        }),
{
    let shown = lock_result_view(operation, result);
    lemma_shows_all(shown);
    let at = shown->Object_0;
    assert(at[0] == at[0] && at[1] == at[1] && at[2] == at[2]);
}

/// A lock that was set or cleared.
pub fn lock_result(operation: &Json, result: &Json) -> (value: Json)
    ensures
        value@ == lock_result_view(*operation, *result),
{
    let mut out = ObjectBuilder::new();
    out.put_text("status", "applied");
    out.put("operation", operation.duplicate());
    out.put("result", result.duplicate());
    assert(out@ =~= lock_result_view(*operation, *result)->Object_0);
    out.finish()
}

/// The line for a lock that was set or cleared.
pub open spec fn lock_result_line_text(provider: Seq<char>) -> Seq<char> {
    "global "@ + provider + " capability lock applied; activation=next-session-only"@
}

/// The line for a lock that was set or cleared: each part stands with its
/// label.
pub proof fn law_line_of_lock_result(provider: Seq<char>)
    ensures
        ({
            let line = lock_result_line_text(provider);
            &&& occurs(line, "global "@ + provider)
            &&& occurs(line, provider + " capability lock applied; activation=next-session-only"@)
        }),
{
    broadcast use group_occurs;

}

/// The line for a lock that was set or cleared.
pub fn lock_result_line(provider: &str) -> (line: String)
    ensures
        line@ == lock_result_line_text(provider@),
{
    let mut line = String::new();
    line.push_str("global ");
    line.push_str(provider);
    line.push_str(" capability lock applied; activation=next-session-only");
    assert(line@ =~= lock_result_line_text(provider@));
    line
}

/// A provider and whether a policy holds locks for it.
pub struct ProviderLocks {
    pub provider: String,
    pub locked: bool,
}

/// The providers of a policy that have locks, in order.
pub open spec fn locked_providers(policy: Seq<ProviderLocks>) -> Seq<Seq<char>>
    decreases policy.len(),
{
    if policy.len() == 0 {
        seq![]
    } else if policy.last().locked {
        locked_providers(policy.drop_last()).push(policy.last().provider@)
    } else {
        locked_providers(policy.drop_last())
    }
}

/// The providers whose locks are shown: the one that is named, with or without
/// locks, or all that have some.
pub fn shown_lock_providers(provider: &Option<String>, policy: &Vec<ProviderLocks>) -> (providers:
    Vec<String>)
    ensures
        string_views(providers@) == match *provider {
            Some(provider) => seq![provider@],
            None => locked_providers(policy@),
        },
{
    let mut providers: Vec<String> = Vec::new();
    if let Some(provider) = provider {
        providers.push(provider.clone());
        assert(string_views(providers@) =~= seq![provider@]);
        return providers;
    }
    let mut i: usize = 0;
    assert(policy@.take(0) =~= seq![]);
    assert(string_views(providers@) =~= seq![]);
    while i < policy.len()
        invariant
            i <= policy@.len(),
            string_views(providers@) == locked_providers(policy@.take(i as int)),
        decreases policy@.len() - i,
    {
        assert(policy@.take(i + 1).drop_last() =~= policy@.take(i as int));
        if policy[i].locked {
            let ghost before = string_views(providers@);
            providers.push(policy[i].provider.clone());
            assert(string_views(providers@) =~= before.push(policy@[i as int].provider@));
        }
        i = i + 1;
    }
    assert(policy@.take(i as int) =~= policy@);
    providers
}

/// The locks of a provider and how they are enforced.
pub struct LockStatus {
    pub provider: String,
    pub gateway: Json,
    pub gateway_source: Json,
    pub digest: String,
    pub entries: Vec<Json>,
    pub enforcement: Json,
}

/// What is shown of the locks of a provider.
pub open spec fn lock_status_view(
    lock: LockStatus,
    repository_key: Seq<char>,
    workspace_key: Seq<char>,
) -> JsonView {
    JsonView::Object(
        seq![
            ("provider"@, JsonView::Text(lock.provider@)),
            ("source"@, JsonView::Text("global"@)),
            ("activation"@, JsonView::Text("next-session-only"@)),
            ("activeSessionsUnaffected"@, JsonView::Bool(true)),
            ("repositoryKey"@, JsonView::Text(repository_key)),
            ("workspaceKey"@, JsonView::Text(workspace_key)),
            ("gateway"@, lock.gateway@),
            ("gatewaySource"@, lock.gateway_source@),
            ("digest"@, JsonView::Text(lock.digest@)),
            ("entries"@, JsonView::Array(item_views(lock.entries@))),
            ("enforcement"@, lock.enforcement@),
            ("action"@, JsonView::Text("unpin profile lock"@)),
        ],
    )
}

/// What is shown of the locks of a provider: each part under its own name, and
/// nothing else.
pub proof fn law_shown_lock_status(
    lock: LockStatus,
    repository_key: Seq<char>,
    workspace_key: Seq<char>,
)
    ensures
        ({
            let shown = lock_status_view(lock, repository_key, workspace_key);
            &&& shows_only(shown, 12)
            &&& shows(shown, "provider"@, JsonView::Text(lock.provider@))
            &&& shows(shown, "source"@, JsonView::Text("global"@))
            &&& shows(shown, "activation"@, JsonView::Text("next-session-only"@))
            &&& shows(shown, "activeSessionsUnaffected"@, JsonView::Bool(true))
            &&& shows(shown, "repositoryKey"@, JsonView::Text(repository_key))
            &&& shows(shown, "workspaceKey"@, JsonView::Text(workspace_key))
            &&& shows(shown, "gateway"@, lock.gateway@)
            &&& shows(shown, "gatewaySource"@, lock.gateway_source@)
            &&& shows(shown, "digest"@, JsonView::Text(lock.digest@))
            &&& shows(shown, "entries"@, JsonView::Array(item_views(lock.entries@)))
            &&& shows(shown, "enforcement"@, lock.enforcement@)
            &&& shows(shown, "action"@, JsonView::Text("unpin profile lock"@))
        }),
{
    let shown = lock_status_view(lock, repository_key, workspace_key);
    lemma_shows_all(shown);
    let at = shown->Object_0;
    assert(at[0] == at[0] && at[1] == at[1] && at[2] == at[2] && at[3] == at[3] && at[4] ==
        at[4] && at[5] == at[5] && at[6] == at[6] && at[7] == at[7] && at[8] == at[8] && at[9]
        == at[9] && at[10] == at[10] && at[11] == at[11]);
}

/// What is shown of the locks of a provider.
pub fn lock_status(lock: &LockStatus, repository_key: &str, workspace_key: &str) -> (value: Json)
    ensures
        value@ == lock_status_view(*lock, repository_key@, workspace_key@),
{
    let mut out = ObjectBuilder::new();
    out.put_text("provider", lock.provider.as_str());
    out.put_text("source", "global");
    out.put_text("activation", "next-session-only");
    out.put("activeSessionsUnaffected", Json::Bool(true));
    out.put_text("repositoryKey", repository_key);
    out.put_text("workspaceKey", workspace_key);
    out.put("gateway", lock.gateway.duplicate());
    out.put("gatewaySource", lock.gateway_source.duplicate());
    out.put_text("digest", lock.digest.as_str());
    out.put("entries", array(duplicate_items(&lock.entries)));
    out.put("enforcement", lock.enforcement.duplicate());
    out.put_text("action", "unpin profile lock");
    assert(out@ =~= lock_status_view(*lock, repository_key@, workspace_key@)->Object_0);
    out.finish()
}

/// The locks that are shown.
pub open spec fn lock_list_view(locks: Vec<Json>) -> JsonView {
    JsonView::Object(
        seq![
            ("status"@, JsonView::Text("ok"@)),
            ("locks"@, JsonView::Array(item_views(locks@))),
        ],
    )
}

/// The locks that are shown: each part under its own name, and nothing else.
pub proof fn law_shown_lock_list(locks: Vec<Json>)
    ensures
        ({
            let shown = lock_list_view(locks);
            &&& shows_only(shown, 2)
            &&& shows(shown, "status"@, JsonView::Text("ok"@))
            &&& shows(shown, "locks"@, JsonView::Array(item_views(locks@)))
        }),
{
    let shown = lock_list_view(locks);
    lemma_shows_all(shown);
    let at = shown->Object_0;
    assert(at[0] == at[0] && at[1] == at[1]);
}

/// The locks that are shown.
pub fn lock_list(locks: &Vec<Json>) -> (value: Json)
    ensures
        value@ == lock_list_view(*locks),
{
    let mut out = ObjectBuilder::new();
    out.put_text("status", "ok");
    out.put("locks", array(duplicate_items(locks)));
    assert(out@ =~= lock_list_view(*locks)->Object_0);
    out.finish()
}

/// The line for the locks of a provider.
pub open spec fn lock_line_text(lock: LockStatus) -> Seq<char> {
    lock.provider@ + " global locks="@ + decimal_of(lock.entries@.len()) + " digest="@
        + lock.digest@ + " activation=next-session-only"@
}

/// The line for the locks of a provider: each part stands with its label.
pub proof fn law_line_of_lock(lock: LockStatus)
    ensures
        ({
            let line = lock_line_text(lock);
            &&& occurs(line, lock.provider@)
            &&& occurs(line, " global locks="@ + decimal_of(lock.entries@.len()))
            &&& occurs(line, " digest="@ + lock.digest@)
            &&& occurs(line, lock.digest@ + " activation=next-session-only"@)
        }),
{
    broadcast use group_occurs;

}

/// The line for the locks of a provider.
pub fn lock_line(lock: &LockStatus) -> (line: String)
    ensures
        line@ == lock_line_text(*lock),
{
    let mut line = String::new();
    line.push_str(lock.provider.as_str());
    line.push_str(" global locks=");
    line.push_str(to_decimal(lock.entries.len() as u64).as_str());
    line.push_str(" digest=");
    line.push_str(lock.digest.as_str());
    line.push_str(" activation=next-session-only");
    assert(line@ =~= lock_line_text(*lock));
    line
}

/// The lines for the locks of providers.
pub open spec fn lock_lines_texts(list: Seq<LockStatus>) -> Seq<Seq<char>> {
    if list.len() == 0 {
        seq!["No global capability locks."@]
    } else {
        Seq::new(list.len(), |i: int| lock_line_text(list[i]))
    }
}

/// Each stands on a line of its own, in order; where there are none, that is
/// said.
pub proof fn law_lines_of_lock(list: Seq<LockStatus>)
    ensures
        list.len() > 0 ==> lock_lines_texts(list).len() == list.len(),
        forall|i: int|
            0 <= i < list.len() ==> #[trigger] lock_lines_texts(list)[i] == lock_line_text(list[i]),
        list.len() == 0 ==> lock_lines_texts(list) == seq!["No global capability locks."@],
{
}

/// The lines for the locks of providers.
pub fn lock_lines(list: &Vec<LockStatus>) -> (lines: Vec<String>)
    ensures
        string_views(lines@) == lock_lines_texts(list@),
{
    let mut lines: Vec<String> = Vec::new();
    if list.len() == 0 {
        lines.push("No global capability locks.".to_owned());
        assert(string_views(lines@) =~= lock_lines_texts(list@));
        return lines;
    }
    let mut i: usize = 0;
    while i < list.len()
        invariant
            i <= list@.len(),
            lines@.len() == i,
            forall|j: int| 0 <= j < i ==> (#[trigger] lines@[j])@ == lock_line_text(list@[j]),
        decreases list@.len() - i,
    {
        lines.push(lock_line(&list[i]));
        i = i + 1;
    }
    assert(string_views(lines@) =~= lock_lines_texts(list@));
    lines
}

/// The status of a proposal: without a recommendation the selection is open.
pub open spec fn proposal_status(recommended: bool) -> Seq<char> {
    if recommended {
        "proposed"@
    } else {
        "selection-required"@
    }
}

fn show_proposal_status(recommended: bool) -> (status: &'static str)
    ensures
        status@ == proposal_status(recommended),
{
    if recommended {
        "proposed"
    } else {
        "selection-required"
    }
}

/// A proposal of a profile.
pub open spec fn profile_proposal_view(recommended: bool, proposal: Json) -> JsonView {
    JsonView::Object(
        seq![
            ("status"@, JsonView::Text(proposal_status(recommended))),
            ("proposal"@, proposal@),
            (
                "humanAction"@,
                human_action_view(
                    "confirm-session-profile"@,
                    "Choose the proposed profile explicitly when launching a session. This proposal never changes persistent or active exposure."@,
                ),
            ),
        ],
    )
}

/// A proposal of a profile: each part under its own name, and nothing else.
pub proof fn law_shown_profile_proposal(recommended: bool, proposal: Json)
    ensures
        ({
            let shown = profile_proposal_view(recommended, proposal);
            &&& shows_only(shown, 3)
            &&& shows(shown, "status"@, JsonView::Text(proposal_status(recommended)))
            &&& shows(shown, "proposal"@, proposal@)
            &&& shows(
                shown,
                "humanAction"@,
                human_action_view(
                    "confirm-session-profile"@,
                    "Choose the proposed profile explicitly when launching a session. This proposal never changes persistent or active exposure."@,
                ),
            )
        }),
{
    let shown = profile_proposal_view(recommended, proposal);
    lemma_shows_all(shown);
    let at = shown->Object_0;
    assert(at[0] == at[0] && at[1] == at[1] && at[2] == at[2]);
}

/// A proposal of a profile.
pub fn profile_proposal(recommended: bool, proposal: &Json) -> (value: Json)
    ensures
        value@ == profile_proposal_view(recommended, *proposal),
{
    let mut out = ObjectBuilder::new();
    out.put("status", text(show_proposal_status(recommended)));
    out.put("proposal", proposal.duplicate());
    out.put(
        "humanAction",
        human_action(
            "confirm-session-profile",
            "Choose the proposed profile explicitly when launching a session. This proposal never changes persistent or active exposure.",
        ),
    );
    assert(out@ =~= profile_proposal_view(recommended, *proposal)->Object_0);
    out.finish()
}

/// The line for a profile that is proposed.
pub open spec fn profile_proposal_line_text(
    profile_id: Seq<char>,
    scope: Seq<char>,
    proposal_fingerprint: Seq<char>,
) -> Seq<char> {
    "proposed session profile "@ + profile_id + " ("@ + scope
        + "); confirmation required; fingerprint="@ + proposal_fingerprint
}

/// The line for a profile that is proposed: each part stands with its label.
pub proof fn law_line_of_profile_proposal(
    profile_id: Seq<char>,
    scope: Seq<char>,
    proposal_fingerprint: Seq<char>,
)
    ensures
        ({
            let line = profile_proposal_line_text(profile_id, scope, proposal_fingerprint);
            &&& occurs(line, "proposed session profile "@ + profile_id)
            &&& occurs(line, " ("@ + scope)
            &&& occurs(line, "); confirmation required; fingerprint="@ + proposal_fingerprint)
        }),
{
    broadcast use group_occurs;

}

/// The line for a profile that is proposed.
pub fn profile_proposal_line(
    profile_id: &str,
    scope: &str,
    proposal_fingerprint: &str,
) -> (line: String)
    ensures
        line@ == profile_proposal_line_text(profile_id@, scope@, proposal_fingerprint@),
{
    let mut line = String::new();
    line.push_str("proposed session profile ");
    line.push_str(profile_id);
    line.push_str(" (");
    line.push_str(scope);
    line.push_str("); confirmation required; fingerprint=");
    line.push_str(proposal_fingerprint);
    assert(line@ =~= profile_proposal_line_text(profile_id@, scope@, proposal_fingerprint@));
    line
}

/// The line for a proposal without a recommendation.
pub open spec fn no_proposal_line_text(candidates: u64) -> Seq<char> {
    "no unique session profile proposal; choose explicitly from "@ + decimal_of(candidates as nat)
        + " candidates"@
}

/// The line for a proposal without a recommendation: each part stands with its
/// label.
pub proof fn law_line_of_no_proposal(candidates: u64)
    ensures
        ({
            let line = no_proposal_line_text(candidates);
            &&& occurs(
                line,
                "no unique session profile proposal; choose explicitly from "@ + decimal_of(candidates as nat),
            )
            &&& occurs(line, decimal_of(candidates as nat) + " candidates"@)
        }),
{
    broadcast use group_occurs;

}

/// The line for a proposal without a recommendation.
pub fn no_proposal_line(candidates: u64) -> (line: String)
    ensures
        line@ == no_proposal_line_text(candidates),
{
    let mut line = String::new();
    line.push_str("no unique session profile proposal; choose explicitly from ");
    line.push_str(to_decimal(candidates).as_str());
    line.push_str(" candidates");
    assert(line@ =~= no_proposal_line_text(candidates));
    line
}

/// A profile as it is listed.
pub struct ProfileListing {
    pub scope: String,
    pub display_name: String,
    pub value: Json,
}

pub struct ListingView {
    pub scope: Seq<char>,
    pub display_name: Seq<char>,
    pub value: JsonView,
}

impl View for ProfileListing {
    type V = ListingView;

    open spec fn view(&self) -> ListingView {
        ListingView {
            scope: self.scope@,
            display_name: self.display_name@,
            value: self.value@,
        }
    }
}

/// The profiles as values.
pub open spec fn listed_values(profiles: Seq<EntryView<ListingView>>) -> Seq<JsonView> {
    Seq::new(profiles.len(), |i: int| profiles[i].2.value)
}

/// The line for a profile.
pub open spec fn listed_line(profile: EntryView<ListingView>) -> Seq<char> {
    profile.0 + " "@ + profile.2.scope + " "@ + profile.2.display_name
}

/// The line for a profile: each part stands with its label.
pub proof fn law_line_of_listed(profile: EntryView<ListingView>)
    ensures
        ({
            let line = listed_line(profile);
            &&& occurs(line, profile.0)
            &&& occurs(line, profile.0 + " "@ + profile.2.scope)
            &&& occurs(line, profile.2.scope + " "@ + profile.2.display_name)
        }),
{
    broadcast use group_occurs;

}

/// The lines for profiles.
pub open spec fn listed_lines(profiles: Seq<EntryView<ListingView>>) -> Seq<Seq<char>> {
    if profiles.len() == 0 {
        seq!["No profiles."@]
    } else {
        Seq::new(profiles.len(), |i: int| listed_line(profiles[i]))
    }
}

/// Each stands on a line of its own, in order; where there are none, that is
/// said.
pub proof fn law_lines_of_listed(profiles: Seq<EntryView<ListingView>>)
    ensures
        profiles.len() > 0 ==> listed_lines(profiles).len() == profiles.len(),
        forall|i: int|
            0 <= i < profiles.len() ==> #[trigger] listed_lines(profiles)[i] == listed_line(profiles[i]),
        profiles.len() == 0 ==> listed_lines(profiles) == seq!["No profiles."@],
{
}

/// The value of a list of profiles.
pub open spec fn profile_list_view(profiles: Seq<EntryView<ListingView>>) -> JsonView {
    JsonView::Object(
        seq![
            ("status"@, JsonView::Text("ok"@)),
            ("profiles"@, JsonView::Array(listed_values(profiles))),
        ],
    )
}

/// The value of a list of profiles: each part under its own name, and nothing
/// else.
pub proof fn law_shown_profile_list(profiles: Seq<EntryView<ListingView>>)
    ensures
        ({
            let shown = profile_list_view(profiles);
            &&& shows_only(shown, 2)
            &&& shows(shown, "status"@, JsonView::Text("ok"@))
            &&& shows(shown, "profiles"@, JsonView::Array(listed_values(profiles)))
        }),
{
    let shown = profile_list_view(profiles);
    lemma_shows_all(shown);
    let at = shown->Object_0;
    assert(at[0] == at[0] && at[1] == at[1]);
}

/// Lists profiles by their ids, and those of one id by where they are from.
pub fn list_profiles(profiles: Vec<OrderedEntry<ProfileListing>>) -> (report: (Json, Vec<String>))
    ensures
        report.0@ == profile_list_view(in_order(entry_views(profiles@))),
        string_views(report.1@) == listed_lines(in_order(entry_views(profiles@))),
{
    let sorted = sort_entries(profiles);
    let ghost entries = entry_views(sorted@);
    let mut values: Vec<Json> = Vec::new();
    let mut lines: Vec<String> = Vec::new();
    let mut i: usize = 0;
    while i < sorted.len()
        invariant
            i <= sorted@.len(),
            entries == entry_views(sorted@),
            values@.len() == i,
            lines@.len() == i,
            forall|j: int| 0 <= j < i ==> (#[trigger] values@[j])@ == entries[j].2.value,
            forall|j: int| 0 <= j < i ==> (#[trigger] lines@[j])@ == listed_line(entries[j]),
        decreases sorted@.len() - i,
    {
        values.push(sorted[i].value.value.duplicate());
        let mut line = sorted[i].key.clone();
        line.push_str(" ");
        line.push_str(sorted[i].value.scope.as_str());
        line.push_str(" ");
        line.push_str(sorted[i].value.display_name.as_str());
        assert(line@ =~= listed_line(entries[i as int]));
        lines.push(line);
        i = i + 1;
    }
    if sorted.len() == 0 {
        lines.push("No profiles.".to_owned());
    }
    assert(item_views(values@) =~= listed_values(entries));
    assert(string_views(lines@) =~= listed_lines(entries));
    let mut out = ObjectBuilder::new();
    out.put_text("status", "ok");
    out.put("profiles", array(values));
    assert(out@ =~= profile_list_view(entries)->Object_0);
    (out.finish(), lines)
}

/// One profile.
pub open spec fn profile_value_view(profile: Json) -> JsonView {
    JsonView::Object(
        seq![
            ("status"@, JsonView::Text("ok"@)),
            ("profile"@, profile@),
        ],
    )
}

/// One profile: each part under its own name, and nothing else.
pub proof fn law_shown_profile(profile: Json)
    ensures
        ({
            let shown = profile_value_view(profile);
            &&& shows_only(shown, 2)
            &&& shows(shown, "status"@, JsonView::Text("ok"@))
            &&& shows(shown, "profile"@, profile@)
        }),
{
    let shown = profile_value_view(profile);
    lemma_shows_all(shown);
    let at = shown->Object_0;
    assert(at[0] == at[0] && at[1] == at[1]);
}

/// One profile.
pub fn profile_value(profile: &Json) -> (value: Json)
    ensures
        value@ == profile_value_view(*profile),
{
    let mut out = ObjectBuilder::new();
    out.put_text("status", "ok");
    out.put("profile", profile.duplicate());
    assert(out@ =~= profile_value_view(*profile)->Object_0);
    out.finish()
}

/// How many members a profile has: its own, and those that it has for single
/// providers.
pub open spec fn member_total(own: nat, for_providers: Seq<u64>) -> nat
    decreases for_providers.len(),
{
    if for_providers.len() == 0 {
        own
    } else {
        member_total(own, for_providers.drop_last()) + for_providers.last() as nat
    }
}

proof fn lemma_members_grow(own: nat, for_providers: Seq<u64>, n: int)
    requires
        0 <= n <= for_providers.len(),
    ensures
        member_total(own, for_providers.take(n)) <= member_total(own, for_providers),
    decreases for_providers.len(),
{
    if n == for_providers.len() {
        assert(for_providers.take(n) =~= for_providers);
    } else {
        assert(for_providers.drop_last().take(n) =~= for_providers.take(n));
        lemma_members_grow(own, for_providers.drop_last(), n);
    }
}

/// How many members a profile has.
pub fn member_count(own: u64, for_providers: &Vec<u64>) -> (count: u64)
    requires
        member_total(own as nat, for_providers@) <= u64::MAX,
    ensures
        count == member_total(own as nat, for_providers@),
{
    let mut count: u64 = own;
    let mut i: usize = 0;
    assert(for_providers@.take(0) =~= seq![]);
    while i < for_providers.len()
        invariant
            i <= for_providers@.len(),
            member_total(own as nat, for_providers@) <= u64::MAX,
            count == member_total(own as nat, for_providers@.take(i as int)),
        decreases for_providers@.len() - i,
    {
        assert(for_providers@.take(i + 1).drop_last() =~= for_providers@.take(i as int));
        proof {
            lemma_members_grow(own as nat, for_providers@, i + 1);
        }
        count = count + for_providers[i];
        i = i + 1;
    }
    assert(for_providers@.take(i as int) =~= for_providers@);
    count
}

/// The lines for one profile.
pub open spec fn profile_line_text(
    id: Seq<char>,
    scope: Seq<char>,
    display_name: Seq<char>,
    members: u64,
) -> Seq<char> {
    id + " ("@ + scope + ")\n  name: "@ + display_name + "\n  members: "@
        + decimal_of(members as nat)
}

/// The lines for one profile: each part stands with its label.
pub proof fn law_line_of_profile(
    id: Seq<char>,
    scope: Seq<char>,
    display_name: Seq<char>,
    members: u64,
)
    ensures
        ({
            let line = profile_line_text(id, scope, display_name, members);
            &&& occurs(line, id)
            &&& occurs(line, " ("@ + scope)
            &&& occurs(line, ")\n  name: "@ + display_name)
            &&& occurs(line, "\n  members: "@ + decimal_of(members as nat))
        }),
{
    broadcast use group_occurs;

}

/// The lines for one profile.
pub fn profile_line(id: &str, scope: &str, display_name: &str, members: u64) -> (line: String)
    ensures
        line@ == profile_line_text(id@, scope@, display_name@, members),
{
    let mut line = String::new();
    line.push_str(id);
    line.push_str(" (");
    line.push_str(scope);
    line.push_str(")\n  name: ");
    line.push_str(display_name);
    line.push_str("\n  members: ");
    line.push_str(to_decimal(members).as_str());
    assert(line@ =~= profile_line_text(id@, scope@, display_name@, members));
    line
}

/// A profile that is valid.
pub open spec fn valid_profile_view(profile: Json) -> JsonView {
    JsonView::Object(
        seq![
            ("status"@, JsonView::Text("valid"@)),
            ("profile"@, profile@),
        ],
    )
}

/// A profile that is valid: each part under its own name, and nothing else.
pub proof fn law_shown_valid_profile(profile: Json)
    ensures
        ({
            let shown = valid_profile_view(profile);
            &&& shows_only(shown, 2)
            &&& shows(shown, "status"@, JsonView::Text("valid"@))
            &&& shows(shown, "profile"@, profile@)
        }),
{
    let shown = valid_profile_view(profile);
    lemma_shows_all(shown);
    let at = shown->Object_0;
    assert(at[0] == at[0] && at[1] == at[1]);
}

/// A profile that is valid.
pub fn valid_profile(profile: &Json) -> (value: Json)
    ensures
        value@ == valid_profile_view(*profile),
{
    let mut out = ObjectBuilder::new();
    out.put_text("status", "valid");
    out.put("profile", profile.duplicate());
    assert(out@ =~= valid_profile_view(*profile)->Object_0);
    out.finish()
}

/// The line for a profile that is valid.
pub open spec fn valid_profile_line_text(
    profile_id: Seq<char>,
    digest: Seq<char>,
    members: u64,
    local_review: bool,
) -> Seq<char> {
    "valid profile "@ + profile_id + " digest="@ + digest + " members="@
        + decimal_of(members as nat) + " local-review="@ + bool_word(local_review)
}

/// The line for a profile that is valid: each part stands with its label.
pub proof fn law_line_of_valid_profile(
    profile_id: Seq<char>,
    digest: Seq<char>,
    members: u64,
    local_review: bool,
)
    ensures
        ({
            let line = valid_profile_line_text(profile_id, digest, members, local_review);
            &&& occurs(line, "valid profile "@ + profile_id)
            &&& occurs(line, " digest="@ + digest)
            &&& occurs(line, " members="@ + decimal_of(members as nat))
            &&& occurs(line, " local-review="@ + bool_word(local_review))
        }),
{
    broadcast use group_occurs;

}

/// The line for a profile that is valid.
pub fn valid_profile_line(
    profile_id: &str,
    digest: &str,
    members: u64,
    local_review: bool,
) -> (line: String)
    ensures
        line@ == valid_profile_line_text(profile_id@, digest@, members, local_review),
{
    let mut line = String::new();
    line.push_str("valid profile ");
    line.push_str(profile_id);
    line.push_str(" digest=");
    line.push_str(digest);
    line.push_str(" members=");
    line.push_str(to_decimal(members).as_str());
    line.push_str(" local-review=");
    line.push_str(bool_text(local_review));
    assert(line@ =~= valid_profile_line_text(profile_id@, digest@, members, local_review));
    line
}

/// The plan to select a profile.
pub open spec fn profile_plan_view(operation: Json, profile: Json, plan: Json) -> JsonView {
    JsonView::Object(
        seq![
            ("status"@, JsonView::Text("planned"@)),
            ("operation"@, operation@),
            ("profile"@, profile@),
            ("plan"@, plan@),
        ],
    )
}

/// The plan to select a profile: each part under its own name, and nothing
/// else.
pub proof fn law_shown_profile_plan(operation: Json, profile: Json, plan: Json)
    ensures
        ({
            let shown = profile_plan_view(operation, profile, plan);
            &&& shows_only(shown, 4)
            &&& shows(shown, "status"@, JsonView::Text("planned"@))
            &&& shows(shown, "operation"@, operation@)
            &&& shows(shown, "profile"@, profile@)
            &&& shows(shown, "plan"@, plan@)
        }),
{
    let shown = profile_plan_view(operation, profile, plan);
    lemma_shows_all(shown);
    let at = shown->Object_0;
    assert(at[0] == at[0] && at[1] == at[1] && at[2] == at[2] && at[3] == at[3]);
}

/// The plan to select a profile.
pub fn profile_plan(operation: &Json, profile: &Json, plan: &Json) -> (value: Json)
    ensures
        value@ == profile_plan_view(*operation, *profile, *plan),
{
    let mut out = ObjectBuilder::new();
    out.put_text("status", "planned");
    out.put("operation", operation.duplicate());
    out.put("profile", profile.duplicate());
    out.put("plan", plan.duplicate());
    assert(out@ =~= profile_plan_view(*operation, *profile, *plan)->Object_0);
    out.finish()
}

/// The line for the plan to select a profile.
pub open spec fn profile_plan_line_text(
    profile_id: Seq<char>,
    plan_fingerprint: Seq<char>,
) -> Seq<char> {
    "planned profile "@ + profile_id + " activation=next-session-only fingerprint="@
        + plan_fingerprint
}

/// The line for the plan to select a profile: each part stands with its label.
pub proof fn law_line_of_profile_plan(profile_id: Seq<char>, plan_fingerprint: Seq<char>)
    ensures
        ({
            let line = profile_plan_line_text(profile_id, plan_fingerprint);
            &&& occurs(line, "planned profile "@ + profile_id)
            &&& occurs(line, " activation=next-session-only fingerprint="@ + plan_fingerprint)
        }),
{
    broadcast use group_occurs;

}

/// The line for the plan to select a profile.
pub fn profile_plan_line(profile_id: &str, plan_fingerprint: &str) -> (line: String)
    ensures
        line@ == profile_plan_line_text(profile_id@, plan_fingerprint@),
{
    let mut line = String::new();
    line.push_str("planned profile ");
    line.push_str(profile_id);
    line.push_str(" activation=next-session-only fingerprint=");
    line.push_str(plan_fingerprint);
    assert(line@ =~= profile_plan_line_text(profile_id@, plan_fingerprint@));
    line
}

/// A profile that was selected.
pub open spec fn profile_result_view(operation: Json, profile: Json, result: Json) -> JsonView {
    JsonView::Object(
        seq![
            ("status"@, JsonView::Text("applied"@)),
            ("operation"@, operation@),
            ("profile"@, profile@),
            ("result"@, result@),
        ],
    )
}

/// A profile that was selected: each part under its own name, and nothing else.
pub proof fn law_shown_profile_result(operation: Json, profile: Json, result: Json)
    ensures
        ({
            let shown = profile_result_view(operation, profile, result);
            &&& shows_only(shown, 4)
            &&& shows(shown, "status"@, JsonView::Text("applied"@))
            &&& shows(shown, "operation"@, operation@)
            &&& shows(shown, "profile"@, profile@)
            &&& shows(shown, "result"@, result@)
        }),
{
    let shown = profile_result_view(operation, profile, result);
    lemma_shows_all(shown);
    let at = shown->Object_0;
    assert(at[0] == at[0] && at[1] == at[1] && at[2] == at[2] && at[3] == at[3]);
}

/// A profile that was selected.
pub fn profile_result(operation: &Json, profile: &Json, result: &Json) -> (value: Json)
    ensures
        value@ == profile_result_view(*operation, *profile, *result),
{
    let mut out = ObjectBuilder::new();
    out.put_text("status", "applied");
    out.put("operation", operation.duplicate());
    out.put("profile", profile.duplicate());
    out.put("result", result.duplicate());
    assert(out@ =~= profile_result_view(*operation, *profile, *result)->Object_0);
    out.finish()
}

/// The line for a profile that was selected.
pub open spec fn profile_result_line_text(profile_id: Seq<char>, mode: Seq<char>) -> Seq<char> {
    "profile "@ + profile_id + " selected; activation=next-session-only mode="@ + mode
}

/// The line for a profile that was selected: each part stands with its label.
pub proof fn law_line_of_profile_result(profile_id: Seq<char>, mode: Seq<char>)
    ensures
        ({
            let line = profile_result_line_text(profile_id, mode);
            &&& occurs(line, "profile "@ + profile_id)
            &&& occurs(line, " selected; activation=next-session-only mode="@ + mode)
        }),
{
    broadcast use group_occurs;

}

/// The line for a profile that was selected.
pub fn profile_result_line(profile_id: &str, mode: &str) -> (line: String)
    ensures
        line@ == profile_result_line_text(profile_id@, mode@),
{
    let mut line = String::new();
    line.push_str("profile ");
    line.push_str(profile_id);
    line.push_str(" selected; activation=next-session-only mode=");
    line.push_str(mode);
    assert(line@ =~= profile_result_line_text(profile_id@, mode@));
    line
}

/// A plan to select a profile for the providers in reach.
pub struct ReachPlan {
    pub operation_id: String,
    pub plan_fingerprint: String,
    pub provider_reach: Json,
    pub coverage: Json,
    pub activation: Json,
    pub targets: Json,
    pub no_op: bool,
    pub plan: Json,
}

/// The status of a plan that would or would not change anything.
pub open spec fn plan_word(no_op: bool) -> Seq<char> {
    if no_op {
        "no-op"@
    } else {
        "planned"@
    }
}

fn plan_text(no_op: bool) -> (word: &'static str)
    ensures
        word@ == plan_word(no_op),
{
    if no_op {
        "no-op"
    } else {
        "planned"
    }
}

/// The plan to select a profile for the providers in reach.
pub open spec fn reach_plan_view(plan: ReachPlan) -> JsonView {
    JsonView::Object(
        seq![
            ("statusVersion"@, JsonView::Unsigned(2)),
            ("status"@, JsonView::Text(plan_word(plan.no_op))),
            ("operationId"@, JsonView::Text(plan.operation_id@)),
            ("planFingerprint"@, JsonView::Text(plan.plan_fingerprint@)),
            ("providerReach"@, plan.provider_reach@),
            ("providerCoverage"@, plan.coverage@),
            ("activation"@, plan.activation@),
            ("targets"@, plan.targets@),
            (
                "humanAction"@,
                human_action_view(
                    "confirm-and-apply"@,
                    "Review provider reach, provenance, coverage, target classifications, activation, and fingerprint before apply."@,
                ),
            ),
            ("plan"@, plan.plan@),
        ],
    )
}

/// The plan to select a profile for the providers in reach: each part under its
/// own name, and nothing else.
pub proof fn law_shown_reach_plan(plan: ReachPlan)
    ensures
        ({
            let shown = reach_plan_view(plan);
            &&& shows_only(shown, 10)
            &&& shows(shown, "statusVersion"@, JsonView::Unsigned(2))
            &&& shows(shown, "status"@, JsonView::Text(plan_word(plan.no_op)))
            &&& shows(shown, "operationId"@, JsonView::Text(plan.operation_id@))
            &&& shows(shown, "planFingerprint"@, JsonView::Text(plan.plan_fingerprint@))
            &&& shows(shown, "providerReach"@, plan.provider_reach@)
            &&& shows(shown, "providerCoverage"@, plan.coverage@)
            &&& shows(shown, "activation"@, plan.activation@)
            &&& shows(shown, "targets"@, plan.targets@)
            &&& shows(
                shown,
                "humanAction"@,
                human_action_view(
                    "confirm-and-apply"@,
                    "Review provider reach, provenance, coverage, target classifications, activation, and fingerprint before apply."@,
                ),
            )
            &&& shows(shown, "plan"@, plan.plan@)
        }),
{
    let shown = reach_plan_view(plan);
    lemma_shows_all(shown);
    let at = shown->Object_0;
    assert(at[0] == at[0] && at[1] == at[1] && at[2] == at[2] && at[3] == at[3] && at[4] ==
        at[4] && at[5] == at[5] && at[6] == at[6] && at[7] == at[7] && at[8] == at[8] && at[9]
        == at[9]);
}

/// The plan to select a profile for the providers in reach.
pub fn reach_plan(plan: &ReachPlan) -> (value: Json)
    ensures
        value@ == reach_plan_view(*plan),
{
    let mut out = ObjectBuilder::new();
    out.put("statusVersion", Json::Unsigned(2));
    out.put("status", text(plan_text(plan.no_op)));
    out.put_text("operationId", plan.operation_id.as_str());
    out.put_text("planFingerprint", plan.plan_fingerprint.as_str());
    out.put("providerReach", plan.provider_reach.duplicate());
    out.put("providerCoverage", plan.coverage.duplicate());
    out.put("activation", plan.activation.duplicate());
    out.put("targets", plan.targets.duplicate());
    out.put(
        "humanAction",
        human_action(
            "confirm-and-apply",
            "Review provider reach, provenance, coverage, target classifications, activation, and fingerprint before apply.",
        ),
    );
    out.put("plan", plan.plan.duplicate());
    assert(out@ =~= reach_plan_view(*plan)->Object_0);
    out.finish()
}

/// The line for such a plan.
pub open spec fn reach_plan_line_text(
    profile_id: Seq<char>,
    reach: Seq<char>,
    targets: u64,
    activation: Seq<char>,
    plan_fingerprint: Seq<char>,
) -> Seq<char> {
    "profile "@ + profile_id + " reach="@ + reach + " targets="@ + decimal_of(targets as nat)
        + " activation="@ + activation + " fingerprint="@ + plan_fingerprint
}

/// The line for such a plan: each part stands with its label.
pub proof fn law_line_of_reach_plan(
    profile_id: Seq<char>,
    reach: Seq<char>,
    targets: u64,
    activation: Seq<char>,
    plan_fingerprint: Seq<char>,
)
    ensures
        ({
            let line = reach_plan_line_text(profile_id, reach, targets, activation, plan_fingerprint);
            &&& occurs(line, "profile "@ + profile_id)
            &&& occurs(line, " reach="@ + reach)
            &&& occurs(line, " targets="@ + decimal_of(targets as nat))
            &&& occurs(line, " activation="@ + activation)
            &&& occurs(line, " fingerprint="@ + plan_fingerprint)
        }),
{
    broadcast use group_occurs;

}

/// The line for such a plan.
pub fn reach_plan_line(
    profile_id: &str,
    reach: &str,
    targets: u64,
    activation: &str,
    plan_fingerprint: &str,
) -> (line: String)
    ensures
        line@ == reach_plan_line_text(profile_id@, reach@, targets, activation@, plan_fingerprint@),
{
    let mut line = String::new();
    line.push_str("profile ");
    line.push_str(profile_id);
    line.push_str(" reach=");
    line.push_str(reach);
    line.push_str(" targets=");
    line.push_str(to_decimal(targets).as_str());
    line.push_str(" activation=");
    line.push_str(activation);
    line.push_str(" fingerprint=");
    line.push_str(plan_fingerprint);
    assert(line@ =~= reach_plan_line_text(
        profile_id@,
        reach@,
        targets,
        activation@,
        plan_fingerprint@,
    ));
    line
}

/// A provider in reach, and what the plan means for it.
pub struct ReachTarget {
    pub provider: String,
    pub classification: String,
    pub presence: String,
    pub inherited_before: String,
    pub effect: String,
    pub future_activation: String,
    pub activation: String,
}

/// The line for a provider in reach.
pub open spec fn reach_target_line_text(target: ReachTarget) -> Seq<char> {
    "  "@ + target.provider@ + " classification="@ + target.classification@ + " presence="@
        + target.presence@ + " inherited-before="@ + target.inherited_before@ + " effect="@
        + target.effect@ + " future-activation="@ + target.future_activation@ + " activation="@
        + target.activation@
}

/// The line for a provider in reach: each part stands with its label.
pub proof fn law_line_of_reach_target(target: ReachTarget)
    ensures
        ({
            let line = reach_target_line_text(target);
            &&& occurs(line, "  "@ + target.provider@)
            &&& occurs(line, " classification="@ + target.classification@)
            &&& occurs(line, " presence="@ + target.presence@)
            &&& occurs(line, " inherited-before="@ + target.inherited_before@)
            &&& occurs(line, " effect="@ + target.effect@)
            &&& occurs(line, " future-activation="@ + target.future_activation@)
            &&& occurs(line, " activation="@ + target.activation@)
        }),
{
    broadcast use group_occurs;

}

/// The line for a provider in reach.
pub fn reach_target_line(target: &ReachTarget) -> (line: String)
    ensures
        line@ == reach_target_line_text(*target),
{
    let mut line = String::new();
    line.push_str("  ");
    line.push_str(target.provider.as_str());
    line.push_str(" classification=");
    line.push_str(target.classification.as_str());
    line.push_str(" presence=");
    line.push_str(target.presence.as_str());
    line.push_str(" inherited-before=");
    line.push_str(target.inherited_before.as_str());
    line.push_str(" effect=");
    line.push_str(target.effect.as_str());
    line.push_str(" future-activation=");
    line.push_str(target.future_activation.as_str());
    line.push_str(" activation=");
    line.push_str(target.activation.as_str());
    assert(line@ =~= reach_target_line_text(*target));
    line
}

/// The lines for the providers in reach.
pub open spec fn reach_target_lines_texts(list: Seq<ReachTarget>) -> Seq<Seq<char>> {
    Seq::new(list.len(), |i: int| reach_target_line_text(list[i]))
}

/// The lines for the providers in reach.
pub fn reach_target_lines(list: &Vec<ReachTarget>) -> (lines: Vec<String>)
    ensures
        string_views(lines@) == reach_target_lines_texts(list@),
{
    let mut lines: Vec<String> = Vec::new();
    let mut i: usize = 0;
    while i < list.len()
        invariant
            i <= list@.len(),
            lines@.len() == i,
            forall|j: int|
                0 <= j < i ==> (#[trigger] lines@[j])@ == reach_target_line_text(list@[j]),
        decreases list@.len() - i,
    {
        lines.push(reach_target_line(&list[i]));
        i = i + 1;
    }
    assert(string_views(lines@) =~= reach_target_lines_texts(list@));
    lines
}

/// How the operation on a profile is shown.
pub open spec fn operation_word(status: ProfileProviderOperationStatus) -> Seq<char> {
    match status {
        ProfileProviderOperationStatus::Applied => "applied"@,
        ProfileProviderOperationStatus::NoOp => "no-op"@,
        ProfileProviderOperationStatus::Blocked => "blocked"@,
        ProfileProviderOperationStatus::RecoveryRequired => "recovery-required"@,
    }
}

fn operation_text(status: ProfileProviderOperationStatus) -> (word: &'static str)
    ensures
        word@ == operation_word(status),
{
    profile_operation_result(status).0
}

/// A profile that was selected for the providers in reach.
pub open spec fn reach_result_view(
    plan: ReachPlan,
    status: ProfileProviderOperationStatus,
    result: Json,
) -> JsonView {
    JsonView::Object(
        seq![
            ("statusVersion"@, JsonView::Unsigned(2)),
            ("status"@, JsonView::Text(operation_word(status))),
            ("operationId"@, JsonView::Text(plan.operation_id@)),
            ("planFingerprint"@, JsonView::Text(plan.plan_fingerprint@)),
            ("providerReach"@, plan.provider_reach@),
            ("providerCoverage"@, plan.coverage@),
            ("activation"@, plan.activation@),
            ("result"@, result@),
        ],
    )
}

/// A profile that was selected for the providers in reach: each part under its
/// own name, and nothing else.
pub proof fn law_shown_reach_result(
    plan: ReachPlan,
    status: ProfileProviderOperationStatus,
    result: Json,
)
    ensures
        ({
            let shown = reach_result_view(plan, status, result);
            &&& shows_only(shown, 8)
            &&& shows(shown, "statusVersion"@, JsonView::Unsigned(2))
            &&& shows(shown, "status"@, JsonView::Text(operation_word(status)))
            &&& shows(shown, "operationId"@, JsonView::Text(plan.operation_id@))
            &&& shows(shown, "planFingerprint"@, JsonView::Text(plan.plan_fingerprint@))
            &&& shows(shown, "providerReach"@, plan.provider_reach@)
            &&& shows(shown, "providerCoverage"@, plan.coverage@)
            &&& shows(shown, "activation"@, plan.activation@)
            &&& shows(shown, "result"@, result@)
        }),
{
    let shown = reach_result_view(plan, status, result);
    lemma_shows_all(shown);
    let at = shown->Object_0;
    assert(at[0] == at[0] && at[1] == at[1] && at[2] == at[2] && at[3] == at[3] && at[4] ==
        at[4] && at[5] == at[5] && at[6] == at[6] && at[7] == at[7]);
}

/// A profile that was selected for the providers in reach.
pub fn reach_result(
    plan: &ReachPlan,
    status: ProfileProviderOperationStatus,
    result: &Json,
) -> (value: Json)
    ensures
        value@ == reach_result_view(*plan, status, *result),
{
    let mut out = ObjectBuilder::new();
    out.put("statusVersion", Json::Unsigned(2));
    out.put("status", text(operation_text(status)));
    out.put_text("operationId", plan.operation_id.as_str());
    out.put_text("planFingerprint", plan.plan_fingerprint.as_str());
    out.put("providerReach", plan.provider_reach.duplicate());
    out.put("providerCoverage", plan.coverage.duplicate());
    out.put("activation", plan.activation.duplicate());
    out.put("result", result.duplicate());
    assert(out@ =~= reach_result_view(*plan, status, *result)->Object_0);
    out.finish()
}

/// The line for such a result.
pub open spec fn reach_result_line_text(
    profile_id: Seq<char>,
    status: Seq<char>,
    reach: Seq<char>,
    activation: Seq<char>,
) -> Seq<char> {
    "profile "@ + profile_id + " "@ + status + "; reach="@ + reach + " activation="@ + activation
}

/// The line for such a result: each part stands with its label.
pub proof fn law_line_of_reach_result(
    profile_id: Seq<char>,
    status: Seq<char>,
    reach: Seq<char>,
    activation: Seq<char>,
)
    ensures
        ({
            let line = reach_result_line_text(profile_id, status, reach, activation);
            &&& occurs(line, "profile "@ + profile_id)
            &&& occurs(line, profile_id + " "@ + status)
            &&& occurs(line, "; reach="@ + reach)
            &&& occurs(line, " activation="@ + activation)
        }),
{
    broadcast use group_occurs;

}

/// The line for such a result.
pub fn reach_result_line(
    profile_id: &str,
    status: &str,
    reach: &str,
    activation: &str,
) -> (line: String)
    ensures
        line@ == reach_result_line_text(profile_id@, status@, reach@, activation@),
{
    let mut line = String::new();
    line.push_str("profile ");
    line.push_str(profile_id);
    line.push_str(" ");
    line.push_str(status);
    line.push_str("; reach=");
    line.push_str(reach);
    line.push_str(" activation=");
    line.push_str(activation);
    assert(line@ =~= reach_result_line_text(profile_id@, status@, reach@, activation@));
    line
}

/// The names under which the change of a policy is backed up: of the operation,
/// and of its owner.
pub struct BackupNames {
    pub operation: String,
    pub owner: String,
}

/// The names under which the selection of a profile is backed up.
pub fn profile_backup_names(plan_fingerprint: &str) -> (names: BackupNames)
    requires
        plain_start(plan_fingerprint@, 32),
    ensures
        names.operation@ == "profile-apply-"@ + plan_fingerprint@.take(32),
        names.owner@ == "unpin-cli-profile-backup-"@ + plan_fingerprint@.take(16),
{
    BackupNames {
        operation: derived_name("profile-apply-", plan_fingerprint, 32),
        owner: derived_name("unpin-cli-profile-backup-", plan_fingerprint, 16),
    }
}

/// The names under which the change of a lock is backed up.
pub fn lock_backup_names(plan_fingerprint: &str) -> (names: BackupNames)
    requires
        plain_start(plan_fingerprint@, 32),
    ensures
        names.operation@ == "capability-lock-"@ + plan_fingerprint@.take(32),
        names.owner@ == "unpin-cli-capability-lock-"@ + plan_fingerprint@.take(16),
{
    BackupNames {
        operation: derived_name("capability-lock-", plan_fingerprint, 32),
        owner: derived_name("unpin-cli-capability-lock-", plan_fingerprint, 16),
    }
}

/// The names under which the selection of a profile for the providers in reach
/// is backed up.
pub fn reach_backup_names(operation_id: &str) -> (names: BackupNames)
    ensures
        names.operation@ == operation_id@,
        names.owner@ == "unpin-cli-profile-provider-backup-"@ + operation_id@,
{
    BackupNames {
        operation: operation_id.to_owned(),
        owner: joined("unpin-cli-profile-provider-backup-", operation_id),
    }
}

/// For how long an approved change may be carried out, in seconds.
pub const APPLY_WINDOW_SECONDS: i64 = 3600;

/// When an approved change may be carried out: from now on, for an hour.
pub fn apply_window(now_unix: i64) -> (window: (i64, i64))
    requires
        now_unix <= i64::MAX - APPLY_WINDOW_SECONDS,
    ensures
        window.0 == now_unix,
        window.1 == now_unix + APPLY_WINDOW_SECONDS,
{
    (now_unix, now_unix + APPLY_WINDOW_SECONDS)
}

} // verus!
