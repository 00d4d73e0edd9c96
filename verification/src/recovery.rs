//! What the desktop is shown of the inventory, of operations and of backups.
use vstd::prelude::*;

use crate::agent_plugin::{
    countable, redacted_agent_plugin_summary, redacted_agent_plugin_summary_view, PluginPackage,
};
use crate::json::{
    array, item_views, optional_value, text_array, text_values, value_or_null, Json, JsonView,
    ObjectBuilder,
};
use crate::laws::shown::{lemma_shows_all, shows, shows_only};
use crate::ordering::{
    entry_values, entry_views, in_order, sort_entries, EntryView, OrderedEntry,
};
use crate::text::{optional, string_views};

verus! {

/// A backup, as its index lists it.
pub struct BackupSummary {
    pub backup_id: String,
    pub created_at: Json,
    pub item_count: u64,
    pub providers: Json,
    pub layers: Json,
    pub restorable: bool,
    pub authentication: Json,
    pub target_enabled: Json,
}

/// What is shown of a backup.
pub open spec fn redacted_backup_summary_view(summary: BackupSummary) -> JsonView {
    JsonView::Object(
        seq![
            ("backupId"@, JsonView::Text(summary.backup_id@)),
            ("createdAt"@, summary.created_at@),
            ("itemCount"@, JsonView::Unsigned(summary.item_count)),
            ("providers"@, summary.providers@),
            ("layers"@, summary.layers@),
            ("restorable"@, JsonView::Bool(summary.restorable)),
            ("authentication"@, summary.authentication@),
            ("targetEnabled"@, summary.target_enabled@),
        ],
    )
}

/// What is shown of a backup: each part under its own name, and nothing else.
pub proof fn law_shown_redacted_backup_summary(summary: BackupSummary)
    ensures
        ({
            let shown = redacted_backup_summary_view(summary);
            &&& shows_only(shown, 8)
            &&& shows(shown, "backupId"@, JsonView::Text(summary.backup_id@))
            &&& shows(shown, "createdAt"@, summary.created_at@)
            &&& shows(shown, "itemCount"@, JsonView::Unsigned(summary.item_count))
            &&& shows(shown, "providers"@, summary.providers@)
            &&& shows(shown, "layers"@, summary.layers@)
            &&& shows(shown, "restorable"@, JsonView::Bool(summary.restorable))
            &&& shows(shown, "authentication"@, summary.authentication@)
            &&& shows(shown, "targetEnabled"@, summary.target_enabled@)
        }),
{
    let shown = redacted_backup_summary_view(summary);
    lemma_shows_all(shown);
    let at = shown->Object_0;
    assert(at[0] == at[0] && at[1] == at[1] && at[2] == at[2] && at[3] == at[3] && at[4] ==
        at[4] && at[5] == at[5] && at[6] == at[6] && at[7] == at[7]);
}

/// What is shown of a backup.
pub fn redacted_backup_summary(summary: &BackupSummary) -> (value: Json)
    ensures
        value@ == redacted_backup_summary_view(*summary),
{
    let mut out = ObjectBuilder::new();
    out.put_text("backupId", summary.backup_id.as_str());
    out.put("createdAt", summary.created_at.duplicate());
    out.put("itemCount", Json::Unsigned(summary.item_count));
    out.put("providers", summary.providers.duplicate());
    out.put("layers", summary.layers.duplicate());
    out.put("restorable", Json::Bool(summary.restorable));
    out.put("authentication", summary.authentication.duplicate());
    out.put("targetEnabled", summary.target_enabled.duplicate());
    assert(out@ =~= redacted_backup_summary_view(*summary)->Object_0);
    out.finish()
}

/// What is shown of backups.
pub open spec fn backup_values_views(list: Seq<BackupSummary>) -> Seq<JsonView> {
    Seq::new(list.len(), |i: int| redacted_backup_summary_view(list[i]))
}

/// Each of them is shown, in the order in which they stand.
pub proof fn law_each_of_backup_values(list: Seq<BackupSummary>)
    ensures
        backup_values_views(list).len() == list.len(),
        forall|i: int| 0 <= i < list.len() ==> #[trigger] backup_values_views(list)[i] == redacted_backup_summary_view(list[i]),
{
}

/// What is shown of backups.
pub fn backup_values(list: &Vec<BackupSummary>) -> (values: Vec<Json>)
    ensures
        item_views(values@) == backup_values_views(list@),
{
    let mut values: Vec<Json> = Vec::new();
    let mut i: usize = 0;
    while i < list.len()
        invariant
            i <= list@.len(),
            values@.len() == i,
            forall|j: int|
                0 <= j < i ==> (#[trigger] values@[j])@ == redacted_backup_summary_view(list@[j]),
        decreases list@.len() - i,
    {
        values.push(redacted_backup_summary(&list[i]));
        i = i + 1;
    }
    assert(item_views(values@) =~= backup_values_views(list@));
    values
}

/// A control operation.
pub struct ControlOperation {
    pub operation_id: String,
    pub operation_kind: Json,
    pub lifecycle: Json,
    pub effect_graph_digest: Json,
    pub authorization_recorded: Json,
    pub terminal_code: Json,
    pub recovery_required: bool,
    pub resources: Vec<String>,
}

/// What is shown of a control operation: how many resources it has, not which.
pub open spec fn redacted_operation_summary_view(operation: ControlOperation) -> JsonView {
    JsonView::Object(
        seq![
            ("operationId"@, JsonView::Text(operation.operation_id@)),
            ("operationKind"@, operation.operation_kind@),
            ("lifecycle"@, operation.lifecycle@),
            ("effectGraphDigest"@, operation.effect_graph_digest@),
            ("authorizationRecorded"@, operation.authorization_recorded@),
            ("terminalCode"@, operation.terminal_code@),
            ("recoveryRequired"@, JsonView::Bool(operation.recovery_required)),
            ("resourceCount"@, JsonView::Unsigned(operation.resources@.len() as u64)),
        ],
    )
}

/// What is shown of a control operation: how many resources it has, not which:
/// each part under its own name, and nothing else.
pub proof fn law_shown_redacted_operation_summary(operation: ControlOperation)
    ensures
        ({
            let shown = redacted_operation_summary_view(operation);
            &&& shows_only(shown, 8)
            &&& shows(shown, "operationId"@, JsonView::Text(operation.operation_id@))
            &&& shows(shown, "operationKind"@, operation.operation_kind@)
            &&& shows(shown, "lifecycle"@, operation.lifecycle@)
            &&& shows(shown, "effectGraphDigest"@, operation.effect_graph_digest@)
            &&& shows(shown, "authorizationRecorded"@, operation.authorization_recorded@)
            &&& shows(shown, "terminalCode"@, operation.terminal_code@)
            &&& shows(shown, "recoveryRequired"@, JsonView::Bool(operation.recovery_required))
            &&& shows(
                shown,
                "resourceCount"@,
                JsonView::Unsigned(operation.resources@.len() as u64),
            )
        }),
{
    let shown = redacted_operation_summary_view(operation);
    lemma_shows_all(shown);
    let at = shown->Object_0;
    assert(at[0] == at[0] && at[1] == at[1] && at[2] == at[2] && at[3] == at[3] && at[4] ==
        at[4] && at[5] == at[5] && at[6] == at[6] && at[7] == at[7]);
}

/// What is shown of a control operation: how many resources it has, not which.
pub fn redacted_operation_summary(operation: &ControlOperation) -> (value: Json)
    ensures
        value@ == redacted_operation_summary_view(*operation),
{
    let mut out = ObjectBuilder::new();
    out.put_text("operationId", operation.operation_id.as_str());
    out.put("operationKind", operation.operation_kind.duplicate());
    out.put("lifecycle", operation.lifecycle.duplicate());
    out.put("effectGraphDigest", operation.effect_graph_digest.duplicate());
    out.put("authorizationRecorded", operation.authorization_recorded.duplicate());
    out.put("terminalCode", operation.terminal_code.duplicate());
    out.put("recoveryRequired", Json::Bool(operation.recovery_required));
    out.put("resourceCount", Json::Unsigned(operation.resources.len() as u64));
    assert(out@ =~= redacted_operation_summary_view(*operation)->Object_0);
    out.finish()
}

/// The backups of one part of a group operation.
pub struct CohortBackups {
    pub resource_ids: Vec<String>,
    pub backup_ids: Vec<String>,
}

/// How a group operation ended.
pub struct TerminalResult {
    pub final_state: Json,
    pub observation_fresh: bool,
    pub observation_reason: Option<Json>,
    pub members: Json,
}

/// A group operation with its evidence.
pub struct GroupInspection {
    pub operation_id: String,
    pub operation_kind: String,
    pub lifecycle: Json,
    pub qualified_name: Json,
    pub requested_state: Json,
    pub created_at: Json,
    pub updated_at: Json,
    pub plan_fingerprint: Json,
    pub provider_reach: Json,
    pub provider_coverage: Json,
    pub provider_reach_lifecycle: Json,
    pub provider_writes_started: Json,
    pub recovery_required: bool,
    pub cohorts: Vec<CohortBackups>,
    pub evidence_available: bool,
    pub terminal_result: Option<TerminalResult>,
}

/// How many resources the parts of an operation have together.
pub open spec fn resource_total(cohorts: Seq<CohortBackups>) -> nat
    decreases cohorts.len(),
{
    if cohorts.len() == 0 {
        0
    } else {
        resource_total(cohorts.drop_last()) + cohorts.last().resource_ids@.len()
    }
}

/// The backups of the parts of an operation, in order.
pub open spec fn backup_ids(cohorts: Seq<CohortBackups>) -> Seq<Seq<char>>
    decreases cohorts.len(),
{
    if cohorts.len() == 0 {
        seq![]
    } else {
        backup_ids(cohorts.drop_last()) + string_views(cohorts.last().backup_ids@)
    }
}

proof fn lemma_resources_grow(cohorts: Seq<CohortBackups>, n: int)
    requires
        0 <= n <= cohorts.len(),
    ensures
        resource_total(cohorts.take(n)) <= resource_total(cohorts),
    decreases cohorts.len(),
{
    if n == cohorts.len() {
        assert(cohorts.take(n) =~= cohorts);
    } else {
        assert(cohorts.drop_last().take(n) =~= cohorts.take(n));
        lemma_resources_grow(cohorts.drop_last(), n);
    }
}

fn count_resources(cohorts: &Vec<CohortBackups>) -> (sum: u64)
    requires
        resource_total(cohorts@) <= u64::MAX,
    ensures
        sum == resource_total(cohorts@),
{
    let mut sum: u64 = 0;
    let mut i: usize = 0;
    assert(cohorts@.take(0) =~= seq![]);
    while i < cohorts.len()
        invariant
            i <= cohorts@.len(),
            resource_total(cohorts@) <= u64::MAX,
            sum == resource_total(cohorts@.take(i as int)),
        decreases cohorts@.len() - i,
    {
        assert(cohorts@.take(i + 1).drop_last() =~= cohorts@.take(i as int));
        proof {
            lemma_resources_grow(cohorts@, i + 1);
        }
        sum = sum + cohorts[i].resource_ids.len() as u64;
        i = i + 1;
    }
    assert(cohorts@.take(i as int) =~= cohorts@);
    sum
}

/// Whether the resources of an operation can be counted.
pub fn resources_countable(cohorts: &Vec<CohortBackups>) -> (r: bool)
    ensures
        r == (resource_total(cohorts@) <= u64::MAX),
{
    let mut sum: u64 = 0;
    let mut i: usize = 0;
    assert(cohorts@.take(0) =~= seq![]);
    while i < cohorts.len()
        invariant
            i <= cohorts@.len(),
            sum == resource_total(cohorts@.take(i as int)),
        decreases cohorts@.len() - i,
    {
        assert(cohorts@.take(i + 1).drop_last() =~= cohorts@.take(i as int));
        proof {
            lemma_resources_grow(cohorts@, i + 1);
        }
        sum = match sum.checked_add(cohorts[i].resource_ids.len() as u64) {
            Some(grown) => grown,
            None => return false,
        };
        i = i + 1;
    }
    assert(cohorts@.take(i as int) =~= cohorts@);
    true
}

fn all_backup_ids(cohorts: &Vec<CohortBackups>) -> (ids: Vec<String>)
    ensures
        string_views(ids@) == backup_ids(cohorts@),
{
    let mut ids: Vec<String> = Vec::new();
    let mut i: usize = 0;
    assert(cohorts@.take(0) =~= seq![]);
    assert(string_views(ids@) =~= seq![]);
    while i < cohorts.len()
        invariant
            i <= cohorts@.len(),
            string_views(ids@) == backup_ids(cohorts@.take(i as int)),
        decreases cohorts@.len() - i,
    {
        assert(cohorts@.take(i + 1).drop_last() =~= cohorts@.take(i as int));
        let ghost before = string_views(ids@);
        let ghost more = string_views(cohorts@[i as int].backup_ids@);
        let list = &cohorts[i].backup_ids;
        let mut j: usize = 0;
        assert(more.take(0) =~= seq![]);
        assert(string_views(ids@) =~= before + more.take(0));
        while j < list.len()
            invariant
                j <= list@.len(),
                more == string_views(list@),
                string_views(ids@) == before + more.take(j as int),
            decreases list@.len() - j,
        {
            let ghost now = string_views(ids@);
            ids.push(list[j].clone());
            assert(string_views(ids@) =~= now.push(more[j as int]));
            assert(string_views(ids@) =~= before + more.take(j + 1));
            j = j + 1;
        }
        assert(more.take(j as int) =~= more);
        i = i + 1;
    }
    assert(cohorts@.take(i as int) =~= cohorts@);
    ids
}

/// What is shown of how an operation ended, each where it has ended.
pub open spec fn final_values(result: Option<TerminalResult>) -> (
    JsonView,
    JsonView,
    JsonView,
    JsonView,
) {
    match result {
        Some(result) => (
            result.final_state@,
            JsonView::Bool(result.observation_fresh),
            value_or_null(optional(result.observation_reason)),
            result.members@,
        ),
        None => (JsonView::Null, JsonView::Null, JsonView::Null, JsonView::Null),
    }
}

fn show_final(result: &Option<TerminalResult>) -> (values: (Json, Json, Json, Json))
    ensures
        (values.0@, values.1@, values.2@, values.3@) == final_values(*result),
{
    match result {
        Some(result) => (
            result.final_state.duplicate(),
            Json::Bool(result.observation_fresh),
            optional_value(&result.observation_reason),
            result.members.duplicate(),
        ),
        None => (Json::Null, Json::Null, Json::Null, Json::Null),
    }
}

/// What is shown of a group operation.
pub open spec fn redacted_group_operation_summary_view(inspection: GroupInspection) -> JsonView {
    JsonView::Object(
        seq![
            ("operationId"@, JsonView::Text(inspection.operation_id@)),
            ("operationKind"@, JsonView::Text(inspection.operation_kind@)),
            ("lifecycle"@, inspection.lifecycle@),
            ("qualifiedName"@, inspection.qualified_name@),
            ("requestedState"@, inspection.requested_state@),
            ("createdAt"@, inspection.created_at@),
            ("updatedAt"@, inspection.updated_at@),
            ("effectGraphDigest"@, inspection.plan_fingerprint@),
            ("authorizationRecorded"@, JsonView::Bool(true)),
            ("providerReach"@, inspection.provider_reach@),
            ("providerCoverage"@, inspection.provider_coverage@),
            ("providerReachLifecycle"@, inspection.provider_reach_lifecycle@),
            ("providerWritesStarted"@, inspection.provider_writes_started@),
            ("recoveryRequired"@, JsonView::Bool(inspection.recovery_required)),
            ("resourceCount"@, JsonView::Unsigned(resource_total(inspection.cohorts@) as u64)),
            ("backupIds"@, JsonView::Array(text_values(backup_ids(inspection.cohorts@)))),
            ("evidenceAvailable"@, JsonView::Bool(inspection.evidence_available)),
            ("finalState"@, final_values(inspection.terminal_result).0),
            ("observationFresh"@, final_values(inspection.terminal_result).1),
            ("observationReason"@, final_values(inspection.terminal_result).2),
            ("members"@, final_values(inspection.terminal_result).3),
        ],
    )
}

/// What is shown of a group operation: each part under its own name, and
/// nothing else.
pub proof fn law_shown_redacted_group_operation_summary(inspection: GroupInspection)
    ensures
        ({
            let shown = redacted_group_operation_summary_view(inspection);
            &&& shows_only(shown, 21)
            &&& shows(shown, "operationId"@, JsonView::Text(inspection.operation_id@))
            &&& shows(shown, "operationKind"@, JsonView::Text(inspection.operation_kind@))
            &&& shows(shown, "lifecycle"@, inspection.lifecycle@)
            &&& shows(shown, "qualifiedName"@, inspection.qualified_name@)
            &&& shows(shown, "requestedState"@, inspection.requested_state@)
            &&& shows(shown, "createdAt"@, inspection.created_at@)
            &&& shows(shown, "updatedAt"@, inspection.updated_at@)
            &&& shows(shown, "effectGraphDigest"@, inspection.plan_fingerprint@)
            &&& shows(shown, "authorizationRecorded"@, JsonView::Bool(true))
            &&& shows(shown, "providerReach"@, inspection.provider_reach@)
            &&& shows(shown, "providerCoverage"@, inspection.provider_coverage@)
            &&& shows(shown, "providerReachLifecycle"@, inspection.provider_reach_lifecycle@)
            &&& shows(shown, "providerWritesStarted"@, inspection.provider_writes_started@)
            &&& shows(shown, "recoveryRequired"@, JsonView::Bool(inspection.recovery_required))
            &&& shows(
                shown,
                "resourceCount"@,
                JsonView::Unsigned(resource_total(inspection.cohorts@) as u64),
            )
            &&& shows(
                shown,
                "backupIds"@,
                JsonView::Array(text_values(backup_ids(inspection.cohorts@))),
            )
            &&& shows(shown, "evidenceAvailable"@, JsonView::Bool(inspection.evidence_available))
            &&& shows(shown, "finalState"@, final_values(inspection.terminal_result).0)
            &&& shows(shown, "observationFresh"@, final_values(inspection.terminal_result).1)
            &&& shows(shown, "observationReason"@, final_values(inspection.terminal_result).2)
            &&& shows(shown, "members"@, final_values(inspection.terminal_result).3)
        }),
{
    let shown = redacted_group_operation_summary_view(inspection);
    lemma_shows_all(shown);
    let at = shown->Object_0;
    assert(at[0] == at[0] && at[1] == at[1] && at[2] == at[2] && at[3] == at[3] && at[4] ==
        at[4] && at[5] == at[5] && at[6] == at[6] && at[7] == at[7] && at[8] == at[8] && at[9]
        == at[9] && at[10] == at[10] && at[11] == at[11] && at[12] == at[12] && at[13] == at[13]
        && at[14] == at[14] && at[15] == at[15] && at[16] == at[16] && at[17] == at[17] &&
        at[18] == at[18] && at[19] == at[19] && at[20] == at[20]);
}

/// What is shown of a group operation.
pub fn redacted_group_operation_summary(inspection: &GroupInspection) -> (value: Json)
    requires
        resource_total(inspection.cohorts@) <= u64::MAX,
    ensures
        value@ == redacted_group_operation_summary_view(*inspection),
{
    let (final_state, fresh, reason, members) = show_final(&inspection.terminal_result);
    let mut out = ObjectBuilder::new();
    out.put_text("operationId", inspection.operation_id.as_str());
    out.put_text("operationKind", inspection.operation_kind.as_str());
    out.put("lifecycle", inspection.lifecycle.duplicate());
    out.put("qualifiedName", inspection.qualified_name.duplicate());
    out.put("requestedState", inspection.requested_state.duplicate());
    out.put("createdAt", inspection.created_at.duplicate());
    out.put("updatedAt", inspection.updated_at.duplicate());
    out.put("effectGraphDigest", inspection.plan_fingerprint.duplicate());
    out.put("authorizationRecorded", Json::Bool(true));
    out.put("providerReach", inspection.provider_reach.duplicate());
    out.put("providerCoverage", inspection.provider_coverage.duplicate());
    out.put("providerReachLifecycle", inspection.provider_reach_lifecycle.duplicate());
    out.put("providerWritesStarted", inspection.provider_writes_started.duplicate());
    out.put("recoveryRequired", Json::Bool(inspection.recovery_required));
    out.put("resourceCount", Json::Unsigned(count_resources(&inspection.cohorts)));
    out.put("backupIds", text_array(&all_backup_ids(&inspection.cohorts)));
    out.put("evidenceAvailable", Json::Bool(inspection.evidence_available));
    out.put("finalState", final_state);
    out.put("observationFresh", fresh);
    out.put("observationReason", reason);
    out.put("members", members);
    assert(out@ =~= redacted_group_operation_summary_view(*inspection)->Object_0);
    out.finish()
}

/// Why group operations cannot be shown.
#[derive(Debug, Clone, Copy, PartialEq, Eq, Structural)]
pub enum GroupOperationFailure {
    /// There is no key, or no context, to read them with.
    Unavailable,
    Authentication,
    Context,
    State,
    Storage,
    Evidence,
}

/// The status of group operations that cannot be shown.
pub open spec fn failure_status(failure: GroupOperationFailure) -> Seq<char> {
    match failure {
        GroupOperationFailure::Unavailable => "unavailable"@,
        GroupOperationFailure::Authentication => "authentication-unavailable"@,
        GroupOperationFailure::Context => "context-unavailable"@,
        GroupOperationFailure::State => "state-unavailable"@,
        GroupOperationFailure::Storage => "storage-unavailable"@,
        GroupOperationFailure::Evidence => "evidence-invalid"@,
    }
}

impl GroupOperationFailure {
    /// The status of group operations that cannot be shown.
    pub fn status(self) -> (status: &'static str)
        ensures
            status@ == failure_status(self),
    {
        match self {
            GroupOperationFailure::Unavailable => "unavailable",
            GroupOperationFailure::Authentication => "authentication-unavailable",
            GroupOperationFailure::Context => "context-unavailable",
            GroupOperationFailure::State => "state-unavailable",
            GroupOperationFailure::Storage => "storage-unavailable",
            GroupOperationFailure::Evidence => "evidence-invalid",
        }
    }
}

/// How the reading of group operations fails.
#[derive(Debug, Clone, Copy, PartialEq, Eq, Structural)]
pub enum GroupOperationError {
    Authentication,
    AuthenticationFailed,
    ContextMismatch,
    State,
    Io,
    InvalidOperationId,
    InvalidRecord,
    InvalidBackupIndex,
    Json,
    Clock,
}

/// Why group operations cannot be shown, where reading them failed so.
pub fn operation_failure(error: GroupOperationError) -> (failure: GroupOperationFailure)
    ensures
        failure == (match error {
            GroupOperationError::Authentication
            | GroupOperationError::AuthenticationFailed => GroupOperationFailure::Authentication,
            GroupOperationError::ContextMismatch => GroupOperationFailure::Context,
            GroupOperationError::State => GroupOperationFailure::State,
            GroupOperationError::Io => GroupOperationFailure::Storage,
            _ => GroupOperationFailure::Evidence,
        }),
{
    match error {
        GroupOperationError::Authentication | GroupOperationError::AuthenticationFailed => {
            GroupOperationFailure::Authentication
        },
        GroupOperationError::ContextMismatch => GroupOperationFailure::Context,
        GroupOperationError::State => GroupOperationFailure::State,
        GroupOperationError::Io => GroupOperationFailure::Storage,
        GroupOperationError::InvalidOperationId
        | GroupOperationError::InvalidRecord
        | GroupOperationError::InvalidBackupIndex
        | GroupOperationError::Json
        | GroupOperationError::Clock => GroupOperationFailure::Evidence,
    }
}

/// Control operations under their ids.
pub open spec fn control_entries(operations: Seq<ControlOperation>) -> Seq<EntryView<JsonView>> {
    Seq::new(
        operations.len(),
        |i: int|
            (operations[i].operation_id@, 0u64, redacted_operation_summary_view(operations[i])),
    )
}

/// Group operations under their ids.
pub open spec fn group_entries(inspections: Seq<GroupInspection>) -> Seq<EntryView<JsonView>> {
    Seq::new(
        inspections.len(),
        |i: int|
            (
                inspections[i].operation_id@,
                0u64,
                redacted_group_operation_summary_view(inspections[i]),
            ),
    )
}

/// What is shown of all operations: control operations and group operations
/// together, in the order of their ids.
pub open spec fn operation_values(
    control: Seq<ControlOperation>,
    groups: Seq<GroupInspection>,
) -> Seq<JsonView> {
    entry_values(in_order(control_entries(control) + group_entries(groups)))
}

fn show_operations(control: &Vec<ControlOperation>, groups: &Vec<GroupInspection>) -> (values: Vec<
    Json,
>)
    requires
        forall|i: int|
            0 <= i < groups@.len() ==> resource_total((#[trigger] groups@[i]).cohorts@)
                <= u64::MAX,
    ensures
        item_views(values@) == operation_values(control@, groups@),
{
    let ghost first = control_entries(control@);
    let ghost second = group_entries(groups@);
    let mut entries: Vec<OrderedEntry<Json>> = Vec::new();
    let mut i: usize = 0;
    while i < control.len()
        invariant
            i <= control@.len(),
            first == control_entries(control@),
            entries@.len() == i,
            forall|j: int| 0 <= j < i ==> entry_views(entries@)[j] == #[trigger] first[j],
        decreases control@.len() - i,
    {
        let ghost before = entry_views(entries@);
        entries.push(
            OrderedEntry {
                key: control[i].operation_id.clone(),
                rank: 0,
                value: redacted_operation_summary(&control[i]),
            },
        );
        assert forall|j: int| 0 <= j < i + 1 implies entry_views(entries@)[j] == #[trigger] first[j] by {
            if j < i {
                assert(entry_views(entries@)[j] == before[j]);
            }
        }
        i = i + 1;
    }
    assert(entry_views(entries@) =~= first);
    let mut k: usize = 0;
    assert(second.take(0) =~= seq![]);
    assert(entry_views(entries@) =~= first + second.take(0));
    while k < groups.len()
        invariant
            k <= groups@.len(),
            second == group_entries(groups@),
            entry_views(entries@) == first + second.take(k as int),
            forall|i: int|
                0 <= i < groups@.len() ==> resource_total((#[trigger] groups@[i]).cohorts@)
                    <= u64::MAX,
        decreases groups@.len() - k,
    {
        let ghost before = entry_views(entries@);
        entries.push(
            OrderedEntry {
                key: groups[k].operation_id.clone(),
                rank: 0,
                value: redacted_group_operation_summary(&groups[k]),
            },
        );
        assert(entry_views(entries@) =~= before.push(second[k as int]));
        assert(entry_views(entries@) =~= first + second.take(k + 1));
        k = k + 1;
    }
    assert(second.take(k as int) =~= second);
    let sorted = sort_entries(entries);
    let ghost ordered = in_order(first + second);
    let mut values: Vec<Json> = Vec::new();
    let mut n: usize = 0;
    while n < sorted.len()
        invariant
            n <= sorted@.len(),
            ordered == entry_views(sorted@),
            values@.len() == n,
            forall|j: int| 0 <= j < n ==> (#[trigger] values@[j])@ == ordered[j].2,
        decreases sorted@.len() - n,
    {
        values.push(sorted[n].value.duplicate());
        n = n + 1;
    }
    assert(item_views(values@) =~= operation_values(control@, groups@));
    values
}

/// The backups that were read, and whether these are all.
pub struct BackupIndex {
    pub summaries: Vec<BackupSummary>,
    pub complete: bool,
}

/// Text for whether something could be read.
pub open spec fn availability(available: bool) -> Seq<char> {
    if available {
        "available"@
    } else {
        "unavailable"@
    }
}

fn available_text(available: bool) -> (text: &'static str)
    ensures
        text@ == availability(available),
{
    if available {
        "available"
    } else {
        "unavailable"
    }
}

/// The status of group operations.
pub open spec fn group_status(groups: Result<Seq<GroupInspection>, GroupOperationFailure>) -> Seq<
    char,
> {
    match groups {
        Ok(_) => "available"@,
        Err(failure) => failure_status(failure),
    }
}

/// What is shown for recovery. What cannot be read is shown as empty, with its
/// status.
pub open spec fn recovery_snapshot_view(
    backups: Option<BackupIndex>,
    control: Option<Seq<ControlOperation>>,
    groups: Result<Seq<GroupInspection>, GroupOperationFailure>,
) -> JsonView {
    JsonView::Object(
        seq![
            (
                "backups"@,
                JsonView::Array(
                    match backups {
                        Some(index) => backup_values_views(index.summaries@),
                        None => seq![],
                    },
                ),
            ),
            (
                "backupStatus"@,
                JsonView::Text(availability(backups is Some && backups->0.complete)),
            ),
            (
                "operations"@,
                JsonView::Array(
                    operation_values(
                        match control {
                            Some(operations) => operations,
                            None => seq![],
                        },
                        match groups {
                            Ok(inspections) => inspections,
                            Err(_) => seq![],
                        },
                    ),
                ),
            ),
            ("operationStatus"@, JsonView::Text(availability(control is Some && groups is Ok))),
            ("groupOperationStatus"@, JsonView::Text(group_status(groups))),
        ],
    )
}

/// What is shown for recovery. What cannot be read is shown as empty, with its
/// status: each part under its own name, and nothing else.
pub proof fn law_shown_recovery_snapshot(
    backups: Option<BackupIndex>,
    control: Option<Seq<ControlOperation>>,
    groups: Result<Seq<GroupInspection>, GroupOperationFailure>,
)
    ensures
        ({
            let shown = recovery_snapshot_view(backups, control, groups);
            &&& shows_only(shown, 5)
            &&& shows(
                shown,
                "backups"@,
                JsonView::Array(
                    match backups {
                        Some(index) => backup_values_views(index.summaries@),
                        None => seq![],
                    },
                ),
            )
            &&& shows(
                shown,
                "backupStatus"@,
                JsonView::Text(availability(backups is Some && backups->0.complete)),
            )
            &&& shows(
                shown,
                "operations"@,
                JsonView::Array(
                    operation_values(
                        match control {
                            Some(operations) => operations,
                            None => seq![],
                        },
                        match groups {
                            Ok(inspections) => inspections,
                            Err(_) => seq![],
                        },
                    ),
                ),
            )
            &&& shows(
                shown,
                "operationStatus"@,
                JsonView::Text(availability(control is Some && groups is Ok)),
            )
            &&& shows(shown, "groupOperationStatus"@, JsonView::Text(group_status(groups)))
        }),
{
    let shown = recovery_snapshot_view(backups, control, groups);
    lemma_shows_all(shown);
    let at = shown->Object_0;
    assert(at[0] == at[0] && at[1] == at[1] && at[2] == at[2] && at[3] == at[3] && at[4] ==
        at[4]);
}

/// The control operations, where they could be read.
pub open spec fn read_control(control: Option<Vec<ControlOperation>>) -> Option<
    Seq<ControlOperation>,
> {
    match control {
        Some(operations) => Some(operations@),
        None => None,
    }
}

/// The group operations, where they could be read.
pub open spec fn read_groups(
    groups: Result<Vec<GroupInspection>, GroupOperationFailure>,
) -> Result<Seq<GroupInspection>, GroupOperationFailure> {
    match groups {
        Ok(inspections) => Ok(inspections@),
        Err(failure) => Err(failure),
    }
}

/// What is shown for recovery.
pub fn recovery_snapshot_response(
    backups: &Option<BackupIndex>,
    control: &Option<Vec<ControlOperation>>,
    groups: &Result<Vec<GroupInspection>, GroupOperationFailure>,
) -> (value: Json)
    requires
        *groups is Ok ==> forall|i: int|
            0 <= i < (*groups)->Ok_0@.len() ==> resource_total(
                (#[trigger] (*groups)->Ok_0@[i]).cohorts@,
            ) <= u64::MAX,
    ensures
        value@ == recovery_snapshot_view(*backups, read_control(*control), read_groups(*groups)),
{
    let no_operations: Vec<ControlOperation> = Vec::new();
    let no_groups: Vec<GroupInspection> = Vec::new();
    assert(no_operations@ =~= seq![]);
    assert(no_groups@ =~= seq![]);
    let (backup_items, complete) = match backups {
        Some(index) => (backup_values(&index.summaries), index.complete),
        None => (Vec::new(), false),
    };
    assert(item_views(backup_items@) =~= match *backups {
        Some(index) => backup_values_views(index.summaries@),
        None => seq![],
    });
    let operations = match (control, groups) {
        (Some(control), Ok(groups)) => show_operations(control, groups),
        (Some(control), Err(_)) => show_operations(control, &no_groups),
        (None, Ok(groups)) => show_operations(&no_operations, groups),
        (None, Err(_)) => show_operations(&no_operations, &no_groups),
    };
    let (groups_read, status): (bool, &str) = match groups {
        Ok(_) => (true, "available"),
        Err(failure) => (false, failure.status()),
    };
    let mut out = ObjectBuilder::new();
    out.put("backups", array(backup_items));
    out.put_text("backupStatus", available_text(complete));
    out.put("operations", array(operations));
    out.put_text("operationStatus", available_text(control.is_some() && groups_read));
    out.put_text("groupOperationStatus", status);
    assert(out@ =~= recovery_snapshot_view(
        *backups,
        read_control(*control),
        read_groups(*groups),
    )->Object_0);
    out.finish()
}

/// A plan to restore a backup.
pub struct RestorePlan {
    pub backup_id: String,
    pub providers: Json,
    pub authentication: Json,
    pub affected_resource_ids: Vec<String>,
    pub plan_fingerprint: String,
}

/// What is shown of the plan of a restore: the ids of its resources, not where they are.
pub open spec fn redacted_restore_plan_view(plan: RestorePlan) -> JsonView {
    JsonView::Object(
        seq![
            ("backupId"@, JsonView::Text(plan.backup_id@)),
            ("providers"@, plan.providers@),
            ("authentication"@, plan.authentication@),
            (
                "affectedResourceIds"@,
                JsonView::Array(text_values(string_views(plan.affected_resource_ids@))),
            ),
            ("planFingerprint"@, JsonView::Text(plan.plan_fingerprint@)),
        ],
    )
}

/// What is shown of the plan of a restore: the ids of its resources, not where
/// they are: each part under its own name, and nothing else.
pub proof fn law_shown_redacted_restore_plan(plan: RestorePlan)
    ensures
        ({
            let shown = redacted_restore_plan_view(plan);
            &&& shows_only(shown, 5)
            &&& shows(shown, "backupId"@, JsonView::Text(plan.backup_id@))
            &&& shows(shown, "providers"@, plan.providers@)
            &&& shows(shown, "authentication"@, plan.authentication@)
            &&& shows(
                shown,
                "affectedResourceIds"@,
                JsonView::Array(text_values(string_views(plan.affected_resource_ids@))),
            )
            &&& shows(shown, "planFingerprint"@, JsonView::Text(plan.plan_fingerprint@))
        }),
{
    let shown = redacted_restore_plan_view(plan);
    lemma_shows_all(shown);
    let at = shown->Object_0;
    assert(at[0] == at[0] && at[1] == at[1] && at[2] == at[2] && at[3] == at[3] && at[4] ==
        at[4]);
}

/// What is shown of the plan of a restore: the ids of its resources, not where they are.
pub fn redacted_restore_plan(plan: &RestorePlan) -> (value: Json)
    ensures
        value@ == redacted_restore_plan_view(*plan),
{
    let mut out = ObjectBuilder::new();
    out.put_text("backupId", plan.backup_id.as_str());
    out.put("providers", plan.providers.duplicate());
    out.put("authentication", plan.authentication.duplicate());
    out.put("affectedResourceIds", text_array(&plan.affected_resource_ids));
    out.put_text("planFingerprint", plan.plan_fingerprint.as_str());
    assert(out@ =~= redacted_restore_plan_view(*plan)->Object_0);
    out.finish()
}

/// What came of a restore.
pub struct RestoreOutcome {
    pub status: Json,
    pub backup_id: String,
    pub affected_targets: Vec<String>,
}

/// What is shown of a restore: how many targets it reached, not which.
pub open spec fn redacted_restore_result_view(result: RestoreOutcome) -> JsonView {
    JsonView::Object(
        seq![
            ("status"@, result.status@),
            ("backupId"@, JsonView::Text(result.backup_id@)),
            ("affectedTargetCount"@, JsonView::Unsigned(result.affected_targets@.len() as u64)),
        ],
    )
}

/// What is shown of a restore: how many targets it reached, not which: each
/// part under its own name, and nothing else.
pub proof fn law_shown_redacted_restore_result(result: RestoreOutcome)
    ensures
        ({
            let shown = redacted_restore_result_view(result);
            &&& shows_only(shown, 3)
            &&& shows(shown, "status"@, result.status@)
            &&& shows(shown, "backupId"@, JsonView::Text(result.backup_id@))
            &&& shows(
                shown,
                "affectedTargetCount"@,
                JsonView::Unsigned(result.affected_targets@.len() as u64),
            )
        }),
{
    let shown = redacted_restore_result_view(result);
    lemma_shows_all(shown);
    let at = shown->Object_0;
    assert(at[0] == at[0] && at[1] == at[1] && at[2] == at[2]);
}

/// What is shown of a restore: how many targets it reached, not which.
pub fn redacted_restore_result(result: &RestoreOutcome) -> (value: Json)
    ensures
        value@ == redacted_restore_result_view(*result),
{
    let mut out = ObjectBuilder::new();
    out.put("status", result.status.duplicate());
    out.put_text("backupId", result.backup_id.as_str());
    out.put("affectedTargetCount", Json::Unsigned(result.affected_targets.len() as u64));
    assert(out@ =~= redacted_restore_result_view(*result)->Object_0);
    out.finish()
}

/// An item of the inventory.
pub struct InventoryItem {
    pub provider: Json,
    pub kind: Json,
    pub category: Json,
    pub layer: Json,
    pub id: String,
    pub display_name: Json,
    pub enabled: Json,
    pub mutability: Json,
}

/// What is shown of an item: not where it is kept.
pub open spec fn redacted_item_view(item: InventoryItem) -> JsonView {
    JsonView::Object(
        seq![
            ("provider"@, item.provider@),
            ("kind"@, item.kind@),
            ("category"@, item.category@),
            ("layer"@, item.layer@),
            ("id"@, JsonView::Text(item.id@)),
            ("displayName"@, item.display_name@),
            ("enabled"@, item.enabled@),
            ("mutability"@, item.mutability@),
        ],
    )
}

/// What is shown of an item: not where it is kept: each part under its own
/// name, and nothing else.
pub proof fn law_shown_redacted_item(item: InventoryItem)
    ensures
        ({
            let shown = redacted_item_view(item);
            &&& shows_only(shown, 8)
            &&& shows(shown, "provider"@, item.provider@)
            &&& shows(shown, "kind"@, item.kind@)
            &&& shows(shown, "category"@, item.category@)
            &&& shows(shown, "layer"@, item.layer@)
            &&& shows(shown, "id"@, JsonView::Text(item.id@))
            &&& shows(shown, "displayName"@, item.display_name@)
            &&& shows(shown, "enabled"@, item.enabled@)
            &&& shows(shown, "mutability"@, item.mutability@)
        }),
{
    let shown = redacted_item_view(item);
    lemma_shows_all(shown);
    let at = shown->Object_0;
    assert(at[0] == at[0] && at[1] == at[1] && at[2] == at[2] && at[3] == at[3] && at[4] ==
        at[4] && at[5] == at[5] && at[6] == at[6] && at[7] == at[7]);
}

/// What is shown of an item: not where it is kept.
pub fn redacted_item(item: &InventoryItem) -> (value: Json)
    ensures
        value@ == redacted_item_view(*item),
{
    let mut out = ObjectBuilder::new();
    out.put("provider", item.provider.duplicate());
    out.put("kind", item.kind.duplicate());
    out.put("category", item.category.duplicate());
    out.put("layer", item.layer.duplicate());
    out.put_text("id", item.id.as_str());
    out.put("displayName", item.display_name.duplicate());
    out.put("enabled", item.enabled.duplicate());
    out.put("mutability", item.mutability.duplicate());
    assert(out@ =~= redacted_item_view(*item)->Object_0);
    out.finish()
}

/// What is shown of items.
pub open spec fn item_values_views(list: Seq<InventoryItem>) -> Seq<JsonView> {
    Seq::new(list.len(), |i: int| redacted_item_view(list[i]))
}

/// Each of them is shown, in the order in which they stand.
pub proof fn law_each_of_item_values(list: Seq<InventoryItem>)
    ensures
        item_values_views(list).len() == list.len(),
        forall|i: int| 0 <= i < list.len() ==> #[trigger] item_values_views(list)[i] == redacted_item_view(list[i]),
{
}

/// What is shown of items.
pub fn item_values(list: &Vec<InventoryItem>) -> (values: Vec<Json>)
    ensures
        item_views(values@) == item_values_views(list@),
{
    let mut values: Vec<Json> = Vec::new();
    let mut i: usize = 0;
    while i < list.len()
        invariant
            i <= list@.len(),
            values@.len() == i,
            forall|j: int| 0 <= j < i ==> (#[trigger] values@[j])@ == redacted_item_view(list@[j]),
        decreases list@.len() - i,
    {
        values.push(redacted_item(&list[i]));
        i = i + 1;
    }
    assert(item_views(values@) =~= item_values_views(list@));
    values
}

/// A warning of the discovery.
pub struct DiscoveryWarning {
    pub provider: Json,
    pub layer: Json,
    pub code: Json,
}

/// What is shown of a warning.
pub open spec fn warning_value_view(warning: DiscoveryWarning) -> JsonView {
    JsonView::Object(
        seq![
            ("provider"@, warning.provider@),
            ("layer"@, warning.layer@),
            ("code"@, warning.code@),
        ],
    )
}

/// What is shown of a warning: each part under its own name, and nothing else.
pub proof fn law_shown_warning(warning: DiscoveryWarning)
    ensures
        ({
            let shown = warning_value_view(warning);
            &&& shows_only(shown, 3)
            &&& shows(shown, "provider"@, warning.provider@)
            &&& shows(shown, "layer"@, warning.layer@)
            &&& shows(shown, "code"@, warning.code@)
        }),
{
    let shown = warning_value_view(warning);
    lemma_shows_all(shown);
    let at = shown->Object_0;
    assert(at[0] == at[0] && at[1] == at[1] && at[2] == at[2]);
}

/// What is shown of a warning.
pub fn warning_value(warning: &DiscoveryWarning) -> (value: Json)
    ensures
        value@ == warning_value_view(*warning),
{
    let mut out = ObjectBuilder::new();
    out.put("provider", warning.provider.duplicate());
    out.put("layer", warning.layer.duplicate());
    out.put("code", warning.code.duplicate());
    assert(out@ =~= warning_value_view(*warning)->Object_0);
    out.finish()
}

/// What is shown of warnings.
pub open spec fn warning_values_views(list: Seq<DiscoveryWarning>) -> Seq<JsonView> {
    Seq::new(list.len(), |i: int| warning_value_view(list[i]))
}

/// Each of them is shown, in the order in which they stand.
pub proof fn law_each_of_warning_values(list: Seq<DiscoveryWarning>)
    ensures
        warning_values_views(list).len() == list.len(),
        forall|i: int| 0 <= i < list.len() ==> #[trigger] warning_values_views(list)[i] == warning_value_view(list[i]),
{
}

/// What is shown of warnings.
pub fn warning_values(list: &Vec<DiscoveryWarning>) -> (values: Vec<Json>)
    ensures
        item_views(values@) == warning_values_views(list@),
{
    let mut values: Vec<Json> = Vec::new();
    let mut i: usize = 0;
    while i < list.len()
        invariant
            i <= list@.len(),
            values@.len() == i,
            forall|j: int| 0 <= j < i ==> (#[trigger] values@[j])@ == warning_value_view(list@[j]),
        decreases list@.len() - i,
    {
        values.push(warning_value(&list[i]));
        i = i + 1;
    }
    assert(item_views(values@) =~= warning_values_views(list@));
    values
}

/// A warning about groups.
pub struct GroupWarning {
    pub scope: Json,
    pub code: Json,
}

/// What is shown of a warning about groups.
pub open spec fn group_warning_value_view(warning: GroupWarning) -> JsonView {
    JsonView::Object(
        seq![
            ("scope"@, warning.scope@),
            ("code"@, warning.code@),
        ],
    )
}

/// What is shown of a warning about groups: each part under its own name, and
/// nothing else.
pub proof fn law_shown_group_warning(warning: GroupWarning)
    ensures
        ({
            let shown = group_warning_value_view(warning);
            &&& shows_only(shown, 2)
            &&& shows(shown, "scope"@, warning.scope@)
            &&& shows(shown, "code"@, warning.code@)
        }),
{
    let shown = group_warning_value_view(warning);
    lemma_shows_all(shown);
    let at = shown->Object_0;
    assert(at[0] == at[0] && at[1] == at[1]);
}

/// What is shown of a warning about groups.
pub fn group_warning_value(warning: &GroupWarning) -> (value: Json)
    ensures
        value@ == group_warning_value_view(*warning),
{
    let mut out = ObjectBuilder::new();
    out.put("scope", warning.scope.duplicate());
    out.put("code", warning.code.duplicate());
    assert(out@ =~= group_warning_value_view(*warning)->Object_0);
    out.finish()
}

/// What is shown of warnings about groups.
pub open spec fn group_warning_values_views(list: Seq<GroupWarning>) -> Seq<JsonView> {
    Seq::new(list.len(), |i: int| group_warning_value_view(list[i]))
}

/// Each of them is shown, in the order in which they stand.
pub proof fn law_each_of_group_warning_values(list: Seq<GroupWarning>)
    ensures
        group_warning_values_views(list).len() == list.len(),
        forall|i: int| 0 <= i < list.len() ==> #[trigger] group_warning_values_views(list)[i] == group_warning_value_view(list[i]),
{
}

/// What is shown of warnings about groups.
pub fn group_warning_values(list: &Vec<GroupWarning>) -> (values: Vec<Json>)
    ensures
        item_views(values@) == group_warning_values_views(list@),
{
    let mut values: Vec<Json> = Vec::new();
    let mut i: usize = 0;
    while i < list.len()
        invariant
            i <= list@.len(),
            values@.len() == i,
            forall|j: int|
                0 <= j < i ==> (#[trigger] values@[j])@ == group_warning_value_view(list@[j]),
        decreases list@.len() - i,
    {
        values.push(group_warning_value(&list[i]));
        i = i + 1;
    }
    assert(item_views(values@) =~= group_warning_values_views(list@));
    values
}

/// What is shown of packages.
pub open spec fn package_views(packages: Seq<PluginPackage>) -> Seq<JsonView> {
    Seq::new(packages.len(), |i: int| redacted_agent_plugin_summary_view(packages[i]))
}

fn package_values(packages: &Vec<PluginPackage>) -> (values: Vec<Json>)
    requires
        forall|i: int| 0 <= i < packages@.len() ==> countable(#[trigger] packages@[i]),
    ensures
        item_views(values@) == package_views(packages@),
{
    let mut values: Vec<Json> = Vec::new();
    let mut i: usize = 0;
    while i < packages.len()
        invariant
            i <= packages@.len(),
            forall|i: int| 0 <= i < packages@.len() ==> countable(#[trigger] packages@[i]),
            values@.len() == i,
            forall|j: int|
                0 <= j < i ==> (#[trigger] values@[j])@ == redacted_agent_plugin_summary_view(
                    packages@[j],
                ),
        decreases packages@.len() - i,
    {
        values.push(redacted_agent_plugin_summary(&packages[i]));
        i = i + 1;
    }
    assert(item_views(values@) =~= package_views(packages@));
    values
}

/// The inventory as it was discovered, with its groups.
pub struct Inventory {
    pub items: Vec<InventoryItem>,
    pub warnings: Vec<DiscoveryWarning>,
    pub agent_plugins_complete: bool,
    pub agent_plugins: Vec<PluginPackage>,
    pub groups: Json,
    pub group_warnings: Vec<GroupWarning>,
}

/// What the desktop is shown of the inventory.
pub open spec fn snapshot_view(inventory: Inventory, captured_at: i64) -> JsonView {
    JsonView::Object(
        seq![
            ("capturedAtUnix"@, seconds_value(captured_at)),
            ("inventory"@, JsonView::Array(item_values_views(inventory.items@))),
            ("warnings"@, JsonView::Array(warning_values_views(inventory.warnings@))),
            ("agentPluginInventoryComplete"@, JsonView::Bool(inventory.agent_plugins_complete)),
            ("agentPlugins"@, JsonView::Array(package_views(inventory.agent_plugins@))),
            ("groups"@, inventory.groups@),
            (
                "groupWarnings"@,
                JsonView::Array(group_warning_values_views(inventory.group_warnings@)),
            ),
        ],
    )
}

/// What the desktop is shown of the inventory: each part under its own name,
/// and nothing else.
pub proof fn law_shown_snapshot(inventory: Inventory, captured_at: i64)
    ensures
        ({
            let shown = snapshot_view(inventory, captured_at);
            &&& shows_only(shown, 7)
            &&& shows(shown, "capturedAtUnix"@, seconds_value(captured_at))
            &&& shows(shown, "inventory"@, JsonView::Array(item_values_views(inventory.items@)))
            &&& shows(
                shown,
                "warnings"@,
                JsonView::Array(warning_values_views(inventory.warnings@)),
            )
            &&& shows(
                shown,
                "agentPluginInventoryComplete"@,
                JsonView::Bool(inventory.agent_plugins_complete),
            )
            &&& shows(
                shown,
                "agentPlugins"@,
                JsonView::Array(package_views(inventory.agent_plugins@)),
            )
            &&& shows(shown, "groups"@, inventory.groups@)
            &&& shows(
                shown,
                "groupWarnings"@,
                JsonView::Array(group_warning_values_views(inventory.group_warnings@)),
            )
        }),
{
    let shown = snapshot_view(inventory, captured_at);
    lemma_shows_all(shown);
    let at = shown->Object_0;
    assert(at[0] == at[0] && at[1] == at[1] && at[2] == at[2] && at[3] == at[3] && at[4] ==
        at[4] && at[5] == at[5] && at[6] == at[6]);
}

/// A time as a number.
pub open spec fn seconds_value(seconds: i64) -> JsonView {
    if seconds >= 0 {
        JsonView::Unsigned(seconds as u64)
    } else {
        JsonView::Negative(seconds)
    }
}

/// What the desktop is shown of the inventory.
pub fn snapshot_response(inventory: &Inventory, captured_at: i64) -> (value: Json)
    requires
        forall|i: int|
            0 <= i < inventory.agent_plugins@.len() ==> countable(
                #[trigger] inventory.agent_plugins@[i],
            ),
    ensures
        value@ == snapshot_view(*inventory, captured_at),
{
    let seconds = if captured_at >= 0 {
        Json::Unsigned(captured_at as u64)
    } else {
        Json::Negative(captured_at)
    };
    let mut out = ObjectBuilder::new();
    out.put("capturedAtUnix", seconds);
    out.put("inventory", array(item_values(&inventory.items)));
    out.put("warnings", array(warning_values(&inventory.warnings)));
    out.put("agentPluginInventoryComplete", Json::Bool(inventory.agent_plugins_complete));
    out.put("agentPlugins", array(package_values(&inventory.agent_plugins)));
    out.put("groups", inventory.groups.duplicate());
    out.put("groupWarnings", array(group_warning_values(&inventory.group_warnings)));
    assert(out@ =~= snapshot_view(*inventory, captured_at)->Object_0);
    out.finish()
}

/// Nothing is shown as available that could not be read, and what could not be
/// read adds no operation and no backup to what is shown.
pub proof fn law_unread_operations_are_not_shown(
    backups: Option<BackupIndex>,
    control: Option<Seq<ControlOperation>>,
    groups: Result<Seq<GroupInspection>, GroupOperationFailure>,
)
    ensures
        ({
            let shown = recovery_snapshot_view(backups, control, groups)->Object_0;
            &&& shown[2] == (
                "operations"@,
                JsonView::Array(
                    match (control, groups) {
                        (Some(control), Ok(groups)) => operation_values(control, groups),
                        (Some(control), Err(_)) => entry_values(in_order(control_entries(control))),
                        (None, Ok(groups)) => entry_values(in_order(group_entries(groups))),
                        (None, Err(_)) => seq![],
                    },
                ),
            )
            &&& control is None || groups is Err ==> shown[3] == (
                "operationStatus"@,
                JsonView::Text("unavailable"@),
            )
            &&& groups is Err ==> shown[4] == (
                "groupOperationStatus"@,
                JsonView::Text(group_status(groups)),
            ) && group_status(groups) != "available"@
            &&& backups is None ==> shown[0] == ("backups"@, JsonView::Array(seq![])) && shown[1]
                == ("backupStatus"@, JsonView::Text("unavailable"@))
        }),
{
    let no_control = Seq::<ControlOperation>::empty();
    let no_groups = Seq::<GroupInspection>::empty();
    assert(control_entries(no_control) =~= seq![]);
    assert(group_entries(no_groups) =~= seq![]);
    if let Some(operations) = control {
        assert(control_entries(operations) + group_entries(no_groups) =~= control_entries(
            operations,
        ));
    }
    if let Ok(inspections) = groups {
        assert(control_entries(no_control) + group_entries(inspections) =~= group_entries(
            inspections,
        ));
    }
    assert(control_entries(no_control) + group_entries(no_groups) =~= seq![]);
    assert(operation_values(no_control, no_groups) =~= seq![]);
    reveal_strlit("available");
    reveal_strlit("unavailable");
    reveal_strlit("authentication-unavailable");
    reveal_strlit("context-unavailable");
    reveal_strlit("state-unavailable");
    reveal_strlit("storage-unavailable");
    reveal_strlit("evidence-invalid");
    assert("available"@.len() == 9);
    assert("unavailable"@.len() == 11);
    assert("authentication-unavailable"@.len() == 26);
    assert("context-unavailable"@.len() == 19);
    assert("state-unavailable"@.len() == 17);
    assert("storage-unavailable"@.len() == 19);
    assert("evidence-invalid"@.len() == 16);
}

} // verus!
