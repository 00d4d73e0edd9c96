//! The catalog: how a provider's item is adopted, and how its commands run.
use vstd::prelude::*;

use crate::commands::flow::{
    blocking, blocks, failing, fails, recovering, recovers, reviewed_first, CommandStep, StepRule,
};
use crate::commands::profile::change_error_status;
use crate::commands::toggle::DiscoveryKind;
use crate::laws::steps::stands_before;
use crate::provider_roots::ProviderId;
use crate::text::{chars_of, joined, part_of, same_text, string_views};

verus! {

/// How many characters of a fingerprint name an adoption.
pub const ADOPTION_FINGERPRINT_CHARS: usize = 24;

/// The start of a fingerprint, or all of it where it is short.
pub open spec fn short_fingerprint(fingerprint: Seq<char>) -> Seq<char> {
    if fingerprint.len() <= ADOPTION_FINGERPRINT_CHARS {
        fingerprint
    } else {
        fingerprint.take(ADOPTION_FINGERPRINT_CHARS as int)
    }
}

/// The id of the operation that adopts an item.
pub fn adoption_operation_id(provider: &str, fingerprint: &str) -> (id: String)
    ensures
        id@ == "adopt-"@ + provider@ + "-"@ + short_fingerprint(fingerprint@),
{
    let count: usize = chars_of(fingerprint).len();
    let take: usize = if count <= ADOPTION_FINGERPRINT_CHARS {
        count
    } else {
        ADOPTION_FINGERPRINT_CHARS
    };
    let short = part_of(fingerprint, 0, take);
    assert(short@ =~= short_fingerprint(fingerprint@));
    let mut id = joined("adopt-", provider);
    id.push_str("-");
    id.push_str(short.as_str());
    id
}

/// How a transition ended.
#[derive(Debug, Clone, Copy, PartialEq, Eq, Structural)]
pub enum TransitionOutcomeStatus {
    Committed,
    RolledBack,
    NeedsRepair,
}

/// The status of an adoption that ended, and whether the command ends well:
/// only one that was committed does.
pub fn adoption_outcome_contract(status: TransitionOutcomeStatus) -> (r: (&'static str, bool))
    ensures
        r.0@ == (match status {
            TransitionOutcomeStatus::Committed => "completed"@,
            TransitionOutcomeStatus::RolledBack => "rolled-back"@,
            TransitionOutcomeStatus::NeedsRepair => "recovery-required"@,
        }),
        r.1 == (status is Committed),
{
    match status {
        TransitionOutcomeStatus::Committed => ("completed", true),
        TransitionOutcomeStatus::RolledBack => ("rolled-back", false),
        TransitionOutcomeStatus::NeedsRepair => ("recovery-required", false),
    }
}

/// How the coordinator of a transition fails.
#[derive(Debug, Clone, Copy, PartialEq, Eq, Structural)]
pub enum CoordinatorError {
    RecoveryRequired,
    Other,
}

/// The status of an adoption that failed.
pub fn adoption_error_status(error: CoordinatorError) -> (status: &'static str)
    ensures
        status@ == change_error_status(error is RecoveryRequired),
{
    match error {
        CoordinatorError::RecoveryRequired => "recovery-required",
        CoordinatorError::Other => "blocked",
    }
}

/// The place of the first capability with an id.
pub fn find_capability(ids: &Vec<String>, id: &str) -> (at: Option<usize>)
    ensures
        match at {
            Some(at) => at < ids@.len() && ids@[at as int]@ == id@ && forall|j: int|
                0 <= j < at ==> (#[trigger] ids@[j])@ != id@,
            None => !string_views(ids@).contains(id@),
        },
{
    let mut i: usize = 0;
    while i < ids.len()
        invariant
            i <= ids@.len(),
            forall|j: int| 0 <= j < i ==> (#[trigger] ids@[j])@ != id@,
        decreases ids@.len() - i,
    {
        if same_text(ids[i].as_str(), id) {
            return Some(i);
        }
        i = i + 1;
    }
    None
}

/// An item that was discovered.
pub struct DiscoveredItem {
    pub provider: ProviderId,
    pub kind: DiscoveryKind,
    pub id: String,
}

/// Whether an item is a provider's one with an id, of a kind where one is asked
/// for.
pub open spec fn is_item(
    item: DiscoveredItem,
    provider: ProviderId,
    kind: Option<DiscoveryKind>,
    id: Seq<char>,
) -> bool {
    item.provider == provider && (kind is Some ==> item.kind == kind->0) && item.id@ == id
}

/// The place of the first item of a provider with an id, of a kind where one is
/// asked for.
pub fn find_item(
    items: &Vec<DiscoveredItem>,
    provider: ProviderId,
    kind: Option<DiscoveryKind>,
    id: &str,
) -> (at: Option<usize>)
    ensures
        match at {
            Some(at) => at < items@.len() && is_item(items@[at as int], provider, kind, id@)
                && forall|j: int|
                0 <= j < at ==> !is_item(#[trigger] items@[j], provider, kind, id@),
            None => forall|j: int|
                0 <= j < items@.len() ==> !is_item(#[trigger] items@[j], provider, kind, id@),
        },
{
    let mut i: usize = 0;
    while i < items.len()
        invariant
            i <= items@.len(),
            forall|j: int| 0 <= j < i ==> !is_item(#[trigger] items@[j], provider, kind, id@),
        decreases items@.len() - i,
    {
        let of_kind = match kind {
            Some(kind) => items[i].kind == kind,
            None => true,
        };
        if items[i].provider == provider && of_kind && same_text(items[i].id.as_str(), id) {
            return Some(i);
        }
        i = i + 1;
    }
    None
}

/// The steps of `catalog adopt`.
pub open spec fn adopt_rules() -> Seq<StepRule> {
    seq![
        failing(CommandStep::ParseProvider),
        failing(CommandStep::ResolveConfig),
        failing(CommandStep::FindItem),
        failing(CommandStep::FindCapability),
        failing(CommandStep::WorkspaceIdentity),
        blocking(CommandStep::PlanChange),
        blocking(CommandStep::Review),
        blocking(CommandStep::WriteSandbox),
        blocking(CommandStep::BackupKey),
        blocking(CommandStep::SessionKey),
        blocking(CommandStep::Authorize),
        failing(CommandStep::OpenCoordinator),
        recovering(CommandStep::Apply),
    ]
}

/// The steps of `catalog adopt`: one after the other, and no more.
pub proof fn law_adopt_in_order()
    ensures
        ({
            let rules = adopt_rules();
            &&& rules.len() == 13
            &&& stands_before(
                rules,
                failing(CommandStep::ParseProvider),
                failing(CommandStep::ResolveConfig),
            )
            &&& stands_before(
                rules,
                failing(CommandStep::ResolveConfig),
                failing(CommandStep::FindItem),
            )
            &&& stands_before(
                rules,
                failing(CommandStep::FindItem),
                failing(CommandStep::FindCapability),
            )
            &&& stands_before(
                rules,
                failing(CommandStep::FindCapability),
                failing(CommandStep::WorkspaceIdentity),
            )
            &&& stands_before(
                rules,
                failing(CommandStep::WorkspaceIdentity),
                blocking(CommandStep::PlanChange),
            )
            &&& stands_before(
                rules,
                blocking(CommandStep::PlanChange),
                blocking(CommandStep::Review),
            )
            &&& stands_before(
                rules,
                blocking(CommandStep::Review),
                blocking(CommandStep::WriteSandbox),
            )
            &&& stands_before(
                rules,
                blocking(CommandStep::WriteSandbox),
                blocking(CommandStep::BackupKey),
            )
            &&& stands_before(
                rules,
                blocking(CommandStep::BackupKey),
                blocking(CommandStep::SessionKey),
            )
            &&& stands_before(
                rules,
                blocking(CommandStep::SessionKey),
                blocking(CommandStep::Authorize),
            )
            &&& stands_before(
                rules,
                blocking(CommandStep::Authorize),
                failing(CommandStep::OpenCoordinator),
            )
            &&& stands_before(
                rules,
                failing(CommandStep::OpenCoordinator),
                recovering(CommandStep::Apply),
            )
        }),
{
    let rules = adopt_rules();
    assert(rules[0] == failing(CommandStep::ParseProvider));
    assert(rules[1] == failing(CommandStep::ResolveConfig));
    assert(rules[2] == failing(CommandStep::FindItem));
    assert(rules[3] == failing(CommandStep::FindCapability));
    assert(rules[4] == failing(CommandStep::WorkspaceIdentity));
    assert(rules[5] == blocking(CommandStep::PlanChange));
    assert(rules[6] == blocking(CommandStep::Review));
    assert(rules[7] == blocking(CommandStep::WriteSandbox));
    assert(rules[8] == blocking(CommandStep::BackupKey));
    assert(rules[9] == blocking(CommandStep::SessionKey));
    assert(rules[10] == blocking(CommandStep::Authorize));
    assert(rules[11] == failing(CommandStep::OpenCoordinator));
    assert(rules[12] == recovering(CommandStep::Apply));
}

/// The steps of `catalog adopt`.
pub fn adopt() -> (rules: Vec<StepRule>)
    ensures
        rules@ == adopt_rules(),
{
    let mut rules: Vec<StepRule> = Vec::new();
    rules.push(fails(CommandStep::ParseProvider));
    rules.push(fails(CommandStep::ResolveConfig));
    rules.push(fails(CommandStep::FindItem));
    rules.push(fails(CommandStep::FindCapability));
    rules.push(fails(CommandStep::WorkspaceIdentity));
    rules.push(blocks(CommandStep::PlanChange));
    rules.push(blocks(CommandStep::Review));
    rules.push(blocks(CommandStep::WriteSandbox));
    rules.push(blocks(CommandStep::BackupKey));
    rules.push(blocks(CommandStep::SessionKey));
    rules.push(blocks(CommandStep::Authorize));
    rules.push(fails(CommandStep::OpenCoordinator));
    rules.push(recovers(CommandStep::Apply));
    assert(rules@ =~= adopt_rules());
    rules
}

/// The steps of `catalog list`.
pub open spec fn list_rules() -> Seq<StepRule> {
    seq![failing(CommandStep::ResolveConfig)]
}

/// The steps of `catalog list`: one after the other, and no more.
pub proof fn law_list_in_order()
    ensures
        ({
            let rules = list_rules();
            &&& rules.len() == 1
        }),
{
    let rules = list_rules();
    assert(rules[0] == failing(CommandStep::ResolveConfig));
}

/// The steps of `catalog list`.
pub fn list() -> (rules: Vec<StepRule>)
    ensures
        rules@ == list_rules(),
{
    let mut rules: Vec<StepRule> = Vec::new();
    rules.push(fails(CommandStep::ResolveConfig));
    assert(rules@ =~= list_rules());
    rules
}

/// The steps of `catalog show`.
pub open spec fn show_rules() -> Seq<StepRule> {
    seq![
        failing(CommandStep::ResolveConfig),
        failing(CommandStep::FindCapability),
    ]
}

/// The steps of `catalog show`: one after the other, and no more.
pub proof fn law_show_in_order()
    ensures
        ({
            let rules = show_rules();
            &&& rules.len() == 2
            &&& stands_before(
                rules,
                failing(CommandStep::ResolveConfig),
                failing(CommandStep::FindCapability),
            )
        }),
{
    let rules = show_rules();
    assert(rules[0] == failing(CommandStep::ResolveConfig));
    assert(rules[1] == failing(CommandStep::FindCapability));
}

/// The steps of `catalog show`.
pub fn show() -> (rules: Vec<StepRule>)
    ensures
        rules@ == show_rules(),
{
    let mut rules: Vec<StepRule> = Vec::new();
    rules.push(fails(CommandStep::ResolveConfig));
    rules.push(fails(CommandStep::FindCapability));
    assert(rules@ =~= show_rules());
    rules
}

/// Nothing is adopted without a review.
pub proof fn law_adoption_is_reviewed()
    ensures
        reviewed_first(adopt_rules()),
{
    assert(adopt_rules()[6].step is Review);
}

} // verus!
