//! Hooks: when a stored decision still holds, and how the commands run.
use vstd::prelude::*;

use crate::commands::flow::{
    blocking, blocks, failing, fails, reviewed_first, CommandStep, StepRule,
};
use crate::commands::toggle::DiscoveryKind;
use crate::json::{field, text_field, text_in, Json, JsonView};
use crate::laws::steps::stands_before;
use crate::report::hook::HookListing;
use crate::text::{optional, same_text};

verus! {

/// A decision to trust a hook, as it was stored.
pub struct HookTrustRecord {
    pub handler_id: String,
    pub handler_fingerprint: String,
    pub invocation_fingerprint: String,
}

/// A hook as it was discovered.
pub struct HookHandler {
    pub id: String,
    pub fingerprint: String,
    pub invocation_fingerprint: String,
}

/// Whether a stored decision is about this very hook.
pub open spec fn trust_holds(record: Option<HookTrustRecord>, hook: Option<HookHandler>) -> bool {
    match (record, hook) {
        (Some(record), Some(hook)) => record.handler_id@ == hook.id@ && record.handler_fingerprint@
            == hook.fingerprint@ && record.invocation_fingerprint@ == hook.invocation_fingerprint@,
        _ => false,
    }
}

/// Whether a stored decision is about this very hook: a hook that changed in
/// any way is not trusted.
pub fn stored_trust_decision(record: &Option<HookTrustRecord>, hook: &Option<HookHandler>) -> (r:
    bool)
    ensures
        r == trust_holds(*record, *hook),
{
    match (record, hook) {
        (Some(record), Some(hook)) => same_text(record.handler_id.as_str(), hook.id.as_str())
            && same_text(record.handler_fingerprint.as_str(), hook.fingerprint.as_str())
            && same_text(
            record.invocation_fingerprint.as_str(),
            hook.invocation_fingerprint.as_str(),
        ),
        _ => false,
    }
}

/// An item that was discovered, and what the trust store holds of it.
pub struct DiscoveredHook {
    pub kind: DiscoveryKind,
    pub item: Json,
    pub handler: Option<HookHandler>,
    pub record: Result<Option<HookTrustRecord>, String>,
}

/// Whether an item counts as trusted: only under a profile, where a decision
/// could be read and is about this very hook.
pub open spec fn counts_as_trusted(hook: DiscoveredHook, profile_given: bool) -> bool {
    profile_given && hook.record is Ok && trust_holds(hook.record->Ok_0, hook.handler)
}

/// What is listed of a hook: its id, the item and whether it is trusted.
pub open spec fn listing_view(listing: HookListing) -> (Option<Seq<char>>, JsonView, bool) {
    (optional(listing.id), listing.item@, listing.trusted)
}

/// What is listed of hooks.
pub open spec fn listing_views(
    list: Seq<HookListing>,
) -> Seq<(Option<Seq<char>>, JsonView, bool)> {
    Seq::new(list.len(), |i: int| listing_view(list[i]))
}

/// What is listed of discovered items: those that are hooks, in their order.
pub open spec fn listed_hooks(
    items: Seq<DiscoveredHook>,
    profile_given: bool,
) -> Seq<(Option<Seq<char>>, JsonView, bool)>
    decreases items.len(),
{
    if items.len() == 0 {
        seq![]
    } else {
        let before = listed_hooks(items.drop_last(), profile_given);
        let last = items.last();
        if last.kind is Hook {
            before.push(
                (
                    text_in(field(last.item@, "id"@)),
                    last.item@,
                    counts_as_trusted(last, profile_given),
                ),
            )
        } else {
            before
        }
    }
}

/// The hooks among discovered items.
pub fn list_hooks(items: &Vec<DiscoveredHook>, profile_given: bool) -> (list: Vec<HookListing>)
    ensures
        listing_views(list@) == listed_hooks(items@, profile_given),
{
    let mut list: Vec<HookListing> = Vec::new();
    let mut i: usize = 0;
    assert(listing_views(list@) =~= listed_hooks(items@.take(0), profile_given));
    while i < items.len()
        invariant
            i <= items@.len(),
            listing_views(list@) == listed_hooks(items@.take(i as int), profile_given),
        decreases items@.len() - i,
    {
        assert(items@.take(i + 1).drop_last() =~= items@.take(i as int));
        if items[i].kind == DiscoveryKind::Hook {
            let trusted = match &items[i].record {
                Ok(record) => profile_given && stored_trust_decision(record, &items[i].handler),
                Err(_) => false,
            };
            let id = match text_field(&items[i].item, "id") {
                Some(id) => Some(id.to_owned()),
                None => None,
            };
            let ghost before = listing_views(list@);
            let listing = HookListing { id, item: items[i].item.duplicate(), trusted };
            let ghost seen = listing_view(listing);
            list.push(listing);
            assert(listing_views(list@) =~= before.push(seen));
        }
        i = i + 1;
    }
    assert(items@.take(items@.len() as int) =~= items@);
    list
}

/// The steps of `hook list`.
pub open spec fn list_rules() -> Seq<StepRule> {
    seq![
        failing(CommandStep::ResolveConfig),
        failing(CommandStep::ResolveRoots),
        failing(CommandStep::Discover),
    ]
}

/// The steps of `hook list`: one after the other, and no more.
pub proof fn law_list_in_order()
    ensures
        ({
            let rules = list_rules();
            &&& rules.len() == 3
            &&& stands_before(
                rules,
                failing(CommandStep::ResolveConfig),
                failing(CommandStep::ResolveRoots),
            )
            &&& stands_before(
                rules,
                failing(CommandStep::ResolveRoots),
                failing(CommandStep::Discover),
            )
        }),
{
    let rules = list_rules();
    assert(rules[0] == failing(CommandStep::ResolveConfig));
    assert(rules[1] == failing(CommandStep::ResolveRoots));
    assert(rules[2] == failing(CommandStep::Discover));
}

/// The steps of `hook list`.
pub fn list() -> (rules: Vec<StepRule>)
    ensures
        rules@ == list_rules(),
{
    let mut rules: Vec<StepRule> = Vec::new();
    rules.push(fails(CommandStep::ResolveConfig));
    rules.push(fails(CommandStep::ResolveRoots));
    rules.push(fails(CommandStep::Discover));
    assert(rules@ =~= list_rules());
    rules
}

/// The steps of `hook trust`.
pub open spec fn trust_rules() -> Seq<StepRule> {
    seq![
        failing(CommandStep::ParseProvider),
        failing(CommandStep::ResolveConfig),
        failing(CommandStep::ResolveRoots),
        failing(CommandStep::Discover),
        failing(CommandStep::FindHook),
        blocking(CommandStep::ProfileMembership),
        failing(CommandStep::WorkspaceIdentity),
        blocking(CommandStep::Expectation),
        blocking(CommandStep::Review),
        blocking(CommandStep::WriteSandbox),
        blocking(CommandStep::Authorize),
        blocking(CommandStep::Apply),
    ]
}

/// The steps of `hook trust`: one after the other, and no more.
pub proof fn law_trust_in_order()
    ensures
        ({
            let rules = trust_rules();
            &&& rules.len() == 12
            &&& stands_before(
                rules,
                failing(CommandStep::ParseProvider),
                failing(CommandStep::ResolveConfig),
            )
            &&& stands_before(
                rules,
                failing(CommandStep::ResolveConfig),
                failing(CommandStep::ResolveRoots),
            )
            &&& stands_before(
                rules,
                failing(CommandStep::ResolveRoots),
                failing(CommandStep::Discover),
            )
            &&& stands_before(
                rules,
                failing(CommandStep::Discover),
                failing(CommandStep::FindHook),
            )
            &&& stands_before(
                rules,
                failing(CommandStep::FindHook),
                blocking(CommandStep::ProfileMembership),
            )
            &&& stands_before(
                rules,
                blocking(CommandStep::ProfileMembership),
                failing(CommandStep::WorkspaceIdentity),
            )
            &&& stands_before(
                rules,
                failing(CommandStep::WorkspaceIdentity),
                blocking(CommandStep::Expectation),
            )
            &&& stands_before(
                rules,
                blocking(CommandStep::Expectation),
                blocking(CommandStep::Review),
            )
            &&& stands_before(
                rules,
                blocking(CommandStep::Review),
                blocking(CommandStep::WriteSandbox),
            )
            &&& stands_before(
                rules,
                blocking(CommandStep::WriteSandbox),
                blocking(CommandStep::Authorize),
            )
            &&& stands_before(
                rules,
                blocking(CommandStep::Authorize),
                blocking(CommandStep::Apply),
            )
        }),
{
    let rules = trust_rules();
    assert(rules[0] == failing(CommandStep::ParseProvider));
    assert(rules[1] == failing(CommandStep::ResolveConfig));
    assert(rules[2] == failing(CommandStep::ResolveRoots));
    assert(rules[3] == failing(CommandStep::Discover));
    assert(rules[4] == failing(CommandStep::FindHook));
    assert(rules[5] == blocking(CommandStep::ProfileMembership));
    assert(rules[6] == failing(CommandStep::WorkspaceIdentity));
    assert(rules[7] == blocking(CommandStep::Expectation));
    assert(rules[8] == blocking(CommandStep::Review));
    assert(rules[9] == blocking(CommandStep::WriteSandbox));
    assert(rules[10] == blocking(CommandStep::Authorize));
    assert(rules[11] == blocking(CommandStep::Apply));
}

/// The steps of `hook trust`.
pub fn trust() -> (rules: Vec<StepRule>)
    ensures
        rules@ == trust_rules(),
{
    let mut rules: Vec<StepRule> = Vec::new();
    rules.push(fails(CommandStep::ParseProvider));
    rules.push(fails(CommandStep::ResolveConfig));
    rules.push(fails(CommandStep::ResolveRoots));
    rules.push(fails(CommandStep::Discover));
    rules.push(fails(CommandStep::FindHook));
    rules.push(blocks(CommandStep::ProfileMembership));
    rules.push(fails(CommandStep::WorkspaceIdentity));
    rules.push(blocks(CommandStep::Expectation));
    rules.push(blocks(CommandStep::Review));
    rules.push(blocks(CommandStep::WriteSandbox));
    rules.push(blocks(CommandStep::Authorize));
    rules.push(blocks(CommandStep::Apply));
    assert(rules@ =~= trust_rules());
    rules
}

/// The steps of `hook coverage`.
pub open spec fn coverage_rules(provider_given: bool) -> Seq<StepRule> {
    (if provider_given {
        seq![
            failing(CommandStep::ParseProvider),
        ]
    } else {
        seq![]
    }) + seq![
        failing(CommandStep::ResolveConfig),
        failing(CommandStep::ReadState),
    ]
}

/// The steps of `hook coverage`: one after the other, and no more.
pub proof fn law_coverage_in_order(provider_given: bool)
    ensures
        ({
            let rules = coverage_rules(provider_given);
            &&& rules.len() == 2 + if provider_given {
                1int
            } else {
                0int
            }
            &&& provider_given ==> stands_before(
                rules,
                failing(CommandStep::ParseProvider),
                failing(CommandStep::ResolveConfig),
            )
            &&& stands_before(
                rules,
                failing(CommandStep::ResolveConfig),
                failing(CommandStep::ReadState),
            )
        }),
{
    let rules = coverage_rules(provider_given);
    if provider_given {
        assert(rules[0] == failing(CommandStep::ParseProvider));
        assert(rules[1] == failing(CommandStep::ResolveConfig));
        assert(rules[2] == failing(CommandStep::ReadState));
    } else {
        assert(rules[0] == failing(CommandStep::ResolveConfig));
        assert(rules[1] == failing(CommandStep::ReadState));
    }
}

/// The steps of `hook coverage`.
pub fn coverage(provider_given: bool) -> (rules: Vec<StepRule>)
    ensures
        rules@ == coverage_rules(provider_given),
{
    let mut rules: Vec<StepRule> = Vec::new();
    if provider_given {
        rules.push(fails(CommandStep::ParseProvider));
    }
    rules.push(fails(CommandStep::ResolveConfig));
    rules.push(fails(CommandStep::ReadState));
    assert(rules@ =~= coverage_rules(provider_given));
    rules
}

/// No hook is trusted without a review.
pub proof fn law_trust_is_reviewed()
    ensures
        reviewed_first(trust_rules()),
{
    assert(trust_rules()[8].step is Review);
}

} // verus!
