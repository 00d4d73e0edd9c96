//! What discovery found, kept between requests.
use vstd::prelude::*;

use crate::bridge_session::BridgeMethod;

verus! {

/// For how long what was found may be used again, in seconds.
pub const DISCOVERY_TTL_SECONDS: u64 = 60;

/// What discovery found last, while it may be used again.
pub struct DiscoveryCache<D> {
    found: Option<D>,
}

impl<D> View for DiscoveryCache<D> {
    type V = Option<D>;

    closed spec fn view(&self) -> Option<D> {
        self.found
    }
}

/// How a request reads what discovery found.
#[derive(Debug, Clone, Copy, PartialEq, Eq, Structural)]
pub enum DiscoveryRead {
    /// What was found before will do.
    Cached,
    /// The request discovers anew.
    Fresh,
}

/// Whether a read must discover: it asks for that, nothing is kept, or what is
/// kept has lapsed.
pub open spec fn discovers<D>(kept: Option<D>, read: DiscoveryRead, lapsed: bool) -> bool {
    read is Fresh || kept is None || lapsed
}

impl<D> DiscoveryCache<D> {
    /// A cache that keeps nothing.
    pub fn new() -> (cache: DiscoveryCache<D>)
        ensures
            cache@ == None::<D>,
    {
        DiscoveryCache { found: None }
    }

    /// What a read may use without discovering, if there is anything.
    pub fn kept(&self, read: DiscoveryRead, lapsed: bool) -> (r: Option<&D>)
        ensures
            match r {
                Some(found) => !discovers(self@, read, lapsed) && self@ == Some(*found),
                None => discovers(self@, read, lapsed),
            },
    {
        match read {
            DiscoveryRead::Fresh => None,
            DiscoveryRead::Cached => if lapsed {
                None
            } else {
                self.found.as_ref()
            },
        }
    }

    /// Keeps what was discovered.
    pub fn keep(&mut self, found: D)
        ensures
            final(self)@ == Some(found),
    {
        self.found = Some(found);
    }

    /// Forgets what was discovered.
    pub fn invalidate(&mut self)
        ensures
            final(self)@ == None::<D>,
    {
        self.found = None;
    }

    /// Hands on what came of a change that discovery would see. Whether or not
    /// the change succeeded, nothing found before it is used after it.
    pub fn invalidate_after_discovery_change<T, E>(&mut self, result: Result<T, E>) -> (r: Result<
        T,
        E,
    >)
        ensures
            final(self)@ == None::<D>,
            r == result,
    {
        self.invalidate();
        result
    }
}

/// How a method reads what discovery found, if it does.
pub open spec fn read_of(method: BridgeMethod) -> Option<DiscoveryRead> {
    match method {
        BridgeMethod::Snapshot
        | BridgeMethod::RecoverySnapshot
        | BridgeMethod::AgentPluginInspect => Some(DiscoveryRead::Cached),
        BridgeMethod::AgentPluginPlan
        | BridgeMethod::AgentPluginApply
        | BridgeMethod::WorkflowValidate
        | BridgeMethod::WorkflowPropose
        | BridgeMethod::WorkflowLaunch => Some(DiscoveryRead::Fresh),
        _ => None,
    }
}

/// How a method reads what discovery found first, if it does: what is only shown
/// may have been found before, what is planned, compiled or carried out is
/// discovered anew.
pub fn discovery_read(method: BridgeMethod) -> (read: Option<DiscoveryRead>)
    ensures
        read == read_of(method),
{
    match method {
        BridgeMethod::Snapshot
        | BridgeMethod::RecoverySnapshot
        | BridgeMethod::AgentPluginInspect => Some(DiscoveryRead::Cached),
        BridgeMethod::AgentPluginPlan
        | BridgeMethod::AgentPluginApply
        | BridgeMethod::WorkflowValidate
        | BridgeMethod::WorkflowPropose
        | BridgeMethod::WorkflowLaunch => Some(DiscoveryRead::Fresh),
        _ => None,
    }
}

/// How far a change came.
#[derive(Debug, Clone, Copy, PartialEq, Eq, Structural)]
pub enum ChangeProgress {
    /// The request was refused before anything was changed.
    Refused,
    /// The change was begun and failed.
    Failed,
    Succeeded,
}

/// Whether nothing found before is used after a method was carried out. A change
/// to a group may have happened in part where it was begun and failed; the
/// others happen as a whole or not at all. A request that was refused leaves
/// what was found as it is.
pub open spec fn invalidates(method: BridgeMethod, progress: ChangeProgress) -> bool {
    match method {
        BridgeMethod::GroupApply => !(progress is Refused),
        BridgeMethod::DefinitionApply | BridgeMethod::RestoreApply => progress is Succeeded,
        _ => false,
    }
}

/// Whether what was found is forgotten after a method was carried out.
pub fn invalidates_discovery(method: BridgeMethod, progress: ChangeProgress) -> (r: bool)
    ensures
        r == invalidates(method, progress),
{
    match method {
        BridgeMethod::GroupApply => progress != ChangeProgress::Refused,
        BridgeMethod::DefinitionApply | BridgeMethod::RestoreApply => {
            progress == ChangeProgress::Succeeded
        },
        _ => false,
    }
}

/// What discovery found before a method, after it.
pub open spec fn kept_after<D>(
    kept: Option<D>,
    method: BridgeMethod,
    progress: ChangeProgress,
) -> Option<D> {
    if invalidates(method, progress) {
        None
    } else {
        kept
    }
}

impl<D> DiscoveryCache<D> {
    /// Forgets what a method may have made out of date.
    pub fn after(&mut self, method: BridgeMethod, progress: ChangeProgress)
        ensures
            final(self)@ == kept_after(old(self)@, method, progress),
    {
        if invalidates_discovery(method, progress) {
            self.invalidate();
        }
    }
}

/// Nothing that was found before a change to a group was begun is used after it,
/// however the change ended; a change that was not begun leaves everything as it
/// was.
pub proof fn law_group_changes_are_seen<D>(
    kept: Option<D>,
    read: DiscoveryRead,
    lapsed: bool,
    progress: ChangeProgress,
)
    ensures
        !(progress is Refused) ==> discovers(
            kept_after(kept, BridgeMethod::GroupApply, progress),
            read,
            lapsed,
        ),
        progress is Refused ==> kept_after(kept, BridgeMethod::GroupApply, progress) == kept,
{
}

/// What was discovered is used again until it lapses.
pub proof fn law_reads_reuse_what_is_kept<D>(found: D)
    ensures
        !discovers(Some(found), DiscoveryRead::Cached, false),
        discovers(Some(found), DiscoveryRead::Cached, true),
        discovers(Some(found), DiscoveryRead::Fresh, false),
{
}

} // verus!
