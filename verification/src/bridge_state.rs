//! What the desktop bridge remembers between requests.
use vstd::prelude::*;

use crate::bridge_request::Request;
use crate::bridge_session::{
    authentication_error, route, BridgeSession, Route, SessionView,
};
use crate::group_definition::ReviewedDefinitionChange;
use crate::reviewed_plans::{current, expired, prune_expired, ReviewedPlan};
use crate::text_map::TextMap;
use crate::workflow::{ReviewedWorkflowLaunch, WorkflowDraft};

verus! {

/// The state of a bridge. A plan for a group is a `G`, one for a package a `K`,
/// one for a restore an `R`; each is carried out with an authorization `A`. A
/// group is defined by a `D`.
pub struct DesktopBridgeState<G, K, R, A, D> {
    pub session: BridgeSession,
    pub reviewed_groups: TextMap<ReviewedPlan<G, A>>,
    pub reviewed_agent_plugins: TextMap<ReviewedPlan<K, A>>,
    pub reviewed_restores: TextMap<ReviewedPlan<R, A>>,
    pub reviewed_definitions: TextMap<ReviewedDefinitionChange<D>>,
    pub workflows: TextMap<WorkflowDraft>,
    pub reviewed_workflow_launches: TextMap<ReviewedWorkflowLaunch>,
    pub workflow_session_id: Option<String>,
    pub next_definition_plan_id: u64,
}

impl<G, K, R, A, D> DesktopBridgeState<G, K, R, A, D> {
    /// Whether everything that is remembered is in order.
    pub open spec fn wf(&self) -> bool {
        &&& self.reviewed_groups.wf()
        &&& self.reviewed_agent_plugins.wf()
        &&& self.reviewed_restores.wf()
        &&& self.reviewed_definitions.wf()
        &&& self.workflows.wf()
        &&& self.reviewed_workflow_launches.wf()
    }

    /// Whether one state is another without the reviews that are too old.
    pub open spec fn is_pruned(&self, before: &Self, now: i64) -> bool {
        &&& self.reviewed_groups@ == current::<ReviewedPlan<G, A>>(before.reviewed_groups@, now)
        &&& self.reviewed_agent_plugins@ == current::<ReviewedPlan<K, A>>(
            before.reviewed_agent_plugins@,
            now,
        )
        &&& self.reviewed_restores@ == current::<ReviewedPlan<R, A>>(before.reviewed_restores@, now)
        &&& self.reviewed_definitions@ == current::<ReviewedDefinitionChange<D>>(
            before.reviewed_definitions@,
            now,
        )
        &&& self.reviewed_workflow_launches@ == current::<ReviewedWorkflowLaunch>(
            before.reviewed_workflow_launches@,
            now,
        )
        &&& self.workflows == before.workflows
        &&& self.workflow_session_id == before.workflow_session_id
        &&& self.next_definition_plan_id == before.next_definition_plan_id
    }

    /// The state of a bridge that has seen no request.
    pub fn new() -> (state: Self)
        ensures
            state.wf(),
            state.session@ == (SessionView { binding: None, sequence: 0 }),
            state.reviewed_groups@.dom() =~= Set::empty(),
            state.reviewed_agent_plugins@.dom() =~= Set::empty(),
            state.reviewed_restores@.dom() =~= Set::empty(),
            state.reviewed_definitions@.dom() =~= Set::empty(),
            state.workflows@.dom() =~= Set::empty(),
            state.reviewed_workflow_launches@.dom() =~= Set::empty(),
            state.workflow_session_id is None,
            state.next_definition_plan_id == 0,
    {
        DesktopBridgeState {
            session: BridgeSession::new(),
            reviewed_groups: TextMap::new(),
            reviewed_agent_plugins: TextMap::new(),
            reviewed_restores: TextMap::new(),
            reviewed_definitions: TextMap::new(),
            workflows: TextMap::new(),
            reviewed_workflow_launches: TextMap::new(),
            workflow_session_id: None,
            next_definition_plan_id: 0,
        }
    }
}

/// Forgets every review that is too old, of whatever kind.
pub fn prune_expired_reviewed_plans<G, K, R, A, D>(
    state: &mut DesktopBridgeState<G, K, R, A, D>,
    now_unix: i64,
)
    requires
        old(state).wf(),
    ensures
        final(state).wf(),
        final(state).is_pruned(old(state), now_unix),
        final(state).session == old(state).session,
{
    prune_expired(&mut state.reviewed_groups, now_unix);
    prune_expired(&mut state.reviewed_agent_plugins, now_unix);
    prune_expired(&mut state.reviewed_restores, now_unix);
    prune_expired(&mut state.reviewed_definitions, now_unix);
    prune_expired(&mut state.reviewed_workflow_launches, now_unix);
}

/// Takes a request: forgets the reviews that are too old, then authenticates
/// the request and says where it goes.
pub fn handle_request<G, K, R, A, D>(
    state: &mut DesktopBridgeState<G, K, R, A, D>,
    request: &Request,
    expected_tag: &str,
    now_unix: i64,
) -> (r: Result<Route, &'static str>)
    requires
        old(state).wf(),
    ensures
        final(state).wf(),
        final(state).is_pruned(old(state), now_unix),
        match route(old(state).session@, request@, expected_tag@) {
            Ok(to) => r == Ok::<Route, &'static str>(to),
            Err(code) => r is Err && r->Err_0@ == code,
        },
        final(state).session@ == if request@.method != "handshake"@ && authentication_error(
            old(state).session@,
            request@.auth,
            expected_tag@,
        ) is None {
            SessionView {
                binding: old(state).session@.binding,
                sequence: (old(state).session@.sequence + 1) as u64,
            }
        } else {
            old(state).session@
        },
{
    prune_expired_reviewed_plans(state, now_unix);
    crate::bridge_session::handle_request(&mut state.session, request, expected_tag)
}

/// No request is served with a review that is too old, whatever it is a review
/// of.
pub proof fn law_served_reviews_are_current<G, K, R, A, D>(
    before: DesktopBridgeState<G, K, R, A, D>,
    after: DesktopBridgeState<G, K, R, A, D>,
    now: i64,
    id: Seq<char>,
)
    requires
        after.is_pruned(&before, now),
    ensures
        after.reviewed_groups@.contains_key(id) ==> !expired(
            after.reviewed_groups@[id].reviewed_at,
            now,
        ),
        after.reviewed_agent_plugins@.contains_key(id) ==> !expired(
            after.reviewed_agent_plugins@[id].reviewed_at,
            now,
        ),
        after.reviewed_restores@.contains_key(id) ==> !expired(
            after.reviewed_restores@[id].reviewed_at,
            now,
        ),
        after.reviewed_definitions@.contains_key(id) ==> !expired(
            after.reviewed_definitions@[id].reviewed_at,
            now,
        ),
        after.reviewed_workflow_launches@.contains_key(id) ==> !expired(
            after.reviewed_workflow_launches@[id].1,
            now,
        ),
{
}

} // verus!
