//! Plans that were shown for review: how many are kept and for how long, how
//! they are approved, and how an approval is spent once.
use vstd::prelude::*;

use crate::bridge_request::{
    coded, params_error, require_only_params, required_string, required_text, texts,
};
use crate::bridge_stage::{failure_code, BridgeStage};
use crate::json::{Json, JsonView, ObjectBuilder};
use crate::text::same_text;
use crate::text_map::TextMap;

verus! {

pub const MAX_REVIEWED_CONTROL_PLANS: usize = 32;

pub const REVIEWED_PLAN_TTL_SECONDS: i64 = 900;

/// Something that was reviewed at a time.
pub trait Reviewed: View {
    spec fn reviewed_at(seen: Self::V) -> i64;

    fn reviewed_at_unix(&self) -> (at: i64)
        ensures
            at == Self::reviewed_at(self@),
    ;
}

/// A plan under review, with its authorization once it is approved.
pub struct ReviewedPlan<P, A> {
    pub plan: P,
    pub plan_fingerprint: String,
    /// Whether the plan would change anything.
    pub actionable: bool,
    pub authorization: Option<A>,
    pub reviewed_at_unix: i64,
}

pub struct PlanView<P, A> {
    pub plan: P,
    pub fingerprint: Seq<char>,
    pub actionable: bool,
    pub authorization: Option<A>,
    pub reviewed_at: i64,
}

impl<P, A> View for ReviewedPlan<P, A> {
    type V = PlanView<P, A>;

    open spec fn view(&self) -> PlanView<P, A> {
        PlanView {
            plan: self.plan,
            fingerprint: self.plan_fingerprint@,
            actionable: self.actionable,
            authorization: self.authorization,
            reviewed_at: self.reviewed_at_unix,
        }
    }
}

impl<P, A> Reviewed for ReviewedPlan<P, A> {
    open spec fn reviewed_at(seen: PlanView<P, A>) -> i64 {
        seen.reviewed_at
    }

    fn reviewed_at_unix(&self) -> (at: i64) {
        self.reviewed_at_unix
    }
}

/// Whether a review is too old: more than a quarter of an hour has passed.
pub open spec fn expired(reviewed_at: i64, now: i64) -> bool {
    now - reviewed_at > REVIEWED_PLAN_TTL_SECONDS
}

/// Whether a review is too old.
pub fn reviewed_plan_is_expired(reviewed_at_unix: i64, now_unix: i64) -> (r: bool)
    ensures
        r == expired(reviewed_at_unix, now_unix),
{
    now_unix as i128 - reviewed_at_unix as i128 > REVIEWED_PLAN_TTL_SECONDS as i128
}

/// Whether a plan may be kept: it replaces one of the same operation, or there
/// is room.
pub fn has_reviewed_plan_capacity<T: View>(plans: &TextMap<T>, operation_id: &str) -> (r: bool)
    requires
        plans.wf(),
    ensures
        r == (plans@.contains_key(operation_id@) || plans.keys().len()
            < MAX_REVIEWED_CONTROL_PLANS),
{
    plans.contains_key(operation_id) || plans.len() < MAX_REVIEWED_CONTROL_PLANS
}

/// The reviews that are still current.
pub open spec fn current<T: Reviewed>(plans: Map<Seq<char>, T::V>, now: i64) -> Map<
    Seq<char>,
    T::V,
> {
    Map::new(
        |key: Seq<char>| plans.contains_key(key) && !expired(T::reviewed_at(plans[key]), now),
        |key: Seq<char>| plans[key],
    )
}

/// Forgets the reviews that are too old, and no others.
pub fn prune_expired<T: Reviewed>(plans: &mut TextMap<T>, now_unix: i64)
    requires
        old(plans).wf(),
    ensures
        final(plans).wf(),
        final(plans)@ == current::<T>(old(plans)@, now_unix),
        final(plans).keys().len() <= old(plans).keys().len(),
{
    let ghost before = plans@;
    let ghost count = plans.keys().len();
    let mut i: usize = 0;
    while i < plans.len()
        invariant
            plans.wf(),
            i <= plans.keys().len() <= count,
            before == old(plans)@,
            count == old(plans).keys().len(),
            forall|key: Seq<char>|
                #![trigger plans@.dom().contains(key)]
                plans@.dom().contains(key) ==> before.dom().contains(key) && plans@[key]
                    == before[key],
            forall|key: Seq<char>|
                #![trigger before.dom().contains(key)]
                before.dom().contains(key) && !plans@.dom().contains(key) ==> expired(
                    T::reviewed_at(before[key]),
                    now_unix,
                ),
            forall|j: int|
                0 <= j < i ==> !expired(
                    T::reviewed_at(plans@[#[trigger] plans.keys()[j]]),
                    now_unix,
                ),
        decreases plans.keys().len() - i,
    {
        let ghost keys = plans.keys();
        let ghost here = keys[i as int];
        let at: i64 = plans.value_at(i).reviewed_at_unix();
        assert(plans@.dom().contains(here));
        if reviewed_plan_is_expired(at, now_unix) {
            proof {
                plans.law_keys();
            }
            plans.remove_at(i);
            assert forall|j: int| 0 <= j < i implies !expired(
                T::reviewed_at(plans@[#[trigger] plans.keys()[j]]),
                now_unix,
            ) by {
                assert(plans.keys()[j] == keys[j]);
                assert(crate::text_map::text_lt(keys[j], keys[i as int]));
            }
        } else {
            i = i + 1;
        }
    }
    proof {
        plans.law_keys();
        assert forall|key: Seq<char>| #[trigger] plans@.dom().contains(key) implies !expired(
            T::reviewed_at(before[key]),
            now_unix,
        ) by {
            assert(plans.keys().contains(key));
            let j = choose|j: int| 0 <= j < plans.keys().len() && plans.keys()[j] == key;
            assert(!expired(T::reviewed_at(plans@[plans.keys()[j]]), now_unix));
        }
        assert(plans@ =~= current::<T>(before, now_unix));
    }
}

/// What kinds of plan are reviewed.
#[derive(Debug, Clone, Copy, PartialEq, Eq, Structural)]
pub enum PlanFamily {
    Group,
    AgentPlugin,
    Restore,
}

/// The code of a plan that is not there.
pub open spec fn unavailable_code(family: PlanFamily) -> Seq<char> {
    match family {
        PlanFamily::Group => "group-plan-unavailable"@,
        PlanFamily::AgentPlugin => "agent-plugin-plan-unavailable"@,
        PlanFamily::Restore => "restore-plan-unavailable"@,
    }
}

/// The code of a plan that is not there: each has its own words.
pub proof fn law_words_of_unavailable_code(family: PlanFamily)
    ensures
        family is Group ==> unavailable_code(family) == "group-plan-unavailable"@,
        family is AgentPlugin ==> unavailable_code(family) == "agent-plugin-plan-unavailable"@,
        family is Restore ==> unavailable_code(family) == "restore-plan-unavailable"@,
{
}

/// The code of a plan for which there is no room.
pub open spec fn limit_code(family: PlanFamily) -> Seq<char> {
    match family {
        PlanFamily::Group => "group-plan-limit-reached"@,
        PlanFamily::AgentPlugin => "agent-plugin-plan-limit-reached"@,
        PlanFamily::Restore => "restore-plan-limit-reached"@,
    }
}

/// The code of a plan for which there is no room: each has its own words.
pub proof fn law_words_of_limit_code(family: PlanFamily)
    ensures
        family is Group ==> limit_code(family) == "group-plan-limit-reached"@,
        family is AgentPlugin ==> limit_code(family) == "agent-plugin-plan-limit-reached"@,
        family is Restore ==> limit_code(family) == "restore-plan-limit-reached"@,
{
}

/// The code of a plan that could not be carried out.
pub open spec fn apply_failure_code(family: PlanFamily) -> Seq<char> {
    match family {
        PlanFamily::Group => "group-apply-blocked"@,
        PlanFamily::AgentPlugin => "agent-plugin-recovery-required"@,
        PlanFamily::Restore => "restore-apply-blocked"@,
    }
}

/// The code of a plan that could not be carried out: each has its own words.
pub proof fn law_words_of_apply_failure_code(family: PlanFamily)
    ensures
        family is Group ==> apply_failure_code(family) == "group-apply-blocked"@,
        family is AgentPlugin ==> apply_failure_code(family) == "agent-plugin-recovery-required"@,
        family is Restore ==> apply_failure_code(family) == "restore-apply-blocked"@,
{
}

/// The label under which an approval of the desktop is recorded.
pub open spec fn approval_label(family: PlanFamily) -> Seq<char> {
    match family {
        PlanFamily::Group => "unpin-desktop-local-approval"@,
        PlanFamily::AgentPlugin => "unpin-desktop-agent-plugin-approval"@,
        PlanFamily::Restore => "unpin-desktop-local-restore-approval"@,
    }
}

/// The label under which an approval of the desktop is recorded: each has its
/// own words.
pub proof fn law_words_of_approval_label(family: PlanFamily)
    ensures
        family is Group ==> approval_label(family) == "unpin-desktop-local-approval"@,
        family is AgentPlugin ==> approval_label(family)
            == "unpin-desktop-agent-plugin-approval"@,
        family is Restore ==> approval_label(family) == "unpin-desktop-local-restore-approval"@,
{
}

impl PlanFamily {
    /// The code of a plan that is not there.
    pub fn unavailable(self) -> (code: &'static str)
        ensures
            code@ == unavailable_code(self),
    {
        match self {
            PlanFamily::Group => "group-plan-unavailable",
            PlanFamily::AgentPlugin => "agent-plugin-plan-unavailable",
            PlanFamily::Restore => "restore-plan-unavailable",
        }
    }

    /// The code of a plan for which there is no room.
    pub fn limit(self) -> (code: &'static str)
        ensures
            code@ == limit_code(self),
    {
        match self {
            PlanFamily::Group => "group-plan-limit-reached",
            PlanFamily::AgentPlugin => "agent-plugin-plan-limit-reached",
            PlanFamily::Restore => "restore-plan-limit-reached",
        }
    }

    /// The code of a plan that could not be carried out.
    pub fn apply_failure(self) -> (code: &'static str)
        ensures
            code@ == apply_failure_code(self),
    {
        match self {
            PlanFamily::Group => "group-apply-blocked",
            PlanFamily::AgentPlugin => "agent-plugin-recovery-required",
            PlanFamily::Restore => "restore-apply-blocked",
        }
    }

    /// The label under which an approval of the desktop is recorded.
    pub fn label(self) -> (label: &'static str)
        ensures
            label@ == approval_label(self),
    {
        match self {
            PlanFamily::Group => "unpin-desktop-local-approval",
            PlanFamily::AgentPlugin => "unpin-desktop-agent-plugin-approval",
            PlanFamily::Restore => "unpin-desktop-local-restore-approval",
        }
    }
}

/// The operation and the fingerprint that a request names.
pub struct PlanReference {
    pub operation_id: String,
    pub plan_fingerprint: String,
}

impl View for PlanReference {
    type V = (Seq<char>, Seq<char>);

    open spec fn view(&self) -> (Seq<char>, Seq<char>) {
        (self.operation_id@, self.plan_fingerprint@)
    }
}

/// The operation and the fingerprint in the parameters.
pub open spec fn reference_in(params: JsonView) -> Result<(Seq<char>, Seq<char>), Seq<char>> {
    match params_error(params, seq!["operationId"@, "planFingerprint"@]) {
        Some(code) => Err(code),
        None => match required_text(params, "operationId"@) {
            Err(code) => Err(code),
            Ok(operation_id) => match required_text(params, "planFingerprint"@) {
                Err(code) => Err(code),
                Ok(fingerprint) => Ok((operation_id, fingerprint)),
            },
        },
    }
}

/// Reads the operation and the fingerprint from the parameters.
pub fn plan_reference(params: &Json) -> (r: Result<PlanReference, &'static str>)
    ensures
        coded(r) == reference_in(params@),
{
    let allowed: [&'static str; 2] = ["operationId", "planFingerprint"];
    assert(texts(allowed@) =~= seq!["operationId"@, "planFingerprint"@]);
    if let Err(code) = require_only_params(params, allowed.as_slice()) {
        return Err(code);
    }
    let operation_id = match required_string(params, "operationId") {
        Ok(value) => value,
        Err(code) => return Err(code),
    };
    let plan_fingerprint = match required_string(params, "planFingerprint") {
        Ok(value) => value,
        Err(code) => return Err(code),
    };
    Ok(
        PlanReference {
            operation_id: operation_id.to_owned(),
            plan_fingerprint: plan_fingerprint.to_owned(),
        },
    )
}

/// A plan as it enters the review: without authorization.
pub open spec fn fresh<P, A>(
    plan: P,
    fingerprint: Seq<char>,
    actionable: bool,
    now: i64,
) -> PlanView<
    P,
    A,
> {
    PlanView { plan, fingerprint, actionable, authorization: None, reviewed_at: now }
}

/// Keeps a plan for review. It replaces the plan of the same operation, whose
/// approval is gone with it.
pub fn remember_plan<P, A>(
    plans: &mut TextMap<ReviewedPlan<P, A>>,
    family: PlanFamily,
    operation_id: &str,
    plan: P,
    plan_fingerprint: &str,
    actionable: bool,
    now_unix: i64,
) -> (r: Result<(), &'static str>)
    requires
        old(plans).wf(),
    ensures
        final(plans).wf(),
        if old(plans)@.contains_key(operation_id@) || old(plans).keys().len()
            < MAX_REVIEWED_CONTROL_PLANS {
            r is Ok && final(plans)@ == old(plans)@.insert(
                operation_id@,
                fresh(plan, plan_fingerprint@, actionable, now_unix),
            )
        } else {
            r is Err && r->Err_0@ == limit_code(family) && *final(plans) == *old(plans)
        },
        old(plans).keys().len() <= MAX_REVIEWED_CONTROL_PLANS ==> final(plans).keys().len()
            <= MAX_REVIEWED_CONTROL_PLANS,
{
    if !has_reviewed_plan_capacity(plans, operation_id) {
        return Err(family.limit());
    }
    plans.insert(
        operation_id,
        ReviewedPlan {
            plan,
            plan_fingerprint: plan_fingerprint.to_owned(),
            actionable,
            authorization: None,
            reviewed_at_unix: now_unix,
        },
    );
    Ok(())
}

/// What is wrong with a reference to a plan.
pub open spec fn plan_error<P, A>(
    plans: Map<Seq<char>, PlanView<P, A>>,
    family: PlanFamily,
    reference: (Seq<char>, Seq<char>),
) -> Option<Seq<char>> {
    if !plans.contains_key(reference.0) {
        Some(unavailable_code(family))
    } else if plans[reference.0].fingerprint != reference.1 {
        Some("plan-fingerprint-mismatch"@)
    } else {
        None
    }
}

/// Why a plan cannot be approved.
pub open spec fn approval_error<P, A>(
    plans: Map<Seq<char>, PlanView<P, A>>,
    family: PlanFamily,
    reference: (Seq<char>, Seq<char>),
) -> Option<Seq<char>> {
    match plan_error(plans, family, reference) {
        Some(code) => Some(code),
        None => if family is Restore || plans[reference.0].actionable {
            None
        } else if family is Group {
            Some("plan-fingerprint-mismatch"@)
        } else {
            Some("agent-plugin-plan-not-actionable"@)
        },
    }
}

/// Why a plan cannot be carried out.
pub open spec fn apply_error<P, A>(
    plans: Map<Seq<char>, PlanView<P, A>>,
    family: PlanFamily,
    reference: (Seq<char>, Seq<char>),
) -> Option<Seq<char>> {
    match plan_error(plans, family, reference) {
        Some(code) => Some(code),
        None => if plans[reference.0].authorization is None {
            Some("desktop-approval-required"@)
        } else {
            None
        },
    }
}

/// What a request on a plan comes to.
pub open spec fn referenced(
    params: JsonView,
    error: spec_fn((Seq<char>, Seq<char>)) -> Option<Seq<char>>,
) -> Result<(Seq<char>, Seq<char>), Seq<char>> {
    match reference_in(params) {
        Err(code) => Err(code),
        Ok(reference) => match error(reference) {
            Some(code) => Err(code),
            None => Ok(reference),
        },
    }
}

fn check_plan<P, A>(
    plans: &TextMap<ReviewedPlan<P, A>>,
    family: PlanFamily,
    reference: &PlanReference,
) -> (r: Result<(), &'static str>)
    requires
        plans.wf(),
    ensures
        match plan_error(plans@, family, reference@) {
            Some(code) => r is Err && r->Err_0@ == code,
            None => r is Ok,
        },
{
    match plans.get(reference.operation_id.as_str()) {
        None => Err(family.unavailable()),
        Some(reviewed) => {
            if same_text(
                reviewed.plan_fingerprint.as_str(),
                reference.plan_fingerprint.as_str(),
            ) {
                Ok(())
            } else {
                Err("plan-fingerprint-mismatch")
            }
        },
    }
}

/// The plan that a request asks to approve.
pub fn approvable_plan<P, A>(
    plans: &TextMap<ReviewedPlan<P, A>>,
    family: PlanFamily,
    params: &Json,
) -> (r: Result<PlanReference, &'static str>)
    requires
        plans.wf(),
    ensures
        coded(r) == referenced(
            params@,
            |reference: (Seq<char>, Seq<char>)| approval_error(plans@, family, reference),
        ),
{
    let reference = match plan_reference(params) {
        Ok(reference) => reference,
        Err(code) => return Err(code),
    };
    if let Err(code) = check_plan(plans, family, &reference) {
        return Err(code);
    }
    match plans.get(reference.operation_id.as_str()) {
        None => Err(family.unavailable()),
        Some(reviewed) => match family {
            PlanFamily::Group => {
                if reviewed.actionable {
                    Ok(reference)
                } else {
                    Err("plan-fingerprint-mismatch")
                }
            },
            PlanFamily::AgentPlugin => {
                if reviewed.actionable {
                    Ok(reference)
                } else {
                    Err("agent-plugin-plan-not-actionable")
                }
            },
            PlanFamily::Restore => Ok(reference),
        },
    }
}

/// The response to an approval.
pub open spec fn approval_view(reference: (Seq<char>, Seq<char>)) -> JsonView {
    JsonView::Object(
        seq![
            ("operationId"@, JsonView::Text(reference.0)),
            ("planFingerprint"@, JsonView::Text(reference.1)),
            ("approval"@, JsonView::Text("current"@)),
        ],
    )
}

/// The plans after an authorization was given or spent.
pub open spec fn with_authorization<P, A>(
    plans: Map<Seq<char>, PlanView<P, A>>,
    operation_id: Seq<char>,
    authorization: Option<A>,
) -> Map<Seq<char>, PlanView<P, A>> {
    plans.insert(operation_id, PlanView { authorization, ..plans[operation_id] })
}

/// Records what came of the approval of a plan: its authorization, or the stage
/// at which the approval failed, which leaves the plan as it was.
pub fn record_approval<P, A>(
    plans: &mut TextMap<ReviewedPlan<P, A>>,
    family: PlanFamily,
    reference: &PlanReference,
    decided: Result<A, BridgeStage>,
) -> (r: Result<Json, &'static str>)
    requires
        old(plans).wf(),
    ensures
        final(plans).wf(),
        match decided {
            Err(stage) => r is Err && r->Err_0@ == failure_code(stage) && final(plans)@ == old(
                plans,
            )@,
            Ok(authorization) => if old(plans)@.contains_key(reference@.0) {
                r is Ok && r->Ok_0@ == approval_view(reference@) && final(plans)@
                    == with_authorization(old(plans)@, reference@.0, Some(authorization))
            } else {
                r is Err && r->Err_0@ == unavailable_code(family) && final(plans)@ == old(plans)@
            },
        },
        final(plans).keys().len() == old(plans).keys().len(),
{
    let ghost before = plans@;
    let authorization = match decided {
        Ok(authorization) => authorization,
        Err(stage) => return Err(stage.code()),
    };
    match plans.remove(reference.operation_id.as_str()) {
        None => {
            assert(plans@ =~= before);
            Err(family.unavailable())
        },
        Some(reviewed) => {
            let mut changed = reviewed;
            changed.authorization = Some(authorization);
            plans.insert(reference.operation_id.as_str(), changed);
            let mut response = ObjectBuilder::new();
            response.put_text("operationId", reference.operation_id.as_str());
            response.put_text("planFingerprint", reference.plan_fingerprint.as_str());
            response.put_text("approval", "current");
            proof {
                assert(plans@ =~= with_authorization(before, reference@.0, Some(authorization)));
                assert(response@ =~= approval_view(reference@)->Object_0);
            }
            Ok(response.finish())
        },
    }
}

/// The plan that a request asks to carry out: it must be approved.
pub fn appliable_plan<P, A>(
    plans: &TextMap<ReviewedPlan<P, A>>,
    family: PlanFamily,
    params: &Json,
) -> (r: Result<PlanReference, &'static str>)
    requires
        plans.wf(),
    ensures
        coded(r) == referenced(
            params@,
            |reference: (Seq<char>, Seq<char>)| apply_error(plans@, family, reference),
        ),
{
    let reference = match plan_reference(params) {
        Ok(reference) => reference,
        Err(code) => return Err(code),
    };
    if let Err(code) = check_plan(plans, family, &reference) {
        return Err(code);
    }
    match plans.get(reference.operation_id.as_str()) {
        None => Err(family.unavailable()),
        Some(reviewed) => {
            if reviewed.authorization.is_some() {
                Ok(reference)
            } else {
                Err("desktop-approval-required")
            }
        },
    }
}

/// Spends the authorization of a plan.
pub fn take_authorization<P, A>(
    plans: &mut TextMap<ReviewedPlan<P, A>>,
    family: PlanFamily,
    operation_id: &str,
) -> (r: Result<A, &'static str>)
    requires
        old(plans).wf(),
    ensures
        final(plans).wf(),
        final(plans).keys().len() == old(plans).keys().len(),
        if !old(plans)@.contains_key(operation_id@) {
            r is Err && r->Err_0@ == unavailable_code(family) && final(plans)@ == old(plans)@
        } else {
            match old(plans)@[operation_id@].authorization {
                None => r is Err && r->Err_0@ == "desktop-approval-required"@ && final(plans)@
                    == old(plans)@,
                Some(authorization) => r == Ok::<A, &'static str>(authorization) && final(plans)@
                    == with_authorization(old(plans)@, operation_id@, None),
            }
        },
{
    let ghost before = plans@;
    match plans.remove(operation_id) {
        None => {
            assert(plans@ =~= before);
            Err(family.unavailable())
        },
        Some(mut reviewed) => {
            let authorization = reviewed.authorization.take();
            plans.insert(operation_id, reviewed);
            proof {
                assert(plans@ =~= with_authorization(before, operation_id@, None));
                if authorization is None {
                    assert(with_authorization(before, operation_id@, None) =~= before);
                }
            }
            match authorization {
                Some(authorization) => Ok(authorization),
                None => Err("desktop-approval-required"),
            }
        },
    }
}

/// Starts to carry out a group plan. The controller comes before the plan, and
/// the authorization is spent before anything is written, whatever comes of
/// it.
pub fn begin_group_apply<P, A>(
    plans: &mut TextMap<ReviewedPlan<P, A>>,
    params: &Json,
    controller: Result<(), BridgeStage>,
) -> (r: Result<(PlanReference, A), &'static str>)
    requires
        old(plans).wf(),
    ensures
        final(plans).wf(),
        final(plans).keys().len() == old(plans).keys().len(),
        match (reference_in(params@), controller) {
            (Err(code), _) => r is Err && r->Err_0@ == code && final(plans)@ == old(plans)@,
            (Ok(_), Err(stage)) => r is Err && r->Err_0@ == failure_code(stage) && final(plans)@
                == old(plans)@,
            (Ok(reference), Ok(())) => match apply_error(
                old(plans)@,
                PlanFamily::Group,
                reference,
            ) {
                Some(code) => r is Err && r->Err_0@ == code && final(plans)@ == old(plans)@,
                None => r is Ok && r->Ok_0.0@ == reference && Some(r->Ok_0.1) == old(
                    plans,
                )@[reference.0].authorization && final(plans)@ == with_authorization(
                    old(plans)@,
                    reference.0,
                    None,
                ),
            },
        },
{
    let reference = match plan_reference(params) {
        Ok(reference) => reference,
        Err(code) => return Err(code),
    };
    if let Err(stage) = controller {
        return Err(stage.code());
    }
    if let Err(code) = check_plan(plans, PlanFamily::Group, &reference) {
        return Err(code);
    }
    match take_authorization(plans, PlanFamily::Group, reference.operation_id.as_str()) {
        Ok(authorization) => Ok((reference, authorization)),
        Err(code) => Err(code),
    }
}

/// Ends the carrying out of a plan: one that was carried out leaves the
/// review.
pub fn finish_apply<P, A>(
    plans: &mut TextMap<ReviewedPlan<P, A>>,
    family: PlanFamily,
    operation_id: &str,
    applied: bool,
) -> (r: Result<(), &'static str>)
    requires
        old(plans).wf(),
    ensures
        final(plans).wf(),
        applied ==> r is Ok && final(plans)@ == old(plans)@.remove(operation_id@),
        !applied ==> r is Err && r->Err_0@ == apply_failure_code(family) && *final(plans) == *old(
            plans,
        ),
        final(plans).keys().len() <= old(plans).keys().len(),
{
    if applied {
        plans.remove(operation_id);
        Ok(())
    } else {
        Err(family.apply_failure())
    }
}

/// The response to a request that was followed without more to say.
pub open spec fn flag_view(key: Seq<char>) -> JsonView {
    JsonView::Object(seq![(key, JsonView::Bool(true))])
}

/// An object with one member that is true.
pub fn flag(key: &str) -> (response: Json)
    ensures
        response@ == flag_view(key@),
{
    let mut response = ObjectBuilder::new();
    response.put(key, Json::Bool(true));
    assert(response@ =~= flag_view(key@)->Object_0);
    response.finish()
}

/// Forgets a plan that a request names.
pub fn discard_plan<P, A>(
    plans: &mut TextMap<ReviewedPlan<P, A>>,
    family: PlanFamily,
    params: &Json,
) -> (r: Result<Json, &'static str>)
    requires
        old(plans).wf(),
    ensures
        final(plans).wf(),
        match referenced(
            params@,
            |reference: (Seq<char>, Seq<char>)| plan_error(old(plans)@, family, reference),
        ) {
            Err(code) => r is Err && r->Err_0@ == code && *final(plans) == *old(plans),
            Ok(reference) => r is Ok && r->Ok_0@ == flag_view("discarded"@) && final(plans)@ == old(
                plans,
            )@.remove(reference.0),
        },
{
    let reference = match plan_reference(params) {
        Ok(reference) => reference,
        Err(code) => return Err(code),
    };
    if let Err(code) = check_plan(plans, family, &reference) {
        return Err(code);
    }
    plans.remove(reference.operation_id.as_str());
    Ok(flag("discarded"))
}

/// An approval is spent once: after its authorization was taken, the plan
/// cannot be carried out until it is approved again.
pub proof fn law_authorization_is_spent_once<P, A>(
    plans: Map<Seq<char>, PlanView<P, A>>,
    family: PlanFamily,
    reference: (Seq<char>, Seq<char>),
)
    requires
        apply_error(plans, family, reference) is None,
    ensures
        apply_error(with_authorization(plans, reference.0, None), family, reference) == Some(
            "desktop-approval-required"@,
        ),
{
}

/// A plan that is made anew must be approved anew.
pub proof fn law_replanning_revokes_approval<P, A>(
    plans: Map<Seq<char>, PlanView<P, A>>,
    family: PlanFamily,
    reference: (Seq<char>, Seq<char>),
    plan: P,
    fingerprint: Seq<char>,
    actionable: bool,
    now: i64,
)
    ensures
        apply_error(
            plans.insert(reference.0, fresh(plan, fingerprint, actionable, now)),
            family,
            reference,
        ) is Some,
{
}

/// A plan that was discarded or carried out is gone, and no other is.
pub proof fn law_removed_plan_is_unavailable<P, A>(
    plans: Map<Seq<char>, PlanView<P, A>>,
    family: PlanFamily,
    reference: (Seq<char>, Seq<char>),
    other: (Seq<char>, Seq<char>),
)
    ensures
        apply_error(plans.remove(reference.0), family, reference) == Some(unavailable_code(family)),
        other.0 != reference.0 ==> apply_error(plans.remove(reference.0), family, other)
            == apply_error(plans, family, other),
{
}

/// A review that has lapsed can neither be approved nor carried out.
pub proof fn law_lapsed_review_is_unavailable<P, A>(
    plans: Map<Seq<char>, PlanView<P, A>>,
    family: PlanFamily,
    reference: (Seq<char>, Seq<char>),
    now: i64,
)
    requires
        plans.contains_key(reference.0),
        expired(plans[reference.0].reviewed_at, now),
    ensures
        approval_error(current::<ReviewedPlan<P, A>>(plans, now), family, reference) == Some(
            unavailable_code(family),
        ),
        apply_error(current::<ReviewedPlan<P, A>>(plans, now), family, reference) == Some(
            unavailable_code(family),
        ),
{
}

} // verus!
