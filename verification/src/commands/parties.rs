//! Under which names changes are approved and carried out.
use vstd::prelude::*;

verus! {

/// A change that is approved by its plan.
#[derive(Debug, Clone, Copy, PartialEq, Eq, Structural)]
pub enum ReviewedChange {
    Profile,
    ProfileProviders,
    CapabilityLock,
    Gateway,
    SessionEnd,
    WorkflowDefinition,
    BulkToggle,
    AgentPlugin,
    DesktopGroup,
    DesktopAgentPlugin,
    DesktopRestore,
}

/// Who approves a change.
pub open spec fn actor_name(change: ReviewedChange) -> Seq<char> {
    match change {
        ReviewedChange::Profile => "unpin-cli-profile-approval"@,
        ReviewedChange::ProfileProviders => "unpin-cli-profile-provider-approval"@,
        ReviewedChange::CapabilityLock => "unpin-cli-capability-lock-approval"@,
        ReviewedChange::Gateway => "unpin-cli-gateway-approval"@,
        ReviewedChange::SessionEnd => "unpin-cli-session-end-approval"@,
        ReviewedChange::WorkflowDefinition => "unpin-cli-workflow-definition"@,
        ReviewedChange::BulkToggle => "unpin-cli-bulk-toggle-approval"@,
        ReviewedChange::AgentPlugin => "unpin-cli-agent-plugin-approval"@,
        ReviewedChange::DesktopGroup => "unpin-desktop-local-approval"@,
        ReviewedChange::DesktopAgentPlugin => "unpin-desktop-agent-plugin-approval"@,
        ReviewedChange::DesktopRestore => "unpin-desktop-local-restore-approval"@,
    }
}

/// Who carries a change out, where it goes under a name of its own.
pub open spec fn owner_name(change: ReviewedChange) -> Option<Seq<char>> {
    match change {
        ReviewedChange::Profile => Some("unpin-cli-profile"@),
        ReviewedChange::ProfileProviders => Some("unpin-cli-profile-provider"@),
        ReviewedChange::CapabilityLock => Some("unpin-cli-capability-lock"@),
        ReviewedChange::Gateway => Some("unpin-cli-gateway"@),
        ReviewedChange::SessionEnd => Some("unpin-cli-session-end"@),
        _ => None,
    }
}

impl ReviewedChange {
    /// Who approves this change.
    pub fn actor(self) -> (name: &'static str)
        ensures
            name@ == actor_name(self),
    {
        match self {
            ReviewedChange::Profile => "unpin-cli-profile-approval",
            ReviewedChange::ProfileProviders => "unpin-cli-profile-provider-approval",
            ReviewedChange::CapabilityLock => "unpin-cli-capability-lock-approval",
            ReviewedChange::Gateway => "unpin-cli-gateway-approval",
            ReviewedChange::SessionEnd => "unpin-cli-session-end-approval",
            ReviewedChange::WorkflowDefinition => "unpin-cli-workflow-definition",
            ReviewedChange::BulkToggle => "unpin-cli-bulk-toggle-approval",
            ReviewedChange::AgentPlugin => "unpin-cli-agent-plugin-approval",
            ReviewedChange::DesktopGroup => "unpin-desktop-local-approval",
            ReviewedChange::DesktopAgentPlugin => "unpin-desktop-agent-plugin-approval",
            ReviewedChange::DesktopRestore => "unpin-desktop-local-restore-approval",
        }
    }

    /// Who carries this change out, where it goes under a name of its own.
    pub fn owner(self) -> (name: Option<&'static str>)
        ensures
            match owner_name(self) {
                Some(owner) => name is Some && name->0@ == owner,
                None => name is None,
            },
    {
        match self {
            ReviewedChange::Profile => Some("unpin-cli-profile"),
            ReviewedChange::ProfileProviders => Some("unpin-cli-profile-provider"),
            ReviewedChange::CapabilityLock => Some("unpin-cli-capability-lock"),
            ReviewedChange::Gateway => Some("unpin-cli-gateway"),
            ReviewedChange::SessionEnd => Some("unpin-cli-session-end"),
            _ => None,
        }
    }
}

/// A change that is approved by a receipt of its own.
#[derive(Debug, Clone, Copy, PartialEq, Eq, Structural)]
pub enum ReceiptedChange {
    HookTrust,
    Adoption,
}

/// Who issues a receipt, for whom, and under which name it is used.
pub struct ReceiptParties {
    pub issuer: &'static str,
    pub audience: &'static str,
    pub owner: &'static str,
}

/// The parties of a receipt.
pub fn receipt_parties(change: ReceiptedChange) -> (parties: ReceiptParties)
    ensures
        parties.issuer@ == "unpin-cli-human"@,
        parties.audience@ == (if change is HookTrust {
            "unpin-core-hook-trust"@
        } else {
            "unpin-core-transition"@
        }),
        parties.owner@ == (if change is HookTrust {
            "unpin-cli-hook-trust"@
        } else {
            "unpin-cli-adoption"@
        }),
{
    match change {
        ReceiptedChange::HookTrust => ReceiptParties {
            issuer: "unpin-cli-human",
            audience: "unpin-core-hook-trust",
            owner: "unpin-cli-hook-trust",
        },
        ReceiptedChange::Adoption => ReceiptParties {
            issuer: "unpin-cli-human",
            audience: "unpin-core-transition",
            owner: "unpin-cli-adoption",
        },
    }
}

/// The tool of the gateway that a session's modes are changed with, or a pending
/// change of them cancelled.
pub fn workflow_control_tool(cancel: bool) -> (tool: &'static str)
    ensures
        tool@ == (if cancel {
            "unpin_workflow_cancel_transition"@
        } else {
            "unpin_workflow_enter_mode"@
        }),
{
    if cancel {
        "unpin_workflow_cancel_transition"
    } else {
        "unpin_workflow_enter_mode"
    }
}

/// An approval that names its actor was given for one kind of change.
pub proof fn law_actors_are_distinct(a: ReviewedChange, b: ReviewedChange)
    requires
        actor_name(a) == actor_name(b),
    ensures
        a == b,
{
    reveal_strlit("unpin-cli-profile-approval");
    reveal_strlit("unpin-cli-profile-provider-approval");
    reveal_strlit("unpin-cli-capability-lock-approval");
    reveal_strlit("unpin-cli-gateway-approval");
    reveal_strlit("unpin-cli-session-end-approval");
    reveal_strlit("unpin-cli-workflow-definition");
    reveal_strlit("unpin-cli-bulk-toggle-approval");
    reveal_strlit("unpin-cli-agent-plugin-approval");
    reveal_strlit("unpin-desktop-local-approval");
    reveal_strlit("unpin-desktop-agent-plugin-approval");
    reveal_strlit("unpin-desktop-local-restore-approval");
    let first = actor_name(a);
    let second = actor_name(b);
    assert(first.len() == second.len());
    assert(first[10] == second[10]);
    assert(first[11] == second[11]);
    assert(first[6] == second[6]);
}

} // verus!
