//! Data model of the governance module, an external collaborator of the
//! treasury: proposals spend treasury funds only through the ordinary
//! proposal/approval protocol, with no privileged bypass.

use vstd::prelude::*;

verus! {

/// A member's role within a guild.
#[derive(Clone, Copy, Debug, Eq, PartialEq, Structural)]
pub enum Role {
    Owner,
    Admin,
    Member,
    Contributor,
}

/// The voting weight a role contributes before any reputation bonus.
pub fn role_weight(role: &Role) -> (r: i128)
    ensures
        role is Owner ==> r == 10,
        role is Admin ==> r == 5,
        role is Member ==> r == 2,
        role is Contributor ==> r == 1,
{
    match role {
        Role::Owner => 10,
        Role::Admin => 5,
        Role::Member => 2,
        Role::Contributor => 1,
    }
}

#[derive(Clone, Copy, Debug, Eq, PartialEq, Structural)]
pub enum ProposalType {
    TreasurySpend,
    AddMember,
    RemoveMember,
    RuleChange,
    GeneralDecision,
}

#[derive(Clone, Copy, Debug, Eq, PartialEq, Structural)]
pub enum ProposalStatus {
    Draft,
    Active,
    Passed,
    Rejected,
    Executed,
    Cancelled,
    Expired,
}

#[derive(Clone, Copy, Debug, Eq, PartialEq, Structural)]
pub enum VoteDecision {
    For,
    Against,
    Abstain,
}

/// Per-guild governance parameters.
#[derive(Clone, Copy, Debug, Eq, PartialEq, Structural)]
pub struct GovernanceConfig {
    pub quorum_percentage: u32,
    pub approval_threshold: u32,
    pub voting_period_days: u32,
    pub min_proposer_reputation: u32,
}

impl GovernanceConfig {
    /// The configuration a guild starts with: 30% quorum, 60% approval,
    /// seven-day voting periods, no reputation floor.
    pub fn default() -> (r: Self)
        ensures
            r.quorum_percentage == 30,
            r.approval_threshold == 60,
            r.voting_period_days == 7,
            r.min_proposer_reputation == 0,
    {
        Self {
            quorum_percentage: 30,
            approval_threshold: 60,
            voting_period_days: 7,
            min_proposer_reputation: 0,
        }
    }
}

/// Simple execution payload selector; detailed payload data is stored
/// separately per proposal type.
#[derive(Clone, Copy, Debug, Eq, PartialEq, Structural)]
pub enum ExecutionPayload {
    /// Treasury spend.
    TreasurySpend,
    /// Add a member to the guild.
    AddMember,
    /// Remove a member from the guild.
    RemoveMember,
    /// Change a guild rule.
    RuleChange,
    /// General decision (signalling only).
    GeneralDecision,
}

/// Event emitted when voting on a proposal closes.
#[derive(Clone, Copy, Debug, Eq, PartialEq)]
pub struct ProposalFinalizedEvent {
    pub proposal_id: u64,
    pub status: ProposalStatus,
    pub votes_for: i128,
    pub votes_against: i128,
    pub votes_abstain: i128,
}

/// Event emitted when a passed proposal is executed.
#[derive(Clone, Copy, Debug, Eq, PartialEq, Structural)]
pub struct ProposalExecutedEvent {
    pub proposal_id: u64,
    pub success: bool,
}

/// Event emitted when a proposal is cancelled.
#[derive(Clone, Copy, Debug, Eq, PartialEq, Structural)]
pub struct ProposalCancelledEvent {
    pub proposal_id: u64,
}

/// Event emitted when a guild's governance configuration changes.
#[derive(Clone, Copy, Debug, Eq, PartialEq, Structural)]
pub struct GovernanceConfigUpdatedEvent {
    pub guild_id: u64,
}

} // verus!
