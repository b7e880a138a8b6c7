//! Data model of the contract-upgrade framework, an external collaborator of
//! the treasury: status and type codes with their wire encoding.

use vstd::prelude::*;

verus! {

/// Status of an upgrade operation.
#[derive(Clone, Copy, Debug, PartialEq, Eq, Structural)]
pub enum UpgradeStatus {
    /// Pending governance approval.
    Pending,
    /// Approved.
    Approved,
    /// Ready to execute.
    ReadyToExecute,
    /// Executed.
    Executed,
    /// Rolled back.
    RolledBack,
    /// Failed during execution.
    Failed,
}

/// The numeric code of an upgrade status.
pub open spec fn spec_status_code(s: UpgradeStatus) -> u32 {
    match s {
        UpgradeStatus::Pending => 0u32,
        UpgradeStatus::Approved => 1u32,
        UpgradeStatus::ReadyToExecute => 2u32,
        UpgradeStatus::Executed => 3u32,
        UpgradeStatus::RolledBack => 4u32,
        UpgradeStatus::Failed => 5u32,
    }
}

impl UpgradeStatus {
    /// Decodes a status code; unknown codes fall back to `Pending`.
    pub fn from_u32(value: u32) -> (r: Self)
        ensures
            value <= 5 ==> spec_status_code(r) == value,
            value > 5 ==> r == UpgradeStatus::Pending,
    {
        match value {
            0 => UpgradeStatus::Pending,
            1 => UpgradeStatus::Approved,
            2 => UpgradeStatus::ReadyToExecute,
            3 => UpgradeStatus::Executed,
            4 => UpgradeStatus::RolledBack,
            5 => UpgradeStatus::Failed,
            _ => UpgradeStatus::Pending,
        }
    }

    /// Encodes the status as its numeric code.
    pub fn to_u32(&self) -> (r: u32)
        ensures
            r == spec_status_code(*self),
    {
        match self {
            UpgradeStatus::Pending => 0,
            UpgradeStatus::Approved => 1,
            UpgradeStatus::ReadyToExecute => 2,
            UpgradeStatus::Executed => 3,
            UpgradeStatus::RolledBack => 4,
            UpgradeStatus::Failed => 5,
        }
    }
}

/// Type of upgrade being performed.
#[derive(Clone, Copy, Debug, PartialEq, Eq, Structural)]
pub enum UpgradeType {
    /// Code-only upgrade (no state changes).
    CodeOnly,
    /// Code upgrade with state migration.
    WithMigration,
    /// Emergency patch upgrade.
    Emergency,
    /// Security fix upgrade.
    SecurityFix,
}

/// The numeric code of an upgrade type.
pub open spec fn spec_type_code(t: UpgradeType) -> u32 {
    match t {
        UpgradeType::CodeOnly => 0u32,
        UpgradeType::WithMigration => 1u32,
        UpgradeType::Emergency => 2u32,
        UpgradeType::SecurityFix => 3u32,
    }
}

impl UpgradeType {
    /// Decodes a type code; unknown codes fall back to `CodeOnly`.
    pub fn from_u32(value: u32) -> (r: Self)
        ensures
            value <= 3 ==> spec_type_code(r) == value,
            value > 3 ==> r == UpgradeType::CodeOnly,
    {
        match value {
            0 => UpgradeType::CodeOnly,
            1 => UpgradeType::WithMigration,
            2 => UpgradeType::Emergency,
            3 => UpgradeType::SecurityFix,
            _ => UpgradeType::CodeOnly,
        }
    }

    /// Encodes the type as its numeric code.
    pub fn to_u32(&self) -> (r: u32)
        ensures
            r == spec_type_code(*self),
    {
        match self {
            UpgradeType::CodeOnly => 0,
            UpgradeType::WithMigration => 1,
            UpgradeType::Emergency => 2,
            UpgradeType::SecurityFix => 3,
        }
    }
}

/// Result of an upgrade's governance approval check.
#[derive(Clone, Copy, Debug)]
pub struct GovernanceApprovalResult {
    pub approved: bool,
    pub governance_id: u64,
    pub approval_time: u64,
    pub vote_count: u32,
    pub approval_percentage: u32,
}

} // verus!
