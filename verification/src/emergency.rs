//! Data model of the platform-wide emergency controls, an external
//! collaborator of the treasury (the treasury's own pause lives on each
//! treasury account).

use vstd::prelude::*;

verus! {

/// Whether a platform-wide emergency stop is in force.
#[derive(Clone, Copy, Debug, PartialEq, Eq, Structural)]
pub enum EmergencyStatus {
    Active,
    Inactive,
}

/// Storage key space of the emergency module.
#[derive(Clone, Copy, Debug, PartialEq, Eq, Structural)]
pub enum DataKey {
    EmergencyConfig,
    EmergencyLog(u64),
    LogCounter,
}

} // verus!
