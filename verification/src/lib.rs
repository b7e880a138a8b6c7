//! A guild treasury engine: a custodial account that holds native and
//! issued-token balances and releases them only through an M-of-N approval
//! protocol, subject to per-category budgets, per-admin recurring allowances,
//! and an emergency pause.
//!
//! The engine is a pure state machine over plain values: addresses are opaque
//! account identifiers (`u64`), and the host that drives it (ledger storage,
//! authorization, events, token transfers) lives outside the library and
//! attests the caller's identity on every call.

pub mod allowance;
pub mod analytics;
pub mod emergency;
pub mod governance;
pub mod laws;
pub mod management;
pub mod multisig;
pub mod payment;
pub mod reputation;
pub mod subscription;
pub mod types;
pub mod upgrade;
