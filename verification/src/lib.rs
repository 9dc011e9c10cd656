//! Tokenomics core of a fixed-supply fungible token: a staged unlock schedule
//! gated by an external valuation signal, a per-transfer tax split between two
//! fixed sinks, and an anti-concentration cap on individual holdings.
//!
//! The library is the business-rule state machine only.  Balance storage,
//! authentication, valuation retrieval and the liquidation venue are external
//! collaborators: every operation here takes already-resolved plain values
//! (amounts, balances, timestamps) and returns the amounts or decisions the
//! host must act on.

mod auto_sell_gate;
mod cap_enforcer;
mod errors;
mod investor;
mod milestones;
mod state;
mod tax_engine;
mod transfer;

pub use auto_sell_gate::{auto_sell, is_permitted};
pub use cap_enforcer::check;
pub use errors::HotwingsError;
pub use investor::{apply_unlock, lock_tokens, unlock_tokens, Investor};
pub use milestones::{Milestone, MilestoneTable};
pub use state::{initialize, AccountId, HotwingsState};
pub use tax_engine::{compute, TaxBreakdown, TaxDistribution};
pub use transfer::apply_transaction_tax;
