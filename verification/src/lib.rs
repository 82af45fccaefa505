//! Accounting core of a pooled-asset yield vault.
//!
//! Depositors hand over an underlying asset and receive shares, managers
//! report the pool's valuation, and the owner accrues fees on it. This crate
//! holds the arithmetic, the authorization rules and the ledger transitions;
//! custody, issuance, storage and clocks are the caller's business and reach
//! the ledger only as plain values.

pub mod constants;
pub mod error;
pub mod events;
pub mod instructions;
pub mod pubkey;
pub mod state;
pub mod utils;
pub mod yield_vault;
