//! The ledger's operations, one module each.
//!
//! Every operation takes the ledger and the caller's intent as plain values,
//! checks it, and either commits the whole change and returns the record to
//! publish, or refuses and leaves the ledger untouched. Moving assets and
//! minting or burning shares is left to the caller, who does so around the
//! call and with the quantities the record carries.

pub mod admin;
pub mod close;
pub mod collect_fees;
pub mod deposit;
pub mod initialize;
pub mod update_nav;
pub mod withdraw;
