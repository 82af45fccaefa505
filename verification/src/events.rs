//! Records of what an operation did, for whoever publishes them.
//!
//! Each successful operation hands back exactly one of these. The `vault`
//! field is the address under which the ledger is stored; the ledger itself
//! does not know it and is told by the caller.

use vstd::prelude::*;
use crate::pubkey::Pubkey;

verus! {

/// A vault was created and its custody and share issuer were set up.
#[derive(Clone, Copy, Debug, PartialEq, Eq)]
pub struct VaultInitialized {
    pub vault: Pubkey,
    pub mint: Pubkey,
    pub owner: Pubkey,
    pub deposit_cap: u64,
    pub management_fee_bps: u16,
    pub performance_fee_bps: u16,
}

/// Assets came in and shares were minted for them.
#[derive(Clone, Copy, Debug, PartialEq, Eq)]
pub struct Deposited {
    pub vault: Pubkey,
    pub user: Pubkey,
    pub amount: u64,
    pub shares_minted: u64,
}

/// Shares were burned and assets paid out for them.
#[derive(Clone, Copy, Debug, PartialEq, Eq)]
pub struct Withdrawn {
    pub vault: Pubkey,
    pub user: Pubkey,
    pub shares_burned: u64,
    pub amount_returned: u64,
}

/// The valuation was reported anew.
#[derive(Clone, Copy, Debug, PartialEq, Eq)]
pub struct NavUpdated {
    pub vault: Pubkey,
    pub old_total_assets: u64,
    pub new_total_assets: u64,
    pub manager: Pubkey,
}

/// Accrued fees were turned into shares.
#[derive(Clone, Copy, Debug, PartialEq, Eq)]
pub struct FeesCollected {
    pub vault: Pubkey,
    pub fee_shares_minted: u64,
    pub fee_amount: u64,
}

/// Deposits and withdrawals were disabled.
#[derive(Clone, Copy, Debug, PartialEq, Eq)]
pub struct VaultPausedEvent {
    pub vault: Pubkey,
}

/// Deposits and withdrawals were enabled again.
#[derive(Clone, Copy, Debug, PartialEq, Eq)]
pub struct VaultUnpausedEvent {
    pub vault: Pubkey,
}

/// A manager took office.
#[derive(Clone, Copy, Debug, PartialEq, Eq)]
pub struct ManagerAdded {
    pub vault: Pubkey,
    pub manager: Pubkey,
}

/// A manager left office.
#[derive(Clone, Copy, Debug, PartialEq, Eq)]
pub struct ManagerRemoved {
    pub vault: Pubkey,
    pub manager: Pubkey,
}

/// The limits and fee rates were replaced.
#[derive(Clone, Copy, Debug, PartialEq, Eq)]
pub struct ConfigUpdated {
    pub vault: Pubkey,
    pub deposit_cap: u64,
    pub min_deposit: u64,
    pub management_fee_bps: u16,
    pub performance_fee_bps: u16,
}

} // verus!
