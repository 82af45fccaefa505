//! Deposit: assets in, shares out.

use vstd::prelude::*;
use crate::error::VaultError;
use crate::events::Deposited;
use crate::pubkey::Pubkey;
use crate::state::VaultState;
use crate::utils::{calculate_shares_to_mint, shares_for_deposit};

verus! {

/// Shares a deposit of `amount` is owed at the vault's current ratio.
pub open spec fn deposit_shares(vault: VaultState, amount: u64) -> int {
    shares_for_deposit(amount as int, vault.total_assets as int, vault.total_shares as int)
}

/// The first reason to refuse a deposit of `amount`, in the order in which
/// the checks are made; `None` where the deposit goes through.
pub open spec fn deposit_refusal(vault: VaultState, amount: u64) -> Option<VaultError> {
    if vault.paused {
        Some(VaultError::VaultPaused)
    } else if amount == 0 {
        Some(VaultError::InvalidAmount)
    } else if amount < vault.min_deposit {
        Some(VaultError::BelowMinDeposit)
    } else if vault.deposit_cap > 0 && vault.total_assets + amount > u64::MAX {
        Some(VaultError::ArithmeticOverflow)
    } else if vault.deposit_cap > 0 && vault.total_assets + amount > vault.deposit_cap {
        Some(VaultError::DepositCapExceeded)
    } else if deposit_shares(vault, amount) > u64::MAX {
        Some(VaultError::ArithmeticOverflow)
    } else if deposit_shares(vault, amount) == 0 {
        Some(VaultError::InvalidAmount)
    } else if vault.total_assets + amount > u64::MAX {
        Some(VaultError::ArithmeticOverflow)
    } else if vault.total_shares + deposit_shares(vault, amount) > u64::MAX {
        Some(VaultError::ArithmeticOverflow)
    } else {
        None
    }
}

/// Take a deposit of `amount` from `user`.
///
/// On success the valuation grows by `amount`, the supply by the shares
/// minted, and the record says how many shares `user` is owed. The caller
/// moves the assets into custody and mints the shares.
pub fn handler(vault: &mut VaultState, vault_key: Pubkey, user: Pubkey, amount: u64) -> (result:
    Result<Deposited, VaultError>)
    requires
        old(vault).wf(),
    ensures
        final(vault).wf(),
        final(vault).high_water_mark == old(vault).high_water_mark,
        final(vault).accrued_management_fee <= old(vault).accrued_management_fee,
        match deposit_refusal(*old(vault), amount) {
            Some(e) => result == Err::<Deposited, VaultError>(e) && *final(vault) == *old(vault),
            None => {
                &&& result == Ok::<Deposited, VaultError>(
                    (Deposited {
                        vault: vault_key,
                        user,
                        amount,
                        shares_minted: deposit_shares(*old(vault), amount) as u64,
                    }),
                )
                &&& *final(vault) == (VaultState {
                    total_assets: (old(vault).total_assets + amount) as u64,
                    total_shares: (old(vault).total_shares + deposit_shares(
                        *old(vault),
                        amount,
                    )) as u64,
                    ..*old(vault)
                })
            },
        },
        old(vault).paused ==> result == Err::<Deposited, VaultError>(VaultError::VaultPaused),
        !old(vault).paused && amount == 0 ==> result == Err::<Deposited, VaultError>(
            VaultError::InvalidAmount,
        ),
        old(vault).total_assets == 0 || old(vault).total_shares == 0 ==> (result matches Ok(record)
            ==> record.shares_minted == amount),
{
    if vault.paused {
        return Err(VaultError::VaultPaused);
    }
    if amount == 0 {
        return Err(VaultError::InvalidAmount);
    }
    if amount < vault.min_deposit {
        return Err(VaultError::BelowMinDeposit);
    }
    if vault.deposit_cap > 0 {
        match vault.total_assets.checked_add(amount) {
            None => {
                return Err(VaultError::ArithmeticOverflow);
            },
            Some(new_total) => {
                if new_total > vault.deposit_cap {
                    return Err(VaultError::DepositCapExceeded);
                }
            },
        }
    }
    let shares_to_mint: u64 = match calculate_shares_to_mint(
        amount,
        vault.total_assets,
        vault.total_shares,
    ) {
        Ok(shares) => shares,
        Err(e) => {
            return Err(e);
        },
    };
    if shares_to_mint == 0 {
        return Err(VaultError::InvalidAmount);
    }
    let new_total_assets: u64 = match vault.total_assets.checked_add(amount) {
        Some(total) => total,
        None => {
            return Err(VaultError::ArithmeticOverflow);
        },
    };
    let new_total_shares: u64 = match vault.total_shares.checked_add(shares_to_mint) {
        Some(total) => total,
        None => {
            return Err(VaultError::ArithmeticOverflow);
        },
    };
    vault.total_assets = new_total_assets;
    vault.total_shares = new_total_shares;
    Ok(Deposited { vault: vault_key, user, amount, shares_minted: shares_to_mint })
}

} // verus!
