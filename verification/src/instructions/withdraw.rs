//! Withdraw: shares in, assets out.

use vstd::prelude::*;
use crate::error::VaultError;
use crate::events::Withdrawn;
use crate::pubkey::Pubkey;
use crate::state::VaultState;
use crate::utils::{assets_for_shares, calculate_assets_to_return};

verus! {

/// Assets that `shares` redeem at the vault's current ratio.
pub open spec fn withdrawal_assets(vault: VaultState, shares: u64) -> int {
    assets_for_shares(shares as int, vault.total_assets as int, vault.total_shares as int)
}

/// The first reason to refuse a withdrawal of `shares`, in the order in
/// which the checks are made; `None` where the withdrawal goes through.
///
/// `shares_held` is what the holder owns, `liquid_assets` what the vault's
/// custody can pay out at this moment.
pub open spec fn withdrawal_refusal(
    vault: VaultState,
    shares_held: u64,
    liquid_assets: u64,
    shares: u64,
) -> Option<VaultError> {
    if vault.paused {
        Some(VaultError::VaultPaused)
    } else if shares == 0 {
        Some(VaultError::InvalidAmount)
    } else if shares_held < shares {
        Some(VaultError::InsufficientShares)
    } else if withdrawal_assets(vault, shares) > u64::MAX {
        Some(VaultError::ArithmeticOverflow)
    } else if withdrawal_assets(vault, shares) == 0 {
        Some(VaultError::InvalidAmount)
    } else if liquid_assets < withdrawal_assets(vault, shares) {
        Some(VaultError::InsufficientAssets)
    } else if vault.total_assets < withdrawal_assets(vault, shares) {
        Some(VaultError::ArithmeticOverflow)
    } else if vault.total_shares < shares {
        Some(VaultError::ArithmeticOverflow)
    } else {
        None
    }
}

/// Redeem `shares` of `user`, who holds `shares_held`, against a custody
/// that holds `liquid_assets`.
///
/// On success the supply shrinks by `shares`, the valuation by the assets
/// paid, and the record says how much `user` is owed. The caller burns the
/// shares first and pays the assets out after.
pub fn handler(
    vault: &mut VaultState,
    vault_key: Pubkey,
    user: Pubkey,
    shares_held: u64,
    liquid_assets: u64,
    shares: u64,
) -> (result: Result<Withdrawn, VaultError>)
    requires
        old(vault).wf(),
    ensures
        final(vault).wf(),
        final(vault).high_water_mark == old(vault).high_water_mark,
        final(vault).accrued_management_fee <= old(vault).accrued_management_fee,
        match withdrawal_refusal(*old(vault), shares_held, liquid_assets, shares) {
            Some(e) => result == Err::<Withdrawn, VaultError>(e) && *final(vault) == *old(vault),
            None => {
                &&& result == Ok::<Withdrawn, VaultError>(
                    (Withdrawn {
                        vault: vault_key,
                        user,
                        shares_burned: shares,
                        amount_returned: withdrawal_assets(*old(vault), shares) as u64,
                    }),
                )
                &&& *final(vault) == (VaultState {
                    total_assets: (old(vault).total_assets - withdrawal_assets(
                        *old(vault),
                        shares,
                    )) as u64,
                    total_shares: (old(vault).total_shares - shares) as u64,
                    ..*old(vault)
                })
            },
        },
        old(vault).paused ==> result == Err::<Withdrawn, VaultError>(VaultError::VaultPaused),
        !old(vault).paused && shares > 0 && shares > shares_held ==> result == Err::<
            Withdrawn,
            VaultError,
        >(VaultError::InsufficientShares),
        old(vault).total_shares == 0 ==> result is Err,
{
    if vault.paused {
        return Err(VaultError::VaultPaused);
    }
    if shares == 0 {
        return Err(VaultError::InvalidAmount);
    }
    if shares_held < shares {
        return Err(VaultError::InsufficientShares);
    }
    let assets_to_return: u64 = match calculate_assets_to_return(
        shares,
        vault.total_assets,
        vault.total_shares,
    ) {
        Ok(assets) => assets,
        Err(e) => {
            return Err(e);
        },
    };
    if assets_to_return == 0 {
        return Err(VaultError::InvalidAmount);
    }
    if liquid_assets < assets_to_return {
        return Err(VaultError::InsufficientAssets);
    }
    let new_total_assets: u64 = match vault.total_assets.checked_sub(assets_to_return) {
        Some(total) => total,
        None => {
            return Err(VaultError::ArithmeticOverflow);
        },
    };
    let new_total_shares: u64 = match vault.total_shares.checked_sub(shares) {
        Some(total) => total,
        None => {
            return Err(VaultError::ArithmeticOverflow);
        },
    };
    vault.total_assets = new_total_assets;
    vault.total_shares = new_total_shares;
    Ok(Withdrawn { vault: vault_key, user, shares_burned: shares, amount_returned: assets_to_return })
}

} // verus!
