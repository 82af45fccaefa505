//! Fee collection: the accrued fee is paid to the owner in freshly minted
//! shares, which dilute every other holder by the fee's worth.

use vstd::prelude::*;
use crate::error::VaultError;
use crate::events::FeesCollected;
use crate::pubkey::Pubkey;
use crate::state::VaultState;
use crate::utils::{fee_amount_to_shares, fee_exceeds_assets, fee_to_shares};

verus! {

/// Shares that the accrued fee is worth.
pub open spec fn collected_shares(vault: VaultState) -> int {
    fee_to_shares(
        vault.accrued_management_fee as int,
        vault.total_assets as int,
        vault.total_shares as int,
    )
}

/// The first reason to refuse a collection, in the order in which the checks
/// are made; `None` where the collection goes through.
pub open spec fn collection_refusal(vault: VaultState, caller: Pubkey) -> Option<VaultError> {
    if caller != vault.owner {
        Some(VaultError::Unauthorized)
    } else if vault.accrued_management_fee == 0 {
        Some(VaultError::NoFeesToCollect)
    } else if fee_exceeds_assets(
        vault.accrued_management_fee as int,
        vault.total_assets as int,
        vault.total_shares as int,
    ) {
        Some(VaultError::ArithmeticOverflow)
    } else if collected_shares(vault) > u64::MAX {
        Some(VaultError::ArithmeticOverflow)
    } else if vault.total_shares + collected_shares(vault) > u64::MAX {
        Some(VaultError::ArithmeticOverflow)
    } else {
        None
    }
}

/// Collect the accrued fee; only the owner may.
///
/// On success the supply grows by the fee's worth in shares and the accrued
/// fee is cleared, also where the fee rounds down to no share at all: that
/// fee is forfeited. The caller mints the shares the record names, if any, to
/// the fee recipient.
pub fn handler(vault: &mut VaultState, vault_key: Pubkey, caller: Pubkey) -> (result: Result<
    FeesCollected,
    VaultError,
>)
    requires
        old(vault).wf(),
    ensures
        final(vault).wf(),
        final(vault).high_water_mark == old(vault).high_water_mark,
        final(vault).accrued_management_fee <= old(vault).accrued_management_fee,
        match collection_refusal(*old(vault), caller) {
            Some(e) => result == Err::<FeesCollected, VaultError>(e) && *final(vault) == *old(
                vault,
            ),
            None => {
                &&& result == Ok::<FeesCollected, VaultError>(
                    (FeesCollected {
                        vault: vault_key,
                        fee_shares_minted: collected_shares(*old(vault)) as u64,
                        fee_amount: old(vault).accrued_management_fee,
                    }),
                )
                &&& *final(vault) == (VaultState {
                    total_shares: (old(vault).total_shares + collected_shares(*old(vault))) as u64,
                    accrued_management_fee: 0,
                    ..*old(vault)
                })
            },
        },
        caller != old(vault).owner ==> result == Err::<FeesCollected, VaultError>(
            VaultError::Unauthorized,
        ),
        caller == old(vault).owner && old(vault).accrued_management_fee == 0 ==> result == Err::<
            FeesCollected,
            VaultError,
        >(VaultError::NoFeesToCollect),
        result is Ok ==> final(vault).accrued_management_fee == 0,
{
    if caller != vault.owner {
        return Err(VaultError::Unauthorized);
    }
    if vault.accrued_management_fee == 0 {
        return Err(VaultError::NoFeesToCollect);
    }
    let fee_amount: u64 = vault.accrued_management_fee;
    let fee_shares: u64 = match fee_amount_to_shares(
        fee_amount,
        vault.total_assets,
        vault.total_shares,
    ) {
        Ok(shares) => shares,
        Err(e) => {
            return Err(e);
        },
    };
    let new_total_shares: u64 = match vault.total_shares.checked_add(fee_shares) {
        Some(total) => total,
        None => {
            return Err(VaultError::ArithmeticOverflow);
        },
    };
    vault.total_shares = new_total_shares;
    vault.accrued_management_fee = 0;
    Ok(FeesCollected { vault: vault_key, fee_shares_minted: fee_shares, fee_amount })
}

} // verus!
