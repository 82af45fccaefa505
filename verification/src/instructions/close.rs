//! Closing a vault: only an empty one can go.

use vstd::prelude::*;
use crate::error::VaultError;
use crate::pubkey::Pubkey;
use crate::state::VaultState;

verus! {

/// Whether nothing is left in the vault: no shares, no valuation, and
/// nothing in custody.
pub open spec fn is_empty(vault: VaultState, custody_balance: u64) -> bool {
    vault.total_shares == 0 && vault.total_assets == 0 && custody_balance == 0
}

/// Decide whether the vault may be closed; only the owner may ask.
///
/// `custody_balance` is what the vault's custody holds. Where this returns
/// `Ok`, the caller tears the vault down; the ledger is not to be used after.
pub fn handler(vault: &VaultState, caller: Pubkey, custody_balance: u64) -> (result: Result<
    (),
    VaultError,
>)
    requires
        vault.wf(),
    ensures
        result == if caller != vault.owner {
            Err::<(), VaultError>(VaultError::Unauthorized)
        } else if !is_empty(*vault, custody_balance) {
            Err::<(), VaultError>(VaultError::VaultNotEmpty)
        } else {
            Ok::<(), VaultError>(())
        },
        caller == vault.owner && (vault.total_assets != 0 || vault.total_shares != 0) ==> result
            == Err::<(), VaultError>(VaultError::VaultNotEmpty),
{
    if caller != vault.owner {
        return Err(VaultError::Unauthorized);
    }
    if vault.total_shares != 0 {
        return Err(VaultError::VaultNotEmpty);
    }
    if vault.total_assets != 0 {
        return Err(VaultError::VaultNotEmpty);
    }
    if custody_balance != 0 {
        return Err(VaultError::VaultNotEmpty);
    }
    Ok(())
}

} // verus!
