//! Creating a vault, in two steps: first the ledger, then the custody and
//! the share issuer that belong to it.

use vstd::prelude::*;
use crate::constants::{MAX_FEE_BPS, MAX_MANAGERS};
use crate::error::VaultError;
use crate::events::VaultInitialized;
use crate::pubkey::Pubkey;
use crate::state::VaultState;

verus! {

/// The configuration a vault is created with.
#[derive(Clone, Copy, Debug, PartialEq, Eq)]
pub struct InitializeVaultParams {
    pub deposit_cap: u64,
    pub min_deposit: u64,
    pub management_fee_bps: u16,
    pub performance_fee_bps: u16,
}

/// Whether a ledger is the one that `handle_create_vault` makes from these
/// inputs: the given owner, asset and configuration, nothing deposited,
/// nothing accrued, no manager, not paused, fees counted from `now`.
pub open spec fn is_fresh_vault(
    vault: VaultState,
    owner: Pubkey,
    mint: Pubkey,
    params: InitializeVaultParams,
    now: i64,
    bump: u8,
) -> bool {
    &&& vault.owner == owner
    &&& vault.mint == mint
    &&& vault.total_assets == 0
    &&& vault.total_shares == 0
    &&& vault.deposit_cap == params.deposit_cap
    &&& vault.min_deposit == params.min_deposit
    &&& vault.management_fee_bps == params.management_fee_bps
    &&& vault.performance_fee_bps == params.performance_fee_bps
    &&& vault.high_water_mark == 0
    &&& vault.last_fee_collection == now
    &&& vault.accrued_management_fee == 0
    &&& forall|i: int| 0 <= i < MAX_MANAGERS ==> (#[trigger] vault.managers[i]).is_default()
    &&& vault.manager_count == 0
    &&& !vault.paused
    &&& vault.bump == bump
    &&& vault.share_mint_bump == 0
    &&& vault.token_account_bump == 0
}

/// Create the ledger of a new vault.
///
/// Refused with `InvalidFeeConfig` where a fee rate exceeds `MAX_FEE_BPS`.
pub fn handle_create_vault(
    owner: Pubkey,
    mint: Pubkey,
    params: InitializeVaultParams,
    now: i64,
    bump: u8,
) -> (result: Result<VaultState, VaultError>)
    ensures
        params.management_fee_bps > MAX_FEE_BPS || params.performance_fee_bps > MAX_FEE_BPS
            ==> result == Err::<VaultState, VaultError>(VaultError::InvalidFeeConfig),
        params.management_fee_bps <= MAX_FEE_BPS && params.performance_fee_bps <= MAX_FEE_BPS ==> (
        result matches Ok(vault) && is_fresh_vault(vault, owner, mint, params, now, bump)
            && vault.wf() && vault.manager_set() == Set::<Pubkey>::empty()),
{
    if params.management_fee_bps > MAX_FEE_BPS {
        return Err(VaultError::InvalidFeeConfig);
    }
    if params.performance_fee_bps > MAX_FEE_BPS {
        return Err(VaultError::InvalidFeeConfig);
    }
    let vault = VaultState {
        owner,
        mint,
        total_assets: 0,
        total_shares: 0,
        deposit_cap: params.deposit_cap,
        min_deposit: params.min_deposit,
        management_fee_bps: params.management_fee_bps,
        performance_fee_bps: params.performance_fee_bps,
        high_water_mark: 0,
        last_fee_collection: now,
        accrued_management_fee: 0,
        managers: [Pubkey::default();MAX_MANAGERS],
        manager_count: 0,
        paused: false,
        bump,
        share_mint_bump: 0,
        token_account_bump: 0,
    };
    assert(vault.manager_set() =~= Set::<Pubkey>::empty());
    Ok(vault)
}

/// Record the custody and the share issuer of a vault that was just created;
/// only the owner may.
pub fn handle_init_vault_accounts(
    vault: &mut VaultState,
    vault_key: Pubkey,
    caller: Pubkey,
    share_mint_bump: u8,
    token_account_bump: u8,
) -> (result: Result<VaultInitialized, VaultError>)
    requires
        old(vault).wf(),
    ensures
        final(vault).wf(),
        final(vault).high_water_mark == old(vault).high_water_mark,
        final(vault).accrued_management_fee <= old(vault).accrued_management_fee,
        caller != old(vault).owner ==> result == Err::<VaultInitialized, VaultError>(
            VaultError::Unauthorized,
        ) && *final(vault) == *old(vault),
        caller == old(vault).owner ==> {
            &&& result == Ok::<VaultInitialized, VaultError>(
                (VaultInitialized {
                    vault: vault_key,
                    mint: old(vault).mint,
                    owner: old(vault).owner,
                    deposit_cap: old(vault).deposit_cap,
                    management_fee_bps: old(vault).management_fee_bps,
                    performance_fee_bps: old(vault).performance_fee_bps,
                }),
            )
            &&& *final(vault) == (VaultState { share_mint_bump, token_account_bump, ..*old(vault) })
        },
{
    if caller != vault.owner {
        return Err(VaultError::Unauthorized);
    }
    vault.share_mint_bump = share_mint_bump;
    vault.token_account_bump = token_account_bump;
    Ok(
        VaultInitialized {
            vault: vault_key,
            mint: vault.mint,
            owner: vault.owner,
            deposit_cap: vault.deposit_cap,
            management_fee_bps: vault.management_fee_bps,
            performance_fee_bps: vault.performance_fee_bps,
        },
    )
}

} // verus!
