//! What only the owner may do: pause, configure, and name managers.

use vstd::prelude::*;
use crate::constants::{MAX_FEE_BPS, MAX_MANAGERS};
use crate::error::VaultError;
use crate::events::{
    ConfigUpdated,
    ManagerAdded,
    ManagerRemoved,
    VaultPausedEvent,
    VaultUnpausedEvent,
};
use crate::pubkey::Pubkey;
use crate::state::{swap_removed, VaultState};

verus! {

/// The limits and fee rates that replace a vault's configuration.
#[derive(Clone, Copy, Debug, PartialEq, Eq)]
pub struct UpdateConfigParams {
    pub deposit_cap: u64,
    pub min_deposit: u64,
    pub management_fee_bps: u16,
    pub performance_fee_bps: u16,
}

/// Disable deposits and withdrawals; only the owner may. No balance changes.
pub fn handle_pause(vault: &mut VaultState, vault_key: Pubkey, caller: Pubkey) -> (result: Result<
    VaultPausedEvent,
    VaultError,
>)
    requires
        old(vault).wf(),
    ensures
        final(vault).wf(),
        final(vault).high_water_mark == old(vault).high_water_mark,
        final(vault).accrued_management_fee <= old(vault).accrued_management_fee,
        caller != old(vault).owner ==> result == Err::<VaultPausedEvent, VaultError>(
            VaultError::Unauthorized,
        ) && *final(vault) == *old(vault),
        caller == old(vault).owner ==> result == Ok::<VaultPausedEvent, VaultError>(
            (VaultPausedEvent { vault: vault_key }),
        ) && *final(vault) == (VaultState { paused: true, ..*old(vault) }),
{
    if caller != vault.owner {
        return Err(VaultError::Unauthorized);
    }
    vault.paused = true;
    Ok(VaultPausedEvent { vault: vault_key })
}

/// Enable deposits and withdrawals again; only the owner may. No balance
/// changes.
pub fn handle_unpause(vault: &mut VaultState, vault_key: Pubkey, caller: Pubkey) -> (result: Result<
    VaultUnpausedEvent,
    VaultError,
>)
    requires
        old(vault).wf(),
    ensures
        final(vault).wf(),
        final(vault).high_water_mark == old(vault).high_water_mark,
        final(vault).accrued_management_fee <= old(vault).accrued_management_fee,
        caller != old(vault).owner ==> result == Err::<VaultUnpausedEvent, VaultError>(
            VaultError::Unauthorized,
        ) && *final(vault) == *old(vault),
        caller == old(vault).owner ==> result == Ok::<VaultUnpausedEvent, VaultError>(
            (VaultUnpausedEvent { vault: vault_key }),
        ) && *final(vault) == (VaultState { paused: false, ..*old(vault) }),
{
    if caller != vault.owner {
        return Err(VaultError::Unauthorized);
    }
    vault.paused = false;
    Ok(VaultUnpausedEvent { vault: vault_key })
}

/// The first reason to refuse a new configuration; `None` where it is taken.
pub open spec fn config_refusal(
    vault: VaultState,
    caller: Pubkey,
    params: UpdateConfigParams,
) -> Option<VaultError> {
    if caller != vault.owner {
        Some(VaultError::Unauthorized)
    } else if params.management_fee_bps > MAX_FEE_BPS || params.performance_fee_bps > MAX_FEE_BPS {
        Some(VaultError::InvalidFeeConfig)
    } else {
        None
    }
}

/// Replace the deposit cap, the minimum deposit and both fee rates at once;
/// only the owner may, and only with fee rates within `MAX_FEE_BPS`.
pub fn handle_update_config(
    vault: &mut VaultState,
    vault_key: Pubkey,
    caller: Pubkey,
    params: UpdateConfigParams,
) -> (result: Result<ConfigUpdated, VaultError>)
    requires
        old(vault).wf(),
    ensures
        final(vault).wf(),
        final(vault).high_water_mark == old(vault).high_water_mark,
        final(vault).accrued_management_fee <= old(vault).accrued_management_fee,
        match config_refusal(*old(vault), caller, params) {
            Some(e) => result == Err::<ConfigUpdated, VaultError>(e) && *final(vault) == *old(
                vault,
            ),
            None => {
                &&& result == Ok::<ConfigUpdated, VaultError>(
                    (ConfigUpdated {
                        vault: vault_key,
                        deposit_cap: params.deposit_cap,
                        min_deposit: params.min_deposit,
                        management_fee_bps: params.management_fee_bps,
                        performance_fee_bps: params.performance_fee_bps,
                    }),
                )
                &&& *final(vault) == (VaultState {
                    deposit_cap: params.deposit_cap,
                    min_deposit: params.min_deposit,
                    management_fee_bps: params.management_fee_bps,
                    performance_fee_bps: params.performance_fee_bps,
                    ..*old(vault)
                })
            },
        },
{
    if caller != vault.owner {
        return Err(VaultError::Unauthorized);
    }
    if params.management_fee_bps > MAX_FEE_BPS {
        return Err(VaultError::InvalidFeeConfig);
    }
    if params.performance_fee_bps > MAX_FEE_BPS {
        return Err(VaultError::InvalidFeeConfig);
    }
    vault.deposit_cap = params.deposit_cap;
    vault.min_deposit = params.min_deposit;
    vault.management_fee_bps = params.management_fee_bps;
    vault.performance_fee_bps = params.performance_fee_bps;
    Ok(
        ConfigUpdated {
            vault: vault_key,
            deposit_cap: params.deposit_cap,
            min_deposit: params.min_deposit,
            management_fee_bps: params.management_fee_bps,
            performance_fee_bps: params.performance_fee_bps,
        },
    )
}

/// The first reason to refuse a new manager; `None` where the key takes
/// office.
pub open spec fn add_manager_refusal(
    vault: VaultState,
    caller: Pubkey,
    manager: Pubkey,
) -> Option<VaultError> {
    if caller != vault.owner {
        Some(VaultError::Unauthorized)
    } else if vault.manager_count == MAX_MANAGERS {
        Some(VaultError::MaxManagersReached)
    } else if vault.manager_set().contains(manager) {
        Some(VaultError::ManagerAlreadyExists)
    } else {
        None
    }
}

/// Put `manager` in office; only the owner may.
pub fn handle_add_manager(
    vault: &mut VaultState,
    vault_key: Pubkey,
    caller: Pubkey,
    manager: Pubkey,
) -> (result: Result<ManagerAdded, VaultError>)
    requires
        old(vault).wf(),
    ensures
        final(vault).wf(),
        final(vault).high_water_mark == old(vault).high_water_mark,
        final(vault).accrued_management_fee <= old(vault).accrued_management_fee,
        match add_manager_refusal(*old(vault), caller, manager) {
            Some(e) => result == Err::<ManagerAdded, VaultError>(e) && *final(vault) == *old(
                vault,
            ),
            None => {
                &&& result == Ok::<ManagerAdded, VaultError>(
                    (ManagerAdded { vault: vault_key, manager }),
                )
                &&& *final(vault) == (VaultState {
                    managers: final(vault).managers,
                    manager_count: (old(vault).manager_count + 1) as u8,
                    ..*old(vault)
                })
                &&& final(vault).managers@ == old(vault).managers@.update(
                    old(vault).manager_count as int,
                    manager,
                )
                &&& final(vault).manager_set() == old(vault).manager_set().insert(manager)
            },
        },
{
    if caller != vault.owner {
        return Err(VaultError::Unauthorized);
    }
    match vault.add_manager(manager) {
        Ok(()) => Ok(ManagerAdded { vault: vault_key, manager }),
        Err(e) => Err(e),
    }
}

/// The first reason to refuse a manager's removal; `None` where the key
/// leaves office.
pub open spec fn remove_manager_refusal(
    vault: VaultState,
    caller: Pubkey,
    manager: Pubkey,
) -> Option<VaultError> {
    if caller != vault.owner {
        Some(VaultError::Unauthorized)
    } else if !vault.manager_set().contains(manager) {
        Some(VaultError::ManagerNotFound)
    } else {
        None
    }
}

/// Take `manager` out of office; only the owner may.
pub fn handle_remove_manager(
    vault: &mut VaultState,
    vault_key: Pubkey,
    caller: Pubkey,
    manager: Pubkey,
) -> (result: Result<ManagerRemoved, VaultError>)
    requires
        old(vault).wf(),
    ensures
        final(vault).wf(),
        final(vault).high_water_mark == old(vault).high_water_mark,
        final(vault).accrued_management_fee <= old(vault).accrued_management_fee,
        match remove_manager_refusal(*old(vault), caller, manager) {
            Some(e) => result == Err::<ManagerRemoved, VaultError>(e) && *final(vault) == *old(
                vault,
            ),
            None => {
                &&& result == Ok::<ManagerRemoved, VaultError>(
                    (ManagerRemoved { vault: vault_key, manager }),
                )
                &&& *final(vault) == (VaultState {
                    managers: final(vault).managers,
                    manager_count: (old(vault).manager_count - 1) as u8,
                    ..*old(vault)
                })
                &&& forall|slot: int|
                    0 <= slot < old(vault).manager_count && #[trigger] old(vault).managers[slot]
                        == manager ==> swap_removed(
                        old(vault).managers,
                        final(vault).managers,
                        slot,
                        old(vault).manager_count - 1,
                    )
                &&& final(vault).manager_set() == old(vault).manager_set().remove(manager)
            },
        },
{
    if caller != vault.owner {
        return Err(VaultError::Unauthorized);
    }
    match vault.remove_manager(manager) {
        Ok(()) => Ok(ManagerRemoved { vault: vault_key, manager }),
        Err(e) => Err(e),
    }
}

} // verus!
