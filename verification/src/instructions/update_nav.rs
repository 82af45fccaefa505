//! Valuation update: a manager reports what the pool is worth, and fees
//! accrue on the report.

use vstd::prelude::*;
use crate::error::VaultError;
use crate::events::NavUpdated;
use crate::pubkey::Pubkey;
use crate::state::VaultState;
use crate::utils::{
    calculate_management_fee,
    calculate_performance_fee,
    management_fee,
    next_high_water_mark,
    performance_fee,
};

verus! {

/// Seconds between the last fee accrual and `now`; negative where the clock
/// ran backwards.
pub open spec fn elapsed_seconds(vault: VaultState, now: i64) -> int {
    now - vault.last_fee_collection
}

/// Management fee that accrues on the valuation held so far, for the time
/// since the last accrual.
pub open spec fn accrued_since(vault: VaultState, now: i64) -> int {
    management_fee(
        vault.total_assets as int,
        vault.management_fee_bps as int,
        elapsed_seconds(vault, now),
    )
}

/// Performance fee that the reported valuation is charged.
pub open spec fn charged_on(vault: VaultState, new_total_assets: u64) -> int {
    performance_fee(
        new_total_assets as int,
        vault.high_water_mark as int,
        vault.performance_fee_bps as int,
        vault.total_shares as int,
    )
}

/// The high-water mark once the reported valuation is taken.
pub open spec fn mark_after(vault: VaultState, new_total_assets: u64) -> int {
    next_high_water_mark(
        new_total_assets as int,
        vault.high_water_mark as int,
        vault.performance_fee_bps as int,
        vault.total_shares as int,
    )
}

/// The first reason to refuse a valuation update, in the order in which the
/// checks are made; `None` where the update goes through.
pub open spec fn update_refusal(
    vault: VaultState,
    authority: Pubkey,
    new_total_assets: u64,
    now: i64,
) -> Option<VaultError> {
    if !vault.has_authority(authority) {
        Some(VaultError::Unauthorized)
    } else if elapsed_seconds(vault, now) < i64::MIN || elapsed_seconds(vault, now) > i64::MAX {
        Some(VaultError::ArithmeticOverflow)
    } else if accrued_since(vault, now) > u64::MAX {
        Some(VaultError::ArithmeticOverflow)
    } else if vault.accrued_management_fee + accrued_since(vault, now) > u64::MAX {
        Some(VaultError::ArithmeticOverflow)
    } else if charged_on(vault, new_total_assets) > u64::MAX {
        Some(VaultError::ArithmeticOverflow)
    } else if vault.accrued_management_fee + accrued_since(vault, now) + charged_on(
        vault,
        new_total_assets,
    ) > u64::MAX {
        Some(VaultError::ArithmeticOverflow)
    } else {
        None
    }
}

/// The ledger after a valuation update was asked for: changed where the
/// update goes through, as it was where it is refused.
pub open spec fn ledger_after_update(
    vault: VaultState,
    authority: Pubkey,
    new_total_assets: u64,
    now: i64,
) -> VaultState {
    if update_refusal(vault, authority, new_total_assets, now) is Some {
        vault
    } else {
        VaultState {
            total_assets: new_total_assets,
            high_water_mark: mark_after(vault, new_total_assets) as u64,
            last_fee_collection: now,
            accrued_management_fee: (vault.accrued_management_fee + accrued_since(vault, now)
                + charged_on(vault, new_total_assets)) as u64,
            ..vault
        }
    }
}

/// One valuation report: who reports, the valuation reported, and when.
pub type Report = (Pubkey, u64, i64);

/// The ledger after a run of valuation updates was asked for, one after the
/// other, whether each of them went through or was refused.
pub open spec fn ledger_after_updates(vault: VaultState, reports: Seq<Report>) -> VaultState
    decreases reports.len(),
{
    if reports.len() == 0 {
        vault
    } else {
        let report = reports.last();
        ledger_after_update(
            ledger_after_updates(vault, reports.drop_last()),
            report.0,
            report.1,
            report.2,
        )
    }
}

/// A valuation update never lowers the high-water mark, whoever asks,
/// whatever is reported and whenever.
pub proof fn lemma_update_keeps_high_water_mark(
    vault: VaultState,
    authority: Pubkey,
    new_total_assets: u64,
    now: i64,
)
    ensures
        ledger_after_update(vault, authority, new_total_assets, now).high_water_mark
            >= vault.high_water_mark,
{
}

/// The high-water mark is non-decreasing across any run of valuation
/// updates: after more of the reports it stands at least as high as after
/// fewer of them, in whatever order and of whatever size the reports are.
pub proof fn lemma_high_water_mark_is_monotonic(
    vault: VaultState,
    reports: Seq<Report>,
    fewer: int,
    more: int,
)
    requires
        0 <= fewer <= more <= reports.len(),
    ensures
        ledger_after_updates(vault, reports.take(fewer)).high_water_mark <= ledger_after_updates(
            vault,
            reports.take(more),
        ).high_water_mark,
    decreases more - fewer,
{
    if fewer < more {
        let shorter = reports.take(more - 1);
        let longer = reports.take(more);
        assert(longer.drop_last() =~= shorter);
        lemma_high_water_mark_is_monotonic(vault, reports, fewer, more - 1);
        let report = longer.last();
        lemma_update_keeps_high_water_mark(
            ledger_after_updates(vault, shorter),
            report.0,
            report.1,
            report.2,
        );
    }
}

/// A run of valuation updates leaves a well-formed ledger well-formed.
pub proof fn lemma_updates_keep_well_formed(vault: VaultState, reports: Seq<Report>)
    requires
        vault.wf(),
    ensures
        ledger_after_updates(vault, reports).wf(),
    decreases reports.len(),
{
    if reports.len() > 0 {
        lemma_updates_keep_well_formed(vault, reports.drop_last());
    }
}

/// Take a new valuation from `authority` at time `now`.
///
/// Only the owner or a manager may report. The management fee for the time
/// since the last accrual, charged on the valuation held until now, and the
/// performance fee of the reported valuation are added to the accrued fee;
/// the high-water mark moves up to the reported valuation where that stands
/// above it; then the report becomes the valuation and `now` the time of the
/// last accrual.
pub fn handler(
    vault: &mut VaultState,
    vault_key: Pubkey,
    authority: Pubkey,
    new_total_assets: u64,
    now: i64,
) -> (result: Result<NavUpdated, VaultError>)
    requires
        old(vault).wf(),
    ensures
        final(vault).wf(),
        *final(vault) == ledger_after_update(*old(vault), authority, new_total_assets, now),
        match update_refusal(*old(vault), authority, new_total_assets, now) {
            Some(e) => result == Err::<NavUpdated, VaultError>(e),
            None => result == Ok::<NavUpdated, VaultError>(
                (NavUpdated {
                    vault: vault_key,
                    old_total_assets: old(vault).total_assets,
                    new_total_assets,
                    manager: authority,
                }),
            ),
        },
        !old(vault).has_authority(authority) ==> result == Err::<NavUpdated, VaultError>(
            VaultError::Unauthorized,
        ),
        final(vault).high_water_mark >= old(vault).high_water_mark,
        final(vault).accrued_management_fee >= old(vault).accrued_management_fee,
{
    if !vault.is_authority(&authority) {
        return Err(VaultError::Unauthorized);
    }
    let old_total_assets: u64 = vault.total_assets;
    let seconds_elapsed: i64 = match now.checked_sub(vault.last_fee_collection) {
        Some(elapsed) => elapsed,
        None => {
            return Err(VaultError::ArithmeticOverflow);
        },
    };
    let mgmt_fee: u64 = match calculate_management_fee(
        vault.total_assets,
        vault.management_fee_bps,
        seconds_elapsed,
    ) {
        Ok(fee) => fee,
        Err(e) => {
            return Err(e);
        },
    };
    let mut accrued: u64 = match vault.accrued_management_fee.checked_add(mgmt_fee) {
        Some(sum) => sum,
        None => {
            return Err(VaultError::ArithmeticOverflow);
        },
    };
    let (perf_fee, new_hwm): (u64, u64) = match calculate_performance_fee(
        new_total_assets,
        vault.high_water_mark,
        vault.performance_fee_bps,
        vault.total_shares,
    ) {
        Ok(pair) => pair,
        Err(e) => {
            return Err(e);
        },
    };
    if perf_fee > 0 {
        accrued = match accrued.checked_add(perf_fee) {
            Some(sum) => sum,
            None => {
                return Err(VaultError::ArithmeticOverflow);
            },
        };
    }
    vault.accrued_management_fee = accrued;
    vault.total_assets = new_total_assets;
    vault.high_water_mark = new_hwm;
    vault.last_fee_collection = now;
    Ok(NavUpdated { vault: vault_key, old_total_assets, new_total_assets, manager: authority })
}

} // verus!
