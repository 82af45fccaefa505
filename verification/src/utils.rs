//! Share conversion and fee accrual arithmetic.
//!
//! Every quantity is stated first as an unbounded integer; the executable
//! functions compute it in 128 bits and return it when it fits in 64.

use vstd::prelude::*;
use vstd::arithmetic::div_mod::{
    lemma_div_is_ordered,
    lemma_div_multiples_vanish,
    lemma_div_pos_is_pos,
    lemma_fundamental_div_mod,
    lemma_mod_bound,
};
use crate::constants::{ANNUAL_RATE_DENOMINATOR, BPS_DENOMINATOR};
use crate::error::VaultError;

verus! {

/// A quantity as a ledger amount: itself where it fits in 64 bits, an
/// arithmetic overflow where it does not.
pub open spec fn to_amount(value: int) -> Result<u64, VaultError> {
    if 0 <= value <= u64::MAX {
        Ok(value as u64)
    } else {
        Err(VaultError::ArithmeticOverflow)
    }
}

/// Shares owed for a deposit: one per unit while the pool has no shares or no
/// valuation, the deposit's pro-rata part of the supply, rounded down, after.
pub open spec fn shares_for_deposit(deposit_amount: int, total_assets: int, total_shares: int) -> int {
    if total_shares == 0 || total_assets == 0 {
        deposit_amount
    } else {
        (deposit_amount * total_shares) / total_assets
    }
}

/// Assets owed for burning shares: nothing while no shares are outstanding,
/// the shares' pro-rata part of the valuation, rounded down, otherwise.
pub open spec fn assets_for_shares(shares_to_burn: int, total_assets: int, total_shares: int) -> int {
    if total_shares == 0 {
        0
    } else {
        (shares_to_burn * total_assets) / total_shares
    }
}

/// Management fee accrued on a valuation over a span of seconds: the annual
/// rate in basis points, pro rata to the part of a 365-day year that has
/// passed, rounded down. A span that is not positive accrues nothing.
pub open spec fn management_fee(total_assets: int, fee_bps: int, seconds_elapsed: int) -> int {
    if fee_bps == 0 || seconds_elapsed <= 0 || total_assets == 0 {
        0
    } else {
        (total_assets * fee_bps * seconds_elapsed) / (ANNUAL_RATE_DENOMINATOR as int)
    }
}

/// Whether a valuation is charged a performance fee: the rate is not zero,
/// shares are outstanding, and the valuation stands above the mark.
pub open spec fn crosses_high_water_mark(
    total_assets: int,
    high_water_mark: int,
    fee_bps: int,
    total_shares: int,
) -> bool {
    fee_bps != 0 && total_shares != 0 && total_assets > high_water_mark
}

/// Performance fee on a valuation: the rate applied to the gain above the
/// high-water mark, rounded down; nothing at or below the mark.
pub open spec fn performance_fee(
    total_assets: int,
    high_water_mark: int,
    fee_bps: int,
    total_shares: int,
) -> int {
    if crosses_high_water_mark(total_assets, high_water_mark, fee_bps, total_shares) {
        ((total_assets - high_water_mark) * fee_bps) / (BPS_DENOMINATOR as int)
    } else {
        0
    }
}

/// The high-water mark after a valuation: the valuation where it is charged,
/// the old mark where it is not.
pub open spec fn next_high_water_mark(
    total_assets: int,
    high_water_mark: int,
    fee_bps: int,
    total_shares: int,
) -> int {
    if crosses_high_water_mark(total_assets, high_water_mark, fee_bps, total_shares) {
        total_assets
    } else {
        high_water_mark
    }
}

/// Whether a fee can be priced in shares at all: a fee above the valuation
/// cannot, unless there is no fee or no share to dilute.
pub open spec fn fee_exceeds_assets(fee_amount: int, total_assets: int, total_shares: int) -> bool {
    fee_amount != 0 && total_shares != 0 && total_assets < fee_amount
}

/// Shares that hand a fee to its recipient by dilution: the fee's part of the
/// supply measured against the valuation that is left after the fee, rounded
/// down. Nothing where there is no fee, no share, or nothing left after the fee.
pub open spec fn fee_to_shares(fee_amount: int, total_assets: int, total_shares: int) -> int {
    if fee_amount == 0 || total_shares == 0 || total_assets <= fee_amount {
        0
    } else {
        (fee_amount * total_shares) / (total_assets - fee_amount)
    }
}

/// The product of two 64-bit quantities fits in 128 bits.
proof fn lemma_product_fits(a: u64, b: u64)
    ensures
        0 <= a * b <= u128::MAX,
{
    assert(0 <= a * b <= 0xffff_ffff_ffff_ffff * 0xffff_ffff_ffff_ffff) by (nonlinear_arith)
        requires
            0 <= a <= 0xffff_ffff_ffff_ffff,
            0 <= b <= 0xffff_ffff_ffff_ffff,
    ;
}

/// A 64-bit quantity times a 16-bit rate fits in 128 bits.
proof fn lemma_rate_product_fits(a: u64, rate: u16)
    ensures
        0 <= a * rate <= 0xffff_ffff_ffff_ffff * 0xffff,
{
    assert(0 <= a * rate <= 0xffff_ffff_ffff_ffff * 0xffff) by (nonlinear_arith)
        requires
            0 <= a <= 0xffff_ffff_ffff_ffff,
            0 <= rate <= 0xffff,
    ;
}

/// Calculate shares to mint for a given deposit amount.
///
/// The first depositor gets one share per unit. Later depositors get
/// `deposit_amount * total_shares / total_assets`, rounded down. The call
/// fails only where that quotient does not fit in 64 bits.
pub fn calculate_shares_to_mint(deposit_amount: u64, total_assets: u64, total_shares: u64) -> (result:
    Result<u64, VaultError>)
    ensures
        result == to_amount(
            shares_for_deposit(deposit_amount as int, total_assets as int, total_shares as int),
        ),
        total_shares == 0 || total_assets == 0 ==> result == Ok::<u64, VaultError>(deposit_amount),
{
    if total_shares == 0 || total_assets == 0 {
        return Ok(deposit_amount);
    }
    proof {
        lemma_product_fits(deposit_amount, total_shares);
    }
    let shares: u128 = (deposit_amount as u128) * (total_shares as u128) / (total_assets as u128);
    if shares > u64::MAX as u128 {
        Err(VaultError::ArithmeticOverflow)
    } else {
        Ok(shares as u64)
    }
}

/// Calculate assets to return for a given number of shares burned.
///
/// Nothing is redeemable while no shares are outstanding. Otherwise the
/// holder gets `shares_to_burn * total_assets / total_shares`, rounded down.
/// The call fails only where that quotient does not fit in 64 bits.
pub fn calculate_assets_to_return(shares_to_burn: u64, total_assets: u64, total_shares: u64) -> (result:
    Result<u64, VaultError>)
    ensures
        result == to_amount(
            assets_for_shares(shares_to_burn as int, total_assets as int, total_shares as int),
        ),
        total_shares == 0 ==> result == Ok::<u64, VaultError>(0),
{
    if total_shares == 0 {
        return Ok(0);
    }
    proof {
        lemma_product_fits(shares_to_burn, total_assets);
    }
    let assets: u128 = (shares_to_burn as u128) * (total_assets as u128) / (total_shares as u128);
    if assets > u64::MAX as u128 {
        Err(VaultError::ArithmeticOverflow)
    } else {
        Ok(assets as u64)
    }
}

/// Calculate the time-weighted management fee.
///
/// The fee is `total_assets * fee_bps * seconds_elapsed` over
/// `ANNUAL_RATE_DENOMINATOR`, rounded down, and nothing where the valuation,
/// the rate or the elapsed time is not positive. The call fails only where
/// the fee does not fit in 64 bits.
pub fn calculate_management_fee(total_assets: u64, fee_bps: u16, seconds_elapsed: i64) -> (result:
    Result<u64, VaultError>)
    ensures
        result == to_amount(
            management_fee(total_assets as int, fee_bps as int, seconds_elapsed as int),
        ),
        total_assets == 0 || fee_bps == 0 || seconds_elapsed <= 0 ==> result == Ok::<
            u64,
            VaultError,
        >(0),
{
    if fee_bps == 0 || seconds_elapsed <= 0 || total_assets == 0 {
        return Ok(0);
    }
    proof {
        lemma_rate_product_fits(total_assets, fee_bps);
    }
    let annual: u128 = (total_assets as u128) * (fee_bps as u128);
    match annual.checked_mul(seconds_elapsed as u128) {
        None => Err(VaultError::ArithmeticOverflow),
        Some(weighted) => {
            let fee: u128 = weighted / ANNUAL_RATE_DENOMINATOR;
            if fee > u64::MAX as u128 {
                Err(VaultError::ArithmeticOverflow)
            } else {
                Ok(fee as u64)
            }
        },
    }
}

/// Calculate the performance fee on gains above the high-water mark.
///
/// Returns the fee in asset units and the new high-water mark. At or below
/// the mark, with a zero rate or without shares, no fee is owed and the mark
/// stays. Above it the fee is the rate applied to the gain, rounded down, and
/// the mark moves to the valuation. The call fails only where the fee does
/// not fit in 64 bits.
pub fn calculate_performance_fee(
    total_assets: u64,
    high_water_mark: u64,
    fee_bps: u16,
    total_shares: u64,
) -> (result: Result<(u64, u64), VaultError>)
    ensures
        result == match to_amount(
            performance_fee(
                total_assets as int,
                high_water_mark as int,
                fee_bps as int,
                total_shares as int,
            ),
        ) {
            Ok(fee) => Ok(
                (
                    fee,
                    next_high_water_mark(
                        total_assets as int,
                        high_water_mark as int,
                        fee_bps as int,
                        total_shares as int,
                    ) as u64,
                ),
            ),
            Err(e) => Err(e),
        },
        fee_bps == 0 || total_shares == 0 || total_assets <= high_water_mark ==> result == Ok::<
            (u64, u64),
            VaultError,
        >((0, high_water_mark)),
        result matches Ok((_, mark)) ==> mark >= high_water_mark,
{
    if fee_bps == 0 || total_shares == 0 || total_assets <= high_water_mark {
        return Ok((0, high_water_mark));
    }
    let profit: u64 = total_assets - high_water_mark;
    proof {
        lemma_rate_product_fits(profit, fee_bps);
    }
    let fee: u128 = (profit as u128) * (fee_bps as u128) / BPS_DENOMINATOR;
    if fee > u64::MAX as u128 {
        Err(VaultError::ArithmeticOverflow)
    } else {
        Ok((fee as u64, total_assets))
    }
}

/// Convert a fee amount (in asset units) to the number of shares to mint.
///
/// The shares are `fee_amount * total_shares / (total_assets - fee_amount)`,
/// rounded down: measured against the valuation left after the fee, so that
/// the minted shares are worth the fee once they dilute the supply. Nothing
/// is minted for no fee, for no outstanding shares, or where the fee equals
/// the valuation. The call fails where the fee exceeds the valuation or the
/// shares do not fit in 64 bits.
pub fn fee_amount_to_shares(fee_amount: u64, total_assets: u64, total_shares: u64) -> (result:
    Result<u64, VaultError>)
    ensures
        result == if fee_exceeds_assets(
            fee_amount as int,
            total_assets as int,
            total_shares as int,
        ) {
            Err(VaultError::ArithmeticOverflow)
        } else {
            to_amount(fee_to_shares(fee_amount as int, total_assets as int, total_shares as int))
        },
        fee_amount == 0 || total_shares == 0 || total_assets == fee_amount ==> result == Ok::<
            u64,
            VaultError,
        >(0),
{
    if fee_amount == 0 || total_shares == 0 {
        return Ok(0);
    }
    if total_assets < fee_amount {
        return Err(VaultError::ArithmeticOverflow);
    }
    let assets_after_fee: u64 = total_assets - fee_amount;
    if assets_after_fee == 0 {
        return Ok(0);
    }
    proof {
        lemma_product_fits(fee_amount, total_shares);
    }
    let shares: u128 = (fee_amount as u128) * (total_shares as u128) / (assets_after_fee as u128);
    if shares > u64::MAX as u128 {
        Err(VaultError::ArithmeticOverflow)
    } else {
        Ok(shares as u64)
    }
}

/// Rounding down never over-mints: the shares minted for a deposit are worth
/// no more than the deposit at the pool's ratio.
pub proof fn lemma_deposit_never_over_mints(deposit_amount: int, total_assets: int, total_shares: int)
    requires
        0 <= deposit_amount,
        0 < total_assets,
        0 < total_shares,
    ensures
        0 <= shares_for_deposit(deposit_amount, total_assets, total_shares),
        shares_for_deposit(deposit_amount, total_assets, total_shares) * total_assets
            <= deposit_amount * total_shares,
{
    let x = deposit_amount * total_shares;
    assert(0 <= x) by (nonlinear_arith)
        requires
            0 <= deposit_amount,
            0 < total_shares,
            x == deposit_amount * total_shares,
    ;
    lemma_fundamental_div_mod(x, total_assets);
    lemma_mod_bound(x, total_assets);
    lemma_div_pos_is_pos(x, total_assets);
    assert((x / total_assets) * total_assets == total_assets * (x / total_assets))
        by (nonlinear_arith);
}

/// Rounding down never over-returns: the assets paid for burned shares are
/// worth no more than the shares at the pool's ratio.
pub proof fn lemma_redeem_never_over_returns(shares_to_burn: int, total_assets: int, total_shares: int)
    requires
        0 <= shares_to_burn,
        0 <= total_assets,
        0 < total_shares,
    ensures
        0 <= assets_for_shares(shares_to_burn, total_assets, total_shares),
        assets_for_shares(shares_to_burn, total_assets, total_shares) * total_shares
            <= shares_to_burn * total_assets,
{
    let x = shares_to_burn * total_assets;
    assert(0 <= x) by (nonlinear_arith)
        requires
            0 <= shares_to_burn,
            0 <= total_assets,
            x == shares_to_burn * total_assets,
    ;
    lemma_fundamental_div_mod(x, total_shares);
    lemma_mod_bound(x, total_shares);
    lemma_div_pos_is_pos(x, total_shares);
    assert((x / total_shares) * total_shares == total_shares * (x / total_shares))
        by (nonlinear_arith);
}

/// Rounding never creates value: converting a deposit to shares and the
/// shares straight back to assets, at one pool ratio, returns no more than
/// the deposit.
pub proof fn lemma_round_trip_never_gains(deposit_amount: int, total_assets: int, total_shares: int)
    requires
        0 <= deposit_amount,
        0 < total_assets,
        0 < total_shares,
    ensures
        0 <= assets_for_shares(
            shares_for_deposit(deposit_amount, total_assets, total_shares),
            total_assets,
            total_shares,
        ) <= deposit_amount,
{
    let shares = shares_for_deposit(deposit_amount, total_assets, total_shares);
    lemma_deposit_never_over_mints(deposit_amount, total_assets, total_shares);
    lemma_redeem_never_over_returns(shares, total_assets, total_shares);
    lemma_div_is_ordered(shares * total_assets, deposit_amount * total_shares, total_shares);
    lemma_div_multiples_vanish(deposit_amount, total_shares);
}

/// The same for the executable functions: where minting for a deposit
/// succeeds, redeeming the minted shares at the same ratio succeeds as well
/// and pays no more than the deposit.
pub proof fn lemma_minted_shares_redeem_within_deposit(
    deposit_amount: u64,
    total_assets: u64,
    total_shares: u64,
)
    requires
        total_assets > 0,
        total_shares > 0,
    ensures
        to_amount(
            shares_for_deposit(deposit_amount as int, total_assets as int, total_shares as int),
        ) matches Ok(shares) ==> (to_amount(
            assets_for_shares(shares as int, total_assets as int, total_shares as int),
        ) matches Ok(assets) && assets <= deposit_amount),
{
    lemma_round_trip_never_gains(deposit_amount as int, total_assets as int, total_shares as int);
}

/// A deposit that is withdrawn at once returns no more than was deposited:
/// the minted shares, redeemed against the pool as the deposit left it, are
/// worth at most the deposit.
pub proof fn lemma_deposit_then_withdraw_never_gains(
    deposit_amount: int,
    total_assets: int,
    total_shares: int,
)
    requires
        0 <= deposit_amount,
        0 < total_assets,
        0 < total_shares,
    ensures
        ({
            let shares = shares_for_deposit(deposit_amount, total_assets, total_shares);
            0 <= assets_for_shares(shares, total_assets + deposit_amount, total_shares + shares)
                <= deposit_amount
        }),
{
    let shares = shares_for_deposit(deposit_amount, total_assets, total_shares);
    let pool_assets = total_assets + deposit_amount;
    let pool_shares = total_shares + shares;
    lemma_deposit_never_over_mints(deposit_amount, total_assets, total_shares);
    lemma_redeem_never_over_returns(shares, pool_assets, pool_shares);
    assert(shares * pool_assets <= deposit_amount * pool_shares) by (nonlinear_arith)
        requires
            shares * total_assets <= deposit_amount * total_shares,
            pool_assets == total_assets + deposit_amount,
            pool_shares == total_shares + shares,
    ;
    lemma_div_is_ordered(shares * pool_assets, deposit_amount * pool_shares, pool_shares);
    lemma_div_multiples_vanish(deposit_amount, pool_shares);
}

/// Fee shares are worth no more than the fee: once they dilute the supply,
/// their part of the valuation, rounded down, is at most the fee they were
/// minted for.
pub proof fn lemma_fee_shares_worth_at_most_fee(fee_amount: int, total_assets: int, total_shares: int)
    requires
        0 < fee_amount < total_assets,
        0 < total_shares,
    ensures
        ({
            let minted = fee_to_shares(fee_amount, total_assets, total_shares);
            0 <= assets_for_shares(minted, total_assets, total_shares + minted) <= fee_amount
        }),
{
    let minted = fee_to_shares(fee_amount, total_assets, total_shares);
    let rest = total_assets - fee_amount;
    let supply = total_shares + minted;
    lemma_deposit_never_over_mints(fee_amount, rest, total_shares);
    lemma_redeem_never_over_returns(minted, total_assets, supply);
    assert(minted * total_assets <= fee_amount * supply) by (nonlinear_arith)
        requires
            minted * rest <= fee_amount * total_shares,
            rest == total_assets - fee_amount,
            supply == total_shares + minted,
    ;
    lemma_div_is_ordered(minted * total_assets, fee_amount * supply, supply);
    lemma_div_multiples_vanish(fee_amount, supply);
}

/// The high-water mark never falls: whatever the valuation, the rate and the
/// supply, the mark after a valuation is at least the mark before it.
pub proof fn lemma_high_water_mark_never_falls(
    total_assets: int,
    high_water_mark: int,
    fee_bps: int,
    total_shares: int,
)
    ensures
        next_high_water_mark(total_assets, high_water_mark, fee_bps, total_shares)
            >= high_water_mark,
{
}

} // verus!
