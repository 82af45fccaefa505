//! Limits and denominators shared by the whole ledger.

use vstd::prelude::*;

verus! {

/// Maximum number of managers per vault.
pub const MAX_MANAGERS: usize = 3;

/// Maximum fee in basis points (50%).
pub const MAX_FEE_BPS: u16 = 5_000;

/// Basis points denominator (100%).
pub const BPS_DENOMINATOR: u128 = 10_000;

/// Seconds in a year (365 days).
pub const SECONDS_PER_YEAR: u128 = 31_536_000;

/// What an annual rate in basis points is divided by when it is applied by
/// the second: `BPS_DENOMINATOR * SECONDS_PER_YEAR`.
pub const ANNUAL_RATE_DENOMINATOR: u128 = 315_360_000_000;

/// `ANNUAL_RATE_DENOMINATOR` is the basis-point denominator times the seconds
/// of a year.
pub proof fn lemma_annual_rate_denominator()
    ensures
        ANNUAL_RATE_DENOMINATOR == BPS_DENOMINATOR * SECONDS_PER_YEAR,
{
    assert(10_000 * 31_536_000 == 315_360_000_000int);
}

} // verus!
