//! The smallest vault there is: one balance, deposits and withdrawals, no
//! shares and no fees.

use vstd::prelude::*;

verus! {

/// A vault that only counts what it holds.
#[derive(Clone, Copy, Debug, PartialEq, Eq)]
pub struct Vault {
    pub total_assets: u64,
}

/// Why the plain vault refused.
#[derive(Clone, Copy, Debug, PartialEq, Eq, Structural)]
pub enum ErrorCode {
    /// The vault holds less than was asked for.
    InsufficientFunds,
}

/// Add `amount` to the balance. The sum has to fit in 64 bits.
pub fn deposit(vault: &mut Vault, amount: u64) -> (result: Result<(), ErrorCode>)
    requires
        old(vault).total_assets + amount <= u64::MAX,
    ensures
        result == Ok::<(), ErrorCode>(()),
        final(vault).total_assets == old(vault).total_assets + amount,
{
    vault.total_assets = vault.total_assets + amount;
    Ok(())
}

/// Take `amount` off the balance, or refuse with `InsufficientFunds` and
/// leave the balance as it was where the vault holds less than that.
pub fn withdraw(vault: &mut Vault, amount: u64) -> (result: Result<(), ErrorCode>)
    ensures
        old(vault).total_assets < amount ==> result == Err::<(), ErrorCode>(
            ErrorCode::InsufficientFunds,
        ) && final(vault).total_assets == old(vault).total_assets,
        old(vault).total_assets >= amount ==> result == Ok::<(), ErrorCode>(())
            && final(vault).total_assets == old(vault).total_assets - amount,
{
    if vault.total_assets < amount {
        return Err(ErrorCode::InsufficientFunds);
    }
    vault.total_assets = vault.total_assets - amount;
    Ok(())
}

} // verus!
