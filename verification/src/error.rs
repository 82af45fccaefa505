//! The ways a ledger operation can be refused.

use vstd::prelude::*;

verus! {

/// Why an operation was refused. A refused operation leaves the ledger as it was.
#[derive(Clone, Copy, Debug, PartialEq, Eq, Structural)]
pub enum VaultError {
    /// Deposits and withdrawals are disabled while the vault is paused.
    VaultPaused,
    /// A zero amount, or an amount that converts to nothing.
    InvalidAmount,
    /// The deposit would push the valuation past the deposit cap.
    DepositCapExceeded,
    /// The deposit is smaller than the configured minimum.
    BelowMinDeposit,
    /// The holder owns fewer shares than asked to redeem.
    InsufficientShares,
    /// A quantity left its 64-bit (or intermediate 128-bit) range.
    ArithmeticOverflow,
    /// The caller is neither the owner nor, where allowed, a manager.
    Unauthorized,
    /// The manager list is full.
    MaxManagersReached,
    /// The key is not in the manager list.
    ManagerNotFound,
    /// The key is already in the manager list.
    ManagerAlreadyExists,
    /// The vault still holds shares or assets.
    VaultNotEmpty,
    /// A fee rate exceeds the maximum.
    InvalidFeeConfig,
    /// Nothing has accrued since the last collection.
    NoFeesToCollect,
    /// The vault's liquid custody cannot cover the withdrawal.
    InsufficientAssets,
}

impl VaultError {
    /// The message that goes with each refusal, as a sequence of characters.
    pub open spec fn message_text(&self) -> Seq<char> {
        match self {
            VaultError::VaultPaused => "Vault is currently paused"@,
            VaultError::InvalidAmount => "Deposit amount must be greater than zero"@,
            VaultError::DepositCapExceeded => "Deposit would exceed the vault's deposit cap"@,
            VaultError::BelowMinDeposit => "Deposit amount is below the minimum required"@,
            VaultError::InsufficientShares => "Insufficient shares for withdrawal"@,
            VaultError::ArithmeticOverflow => "Arithmetic overflow or underflow"@,
            VaultError::Unauthorized => "Caller is not authorized for this operation"@,
            VaultError::MaxManagersReached => "Maximum number of managers reached"@,
            VaultError::ManagerNotFound => "Manager not found in the manager list"@,
            VaultError::ManagerAlreadyExists => "Manager already exists in the manager list"@,
            VaultError::VaultNotEmpty => "Vault must be empty (zero shares and assets) to close"@,
            VaultError::InvalidFeeConfig => "Fee basis points exceed the maximum allowed"@,
            VaultError::NoFeesToCollect => "No accrued fees to collect"@,
            VaultError::InsufficientAssets => "Insufficient assets in vault for withdrawal"@,
        }
    }

    /// The message to show for this refusal.
    pub fn message(&self) -> (text: &'static str)
        ensures
            text@ == self.message_text(),
    {
        match self {
            VaultError::VaultPaused => "Vault is currently paused",
            VaultError::InvalidAmount => "Deposit amount must be greater than zero",
            VaultError::DepositCapExceeded => "Deposit would exceed the vault's deposit cap",
            VaultError::BelowMinDeposit => "Deposit amount is below the minimum required",
            VaultError::InsufficientShares => "Insufficient shares for withdrawal",
            VaultError::ArithmeticOverflow => "Arithmetic overflow or underflow",
            VaultError::Unauthorized => "Caller is not authorized for this operation",
            VaultError::MaxManagersReached => "Maximum number of managers reached",
            VaultError::ManagerNotFound => "Manager not found in the manager list",
            VaultError::ManagerAlreadyExists => "Manager already exists in the manager list",
            VaultError::VaultNotEmpty => "Vault must be empty (zero shares and assets) to close",
            VaultError::InvalidFeeConfig => "Fee basis points exceed the maximum allowed",
            VaultError::NoFeesToCollect => "No accrued fees to collect",
            VaultError::InsufficientAssets => "Insufficient assets in vault for withdrawal",
        }
    }
}

} // verus!
