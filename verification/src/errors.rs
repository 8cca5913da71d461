//! The error taxonomy shared by every ledger operation.

use vstd::prelude::*;

verus! {

/// Why an operation was refused. Every precondition failure is reported as
/// one of these; a failing operation leaves every entity unchanged.
#[derive(Clone, Copy, Debug, PartialEq, Eq, Structural)]
pub enum ErrorCode {
    /// The caller's identity does not match the required owner or authority.
    UnauthorizedWithdrawal,
    /// The pooled custody account holds less base asset than requested.
    InsufficientFunds,
    /// The user's subledger balance is lower than the requested amount.
    InsufficientUserBalance,
    /// A checked addition, subtraction, multiplication or division failed.
    MathOverflow,
    /// The user's base-asset balance is too low for the requested swap.
    InsufficientSOLBalance,
    /// The custody-held wrapped-base balance is too low.
    InsufficientWSOLBalance,
    /// The realized or quoted output fell below the caller's minimum.
    SlippageExceeded,
    /// A pool account does not match the expected configuration.
    InvalidPoolConfiguration,
    /// The external venue call itself failed.
    SwapFailed,
    /// Wrapping the base asset failed in the host environment.
    WrapFailed,
    /// Unwrapping the base asset failed in the host environment.
    UnwrapFailed,
    /// A token account's mint does not match the expected constant.
    InvalidTokenMint,
    /// A token account was used before being initialized.
    TokenAccountNotInitialized,
}

} // verus!
