//! The ledger entities and their lazy-initialization model.
//!
//! Each struct mirrors one record kind held by the host environment. Records
//! that are created lazily (the per-user subledgers) use an unset owner key
//! as the "not yet initialized" sentinel; `activated` gives the record's
//! state after its first touch.

use vstd::prelude::*;

verus! {

/// An authenticated identity, already verified by the host environment
/// before any operation runs; the ledger only compares identities.
///
/// An all-zero key is the "unset" sentinel of a record not yet initialized.
#[derive(Clone, Copy, Debug, PartialEq, Eq, Structural)]
pub struct Pubkey {
    pub value: u64,
}

impl Pubkey {
    /// The sentinel key of a record that has never been touched.
    pub open spec fn unset() -> Pubkey {
        Pubkey { value: 0 }
    }

    pub open spec fn is_unset(self) -> bool {
        self == Pubkey::unset()
    }
}

impl Default for Pubkey {
    fn default() -> (r: Pubkey)
        ensures
            r == Pubkey::unset(),
    {
        Pubkey { value: 0 }
    }
}

/// The singleton base-asset aggregate: who administers the vault, and the
/// cumulative net base asset held (all deposits minus all withdrawals).
#[derive(Clone, Copy, Debug, PartialEq, Eq, Structural)]
pub struct Vault {
    pub authority: Pubkey,
    pub total_deposits: u64,
    pub bump: u8,
}

/// One user's base-asset subledger. `total_deposited` and `total_withdrawn`
/// count only direct deposit and withdrawal volume; `current_balance` is the
/// live spendable balance, which swaps and wraps also move.
#[derive(Clone, Copy, Debug, PartialEq, Eq, Structural)]
pub struct UserVaultAccount {
    pub owner: Pubkey,
    pub total_deposited: u64,
    pub total_withdrawn: u64,
    pub current_balance: u64,
    pub last_transaction: i64,
    pub bump: u8,
}

impl UserVaultAccount {
    /// The record after its first touch: a fresh record takes the toucher as
    /// owner; an already active record is unchanged.
    pub open spec fn activated(self, owner: Pubkey, bump: u8) -> UserVaultAccount {
        if self.owner.is_unset() {
            UserVaultAccount { owner, bump, ..self }
        } else {
            self
        }
    }
}

/// The singleton token-custody aggregate: the custody authority, the
/// addresses of the two custody token accounts, and the cached view of what
/// they hold. The cached totals are reconciled against the real balances
/// after any externally settled swap.
#[derive(Clone, Copy, Debug, PartialEq, Eq, Structural)]
pub struct TokenVault {
    pub authority: Pubkey,
    pub vault_wsol_ata: Pubkey,
    pub vault_usdc_ata: Pubkey,
    pub total_wsol: u64,
    pub total_usdc: u64,
    pub bump: u8,
}

/// One user's token subledger: wrapped-base and quote balances, plus swap
/// bookkeeping. `total_swapped` accumulates volume in the asset given up.
#[derive(Clone, Copy, Debug, PartialEq, Eq, Structural)]
pub struct UserTokenAccount {
    pub owner: Pubkey,
    pub wsol_balance: u64,
    pub usdc_balance: u64,
    pub last_swap_timestamp: i64,
    pub total_swapped: u64,
    pub bump: u8,
}

impl UserTokenAccount {
    /// The record after its first touch from any swap path: a fresh record
    /// is zeroed and takes the beneficiary as owner; an active one is
    /// unchanged. The transition is one-way: an active record never reverts.
    pub open spec fn activated(self, owner: Pubkey, bump: u8) -> UserTokenAccount {
        if self.owner.is_unset() {
            UserTokenAccount {
                owner,
                wsol_balance: 0,
                usdc_balance: 0,
                last_swap_timestamp: 0,
                total_swapped: 0,
                bump,
            }
        } else {
            self
        }
    }
}

/// Advisory swap statistics: monotonically accumulated volumes, the count of
/// settled swaps, and the last realized price (quote per unit input, scaled
/// by `PRICE_SCALE`). Never used for authorization.
#[derive(Clone, Copy, Debug, PartialEq, Eq, Structural)]
pub struct SwapState {
    pub total_sol_swapped: u64,
    pub total_usdc_received: u64,
    pub last_swap_price: u64,
    pub swap_count: u64,
}

} // verus!
