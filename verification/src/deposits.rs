//! Base-asset bookkeeping: vault and subledger creation, deposits,
//! withdrawals, and the read-only views over them.
//!
//! Deposits and withdrawals move the base asset between a user's external
//! wallet and the pooled custody account; the physical transfer is the host
//! environment's, while the ledger transition here is total and checked.
//! Every transition is given first as a spec function from the pre-state to
//! either the post-state or the error, and the executable operation returns
//! exactly that.

use vstd::prelude::*;

use crate::auth::AuthPolicy;
use crate::auth::check_authorized;
use crate::errors::ErrorCode;
use crate::state::Pubkey;
use crate::state::UserVaultAccount;
use crate::state::Vault;

verus! {

/// Creates the singleton vault aggregate with the given administrator.
pub fn initialize_vault(authority: Pubkey, bump: u8) -> (v: Vault)
    ensures
        v == (Vault { authority, total_deposits: 0, bump }),
{
    Vault { authority, total_deposits: 0, bump }
}

/// Creates a user's base-asset subledger, owned by its creator, with every
/// balance and counter at zero.
pub fn initialize_user_vault(owner: Pubkey, bump: u8) -> (uv: UserVaultAccount)
    ensures
        uv == (UserVaultAccount {
            owner,
            total_deposited: 0,
            total_withdrawn: 0,
            current_balance: 0,
            last_transaction: 0,
            bump,
        }),
{
    UserVaultAccount {
        owner,
        total_deposited: 0,
        total_withdrawn: 0,
        current_balance: 0,
        last_transaction: 0,
        bump,
    }
}

/// The deposit transition: credits `amount` to the vault aggregate and to
/// the depositor's subledger (activating a fresh subledger first), or fails
/// with `MathOverflow` when any of the three additions would wrap.
pub open spec fn spec_deposit(
    vault: Vault,
    uv: UserVaultAccount,
    depositor: Pubkey,
    uv_bump: u8,
    amount: u64,
    now: i64,
) -> Result<(Vault, UserVaultAccount), ErrorCode> {
    if vault.total_deposits + amount > u64::MAX {
        Err(ErrorCode::MathOverflow)
    } else if uv.total_deposited + amount > u64::MAX {
        Err(ErrorCode::MathOverflow)
    } else if uv.current_balance + amount > u64::MAX {
        Err(ErrorCode::MathOverflow)
    } else {
        let uv0 = uv.activated(depositor, uv_bump);
        Ok(
            (
                Vault { total_deposits: (vault.total_deposits + amount) as u64, ..vault },
                UserVaultAccount {
                    total_deposited: (uv0.total_deposited + amount) as u64,
                    current_balance: (uv0.current_balance + amount) as u64,
                    last_transaction: now,
                    ..uv0
                },
            ),
        )
    }
}

/// Records a deposit of `amount` by `depositor`, whose external wallet has
/// already funded the custody account by the same amount. No authority is
/// needed beyond being the subject of the subledger; a fresh subledger is
/// activated on first deposit. On failure nothing is changed.
pub fn deposit(
    vault: &mut Vault,
    user_vault: &mut UserVaultAccount,
    depositor: Pubkey,
    uv_bump: u8,
    amount: u64,
    now: i64,
) -> (r: Result<(), ErrorCode>)
    ensures
        match spec_deposit(*old(vault), *old(user_vault), depositor, uv_bump, amount, now) {
            Ok(post) => r is Ok && *final(vault) == post.0 && *final(user_vault) == post.1,
            Err(e) => r == Err::<(), ErrorCode>(e) && *final(vault) == *old(vault)
                && *final(user_vault) == *old(user_vault),
        },
{
    let new_total = match vault.total_deposits.checked_add(amount) {
        Some(v) => v,
        None => { return Err(ErrorCode::MathOverflow) },
    };
    let new_deposited = match user_vault.total_deposited.checked_add(amount) {
        Some(v) => v,
        None => { return Err(ErrorCode::MathOverflow) },
    };
    let new_balance = match user_vault.current_balance.checked_add(amount) {
        Some(v) => v,
        None => { return Err(ErrorCode::MathOverflow) },
    };
    if user_vault.owner == Pubkey::default() {
        user_vault.owner = depositor;
        user_vault.bump = uv_bump;
    }
    vault.total_deposits = new_total;
    user_vault.total_deposited = new_deposited;
    user_vault.current_balance = new_balance;
    user_vault.last_transaction = now;
    Ok(())
}

/// The withdrawal transition: only the subledger's owner may withdraw; the
/// subledger must cover the amount (`InsufficientUserBalance`) and so must
/// the custody account's real balance (`InsufficientFunds`); counters move
/// with checked arithmetic (`MathOverflow`).
pub open spec fn spec_withdraw(
    vault: Vault,
    uv: UserVaultAccount,
    caller: Pubkey,
    custody_lamports: u64,
    amount: u64,
    now: i64,
) -> Result<(Vault, UserVaultAccount), ErrorCode> {
    if !(AuthPolicy::OwnerDirect { stored_owner: uv.owner, caller }).authorized() {
        Err(ErrorCode::UnauthorizedWithdrawal)
    } else if uv.current_balance < amount {
        Err(ErrorCode::InsufficientUserBalance)
    } else if custody_lamports < amount {
        Err(ErrorCode::InsufficientFunds)
    } else if uv.total_withdrawn + amount > u64::MAX {
        Err(ErrorCode::MathOverflow)
    } else if vault.total_deposits < amount {
        Err(ErrorCode::MathOverflow)
    } else {
        Ok(
            (
                Vault { total_deposits: (vault.total_deposits - amount) as u64, ..vault },
                UserVaultAccount {
                    current_balance: (uv.current_balance - amount) as u64,
                    total_withdrawn: (uv.total_withdrawn + amount) as u64,
                    last_transaction: now,
                    ..uv
                },
            ),
        )
    }
}

/// Debits `amount` from the caller's subledger and the vault aggregate; on
/// success the custody account owes the recipient the same amount. Requires
/// owner-direct authority; `custody_lamports` is the custody account's real
/// balance as the host read it. On failure nothing is changed.
pub fn withdraw(
    vault: &mut Vault,
    user_vault: &mut UserVaultAccount,
    caller: Pubkey,
    custody_lamports: u64,
    amount: u64,
    now: i64,
) -> (r: Result<(), ErrorCode>)
    ensures
        match spec_withdraw(
            *old(vault),
            *old(user_vault),
            caller,
            custody_lamports,
            amount,
            now,
        ) {
            Ok(post) => r is Ok && *final(vault) == post.0 && *final(user_vault) == post.1,
            Err(e) => r == Err::<(), ErrorCode>(e) && *final(vault) == *old(vault)
                && *final(user_vault) == *old(user_vault),
        },
{
    match check_authorized(
        AuthPolicy::OwnerDirect { stored_owner: user_vault.owner, caller },
    ) {
        Ok(()) => {},
        Err(e) => { return Err(e) },
    }
    if user_vault.current_balance < amount {
        return Err(ErrorCode::InsufficientUserBalance);
    }
    if custody_lamports < amount {
        return Err(ErrorCode::InsufficientFunds);
    }
    let new_withdrawn = match user_vault.total_withdrawn.checked_add(amount) {
        Some(v) => v,
        None => { return Err(ErrorCode::MathOverflow) },
    };
    let new_total = match vault.total_deposits.checked_sub(amount) {
        Some(v) => v,
        None => { return Err(ErrorCode::MathOverflow) },
    };
    user_vault.current_balance = user_vault.current_balance - amount;
    user_vault.total_withdrawn = new_withdrawn;
    vault.total_deposits = new_total;
    user_vault.last_transaction = now;
    Ok(())
}

/// A user's live spendable base-asset balance.
pub fn get_user_balance(user_vault: &UserVaultAccount) -> (balance: u64)
    ensures
        balance == user_vault.current_balance,
{
    user_vault.current_balance
}

/// The vault's recorded total and the custody account's real balance, as the
/// host read it.
pub fn get_vault_stats(vault: &Vault, custody_lamports: u64) -> (stats: (u64, u64))
    ensures
        stats.0 == vault.total_deposits,
        stats.1 == custody_lamports,
{
    (vault.total_deposits, custody_lamports)
}

} // verus!
