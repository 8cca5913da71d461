//! Token custody: creating the token vault, converting the base asset to and
//! from its wrapped representation held in custody, and withdrawing the
//! quote asset to a user's wallet.
//!
//! The physical token transfers are the host environment's; each operation
//! here decides whether the movement is allowed and applies the ledger
//! effect, or fails leaving everything unchanged.

use vstd::prelude::*;

use crate::auth::AuthPolicy;
use crate::auth::check_authorized;
use crate::errors::ErrorCode;
use crate::state::Pubkey;
use crate::state::TokenVault;
use crate::state::UserTokenAccount;
use crate::state::UserVaultAccount;

verus! {

/// What the host must do to the custody wrapped-base account after a
/// successful unwrap.
#[derive(Clone, Copy, Debug, PartialEq, Eq, Structural)]
pub enum UnwrapAction {
    /// The full custody wrapped balance leaves: close the account and return
    /// its residual reserve to the custody account.
    CloseCustodyAccount,
    /// Part of the balance leaves: a plain transfer back to custody.
    TransferFromCustody,
}

/// Creates the singleton token-custody aggregate over the two custody token
/// accounts, with both cached totals at zero.
pub fn initialize_token_vault(
    authority: Pubkey,
    vault_wsol_ata: Pubkey,
    vault_usdc_ata: Pubkey,
    bump: u8,
) -> (tv: TokenVault)
    ensures
        tv == (TokenVault {
            authority,
            vault_wsol_ata,
            vault_usdc_ata,
            total_wsol: 0,
            total_usdc: 0,
            bump,
        }),
{
    TokenVault { authority, vault_wsol_ata, vault_usdc_ata, total_wsol: 0, total_usdc: 0, bump }
}

/// The wrap transition, after authorization: the subledger must cover the
/// amount (`InsufficientUserBalance`), the custody account's real base
/// balance must too (`InsufficientFunds`), and the wrapped total moves with
/// checked arithmetic (`MathOverflow`). The amount leaves the user's
/// spendable balance and joins the custody wrapped-base total.
pub open spec fn spec_wrap_effect(
    tv: TokenVault,
    uv: UserVaultAccount,
    custody_lamports: u64,
    amount: u64,
) -> Result<(TokenVault, UserVaultAccount), ErrorCode> {
    if uv.current_balance < amount {
        Err(ErrorCode::InsufficientUserBalance)
    } else if custody_lamports < amount {
        Err(ErrorCode::InsufficientFunds)
    } else if tv.total_wsol + amount > u64::MAX {
        Err(ErrorCode::MathOverflow)
    } else {
        Ok(
            (
                TokenVault { total_wsol: (tv.total_wsol + amount) as u64, ..tv },
                UserVaultAccount { current_balance: (uv.current_balance - amount) as u64, ..uv },
            ),
        )
    }
}

/// The wrap transition under dual-signer authority.
pub open spec fn spec_wrap_sol(
    tv: TokenVault,
    uv: UserVaultAccount,
    cosigner: Pubkey,
    custody_lamports: u64,
    amount: u64,
) -> Result<(TokenVault, UserVaultAccount), ErrorCode> {
    if !(AuthPolicy::DualSigner { stored_owner: uv.owner, cosigner }).authorized() {
        Err(ErrorCode::UnauthorizedWithdrawal)
    } else {
        spec_wrap_effect(tv, uv, custody_lamports, amount)
    }
}

/// The wrap transition under administrator authority.
pub open spec fn spec_admin_wrap_sol(
    vault_authority: Pubkey,
    tv: TokenVault,
    uv: UserVaultAccount,
    caller: Pubkey,
    custody_lamports: u64,
    amount: u64,
) -> Result<(TokenVault, UserVaultAccount), ErrorCode> {
    if !(AuthPolicy::AdminOnBehalf {
        vault_authority,
        custody_authority: tv.authority,
        caller,
    }).authorized() {
        Err(ErrorCode::UnauthorizedWithdrawal)
    } else {
        spec_wrap_effect(tv, uv, custody_lamports, amount)
    }
}

/// Converts `amount` of the user's base-asset balance into the custody-held
/// wrapped representation, co-approved by the subledger's owner. On success
/// the host moves the same amount from custody into the wrapped-base account
/// and reconciles it. On failure nothing is changed.
pub fn wrap_sol(
    token_vault: &mut TokenVault,
    user_vault: &mut UserVaultAccount,
    cosigner: Pubkey,
    custody_lamports: u64,
    amount: u64,
) -> (r: Result<(), ErrorCode>)
    ensures
        match spec_wrap_sol(
            *old(token_vault),
            *old(user_vault),
            cosigner,
            custody_lamports,
            amount,
        ) {
            Ok(post) => r is Ok && *final(token_vault) == post.0 && *final(user_vault) == post.1,
            Err(e) => r == Err::<(), ErrorCode>(e) && *final(token_vault) == *old(token_vault)
                && *final(user_vault) == *old(user_vault),
        },
{
    match check_authorized(
        AuthPolicy::DualSigner { stored_owner: user_vault.owner, cosigner },
    ) {
        Ok(()) => {},
        Err(e) => { return Err(e) },
    }
    apply_wrap_effect(token_vault, user_vault, custody_lamports, amount)
}

/// Like `wrap_sol`, with the administrator acting on the target user's
/// subledger directly; the caller must administer both the vault (whose
/// authority is `vault_authority`) and the token custody.
pub fn admin_wrap_sol(
    vault_authority: Pubkey,
    token_vault: &mut TokenVault,
    user_vault: &mut UserVaultAccount,
    caller: Pubkey,
    custody_lamports: u64,
    amount: u64,
) -> (r: Result<(), ErrorCode>)
    ensures
        match spec_admin_wrap_sol(
            vault_authority,
            *old(token_vault),
            *old(user_vault),
            caller,
            custody_lamports,
            amount,
        ) {
            Ok(post) => r is Ok && *final(token_vault) == post.0 && *final(user_vault) == post.1,
            Err(e) => r == Err::<(), ErrorCode>(e) && *final(token_vault) == *old(token_vault)
                && *final(user_vault) == *old(user_vault),
        },
{
    match check_authorized(
        AuthPolicy::AdminOnBehalf {
            vault_authority,
            custody_authority: token_vault.authority,
            caller,
        },
    ) {
        Ok(()) => {},
        Err(e) => { return Err(e) },
    }
    apply_wrap_effect(token_vault, user_vault, custody_lamports, amount)
}

/// The shared wrap effect, once authorization has passed.
fn apply_wrap_effect(
    token_vault: &mut TokenVault,
    user_vault: &mut UserVaultAccount,
    custody_lamports: u64,
    amount: u64,
) -> (r: Result<(), ErrorCode>)
    ensures
        match spec_wrap_effect(*old(token_vault), *old(user_vault), custody_lamports, amount) {
            Ok(post) => r is Ok && *final(token_vault) == post.0 && *final(user_vault) == post.1,
            Err(e) => r == Err::<(), ErrorCode>(e) && *final(token_vault) == *old(token_vault)
                && *final(user_vault) == *old(user_vault),
        },
{
    if user_vault.current_balance < amount {
        return Err(ErrorCode::InsufficientUserBalance);
    }
    if custody_lamports < amount {
        return Err(ErrorCode::InsufficientFunds);
    }
    let new_wsol = match token_vault.total_wsol.checked_add(amount) {
        Some(v) => v,
        None => { return Err(ErrorCode::MathOverflow) },
    };
    user_vault.current_balance = user_vault.current_balance - amount;
    token_vault.total_wsol = new_wsol;
    Ok(())
}

/// The unwrap transition: the inverse of a wrap. Both the custody
/// wrapped-base account's real balance and the cached total must cover the
/// amount (`InsufficientWSOLBalance`); the user's balance moves with checked
/// arithmetic (`MathOverflow`). When the full real balance leaves, the host
/// is told to close the custody account instead of leaving it empty.
pub open spec fn spec_unwrap_sol(
    tv: TokenVault,
    uv: UserVaultAccount,
    cosigner: Pubkey,
    custody_wsol_amount: u64,
    amount: u64,
) -> Result<(TokenVault, UserVaultAccount, UnwrapAction), ErrorCode> {
    if !(AuthPolicy::DualSigner { stored_owner: uv.owner, cosigner }).authorized() {
        Err(ErrorCode::UnauthorizedWithdrawal)
    } else if custody_wsol_amount < amount {
        Err(ErrorCode::InsufficientWSOLBalance)
    } else if tv.total_wsol < amount {
        Err(ErrorCode::InsufficientWSOLBalance)
    } else if uv.current_balance + amount > u64::MAX {
        Err(ErrorCode::MathOverflow)
    } else {
        let action = if custody_wsol_amount == amount {
            UnwrapAction::CloseCustodyAccount
        } else {
            UnwrapAction::TransferFromCustody
        };
        Ok(
            (
                TokenVault { total_wsol: (tv.total_wsol - amount) as u64, ..tv },
                UserVaultAccount { current_balance: (uv.current_balance + amount) as u64, ..uv },
                action,
            ),
        )
    }
}

/// Converts `amount` of the custody-held wrapped base asset back into the
/// user's spendable balance, co-approved by the subledger's owner.
/// `custody_wsol_amount` is the wrapped-base custody account's real balance
/// as the host read it; on success the returned action says how the host
/// must move the funds. On failure nothing is changed.
pub fn unwrap_sol(
    token_vault: &mut TokenVault,
    user_vault: &mut UserVaultAccount,
    cosigner: Pubkey,
    custody_wsol_amount: u64,
    amount: u64,
) -> (r: Result<UnwrapAction, ErrorCode>)
    ensures
        match spec_unwrap_sol(
            *old(token_vault),
            *old(user_vault),
            cosigner,
            custody_wsol_amount,
            amount,
        ) {
            Ok(post) => r == Ok::<UnwrapAction, ErrorCode>(post.2) && *final(token_vault)
                == post.0 && *final(user_vault) == post.1,
            Err(e) => r == Err::<UnwrapAction, ErrorCode>(e) && *final(token_vault) == *old(
                token_vault,
            ) && *final(user_vault) == *old(user_vault),
        },
{
    match check_authorized(
        AuthPolicy::DualSigner { stored_owner: user_vault.owner, cosigner },
    ) {
        Ok(()) => {},
        Err(e) => { return Err(e) },
    }
    if custody_wsol_amount < amount {
        return Err(ErrorCode::InsufficientWSOLBalance);
    }
    if token_vault.total_wsol < amount {
        return Err(ErrorCode::InsufficientWSOLBalance);
    }
    let new_balance = match user_vault.current_balance.checked_add(amount) {
        Some(v) => v,
        None => { return Err(ErrorCode::MathOverflow) },
    };
    user_vault.current_balance = new_balance;
    token_vault.total_wsol = token_vault.total_wsol - amount;
    if custody_wsol_amount == amount {
        Ok(UnwrapAction::CloseCustodyAccount)
    } else {
        Ok(UnwrapAction::TransferFromCustody)
    }
}

/// The quote-asset withdrawal effect, after authorization: the user's quote
/// balance must cover the amount (`InsufficientUserBalance`), the custody
/// quote account's real balance must too (`InsufficientFunds`), and the
/// cached quote total moves with checked arithmetic (`MathOverflow`).
pub open spec fn spec_withdraw_usdc_effect(
    uta: UserTokenAccount,
    tv: TokenVault,
    custody_usdc_amount: u64,
    amount: u64,
) -> Result<(UserTokenAccount, TokenVault), ErrorCode> {
    if uta.usdc_balance < amount {
        Err(ErrorCode::InsufficientUserBalance)
    } else if custody_usdc_amount < amount {
        Err(ErrorCode::InsufficientFunds)
    } else if tv.total_usdc < amount {
        Err(ErrorCode::MathOverflow)
    } else {
        Ok(
            (
                UserTokenAccount { usdc_balance: (uta.usdc_balance - amount) as u64, ..uta },
                TokenVault { total_usdc: (tv.total_usdc - amount) as u64, ..tv },
            ),
        )
    }
}

/// The quote-asset withdrawal under dual-signer authority.
pub open spec fn spec_withdraw_usdc(
    uta: UserTokenAccount,
    tv: TokenVault,
    cosigner: Pubkey,
    custody_usdc_amount: u64,
    amount: u64,
) -> Result<(UserTokenAccount, TokenVault), ErrorCode> {
    if !(AuthPolicy::DualSigner { stored_owner: uta.owner, cosigner }).authorized() {
        Err(ErrorCode::UnauthorizedWithdrawal)
    } else {
        spec_withdraw_usdc_effect(uta, tv, custody_usdc_amount, amount)
    }
}

/// The quote-asset withdrawal under administrator authority.
pub open spec fn spec_admin_withdraw_usdc(
    vault_authority: Pubkey,
    uta: UserTokenAccount,
    tv: TokenVault,
    caller: Pubkey,
    custody_usdc_amount: u64,
    amount: u64,
) -> Result<(UserTokenAccount, TokenVault), ErrorCode> {
    if !(AuthPolicy::AdminOnBehalf {
        vault_authority,
        custody_authority: tv.authority,
        caller,
    }).authorized() {
        Err(ErrorCode::UnauthorizedWithdrawal)
    } else {
        spec_withdraw_usdc_effect(uta, tv, custody_usdc_amount, amount)
    }
}

/// Debits `amount` of the quote asset from the user's token subledger and
/// the custody cache, co-approved by the subledger's owner; on success the
/// host transfers the same amount from the custody quote account to the
/// user's wallet. `custody_usdc_amount` is that account's real balance as
/// the host read it. On failure nothing is changed.
pub fn withdraw_usdc(
    user_token_account: &mut UserTokenAccount,
    token_vault: &mut TokenVault,
    cosigner: Pubkey,
    custody_usdc_amount: u64,
    amount: u64,
) -> (r: Result<(), ErrorCode>)
    ensures
        match spec_withdraw_usdc(
            *old(user_token_account),
            *old(token_vault),
            cosigner,
            custody_usdc_amount,
            amount,
        ) {
            Ok(post) => r is Ok && *final(user_token_account) == post.0 && *final(token_vault)
                == post.1,
            Err(e) => r == Err::<(), ErrorCode>(e) && *final(user_token_account) == *old(
                user_token_account,
            ) && *final(token_vault) == *old(token_vault),
        },
{
    match check_authorized(
        AuthPolicy::DualSigner { stored_owner: user_token_account.owner, cosigner },
    ) {
        Ok(()) => {},
        Err(e) => { return Err(e) },
    }
    apply_withdraw_usdc_effect(user_token_account, token_vault, custody_usdc_amount, amount)
}

/// Like `withdraw_usdc`, with the administrator acting on the target user's
/// token subledger directly.
pub fn admin_withdraw_usdc(
    vault_authority: Pubkey,
    user_token_account: &mut UserTokenAccount,
    token_vault: &mut TokenVault,
    caller: Pubkey,
    custody_usdc_amount: u64,
    amount: u64,
) -> (r: Result<(), ErrorCode>)
    ensures
        match spec_admin_withdraw_usdc(
            vault_authority,
            *old(user_token_account),
            *old(token_vault),
            caller,
            custody_usdc_amount,
            amount,
        ) {
            Ok(post) => r is Ok && *final(user_token_account) == post.0 && *final(token_vault)
                == post.1,
            Err(e) => r == Err::<(), ErrorCode>(e) && *final(user_token_account) == *old(
                user_token_account,
            ) && *final(token_vault) == *old(token_vault),
        },
{
    match check_authorized(
        AuthPolicy::AdminOnBehalf {
            vault_authority,
            custody_authority: token_vault.authority,
            caller,
        },
    ) {
        Ok(()) => {},
        Err(e) => { return Err(e) },
    }
    apply_withdraw_usdc_effect(user_token_account, token_vault, custody_usdc_amount, amount)
}

/// The shared quote-asset withdrawal effect, once authorization has passed.
fn apply_withdraw_usdc_effect(
    user_token_account: &mut UserTokenAccount,
    token_vault: &mut TokenVault,
    custody_usdc_amount: u64,
    amount: u64,
) -> (r: Result<(), ErrorCode>)
    ensures
        match spec_withdraw_usdc_effect(
            *old(user_token_account),
            *old(token_vault),
            custody_usdc_amount,
            amount,
        ) {
            Ok(post) => r is Ok && *final(user_token_account) == post.0 && *final(token_vault)
                == post.1,
            Err(e) => r == Err::<(), ErrorCode>(e) && *final(user_token_account) == *old(
                user_token_account,
            ) && *final(token_vault) == *old(token_vault),
        },
{
    if user_token_account.usdc_balance < amount {
        return Err(ErrorCode::InsufficientUserBalance);
    }
    if custody_usdc_amount < amount {
        return Err(ErrorCode::InsufficientFunds);
    }
    let new_total = match token_vault.total_usdc.checked_sub(amount) {
        Some(v) => v,
        None => { return Err(ErrorCode::MathOverflow) },
    };
    user_token_account.usdc_balance = user_token_account.usdc_balance - amount;
    token_vault.total_usdc = new_total;
    Ok(())
}

} // verus!
