//! The settlement engine: internally priced fixed-rate swaps and externally
//! priced venue swaps.
//!
//! A fixed-rate swap is a pure ledger move at a constant, fixed-point scaled
//! rate. The two directions are deliberately not exact inverses of each
//! other. An external-venue swap follows a three-step protocol: validate and
//! build the venue call from the cached pre-state, let the host invoke the
//! venue, then settle from the re-read custody balances — the venue's effect
//! is only knowable by re-reading, never from a return value.

use vstd::prelude::*;

use vstd::assert_seqs_equal;
use vstd::bytes::spec_u128_to_le_bytes;
use vstd::bytes::spec_u64_to_le_bytes;
use vstd::bytes::u128_to_le_bytes;
use vstd::bytes::u64_to_le_bytes;

use crate::auth::AuthPolicy;
use crate::auth::check_authorized;
use crate::errors::ErrorCode;
use crate::state::Pubkey;
use crate::state::SwapState;
use crate::state::TokenVault;
use crate::state::UserTokenAccount;
use crate::state::UserVaultAccount;

verus! {

/// Quote units bought per `SOL_TO_USDC_SCALE` of base asset at the internal
/// fixed rate.
pub const SOL_TO_USDC_RATE: u64 = 40_000_000;

/// Fixed-point scale of the base-to-quote rate.
pub const SOL_TO_USDC_SCALE: u64 = 1_000_000;

/// Base units bought per `USDC_TO_SOL_SCALE` of quote asset at the internal
/// fixed rate. Not the exact inverse of the base-to-quote rate.
pub const USDC_TO_SOL_RATE: u64 = 25_000_000;

/// Fixed-point scale of the quote-to-base rate.
pub const USDC_TO_SOL_SCALE: u64 = 1_000_000_000;

/// Scale of the recorded last swap price (quote per unit of input).
pub const PRICE_SCALE: u64 = 1_000_000;

/// The leading tag byte of a venue swap call.
pub const VENUE_SWAP_TAG: u8 = 0xf8;

/// The fixed-rate base-to-quote output: scale, then floor.
pub open spec fn spec_sol_to_usdc_output(sol_amount: u64) -> int {
    sol_amount * SOL_TO_USDC_RATE / SOL_TO_USDC_SCALE as int
}

/// The fixed-rate quote-to-base output: scale, then floor.
pub open spec fn spec_usdc_to_sol_output(usdc_amount: u64) -> int {
    usdc_amount * USDC_TO_SOL_RATE / USDC_TO_SOL_SCALE as int
}

/// The fixed-rate base-to-quote swap effect, after authorization. In order:
/// the user's spendable balance and the custody wrapped total must cover the
/// input (`InsufficientUserBalance`, `InsufficientWSOLBalance`); the widened
/// rate product must fit (`MathOverflow`); the floored output must reach the
/// caller's minimum (`SlippageExceeded`); and the credits — against the
/// token subledger as activated for `beneficiary` — must stay in range
/// (`MathOverflow`). The input is debited once, from the spendable balance;
/// the output joins the quote balance.
pub open spec fn spec_swap_sol_to_usdc_effect(
    uv: UserVaultAccount,
    uta: UserTokenAccount,
    custody_total_wsol: u64,
    beneficiary: Pubkey,
    uta_bump: u8,
    sol_amount: u64,
    min_usdc_out: u64,
    now: i64,
) -> Result<(UserVaultAccount, UserTokenAccount), ErrorCode> {
    if uv.current_balance < sol_amount {
        Err(ErrorCode::InsufficientUserBalance)
    } else if custody_total_wsol < sol_amount {
        Err(ErrorCode::InsufficientWSOLBalance)
    } else if sol_amount * SOL_TO_USDC_RATE > u64::MAX {
        Err(ErrorCode::MathOverflow)
    } else if spec_sol_to_usdc_output(sol_amount) < min_usdc_out {
        Err(ErrorCode::SlippageExceeded)
    } else {
        let usdc_amount = spec_sol_to_usdc_output(sol_amount);
        let uta0 = uta.activated(beneficiary, uta_bump);
        if uta0.usdc_balance + usdc_amount > u64::MAX {
            Err(ErrorCode::MathOverflow)
        } else if uta0.total_swapped + sol_amount > u64::MAX {
            Err(ErrorCode::MathOverflow)
        } else {
            Ok(
                (
                    UserVaultAccount {
                        current_balance: (uv.current_balance - sol_amount) as u64,
                        last_transaction: now,
                        ..uv
                    },
                    UserTokenAccount {
                        usdc_balance: (uta0.usdc_balance + usdc_amount) as u64,
                        total_swapped: (uta0.total_swapped + sol_amount) as u64,
                        last_swap_timestamp: now,
                        ..uta0
                    },
                ),
            )
        }
    }
}

/// The fixed-rate quote-to-base swap effect, after authorization. In order:
/// the user's quote balance as stored must cover the input
/// (`InsufficientUserBalance`) and so must the custody quote total
/// (`InsufficientFunds`, the custody-held shortfall kind); the widened rate
/// product must fit (`MathOverflow`); the floored output must reach the
/// caller's minimum (`SlippageExceeded`); and the balance moves — against
/// the token subledger as activated for `beneficiary` — must all stay in
/// range (`MathOverflow`). The input leaves the quote balance; the output
/// joins the wrapped-base balance and the spendable balance.
pub open spec fn spec_swap_usdc_to_sol_effect(
    uv: UserVaultAccount,
    uta: UserTokenAccount,
    custody_total_usdc: u64,
    beneficiary: Pubkey,
    uta_bump: u8,
    usdc_amount: u64,
    min_sol_out: u64,
    now: i64,
) -> Result<(UserVaultAccount, UserTokenAccount), ErrorCode> {
    if uta.usdc_balance < usdc_amount {
        Err(ErrorCode::InsufficientUserBalance)
    } else if custody_total_usdc < usdc_amount {
        Err(ErrorCode::InsufficientFunds)
    } else if usdc_amount * USDC_TO_SOL_RATE > u64::MAX {
        Err(ErrorCode::MathOverflow)
    } else if spec_usdc_to_sol_output(usdc_amount) < min_sol_out {
        Err(ErrorCode::SlippageExceeded)
    } else {
        let sol_amount = spec_usdc_to_sol_output(usdc_amount);
        let uta0 = uta.activated(beneficiary, uta_bump);
        if uta0.usdc_balance < usdc_amount {
            Err(ErrorCode::MathOverflow)
        } else if uta0.wsol_balance + sol_amount > u64::MAX {
            Err(ErrorCode::MathOverflow)
        } else if uv.current_balance + sol_amount > u64::MAX {
            Err(ErrorCode::MathOverflow)
        } else if uta0.total_swapped + usdc_amount > u64::MAX {
            Err(ErrorCode::MathOverflow)
        } else {
            Ok(
                (
                    UserVaultAccount {
                        current_balance: (uv.current_balance + sol_amount) as u64,
                        last_transaction: now,
                        ..uv
                    },
                    UserTokenAccount {
                        usdc_balance: (uta0.usdc_balance - usdc_amount) as u64,
                        wsol_balance: (uta0.wsol_balance + sol_amount) as u64,
                        total_swapped: (uta0.total_swapped + usdc_amount) as u64,
                        last_swap_timestamp: now,
                        ..uta0
                    },
                ),
            )
        }
    }
}

/// The user-initiated fixed-rate base-to-quote swap: dual-signer authority,
/// then the swap effect with the user as beneficiary of a fresh subledger.
pub open spec fn spec_user_swap_sol_to_usdc(
    uv: UserVaultAccount,
    uta: UserTokenAccount,
    custody_total_wsol: u64,
    user: Pubkey,
    cosigner: Pubkey,
    uta_bump: u8,
    sol_amount: u64,
    min_usdc_out: u64,
    now: i64,
) -> Result<(UserVaultAccount, UserTokenAccount), ErrorCode> {
    if !(AuthPolicy::DualSigner { stored_owner: uv.owner, cosigner }).authorized() {
        Err(ErrorCode::UnauthorizedWithdrawal)
    } else {
        spec_swap_sol_to_usdc_effect(
            uv,
            uta,
            custody_total_wsol,
            user,
            uta_bump,
            sol_amount,
            min_usdc_out,
            now,
        )
    }
}

/// The administrator-driven fixed-rate base-to-quote swap on behalf of
/// `target_user`.
pub open spec fn spec_admin_swap_for_user(
    vault_authority: Pubkey,
    custody_authority: Pubkey,
    uv: UserVaultAccount,
    uta: UserTokenAccount,
    custody_total_wsol: u64,
    target_user: Pubkey,
    caller: Pubkey,
    uta_bump: u8,
    sol_amount: u64,
    min_usdc_out: u64,
    now: i64,
) -> Result<(UserVaultAccount, UserTokenAccount), ErrorCode> {
    if !(AuthPolicy::AdminOnBehalf { vault_authority, custody_authority, caller }).authorized() {
        Err(ErrorCode::UnauthorizedWithdrawal)
    } else {
        spec_swap_sol_to_usdc_effect(
            uv,
            uta,
            custody_total_wsol,
            target_user,
            uta_bump,
            sol_amount,
            min_usdc_out,
            now,
        )
    }
}

/// The user-initiated fixed-rate quote-to-base swap.
pub open spec fn spec_user_swap_usdc_to_sol(
    uv: UserVaultAccount,
    uta: UserTokenAccount,
    custody_total_usdc: u64,
    user: Pubkey,
    cosigner: Pubkey,
    uta_bump: u8,
    usdc_amount: u64,
    min_sol_out: u64,
    now: i64,
) -> Result<(UserVaultAccount, UserTokenAccount), ErrorCode> {
    if !(AuthPolicy::DualSigner { stored_owner: uv.owner, cosigner }).authorized() {
        Err(ErrorCode::UnauthorizedWithdrawal)
    } else {
        spec_swap_usdc_to_sol_effect(
            uv,
            uta,
            custody_total_usdc,
            user,
            uta_bump,
            usdc_amount,
            min_sol_out,
            now,
        )
    }
}

/// The administrator-driven fixed-rate quote-to-base swap on behalf of
/// `target_user`.
pub open spec fn spec_admin_swap_usdc_to_sol(
    vault_authority: Pubkey,
    custody_authority: Pubkey,
    uv: UserVaultAccount,
    uta: UserTokenAccount,
    custody_total_usdc: u64,
    target_user: Pubkey,
    caller: Pubkey,
    uta_bump: u8,
    usdc_amount: u64,
    min_sol_out: u64,
    now: i64,
) -> Result<(UserVaultAccount, UserTokenAccount), ErrorCode> {
    if !(AuthPolicy::AdminOnBehalf { vault_authority, custody_authority, caller }).authorized() {
        Err(ErrorCode::UnauthorizedWithdrawal)
    } else {
        spec_swap_usdc_to_sol_effect(
            uv,
            uta,
            custody_total_usdc,
            target_user,
            uta_bump,
            usdc_amount,
            min_sol_out,
            now,
        )
    }
}

/// Swaps `sol_amount` of the user's spendable balance into the quote asset
/// at the internal fixed rate, co-approved by the subledger's owner. The
/// user's token subledger is activated on first touch. On failure nothing is
/// changed.
pub fn user_swap_sol_to_usdc(
    user_vault: &mut UserVaultAccount,
    user_token_account: &mut UserTokenAccount,
    token_vault: &TokenVault,
    user: Pubkey,
    cosigner: Pubkey,
    uta_bump: u8,
    sol_amount: u64,
    min_usdc_out: u64,
    now: i64,
) -> (r: Result<(), ErrorCode>)
    ensures
        match spec_user_swap_sol_to_usdc(
            *old(user_vault),
            *old(user_token_account),
            token_vault.total_wsol,
            user,
            cosigner,
            uta_bump,
            sol_amount,
            min_usdc_out,
            now,
        ) {
            Ok(post) => r is Ok && *final(user_vault) == post.0 && *final(user_token_account)
                == post.1,
            Err(e) => r == Err::<(), ErrorCode>(e) && *final(user_vault) == *old(user_vault)
                && *final(user_token_account) == *old(user_token_account),
        },
{
    match check_authorized(
        AuthPolicy::DualSigner { stored_owner: user_vault.owner, cosigner },
    ) {
        Ok(()) => {},
        Err(e) => { return Err(e) },
    }
    apply_swap_sol_to_usdc_effect(
        user_vault,
        user_token_account,
        token_vault.total_wsol,
        user,
        uta_bump,
        sol_amount,
        min_usdc_out,
        now,
    )
}

/// Like `user_swap_sol_to_usdc`, driven by the administrator on behalf of
/// `target_user`, bypassing the owner's co-approval.
pub fn admin_swap_for_user(
    vault_authority: Pubkey,
    user_vault: &mut UserVaultAccount,
    user_token_account: &mut UserTokenAccount,
    token_vault: &TokenVault,
    target_user: Pubkey,
    caller: Pubkey,
    uta_bump: u8,
    sol_amount: u64,
    min_usdc_out: u64,
    now: i64,
) -> (r: Result<(), ErrorCode>)
    ensures
        match spec_admin_swap_for_user(
            vault_authority,
            token_vault.authority,
            *old(user_vault),
            *old(user_token_account),
            token_vault.total_wsol,
            target_user,
            caller,
            uta_bump,
            sol_amount,
            min_usdc_out,
            now,
        ) {
            Ok(post) => r is Ok && *final(user_vault) == post.0 && *final(user_token_account)
                == post.1,
            Err(e) => r == Err::<(), ErrorCode>(e) && *final(user_vault) == *old(user_vault)
                && *final(user_token_account) == *old(user_token_account),
        },
{
    match check_authorized(
        AuthPolicy::AdminOnBehalf {
            vault_authority,
            custody_authority: token_vault.authority,
            caller,
        },
    ) {
        Ok(()) => {},
        Err(e) => { return Err(e) },
    }
    apply_swap_sol_to_usdc_effect(
        user_vault,
        user_token_account,
        token_vault.total_wsol,
        target_user,
        uta_bump,
        sol_amount,
        min_usdc_out,
        now,
    )
}

/// The shared fixed-rate base-to-quote effect, once authorization has
/// passed.
fn apply_swap_sol_to_usdc_effect(
    user_vault: &mut UserVaultAccount,
    user_token_account: &mut UserTokenAccount,
    custody_total_wsol: u64,
    beneficiary: Pubkey,
    uta_bump: u8,
    sol_amount: u64,
    min_usdc_out: u64,
    now: i64,
) -> (r: Result<(), ErrorCode>)
    ensures
        match spec_swap_sol_to_usdc_effect(
            *old(user_vault),
            *old(user_token_account),
            custody_total_wsol,
            beneficiary,
            uta_bump,
            sol_amount,
            min_usdc_out,
            now,
        ) {
            Ok(post) => r is Ok && *final(user_vault) == post.0 && *final(user_token_account)
                == post.1,
            Err(e) => r == Err::<(), ErrorCode>(e) && *final(user_vault) == *old(user_vault)
                && *final(user_token_account) == *old(user_token_account),
        },
{
    if user_vault.current_balance < sol_amount {
        return Err(ErrorCode::InsufficientUserBalance);
    }
    if custody_total_wsol < sol_amount {
        return Err(ErrorCode::InsufficientWSOLBalance);
    }
    let usdc_amount = match sol_amount.checked_mul(SOL_TO_USDC_RATE) {
        Some(v) => v / SOL_TO_USDC_SCALE,
        None => { return Err(ErrorCode::MathOverflow) },
    };
    if usdc_amount < min_usdc_out {
        return Err(ErrorCode::SlippageExceeded);
    }
    let fresh = user_token_account.owner == Pubkey::default();
    let base_usdc: u64 = if fresh { 0 } else { user_token_account.usdc_balance };
    let base_swapped: u64 = if fresh { 0 } else { user_token_account.total_swapped };
    let new_usdc = match base_usdc.checked_add(usdc_amount) {
        Some(v) => v,
        None => { return Err(ErrorCode::MathOverflow) },
    };
    let new_swapped = match base_swapped.checked_add(sol_amount) {
        Some(v) => v,
        None => { return Err(ErrorCode::MathOverflow) },
    };
    if fresh {
        user_token_account.owner = beneficiary;
        user_token_account.bump = uta_bump;
        user_token_account.wsol_balance = 0;
    }
    user_vault.current_balance = user_vault.current_balance - sol_amount;
    user_vault.last_transaction = now;
    user_token_account.usdc_balance = new_usdc;
    user_token_account.total_swapped = new_swapped;
    user_token_account.last_swap_timestamp = now;
    Ok(())
}

/// Swaps `usdc_amount` of the user's quote balance back into the base asset
/// at the internal fixed rate, co-approved by the subledger's owner. On
/// failure nothing is changed.
pub fn user_swap_usdc_to_sol(
    user_vault: &mut UserVaultAccount,
    user_token_account: &mut UserTokenAccount,
    token_vault: &TokenVault,
    user: Pubkey,
    cosigner: Pubkey,
    uta_bump: u8,
    usdc_amount: u64,
    min_sol_out: u64,
    now: i64,
) -> (r: Result<(), ErrorCode>)
    ensures
        match spec_user_swap_usdc_to_sol(
            *old(user_vault),
            *old(user_token_account),
            token_vault.total_usdc,
            user,
            cosigner,
            uta_bump,
            usdc_amount,
            min_sol_out,
            now,
        ) {
            Ok(post) => r is Ok && *final(user_vault) == post.0 && *final(user_token_account)
                == post.1,
            Err(e) => r == Err::<(), ErrorCode>(e) && *final(user_vault) == *old(user_vault)
                && *final(user_token_account) == *old(user_token_account),
        },
{
    match check_authorized(
        AuthPolicy::DualSigner { stored_owner: user_vault.owner, cosigner },
    ) {
        Ok(()) => {},
        Err(e) => { return Err(e) },
    }
    apply_swap_usdc_to_sol_effect(
        user_vault,
        user_token_account,
        token_vault.total_usdc,
        user,
        uta_bump,
        usdc_amount,
        min_sol_out,
        now,
    )
}

/// Like `user_swap_usdc_to_sol`, driven by the administrator on behalf of
/// `target_user`.
pub fn admin_swap_usdc_to_sol(
    vault_authority: Pubkey,
    user_vault: &mut UserVaultAccount,
    user_token_account: &mut UserTokenAccount,
    token_vault: &TokenVault,
    target_user: Pubkey,
    caller: Pubkey,
    uta_bump: u8,
    usdc_amount: u64,
    min_sol_out: u64,
    now: i64,
) -> (r: Result<(), ErrorCode>)
    ensures
        match spec_admin_swap_usdc_to_sol(
            vault_authority,
            token_vault.authority,
            *old(user_vault),
            *old(user_token_account),
            token_vault.total_usdc,
            target_user,
            caller,
            uta_bump,
            usdc_amount,
            min_sol_out,
            now,
        ) {
            Ok(post) => r is Ok && *final(user_vault) == post.0 && *final(user_token_account)
                == post.1,
            Err(e) => r == Err::<(), ErrorCode>(e) && *final(user_vault) == *old(user_vault)
                && *final(user_token_account) == *old(user_token_account),
        },
{
    match check_authorized(
        AuthPolicy::AdminOnBehalf {
            vault_authority,
            custody_authority: token_vault.authority,
            caller,
        },
    ) {
        Ok(()) => {},
        Err(e) => { return Err(e) },
    }
    apply_swap_usdc_to_sol_effect(
        user_vault,
        user_token_account,
        token_vault.total_usdc,
        target_user,
        uta_bump,
        usdc_amount,
        min_sol_out,
        now,
    )
}

/// The shared fixed-rate quote-to-base effect, once authorization has
/// passed.
fn apply_swap_usdc_to_sol_effect(
    user_vault: &mut UserVaultAccount,
    user_token_account: &mut UserTokenAccount,
    custody_total_usdc: u64,
    beneficiary: Pubkey,
    uta_bump: u8,
    usdc_amount: u64,
    min_sol_out: u64,
    now: i64,
) -> (r: Result<(), ErrorCode>)
    ensures
        match spec_swap_usdc_to_sol_effect(
            *old(user_vault),
            *old(user_token_account),
            custody_total_usdc,
            beneficiary,
            uta_bump,
            usdc_amount,
            min_sol_out,
            now,
        ) {
            Ok(post) => r is Ok && *final(user_vault) == post.0 && *final(user_token_account)
                == post.1,
            Err(e) => r == Err::<(), ErrorCode>(e) && *final(user_vault) == *old(user_vault)
                && *final(user_token_account) == *old(user_token_account),
        },
{
    if user_token_account.usdc_balance < usdc_amount {
        return Err(ErrorCode::InsufficientUserBalance);
    }
    if custody_total_usdc < usdc_amount {
        return Err(ErrorCode::InsufficientFunds);
    }
    let sol_amount = match usdc_amount.checked_mul(USDC_TO_SOL_RATE) {
        Some(v) => v / USDC_TO_SOL_SCALE,
        None => { return Err(ErrorCode::MathOverflow) },
    };
    if sol_amount < min_sol_out {
        return Err(ErrorCode::SlippageExceeded);
    }
    let fresh = user_token_account.owner == Pubkey::default();
    let base_wsol: u64 = if fresh { 0 } else { user_token_account.wsol_balance };
    let base_usdc: u64 = if fresh { 0 } else { user_token_account.usdc_balance };
    let base_swapped: u64 = if fresh { 0 } else { user_token_account.total_swapped };
    let new_usdc = match base_usdc.checked_sub(usdc_amount) {
        Some(v) => v,
        None => { return Err(ErrorCode::MathOverflow) },
    };
    let new_wsol = match base_wsol.checked_add(sol_amount) {
        Some(v) => v,
        None => { return Err(ErrorCode::MathOverflow) },
    };
    let new_balance = match user_vault.current_balance.checked_add(sol_amount) {
        Some(v) => v,
        None => { return Err(ErrorCode::MathOverflow) },
    };
    let new_swapped = match base_swapped.checked_add(usdc_amount) {
        Some(v) => v,
        None => { return Err(ErrorCode::MathOverflow) },
    };
    if fresh {
        user_token_account.owner = beneficiary;
        user_token_account.bump = uta_bump;
    }
    user_token_account.usdc_balance = new_usdc;
    user_token_account.wsol_balance = new_wsol;
    user_token_account.total_swapped = new_swapped;
    user_token_account.last_swap_timestamp = now;
    user_vault.current_balance = new_balance;
    user_vault.last_transaction = now;
    Ok(())
}

/// The byte layout of a venue swap call: the tag byte, the two amounts and
/// the price limit little-endian, then the two flags, one byte each.
pub open spec fn spec_venue_swap_data(
    amount_in: u64,
    minimum_amount_out: u64,
    sqrt_price_limit: u128,
    amount_specified_is_input: bool,
    a_to_b: bool,
) -> Seq<u8> {
    seq![VENUE_SWAP_TAG] + spec_u64_to_le_bytes(amount_in) + spec_u64_to_le_bytes(
        minimum_amount_out,
    ) + spec_u128_to_le_bytes(sqrt_price_limit) + seq![
        (if amount_specified_is_input {
            1u8
        } else {
            0u8
        }),
    ] + seq![
        (if a_to_b {
            1u8
        } else {
            0u8
        }),
    ]
}

/// Serializes a venue swap call into the byte string the venue expects.
pub fn encode_venue_swap_data(
    amount_in: u64,
    minimum_amount_out: u64,
    sqrt_price_limit: u128,
    amount_specified_is_input: bool,
    a_to_b: bool,
) -> (data: Vec<u8>)
    ensures
        data@ == spec_venue_swap_data(
            amount_in,
            minimum_amount_out,
            sqrt_price_limit,
            amount_specified_is_input,
            a_to_b,
        ),
{
    let mut data: Vec<u8> = Vec::new();
    data.push(VENUE_SWAP_TAG);
    let mut amount_bytes = u64_to_le_bytes(amount_in);
    data.append(&mut amount_bytes);
    let mut min_out_bytes = u64_to_le_bytes(minimum_amount_out);
    data.append(&mut min_out_bytes);
    let mut limit_bytes = u128_to_le_bytes(sqrt_price_limit);
    data.append(&mut limit_bytes);
    data.push(if amount_specified_is_input { 1 } else { 0 });
    data.push(if a_to_b { 1 } else { 0 });
    proof {
        assert_seqs_equal!(
            data@ == spec_venue_swap_data(
                amount_in,
                minimum_amount_out,
                sqrt_price_limit,
                amount_specified_is_input,
                a_to_b,
            )
        );
    }
    data
}

/// Whether a base-to-quote venue swap may be invoked: both the custody
/// wrapped-base account's real balance and the cached total must cover the
/// input leg, else `InsufficientWSOLBalance`.
pub open spec fn spec_swap_sol_to_usdc_prepare(
    tv: TokenVault,
    custody_wsol_amount: u64,
    amount_in: u64,
) -> Result<(), ErrorCode> {
    if custody_wsol_amount < amount_in {
        Err(ErrorCode::InsufficientWSOLBalance)
    } else if tv.total_wsol < amount_in {
        Err(ErrorCode::InsufficientWSOLBalance)
    } else {
        Ok(())
    }
}

/// First step of the base-to-quote venue protocol: validates the pre-state
/// and builds the venue call bytes. The host then invokes the venue with
/// them, signed by the custody authority, and re-reads the custody balances
/// for the settle step. Nothing is mutated here.
pub fn swap_sol_to_usdc_prepare(
    token_vault: &TokenVault,
    custody_wsol_amount: u64,
    amount_in: u64,
    minimum_amount_out: u64,
    sqrt_price_limit: u128,
    amount_specified_is_input: bool,
    a_to_b: bool,
) -> (r: Result<Vec<u8>, ErrorCode>)
    ensures
        match spec_swap_sol_to_usdc_prepare(*token_vault, custody_wsol_amount, amount_in) {
            Ok(unit) => r matches Ok(data) && data@ == spec_venue_swap_data(
                amount_in,
                minimum_amount_out,
                sqrt_price_limit,
                amount_specified_is_input,
                a_to_b,
            ),
            Err(e) => r == Err::<Vec<u8>, ErrorCode>(e),
        },
{
    if custody_wsol_amount < amount_in {
        return Err(ErrorCode::InsufficientWSOLBalance);
    }
    if token_vault.total_wsol < amount_in {
        return Err(ErrorCode::InsufficientWSOLBalance);
    }
    Ok(
        encode_venue_swap_data(
            amount_in,
            minimum_amount_out,
            sqrt_price_limit,
            amount_specified_is_input,
            a_to_b,
        ),
    )
}

/// The base-to-quote settle transition, from the re-read custody quote
/// balance. The realized output is the quote balance's growth over the
/// cached total, never negative; it must reach the caller's minimum
/// (`SlippageExceeded`). The cached wrapped total is debited by the input
/// and the quote total reconciled to the re-read balance; the statistics
/// accumulate with checked arithmetic (`MathOverflow`), and the price is
/// recorded only for a nonzero input.
pub open spec fn spec_swap_sol_to_usdc_settle(
    tv: TokenVault,
    ss: SwapState,
    post_usdc_amount: u64,
    amount_in: u64,
    minimum_amount_out: u64,
) -> Result<(TokenVault, SwapState, u64), ErrorCode> {
    let received: u64 = if post_usdc_amount >= tv.total_usdc {
        (post_usdc_amount - tv.total_usdc) as u64
    } else {
        0u64
    };
    if received < minimum_amount_out {
        Err(ErrorCode::SlippageExceeded)
    } else if tv.total_wsol < amount_in {
        Err(ErrorCode::MathOverflow)
    } else if ss.total_sol_swapped + amount_in > u64::MAX {
        Err(ErrorCode::MathOverflow)
    } else if ss.total_usdc_received + received > u64::MAX {
        Err(ErrorCode::MathOverflow)
    } else if ss.swap_count + 1 > u64::MAX {
        Err(ErrorCode::MathOverflow)
    } else if amount_in > 0 && received * PRICE_SCALE > u64::MAX {
        Err(ErrorCode::MathOverflow)
    } else {
        Ok(
            (
                TokenVault {
                    total_wsol: (tv.total_wsol - amount_in) as u64,
                    total_usdc: post_usdc_amount,
                    ..tv
                },
                SwapState {
                    total_sol_swapped: (ss.total_sol_swapped + amount_in) as u64,
                    total_usdc_received: (ss.total_usdc_received + received) as u64,
                    swap_count: (ss.swap_count + 1) as u64,
                    last_swap_price: if amount_in > 0 {
                        (received * PRICE_SCALE / amount_in as int) as u64
                    } else {
                        ss.last_swap_price
                    },
                },
                received,
            ),
        )
    }
}

/// Final step of the base-to-quote venue protocol: settles the ledger from
/// `post_usdc_amount`, the custody quote account's real balance re-read
/// after the venue call, and returns the realized output. On failure nothing
/// is changed and the host must discard the venue call's effect with the
/// rest of the operation.
pub fn swap_sol_to_usdc_settle(
    token_vault: &mut TokenVault,
    swap_state: &mut SwapState,
    post_usdc_amount: u64,
    amount_in: u64,
    minimum_amount_out: u64,
) -> (r: Result<u64, ErrorCode>)
    ensures
        match spec_swap_sol_to_usdc_settle(
            *old(token_vault),
            *old(swap_state),
            post_usdc_amount,
            amount_in,
            minimum_amount_out,
        ) {
            Ok(post) => r == Ok::<u64, ErrorCode>(post.2) && *final(token_vault) == post.0
                && *final(swap_state) == post.1,
            Err(e) => r == Err::<u64, ErrorCode>(e) && *final(token_vault) == *old(token_vault)
                && *final(swap_state) == *old(swap_state),
        },
{
    let received: u64 = if post_usdc_amount >= token_vault.total_usdc {
        post_usdc_amount - token_vault.total_usdc
    } else {
        0
    };
    if received < minimum_amount_out {
        return Err(ErrorCode::SlippageExceeded);
    }
    let new_wsol = match token_vault.total_wsol.checked_sub(amount_in) {
        Some(v) => v,
        None => { return Err(ErrorCode::MathOverflow) },
    };
    let new_sol_swapped = match swap_state.total_sol_swapped.checked_add(amount_in) {
        Some(v) => v,
        None => { return Err(ErrorCode::MathOverflow) },
    };
    let new_usdc_received = match swap_state.total_usdc_received.checked_add(received) {
        Some(v) => v,
        None => { return Err(ErrorCode::MathOverflow) },
    };
    let new_count = match swap_state.swap_count.checked_add(1) {
        Some(v) => v,
        None => { return Err(ErrorCode::MathOverflow) },
    };
    if amount_in > 0 {
        let scaled = match received.checked_mul(PRICE_SCALE) {
            Some(v) => v,
            None => { return Err(ErrorCode::MathOverflow) },
        };
        swap_state.last_swap_price = scaled / amount_in;
    }
    token_vault.total_wsol = new_wsol;
    token_vault.total_usdc = post_usdc_amount;
    swap_state.total_sol_swapped = new_sol_swapped;
    swap_state.total_usdc_received = new_usdc_received;
    swap_state.swap_count = new_count;
    Ok(received)
}

/// Whether a quote-to-base venue swap may be invoked: both the custody quote
/// account's real balance and the cached total must cover the input leg.
pub open spec fn spec_swap_usdc_to_sol_prepare(
    tv: TokenVault,
    custody_usdc_amount: u64,
    amount_in: u64,
) -> Result<(), ErrorCode> {
    if custody_usdc_amount < amount_in {
        Err(ErrorCode::InsufficientWSOLBalance)
    } else if tv.total_usdc < amount_in {
        Err(ErrorCode::InsufficientWSOLBalance)
    } else {
        Ok(())
    }
}

/// First step of the quote-to-base venue protocol, the mirror of
/// `swap_sol_to_usdc_prepare`: validates the quote side and builds the venue
/// call bytes. Nothing is mutated here.
pub fn swap_usdc_to_sol_prepare(
    token_vault: &TokenVault,
    custody_usdc_amount: u64,
    amount_in: u64,
    minimum_amount_out: u64,
    sqrt_price_limit: u128,
    amount_specified_is_input: bool,
    a_to_b: bool,
) -> (r: Result<Vec<u8>, ErrorCode>)
    ensures
        match spec_swap_usdc_to_sol_prepare(*token_vault, custody_usdc_amount, amount_in) {
            Ok(unit) => r matches Ok(data) && data@ == spec_venue_swap_data(
                amount_in,
                minimum_amount_out,
                sqrt_price_limit,
                amount_specified_is_input,
                a_to_b,
            ),
            Err(e) => r == Err::<Vec<u8>, ErrorCode>(e),
        },
{
    if custody_usdc_amount < amount_in {
        return Err(ErrorCode::InsufficientWSOLBalance);
    }
    if token_vault.total_usdc < amount_in {
        return Err(ErrorCode::InsufficientWSOLBalance);
    }
    Ok(
        encode_venue_swap_data(
            amount_in,
            minimum_amount_out,
            sqrt_price_limit,
            amount_specified_is_input,
            a_to_b,
        ),
    )
}

/// The quote-to-base settle transition, the mirror of
/// `spec_swap_sol_to_usdc_settle`: the realized output is the wrapped-base
/// balance's growth over the cached total; the cached quote total is debited
/// by the input and the wrapped total reconciled to the re-read balance. The
/// statistics accumulate the base volume from the realized output and the
/// quote volume from the input.
pub open spec fn spec_swap_usdc_to_sol_settle(
    tv: TokenVault,
    ss: SwapState,
    post_wsol_amount: u64,
    amount_in: u64,
    minimum_amount_out: u64,
) -> Result<(TokenVault, SwapState, u64), ErrorCode> {
    let received: u64 = if post_wsol_amount >= tv.total_wsol {
        (post_wsol_amount - tv.total_wsol) as u64
    } else {
        0u64
    };
    if received < minimum_amount_out {
        Err(ErrorCode::SlippageExceeded)
    } else if tv.total_usdc < amount_in {
        Err(ErrorCode::MathOverflow)
    } else if ss.total_sol_swapped + received > u64::MAX {
        Err(ErrorCode::MathOverflow)
    } else if ss.total_usdc_received + amount_in > u64::MAX {
        Err(ErrorCode::MathOverflow)
    } else if ss.swap_count + 1 > u64::MAX {
        Err(ErrorCode::MathOverflow)
    } else if amount_in > 0 && received * PRICE_SCALE > u64::MAX {
        Err(ErrorCode::MathOverflow)
    } else {
        Ok(
            (
                TokenVault {
                    total_usdc: (tv.total_usdc - amount_in) as u64,
                    total_wsol: post_wsol_amount,
                    ..tv
                },
                SwapState {
                    total_sol_swapped: (ss.total_sol_swapped + received) as u64,
                    total_usdc_received: (ss.total_usdc_received + amount_in) as u64,
                    swap_count: (ss.swap_count + 1) as u64,
                    last_swap_price: if amount_in > 0 {
                        (received * PRICE_SCALE / amount_in as int) as u64
                    } else {
                        ss.last_swap_price
                    },
                },
                received,
            ),
        )
    }
}

/// Final step of the quote-to-base venue protocol: settles the ledger from
/// `post_wsol_amount`, the custody wrapped-base account's real balance
/// re-read after the venue call, and returns the realized output. On failure
/// nothing is changed.
pub fn swap_usdc_to_sol_settle(
    token_vault: &mut TokenVault,
    swap_state: &mut SwapState,
    post_wsol_amount: u64,
    amount_in: u64,
    minimum_amount_out: u64,
) -> (r: Result<u64, ErrorCode>)
    ensures
        match spec_swap_usdc_to_sol_settle(
            *old(token_vault),
            *old(swap_state),
            post_wsol_amount,
            amount_in,
            minimum_amount_out,
        ) {
            Ok(post) => r == Ok::<u64, ErrorCode>(post.2) && *final(token_vault) == post.0
                && *final(swap_state) == post.1,
            Err(e) => r == Err::<u64, ErrorCode>(e) && *final(token_vault) == *old(token_vault)
                && *final(swap_state) == *old(swap_state),
        },
{
    let received: u64 = if post_wsol_amount >= token_vault.total_wsol {
        post_wsol_amount - token_vault.total_wsol
    } else {
        0
    };
    if received < minimum_amount_out {
        return Err(ErrorCode::SlippageExceeded);
    }
    let new_usdc = match token_vault.total_usdc.checked_sub(amount_in) {
        Some(v) => v,
        None => { return Err(ErrorCode::MathOverflow) },
    };
    let new_sol_swapped = match swap_state.total_sol_swapped.checked_add(received) {
        Some(v) => v,
        None => { return Err(ErrorCode::MathOverflow) },
    };
    let new_usdc_received = match swap_state.total_usdc_received.checked_add(amount_in) {
        Some(v) => v,
        None => { return Err(ErrorCode::MathOverflow) },
    };
    let new_count = match swap_state.swap_count.checked_add(1) {
        Some(v) => v,
        None => { return Err(ErrorCode::MathOverflow) },
    };
    if amount_in > 0 {
        let scaled = match received.checked_mul(PRICE_SCALE) {
            Some(v) => v,
            None => { return Err(ErrorCode::MathOverflow) },
        };
        swap_state.last_swap_price = scaled / amount_in;
    }
    token_vault.total_usdc = new_usdc;
    token_vault.total_wsol = post_wsol_amount;
    swap_state.total_sol_swapped = new_sol_swapped;
    swap_state.total_usdc_received = new_usdc_received;
    swap_state.swap_count = new_count;
    Ok(received)
}

} // verus!
