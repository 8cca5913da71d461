//! The ledger's global laws, stated over the spec transitions and proved
//! once and for all.
//!
//! The executable operations promise to return exactly what their spec
//! transitions say; these lemmas relate the transitions of several
//! operations, which no single contract can state.

use vstd::prelude::*;

use crate::deposits::spec_deposit;
use crate::deposits::spec_withdraw;
use crate::errors::ErrorCode;
use crate::settlement::spec_swap_sol_to_usdc_effect;
use crate::state::Pubkey;
use crate::state::TokenVault;
use crate::state::UserTokenAccount;
use crate::state::UserVaultAccount;
use crate::state::Vault;
use crate::wrapping::spec_unwrap_sol;
use crate::wrapping::spec_wrap_effect;
use crate::wrapping::spec_wrap_sol;

verus! {

/// The sum of every user's live spendable balance.
pub open spec fn sum_current_balances(users: Seq<UserVaultAccount>) -> int
    decreases users.len(),
{
    if users.len() == 0 {
        0
    } else {
        users[0].current_balance + sum_current_balances(users.drop_first())
    }
}

/// Replacing one subledger moves the sum by exactly that user's balance
/// change.
pub proof fn lemma_sum_update(users: Seq<UserVaultAccount>, i: int, uv: UserVaultAccount)
    requires
        0 <= i < users.len(),
    ensures
        sum_current_balances(users.update(i, uv)) == sum_current_balances(users)
            - users[i].current_balance + uv.current_balance,
    decreases users.len(),
{
    if i == 0 {
        assert(users.update(0, uv).drop_first() =~= users.drop_first());
    } else {
        lemma_sum_update(users.drop_first(), i - 1, uv);
        assert(users.update(i, uv).drop_first() =~= users.drop_first().update(i - 1, uv));
    }
}

/// Law: a freshly created vault satisfies the aggregate equality: its total
/// is zero, the sum over no subledgers.
pub proof fn lemma_initial_aggregate(authority: Pubkey, bump: u8)
    ensures
        (Vault { authority, total_deposits: 0, bump }).total_deposits == sum_current_balances(
            Seq::<UserVaultAccount>::empty(),
        ),
{
}

/// Law: a successful deposit keeps the vault aggregate equal to the sum of
/// all users' spendable balances. Together with `lemma_initial_aggregate`
/// and `lemma_withdraw_preserves_aggregate`, the equality holds after every
/// sequence of deposits and withdrawals.
pub proof fn lemma_deposit_preserves_aggregate(
    vault: Vault,
    users: Seq<UserVaultAccount>,
    i: int,
    depositor: Pubkey,
    uv_bump: u8,
    amount: u64,
    now: i64,
)
    requires
        0 <= i < users.len(),
        vault.total_deposits == sum_current_balances(users),
        spec_deposit(vault, users[i], depositor, uv_bump, amount, now) is Ok,
    ensures
        ({
            let post = spec_deposit(vault, users[i], depositor, uv_bump, amount, now)->Ok_0;
            post.0.total_deposits == sum_current_balances(users.update(i, post.1))
        }),
{
    let post = spec_deposit(vault, users[i], depositor, uv_bump, amount, now)->Ok_0;
    lemma_sum_update(users, i, post.1);
}

/// Law: a successful withdrawal keeps the vault aggregate equal to the sum
/// of all users' spendable balances.
pub proof fn lemma_withdraw_preserves_aggregate(
    vault: Vault,
    users: Seq<UserVaultAccount>,
    i: int,
    caller: Pubkey,
    custody_lamports: u64,
    amount: u64,
    now: i64,
)
    requires
        0 <= i < users.len(),
        vault.total_deposits == sum_current_balances(users),
        spec_withdraw(vault, users[i], caller, custody_lamports, amount, now) is Ok,
    ensures
        ({
            let post = spec_withdraw(vault, users[i], caller, custody_lamports, amount, now)->Ok_0;
            post.0.total_deposits == sum_current_balances(users.update(i, post.1))
        }),
{
    let post = spec_withdraw(vault, users[i], caller, custody_lamports, amount, now)->Ok_0;
    lemma_sum_update(users, i, post.1);
}

/// Law: a spendable balance can never be driven below zero by a withdrawal.
/// Whenever the owner asks for more than the subledger holds, the withdrawal
/// transition is exactly the insufficient-balance error, whatever the other
/// inputs; `withdraw`'s contract then leaves every entity unchanged. (A
/// non-owner is refused before the balance is even looked at.)
pub proof fn lemma_withdraw_never_overdraws(
    vault: Vault,
    uv: UserVaultAccount,
    custody_lamports: u64,
    amount: u64,
    now: i64,
)
    requires
        uv.current_balance < amount,
    ensures
        spec_withdraw(vault, uv, uv.owner, custody_lamports, amount, now) == Err::<
            (Vault, UserVaultAccount),
            ErrorCode,
        >(ErrorCode::InsufficientUserBalance),
{
}

/// Law: a spendable balance can never be driven below zero by a wrap. The
/// wrap effect (shared by the owner-cosigned and the administrator paths,
/// both of which check authority first) is exactly the insufficient-balance
/// error whenever the amount exceeds the balance; the operations' contracts
/// then leave every entity unchanged.
pub proof fn lemma_wrap_never_overdraws(
    tv: TokenVault,
    uv: UserVaultAccount,
    custody_lamports: u64,
    amount: u64,
)
    requires
        uv.current_balance < amount,
    ensures
        spec_wrap_effect(tv, uv, custody_lamports, amount) == Err::<
            (TokenVault, UserVaultAccount),
            ErrorCode,
        >(ErrorCode::InsufficientUserBalance),
{
}

/// Law: a spendable balance can never be driven below zero by a fixed-rate
/// base-to-quote swap. The swap effect (shared by the user and administrator
/// paths, after their authority checks) is exactly the insufficient-balance
/// error whenever the input exceeds the balance; the operations' contracts
/// then leave every entity unchanged. No other operation debits the
/// spendable balance.
pub proof fn lemma_swap_never_overdraws(
    uv: UserVaultAccount,
    uta: UserTokenAccount,
    custody_total_wsol: u64,
    beneficiary: Pubkey,
    uta_bump: u8,
    sol_amount: u64,
    min_usdc_out: u64,
    now: i64,
)
    requires
        uv.current_balance < sol_amount,
    ensures
        spec_swap_sol_to_usdc_effect(
            uv,
            uta,
            custody_total_wsol,
            beneficiary,
            uta_bump,
            sol_amount,
            min_usdc_out,
            now,
        ) == Err::<(UserVaultAccount, UserTokenAccount), ErrorCode>(
            ErrorCode::InsufficientUserBalance,
        ),
{
}

/// Law: wrapping `amount` and then unwrapping the same amount succeeds and
/// restores both the user's subledger and the token vault to exactly their
/// pre-wrap state, for any amount within the user's spendable balance (and
/// within the custody balances the host reports).
pub proof fn lemma_wrap_unwrap_round_trip(
    tv: TokenVault,
    uv: UserVaultAccount,
    cosigner: Pubkey,
    custody_lamports: u64,
    custody_wsol_amount: u64,
    amount: u64,
)
    requires
        cosigner == uv.owner,
        amount <= uv.current_balance,
        amount <= custody_lamports,
        tv.total_wsol + amount <= u64::MAX,
        amount <= custody_wsol_amount,
    ensures
        spec_wrap_sol(tv, uv, cosigner, custody_lamports, amount) is Ok,
        ({
            let wrapped = spec_wrap_sol(tv, uv, cosigner, custody_lamports, amount)->Ok_0;
            let unwrapped = spec_unwrap_sol(
                wrapped.0,
                wrapped.1,
                cosigner,
                custody_wsol_amount,
                amount,
            );
            unwrapped is Ok && unwrapped->Ok_0.0 == tv && unwrapped->Ok_0.1 == uv
        }),
{
}

} // verus!
