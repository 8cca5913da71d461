use vault_app::deposits::deposit;
use vault_app::deposits::get_user_balance;
use vault_app::deposits::get_vault_stats;
use vault_app::deposits::initialize_user_vault;
use vault_app::deposits::initialize_vault;
use vault_app::deposits::withdraw;
use vault_app::errors::ErrorCode;
use vault_app::state::Pubkey;
use vault_app::state::UserVaultAccount;
use vault_app::state::Vault;

fn key(value: u64) -> Pubkey {
    Pubkey { value }
}

fn fresh_user_vault() -> UserVaultAccount {
    UserVaultAccount {
        owner: key(0),
        total_deposited: 0,
        total_withdrawn: 0,
        current_balance: 0,
        last_transaction: 0,
        bump: 0,
    }
}

#[test]
fn initialize_vault_sets_fields() {
    let v = initialize_vault(key(11), 254);
    assert_eq!(v, Vault { authority: key(11), total_deposits: 0, bump: 254 });
}

#[test]
fn initialize_user_vault_sets_fields() {
    let uv = initialize_user_vault(key(5), 7);
    assert_eq!(
        uv,
        UserVaultAccount {
            owner: key(5),
            total_deposited: 0,
            total_withdrawn: 0,
            current_balance: 0,
            last_transaction: 0,
            bump: 7,
        }
    );
}

#[test]
fn deposit_then_read_balance_and_stats() {
    let admin = key(1);
    let user = key(2);
    let mut vault = initialize_vault(admin, 255);
    let mut uv = fresh_user_vault();

    let r = deposit(&mut vault, &mut uv, user, 9, 5_000_000_000, 1_700_000_000);
    assert_eq!(r, Ok(()));
    assert_eq!(get_user_balance(&uv), 5_000_000_000);

    let custody_lamports = 5_000_000_000;
    let stats = get_vault_stats(&vault, custody_lamports);
    assert_eq!(stats.0, 5_000_000_000);
    assert!(stats.1 >= 5_000_000_000);
}

#[test]
fn deposit_activates_fresh_subledger() {
    let mut vault = initialize_vault(key(1), 255);
    let mut uv = fresh_user_vault();

    deposit(&mut vault, &mut uv, key(2), 9, 100, 50).unwrap();
    assert_eq!(uv.owner, key(2));
    assert_eq!(uv.bump, 9);
    assert_eq!(uv.total_deposited, 100);
    assert_eq!(uv.current_balance, 100);
    assert_eq!(uv.last_transaction, 50);
}

#[test]
fn deposit_keeps_existing_owner() {
    let mut vault = initialize_vault(key(1), 255);
    let mut uv = initialize_user_vault(key(2), 9);

    deposit(&mut vault, &mut uv, key(2), 200, 40, 60).unwrap();
    assert_eq!(uv.owner, key(2));
    assert_eq!(uv.bump, 9);
}

#[test]
fn deposit_overflow_changes_nothing() {
    let mut vault = initialize_vault(key(1), 255);
    vault.total_deposits = u64::MAX;
    let mut uv = initialize_user_vault(key(2), 9);
    let vault_before = vault;
    let uv_before = uv;

    let r = deposit(&mut vault, &mut uv, key(2), 9, 1, 50);
    assert_eq!(r, Err(ErrorCode::MathOverflow));
    assert_eq!(vault, vault_before);
    assert_eq!(uv, uv_before);
}

#[test]
fn deposit_user_counter_overflow_changes_nothing() {
    let mut vault = initialize_vault(key(1), 255);
    let mut uv = initialize_user_vault(key(2), 9);
    uv.total_deposited = u64::MAX;
    let vault_before = vault;
    let uv_before = uv;

    let r = deposit(&mut vault, &mut uv, key(2), 9, 1, 50);
    assert_eq!(r, Err(ErrorCode::MathOverflow));
    assert_eq!(vault, vault_before);
    assert_eq!(uv, uv_before);
}

#[test]
fn withdraw_moves_all_counters() {
    let user = key(2);
    let mut vault = initialize_vault(key(1), 255);
    let mut uv = fresh_user_vault();
    deposit(&mut vault, &mut uv, user, 9, 1_000, 50).unwrap();

    let r = withdraw(&mut vault, &mut uv, user, 1_000, 400, 70);
    assert_eq!(r, Ok(()));
    assert_eq!(uv.current_balance, 600);
    assert_eq!(uv.total_withdrawn, 400);
    assert_eq!(uv.total_deposited, 1_000);
    assert_eq!(vault.total_deposits, 600);
    assert_eq!(uv.last_transaction, 70);
}

#[test]
fn withdraw_more_than_deposited_fails_unchanged() {
    let user = key(2);
    let mut vault = initialize_vault(key(1), 255);
    let mut uv = fresh_user_vault();
    deposit(&mut vault, &mut uv, user, 9, 5_000_000_000, 50).unwrap();
    let vault_before = vault;
    let uv_before = uv;

    let r = withdraw(&mut vault, &mut uv, user, 10_000_000_000, 6_000_000_000, 70);
    assert_eq!(r, Err(ErrorCode::InsufficientUserBalance));
    assert_eq!(vault, vault_before);
    assert_eq!(uv, uv_before);
}

#[test]
fn withdraw_by_non_owner_fails_unchanged() {
    let mut vault = initialize_vault(key(1), 255);
    let mut uv = fresh_user_vault();
    deposit(&mut vault, &mut uv, key(2), 9, 1_000, 50).unwrap();
    let vault_before = vault;
    let uv_before = uv;

    let r = withdraw(&mut vault, &mut uv, key(3), 1_000, 10, 70);
    assert_eq!(r, Err(ErrorCode::UnauthorizedWithdrawal));
    assert_eq!(vault, vault_before);
    assert_eq!(uv, uv_before);
}

#[test]
fn withdraw_beyond_custody_fails_unchanged() {
    let user = key(2);
    let mut vault = initialize_vault(key(1), 255);
    let mut uv = fresh_user_vault();
    deposit(&mut vault, &mut uv, user, 9, 1_000, 50).unwrap();
    let vault_before = vault;
    let uv_before = uv;

    let r = withdraw(&mut vault, &mut uv, user, 300, 400, 70);
    assert_eq!(r, Err(ErrorCode::InsufficientFunds));
    assert_eq!(vault, vault_before);
    assert_eq!(uv, uv_before);
}

#[test]
fn withdraw_aggregate_underflow_fails_unchanged() {
    let user = key(2);
    let mut vault = initialize_vault(key(1), 255);
    let mut uv = initialize_user_vault(user, 9);
    // A balance acquired through swaps, never counted in the aggregate.
    uv.current_balance = 500;
    let vault_before = vault;
    let uv_before = uv;

    let r = withdraw(&mut vault, &mut uv, user, 500, 500, 70);
    assert_eq!(r, Err(ErrorCode::MathOverflow));
    assert_eq!(vault, vault_before);
    assert_eq!(uv, uv_before);
}

#[test]
fn withdrawn_counter_overflow_fails_unchanged() {
    let user = key(2);
    let mut vault = initialize_vault(key(1), 255);
    vault.total_deposits = 1_000;
    let mut uv = initialize_user_vault(user, 9);
    uv.current_balance = 500;
    uv.total_withdrawn = u64::MAX;
    let vault_before = vault;
    let uv_before = uv;

    let r = withdraw(&mut vault, &mut uv, user, 500, 500, 70);
    assert_eq!(r, Err(ErrorCode::MathOverflow));
    assert_eq!(vault, vault_before);
    assert_eq!(uv, uv_before);
}
