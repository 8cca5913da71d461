use vault_app::errors::ErrorCode;
use vault_app::settlement::encode_venue_swap_data;
use vault_app::settlement::swap_sol_to_usdc_prepare;
use vault_app::settlement::swap_sol_to_usdc_settle;
use vault_app::settlement::swap_usdc_to_sol_prepare;
use vault_app::settlement::swap_usdc_to_sol_settle;
use vault_app::state::Pubkey;
use vault_app::state::SwapState;
use vault_app::state::TokenVault;

fn key(value: u64) -> Pubkey {
    Pubkey { value }
}

fn custody(total_wsol: u64, total_usdc: u64) -> TokenVault {
    TokenVault {
        authority: key(1),
        vault_wsol_ata: key(20),
        vault_usdc_ata: key(21),
        total_wsol,
        total_usdc,
        bump: 250,
    }
}

fn no_swaps_yet() -> SwapState {
    SwapState { total_sol_swapped: 0, total_usdc_received: 0, last_swap_price: 0, swap_count: 0 }
}

#[test]
fn venue_call_bytes_are_exact() {
    let data = encode_venue_swap_data(1, 2, 3, true, false);
    let mut expected = vec![0xf8u8];
    expected.extend_from_slice(&1u64.to_le_bytes());
    expected.extend_from_slice(&2u64.to_le_bytes());
    expected.extend_from_slice(&3u128.to_le_bytes());
    expected.push(1);
    expected.push(0);
    assert_eq!(data, expected);
    assert_eq!(data.len(), 35);
}

#[test]
fn venue_call_bytes_flags_both_set() {
    let data = encode_venue_swap_data(u64::MAX, 0, u128::MAX, true, true);
    assert_eq!(data[0], 0xf8);
    assert_eq!(&data[1..9], &[0xff; 8]);
    assert_eq!(&data[9..17], &[0u8; 8]);
    assert_eq!(&data[17..33], &[0xff; 16]);
    assert_eq!(data[33], 1);
    assert_eq!(data[34], 1);
}

#[test]
fn prepare_validates_real_balance() {
    let tv = custody(1_000, 0);
    let r = swap_sol_to_usdc_prepare(&tv, 400, 500, 0, 0, true, true);
    assert_eq!(r, Err(ErrorCode::InsufficientWSOLBalance));
}

#[test]
fn prepare_validates_cached_total() {
    let tv = custody(300, 0);
    let r = swap_sol_to_usdc_prepare(&tv, 1_000, 500, 0, 0, true, true);
    assert_eq!(r, Err(ErrorCode::InsufficientWSOLBalance));
}

#[test]
fn prepare_builds_the_call_bytes() {
    let tv = custody(1_000, 0);
    let r = swap_sol_to_usdc_prepare(&tv, 1_000, 500, 30, 7, true, true);
    assert_eq!(r, Ok(encode_venue_swap_data(500, 30, 7, true, true)));
}

#[test]
fn settle_reconciles_and_records_price() {
    let mut tv = custody(1_000, 100);
    let mut ss = no_swaps_yet();

    // The venue grew the quote account from 100 to 140 for 1 unit in.
    let r = swap_sol_to_usdc_settle(&mut tv, &mut ss, 140, 1, 30);
    assert_eq!(r, Ok(40));
    assert_eq!(tv.total_wsol, 999);
    assert_eq!(tv.total_usdc, 140);
    assert_eq!(ss.total_sol_swapped, 1);
    assert_eq!(ss.total_usdc_received, 40);
    assert_eq!(ss.swap_count, 1);
    assert_eq!(ss.last_swap_price, 40 * 1_000_000);
}

#[test]
fn settle_below_minimum_fails_unchanged() {
    let mut tv = custody(1_000, 100);
    let mut ss = no_swaps_yet();
    let tv_before = tv;
    let ss_before = ss;

    let r = swap_sol_to_usdc_settle(&mut tv, &mut ss, 140, 1, 41);
    assert_eq!(r, Err(ErrorCode::SlippageExceeded));
    assert_eq!(tv, tv_before);
    assert_eq!(ss, ss_before);
}

#[test]
fn settle_never_sees_a_negative_receipt() {
    let mut tv = custody(1_000, 100);
    let mut ss = no_swaps_yet();

    // The quote account shrank: the receipt saturates at zero.
    let r = swap_sol_to_usdc_settle(&mut tv, &mut ss, 60, 1, 0);
    assert_eq!(r, Ok(0));
    assert_eq!(tv.total_usdc, 60);
    assert_eq!(ss.total_usdc_received, 0);
    assert_eq!(ss.last_swap_price, 0);
}

#[test]
fn settle_with_zero_input_keeps_the_old_price() {
    let mut tv = custody(1_000, 100);
    let mut ss = no_swaps_yet();
    ss.last_swap_price = 777;

    let r = swap_sol_to_usdc_settle(&mut tv, &mut ss, 140, 0, 0);
    assert_eq!(r, Ok(40));
    assert_eq!(ss.last_swap_price, 777);
    assert_eq!(ss.swap_count, 1);
}

#[test]
fn settle_with_overdrawn_cache_fails_unchanged() {
    let mut tv = custody(3, 100);
    let mut ss = no_swaps_yet();
    let tv_before = tv;
    let ss_before = ss;

    let r = swap_sol_to_usdc_settle(&mut tv, &mut ss, 140, 5, 0);
    assert_eq!(r, Err(ErrorCode::MathOverflow));
    assert_eq!(tv, tv_before);
    assert_eq!(ss, ss_before);
}

#[test]
fn reverse_prepare_validates_quote_side() {
    let tv = custody(0, 300);
    let r = swap_usdc_to_sol_prepare(&tv, 1_000, 500, 0, 0, true, false);
    assert_eq!(r, Err(ErrorCode::InsufficientWSOLBalance));

    let tv = custody(0, 1_000);
    let r = swap_usdc_to_sol_prepare(&tv, 400, 500, 0, 0, true, false);
    assert_eq!(r, Err(ErrorCode::InsufficientWSOLBalance));

    let r = swap_usdc_to_sol_prepare(&tv, 1_000, 500, 30, 7, true, false);
    assert_eq!(r, Ok(encode_venue_swap_data(500, 30, 7, true, false)));
}

#[test]
fn reverse_settle_reconciles_the_other_way() {
    let mut tv = custody(100, 1_000);
    let mut ss = no_swaps_yet();

    // The venue grew the wrapped account from 100 to 125 for 1_000 quote in.
    let r = swap_usdc_to_sol_settle(&mut tv, &mut ss, 125, 1_000, 25);
    assert_eq!(r, Ok(25));
    assert_eq!(tv.total_usdc, 0);
    assert_eq!(tv.total_wsol, 125);
    assert_eq!(ss.total_sol_swapped, 25);
    assert_eq!(ss.total_usdc_received, 1_000);
    assert_eq!(ss.swap_count, 1);
    assert_eq!(ss.last_swap_price, 25 * 1_000_000 / 1_000);
}

#[test]
fn reverse_settle_slippage_gate() {
    let mut tv = custody(100, 1_000);
    let mut ss = no_swaps_yet();
    let tv_before = tv;
    let ss_before = ss;

    let r = swap_usdc_to_sol_settle(&mut tv, &mut ss, 125, 1_000, 26);
    assert_eq!(r, Err(ErrorCode::SlippageExceeded));
    assert_eq!(tv, tv_before);
    assert_eq!(ss, ss_before);
}

#[test]
fn settle_price_product_overflow_fails_unchanged() {
    let mut tv = custody(u64::MAX, 0);
    let mut ss = no_swaps_yet();
    let tv_before = tv;
    let ss_before = ss;

    // A receipt of u64::MAX cannot be scaled by the price factor.
    let r = swap_sol_to_usdc_settle(&mut tv, &mut ss, u64::MAX, 1, 0);
    assert_eq!(r, Err(ErrorCode::MathOverflow));
    assert_eq!(tv, tv_before);
    assert_eq!(ss, ss_before);
}

#[test]
fn settle_statistics_overflow_fails_unchanged() {
    let mut tv = custody(1_000, 100);
    let mut ss = no_swaps_yet();
    ss.total_usdc_received = u64::MAX;
    let tv_before = tv;
    let ss_before = ss;

    let r = swap_sol_to_usdc_settle(&mut tv, &mut ss, 140, 1, 0);
    assert_eq!(r, Err(ErrorCode::MathOverflow));
    assert_eq!(tv, tv_before);
    assert_eq!(ss, ss_before);
}
