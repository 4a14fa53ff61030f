use solana_programs::amm::errors::AmmError;
use solana_programs::amm::helper::{
    calculate_deposit_lp, calculate_initial_lp_tokens, calculate_swap, calculate_withdraw,
    lp_tokens, swap_tokens,
};

#[test]
fn test_initial_lp_equal_amounts() {
    let result = calculate_initial_lp_tokens(100, 100).unwrap();
    assert_eq!(result, 100)
}

#[test]
fn test_initial_lp_unequal_amounts() {
    let result = calculate_initial_lp_tokens(100, 400).unwrap();
    assert_eq!(result, 200)
}

#[test]
fn test_initial_lp_zero_x_fails() {
    assert!(calculate_initial_lp_tokens(0, 400).is_err())
}

#[test]
fn test_initial_lp_zero_y_fails() {
    assert!(calculate_initial_lp_tokens(100, 0).is_err());
}

// pool: 100 X, 400 Y, 200 LP; user: 10 X, 40 Y
// lp_x = 10 * 200 / 100 = 20, lp_y = 40 * 200 / 400 = 20
#[test]
fn test_deposit_lp_correct_ratio() {
    let result = calculate_deposit_lp(100, 400, 200, 10, 40).unwrap();
    assert_eq!(result, 20);
}

// user deposits too much Y: lp_x = 20, lp_y = 30, lp = 20
#[test]
fn test_deposit_lp_wrong_ratio_takes_minimum() {
    let result = calculate_deposit_lp(100, 400, 200, 10, 60).unwrap();
    assert_eq!(result, 20);
}

#[test]
fn test_deposit_lp_zero_vault_fails() {
    assert!(calculate_deposit_lp(0, 400, 200, 10, 40).is_err());
}

// pool: 1000 X, 2000 Y; swap 100 X
// amount_in_after_fee = 100 * 9970 / 10000 = 99
// dy = 2000 * 99 / (1000 + 99) = 180
#[test]
fn test_swap_x_to_y_direction() {
    let (out, fee) = swap_tokens(1000, 2000, 100, 30, true).unwrap();
    assert_eq!(fee, 1);
    assert_eq!(out, 180);
}

#[test]
fn test_swap_y_to_x_direction() {
    let (out, fee) = swap_tokens(1000, 2000, 200, 30, false).unwrap();
    assert_eq!(fee, 1);
    assert_eq!(out, 90);
}

#[test]
fn test_withdraw() {
    let (x_out, y_out) = calculate_withdraw(1000, 2000, 1414, 707).unwrap();
    assert_eq!(x_out, 500);
    assert_eq!(y_out, 1000);
}

#[test]
fn initial_lp_is_floor_square_root() {
    assert_eq!(calculate_initial_lp_tokens(2, 8), Ok(4));
    assert_eq!(calculate_initial_lp_tokens(1, 3), Ok(1));
    assert_eq!(calculate_initial_lp_tokens(3, 5), Ok(3));
    assert_eq!(calculate_initial_lp_tokens(1, 1), Ok(1));
    assert_eq!(calculate_initial_lp_tokens(10, 10), Ok(10));
    assert_eq!(calculate_initial_lp_tokens(0, 0), Err(AmmError::ZeroLpAmount));
}

#[test]
fn initial_lp_at_the_largest_amounts() {
    assert_eq!(calculate_initial_lp_tokens(u64::MAX, u64::MAX), Ok(u64::MAX));
    assert_eq!(calculate_initial_lp_tokens(u64::MAX, 1), Ok(4294967295));
}

#[test]
fn lp_tokens_picks_the_rule_by_supply() {
    assert_eq!(lp_tokens(0, 0, 0, 100, 400), Ok(200));
    assert_eq!(lp_tokens(100, 400, 200, 10, 40), Ok(20));
}

#[test]
fn deposit_errors() {
    assert_eq!(calculate_deposit_lp(100, 0, 200, 10, 40), Err(AmmError::MathOverflow));
    assert_eq!(calculate_deposit_lp(1000, 1000, 1, 10, 10), Err(AmmError::ZeroLpAmount));
}

#[test]
fn deposit_share_beyond_u64_overflows() {
    // 2 * u64::MAX / 1 does not fit in u64
    assert_eq!(calculate_deposit_lp(1, 1, u64::MAX, 2, 2), Err(AmmError::MathOverflow));
    assert_eq!(calculate_deposit_lp(1, 1, 2, 1 << 63, 1 << 63), Err(AmmError::MathOverflow));
    // the smaller share decides: one huge share does not refuse the deposit
    assert_eq!(calculate_deposit_lp(1, 1_000, 2, 1 << 63, 1_000), Ok(2));
    assert_eq!(calculate_deposit_lp(1, 1, u64::MAX, 1, 1), Ok(u64::MAX));
}

#[test]
fn swap_errors() {
    assert_eq!(calculate_swap(1000, 2000, 0, 30), Err(AmmError::ZeroAmount));
    assert_eq!(calculate_swap(0, 2000, 10, 30), Err(AmmError::ZeroAmount));
    assert_eq!(calculate_swap(1000, 0, 10, 30), Err(AmmError::ZeroAmount));
    // output rounds down to zero
    assert_eq!(calculate_swap(1000, 2, 10, 30), Err(AmmError::ZeroAmount));
    // a 100% fee leaves nothing to swap
    assert_eq!(calculate_swap(1000, 2000, 10, 10_000), Err(AmmError::ZeroAmount));
}

#[test]
fn swap_without_fee() {
    // 2000 * 1000 / (1000 + 1000) = 1000
    assert_eq!(calculate_swap(1000, 2000, 1000, 0), Ok((1000, 0)));
}

#[test]
fn swap_keeps_the_product() {
    let (vin, vout, a) = (1000u64, 2000u64, 100u64);
    let (out, _) = calculate_swap(vin, vout, a, 30).unwrap();
    assert!((vin as u128 + a as u128) * (vout as u128 - out as u128) >= vin as u128 * vout as u128);
}

#[test]
fn withdraw_errors() {
    assert_eq!(calculate_withdraw(1000, 2000, 1414, 0), Err(AmmError::ZeroLpAmount));
    assert_eq!(calculate_withdraw(1000, 2000, 0, 1), Err(AmmError::ZeroLpAmount));
    assert_eq!(calculate_withdraw(1000, 2000, 10, 11), Err(AmmError::MathOverflow));
    assert_eq!(calculate_withdraw(1, 2000, 1000, 1), Err(AmmError::ZeroAmount));
}

#[test]
fn withdraw_everything() {
    assert_eq!(calculate_withdraw(1000, 2000, 10, 10), Ok((1000, 2000)));
}

#[test]
fn swap_there_and_back_returns_no_more() {
    let (x, y, a, fee) = (1_000_000u64, 2_000_000u64, 50_000u64, 30u16);
    let (out, _) = swap_tokens(x, y, a, fee, true).unwrap();
    let (back, _) = swap_tokens(x + a, y - out, out, fee, false).unwrap();
    assert!(back <= a);
    assert!(back < a);
    // with no fee the round trip still loses to rounding, never gains
    let (out0, _) = swap_tokens(x, y, a, 0, true).unwrap();
    let (back0, _) = swap_tokens(x + a, y - out0, out0, 0, false).unwrap();
    assert!(back0 <= a);
}

#[test]
fn deposit_then_withdraw_returns_no_more() {
    let (vx, vy, supply) = (1_000u64, 4_000u64, 2_000u64);
    let (ax, ay) = (300u64, 1_000u64);
    let lp = calculate_deposit_lp(vx, vy, supply, ax, ay).unwrap();
    assert_eq!(lp, 500);
    let (x_out, y_out) = calculate_withdraw(vx + ax, vy + ay, supply + lp, lp).unwrap();
    assert_eq!((x_out, y_out), (260, 1_000));
    assert!(x_out <= ax && y_out <= ay);
}
