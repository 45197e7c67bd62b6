use amm::curve::{price_swap, withdraw_amounts_from_shares, SwapResult, WithdrawalAmounts};
use amm::error::AmmError;

#[test]
fn swap_with_fee_on_balanced_pool() {
    let r = price_swap(1_000_000, 1_000_000, 30, 1000, 0).unwrap();
    assert_eq!(r, SwapResult { deposit: 1000, withdraw: 996 });
    assert!(r.withdraw < 1000);
}

#[test]
fn swap_floor_equal_to_output_is_accepted() {
    let r = price_swap(1_000_000, 1_000_000, 30, 1000, 996).unwrap();
    assert_eq!(r.withdraw, 996);
}

#[test]
fn swap_floor_above_output_is_slippage() {
    assert_eq!(price_swap(1_000_000, 1_000_000, 30, 1000, 997), Err(AmmError::SlippageExceeded));
}

#[test]
fn swap_without_fee_is_exact_curve() {
    let r = price_swap(1000, 1000, 0, 1000, 0).unwrap();
    assert_eq!(r, SwapResult { deposit: 1000, withdraw: 500 });
}

#[test]
fn swap_output_rounds_down() {
    // 10 * 5 / (10 + 5) = 3.33...
    let r = price_swap(10, 10, 0, 5, 0).unwrap();
    assert_eq!(r.withdraw, 3);
}

#[test]
fn swap_with_zero_output_is_invalid() {
    assert_eq!(price_swap(1_000_000, 1, 0, 1, 0), Err(AmmError::InvalidAmount));
}

#[test]
fn swap_of_nothing_is_invalid() {
    assert_eq!(price_swap(1_000_000, 1_000_000, 30, 0, 0), Err(AmmError::InvalidAmount));
}

#[test]
fn swap_with_whole_input_as_fee_is_invalid() {
    assert_eq!(price_swap(1_000_000, 1_000_000, 10000, 1000, 0), Err(AmmError::InvalidAmount));
}

#[test]
fn swap_against_empty_pool_divides_by_zero() {
    assert_eq!(price_swap(0, 1_000_000, 30, 0, 0), Err(AmmError::ArithmeticError));
}

#[test]
fn swap_at_largest_values() {
    let r = price_swap(u64::MAX, u64::MAX, 0, u64::MAX, 0).unwrap();
    assert_eq!(r, SwapResult { deposit: u64::MAX, withdraw: u64::MAX / 2 });
}

#[test]
fn swap_keeps_product_on_example() {
    let (rin, rout) = (1_000_000u128, 1_000_000u128);
    let r = price_swap(1_000_000, 1_000_000, 30, 1000, 0).unwrap();
    let after = (rin + r.deposit as u128) * (rout - r.withdraw as u128);
    assert!(after >= rin * rout);
}

#[test]
fn swap_keeps_product_without_fee_on_small_pool() {
    let r = price_swap(1, 1, 0, 1, 0);
    // 1 * 1 / 2 rounds down to nothing
    assert_eq!(r, Err(AmmError::InvalidAmount));
    let r = price_swap(3, 7, 0, 2, 0).unwrap();
    assert_eq!(r.withdraw, 2);
    assert!((3 + 2) * (7 - 2) >= 3 * 7);
}

#[test]
fn swap_output_within_fee_free_bound() {
    let (rin, rout) = (123_457u128, 98_765u128);
    let r = price_swap(123_457, 98_765, 25, 4_321, 0).unwrap();
    let d = r.deposit as u128;
    assert!(r.withdraw as u128 * (rin + d) <= rout * (rin + d) - rin * rout);
}

#[test]
fn withdraw_half_supply() {
    let w = withdraw_amounts_from_shares(1_000_000, 1_000_000, 2_000_000, 1_000_000).unwrap();
    assert_eq!(w, WithdrawalAmounts { x: 500_000, y: 500_000 });
}

#[test]
fn withdraw_rounds_down_proportionally() {
    let w = withdraw_amounts_from_shares(100, 10, 7, 3).unwrap();
    assert_eq!(w, WithdrawalAmounts { x: 42, y: 4 });
    assert!(w.x * 7 <= 100 * 3 && 100 * 3 < (w.x + 1) * 7);
    assert!(w.y * 7 <= 10 * 3 && 10 * 3 < (w.y + 1) * 7);
}

#[test]
fn withdraw_whole_supply_takes_all_reserves() {
    let w = withdraw_amounts_from_shares(u64::MAX, 12_345, u64::MAX, u64::MAX).unwrap();
    assert_eq!(w, WithdrawalAmounts { x: u64::MAX, y: 12_345 });
}

#[test]
fn withdraw_from_empty_supply_fails() {
    assert_eq!(withdraw_amounts_from_shares(5, 5, 0, 0), Err(AmmError::ArithmeticError));
}
