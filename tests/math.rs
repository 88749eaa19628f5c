use svs::error::VaultError;
use svs::math::{convert_to_assets, convert_to_shares, mul_div, Rounding};

#[test]
fn test_mul_div_floor() {
    assert_eq!(mul_div(100, 3, 2, Rounding::Floor).unwrap(), 150);
    assert_eq!(mul_div(100, 1, 3, Rounding::Floor).unwrap(), 33);
}

#[test]
fn test_mul_div_ceiling() {
    assert_eq!(mul_div(100, 3, 2, Rounding::Ceiling).unwrap(), 150);
    assert_eq!(mul_div(100, 1, 3, Rounding::Ceiling).unwrap(), 34);
}

#[test]
fn test_convert_to_shares_empty_vault() {
    let shares = convert_to_shares(1_000_000, 0, 0, 3, Rounding::Floor).unwrap();
    assert_eq!(shares, 1_000_000_000);
}

#[test]
fn test_convert_to_shares_proportional() {
    let shares = convert_to_shares(100_000, 1_000_000, 1_000_000, 3, Rounding::Floor).unwrap();
    assert!(shares > 99_000 && shares < 101_000);
}

#[test]
fn test_convert_to_assets_proportional() {
    let assets = convert_to_assets(100_000, 1_000_000, 1_000_000, 3, Rounding::Floor).unwrap();
    assert!(assets > 99_000 && assets < 101_000);
}

#[test]
fn test_inflation_attack_protection() {
    let shares = convert_to_shares(1, 1_000_000, 0, 3, Rounding::Floor).unwrap();
    assert_eq!(shares, 0);
}

#[test]
fn test_rounding_favors_vault() {
    let deposit_shares = convert_to_shares(100, 1000, 1000, 3, Rounding::Floor).unwrap();
    let redeem_assets = convert_to_assets(100, 1000, 1000, 3, Rounding::Floor).unwrap();
    let withdraw_shares = convert_to_shares(100, 1000, 1000, 3, Rounding::Ceiling).unwrap();
    let mint_assets = convert_to_assets(100, 1000, 1000, 3, Rounding::Ceiling).unwrap();
    assert!(withdraw_shares >= deposit_shares);
    assert!(mint_assets >= redeem_assets);
}

#[test]
fn test_division_by_zero() {
    let result = mul_div(100, 100, 0, Rounding::Floor);
    assert!(result.is_err());
}

#[test]
fn test_max_values() {
    let large = u64::MAX / 2;
    let result = convert_to_shares(large, large, large, 0, Rounding::Floor);
    assert!(result.is_ok());
}

#[test]
fn mul_div_by_zero_fails_for_both_roundings() {
    assert_eq!(mul_div(100, 100, 0, Rounding::Floor), Err(VaultError::DivisionByZero));
    assert_eq!(mul_div(100, 100, 0, Rounding::Ceiling), Err(VaultError::DivisionByZero));
}

#[test]
fn mul_div_ceiling_brackets_exact_value() {
    let f = mul_div(7, 5, 4, Rounding::Floor).unwrap();
    let c = mul_div(7, 5, 4, Rounding::Ceiling).unwrap();
    assert_eq!(f, 8);
    assert_eq!(c, 9);
    assert!(f * 4 <= 35 && 35 <= c * 4);
}

#[test]
fn mul_div_result_too_large_overflows() {
    assert_eq!(mul_div(u64::MAX, 2, 1, Rounding::Floor), Err(VaultError::MathOverflow));
    assert_eq!(mul_div(u64::MAX, u64::MAX, u64::MAX, Rounding::Ceiling), Ok(u64::MAX));
}

#[test]
fn offset_power_overflow_is_math_overflow() {
    assert_eq!(convert_to_shares(1, 0, 0, 20, Rounding::Floor), Err(VaultError::MathOverflow));
    assert_eq!(convert_to_assets(1, u64::MAX, 0, 3, Rounding::Floor), Err(VaultError::MathOverflow));
    assert_eq!(convert_to_shares(1, 0, u64::MAX, 3, Rounding::Floor), Err(VaultError::MathOverflow));
}

#[test]
fn proportional_deposit_exact_shares() {
    let shares = convert_to_shares(100_000, 1_000_000, 1_000_000, 3, Rounding::Floor).unwrap();
    assert_eq!(shares, 100_099);
}

#[test]
fn donation_at_offset_boundary_yields_nothing() {
    assert_eq!(convert_to_shares(1, 1000, 0, 3, Rounding::Floor), Ok(0));
    assert_eq!(convert_to_shares(1, 999, 0, 3, Rounding::Floor), Ok(1));
}

#[test]
fn round_trip_never_pays_more() {
    let (ta, ts, a) = (1_000_000u64, 1_000_000u64, 12_345u64);
    let s = convert_to_shares(a, ta, ts, 3, Rounding::Floor).unwrap();
    let back = convert_to_assets(s, ta + a, ts + s, 3, Rounding::Floor).unwrap();
    assert!(back <= a);
    assert_eq!(back, 12_344);
}
