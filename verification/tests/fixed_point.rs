use pusd::state::{
    apply_liquidation_bonus_bps, check_mint_within_initial_ltv, compute_health_bps,
    is_above_maintenance, saturating_mul_u128, saturating_sub_i64, ten_pow_i128, ten_pow_u128,
    token_amount_to_usd_6dp, BPS_DENOMINATOR, DEFAULT_MAX_ORACLE_STALENESS_SECS, PUSD_DECIMALS,
    U64_MAX_AS_U128, USD_DECIMALS,
};

#[test]
fn constants_have_their_values() {
    assert_eq!(USD_DECIMALS, 6);
    assert_eq!(PUSD_DECIMALS, 6);
    assert_eq!(BPS_DENOMINATOR, 10_000);
    assert_eq!(DEFAULT_MAX_ORACLE_STALENESS_SECS, 90);
    assert_eq!(U64_MAX_AS_U128, u64::MAX as u128);
}

#[test]
fn ten_pow_from_the_table() {
    assert_eq!(ten_pow_u128(0), 1);
    assert_eq!(ten_pow_u128(1), 10);
    assert_eq!(ten_pow_u128(6), 1_000_000);
    assert_eq!(ten_pow_u128(9), 1_000_000_000);
    assert_eq!(ten_pow_u128(19), 10_000_000_000_000_000_000);
}

#[test]
fn ten_pow_agrees_with_std_up_to_38() {
    let mut p: u32 = 0;
    while p <= 38 {
        assert_eq!(ten_pow_u128(p), 10u128.pow(p));
        p += 1;
    }
}

#[test]
fn ten_pow_beyond_the_table_is_multiplied_out() {
    assert_eq!(ten_pow_u128(20), 100_000_000_000_000_000_000);
    assert_eq!(
        ten_pow_u128(38),
        100_000_000_000_000_000_000_000_000_000_000_000_000
    );
}

#[test]
fn ten_pow_saturates_from_39_on() {
    assert_eq!(ten_pow_u128(39), u128::MAX);
    assert_eq!(ten_pow_u128(40), u128::MAX);
    assert_eq!(ten_pow_u128(255), u128::MAX);
    assert_eq!(ten_pow_u128(100_000), u128::MAX);
}

#[test]
fn ten_pow_signed_is_exact_up_to_38_and_minus_one_beyond() {
    assert_eq!(ten_pow_i128(0), 1);
    assert_eq!(ten_pow_i128(19), 10_000_000_000_000_000_000);
    assert_eq!(
        ten_pow_i128(38),
        100_000_000_000_000_000_000_000_000_000_000_000_000
    );
    assert_eq!(ten_pow_i128(39), -1);
    assert_eq!(ten_pow_i128(64), -1);
}

#[test]
fn saturating_mul_stops_at_the_top() {
    assert_eq!(saturating_mul_u128(7, 6), 42);
    assert_eq!(saturating_mul_u128(0, u128::MAX), 0);
    assert_eq!(saturating_mul_u128(u128::MAX, 1), u128::MAX);
    assert_eq!(saturating_mul_u128(u128::MAX, 2), u128::MAX);
    assert_eq!(saturating_mul_u128(1u128 << 64, 1u128 << 64), u128::MAX);
    assert_eq!(saturating_mul_u128(1u128 << 64, (1u128 << 63) - 1), ((1u128 << 63) - 1) << 64);
}

#[test]
fn saturating_sub_stops_at_both_ends() {
    assert_eq!(saturating_sub_i64(10, 3), 7);
    assert_eq!(saturating_sub_i64(3, 10), -7);
    assert_eq!(saturating_sub_i64(i64::MIN, 1), i64::MIN);
    assert_eq!(saturating_sub_i64(i64::MAX, -1), i64::MAX);
    assert_eq!(saturating_sub_i64(0, i64::MIN), i64::MAX);
    assert_eq!(saturating_sub_i64(-1, i64::MIN), i64::MAX);
    assert_eq!(saturating_sub_i64(-2, i64::MAX), i64::MIN);
}

#[test]
fn one_token_at_two_dollars_is_two_dollars() {
    assert_eq!(
        token_amount_to_usd_6dp(1_000_000_000, 9, 2_000_000),
        Some(2_000_000)
    );
}

#[test]
fn token_value_rounds_down() {
    // 1 smallest unit of a 9-decimal token at $2.00 is worth less than 10^-6 USD
    assert_eq!(token_amount_to_usd_6dp(1, 9, 2_000_000), Some(0));
    // 1.5 tokens of 6 decimals at $0.333333
    assert_eq!(token_amount_to_usd_6dp(1_500_000, 6, 333_333), Some(499_999));
    assert_eq!(token_amount_to_usd_6dp(0, 9, 2_000_000), Some(0));
    assert_eq!(token_amount_to_usd_6dp(5, 0, 7), Some(35));
}

#[test]
fn token_value_is_none_when_the_product_overflows() {
    assert_eq!(token_amount_to_usd_6dp(2, 0, u128::MAX), None);
    assert_eq!(token_amount_to_usd_6dp(u64::MAX, 9, u128::MAX), None);
    assert_eq!(token_amount_to_usd_6dp(1, 0, u128::MAX), Some(u128::MAX));
    // the largest product that fits
    assert_eq!(
        token_amount_to_usd_6dp(u64::MAX, 0, u128::MAX / (u64::MAX as u128)),
        Some((u128::MAX / (u64::MAX as u128)) * (u64::MAX as u128))
    );
}

#[test]
fn token_value_with_a_saturated_scale() {
    // from 39 decimals on the scale is the largest 128-bit number
    assert_eq!(token_amount_to_usd_6dp(1, 39, u128::MAX), Some(1));
    assert_eq!(token_amount_to_usd_6dp(1, 255, u128::MAX - 1), Some(0));
    assert_eq!(
        token_amount_to_usd_6dp(1, 38, u128::MAX),
        Some(u128::MAX / 10u128.pow(38))
    );
}

#[test]
fn health_without_debt_is_the_maximum() {
    assert_eq!(compute_health_bps(0, 0), u128::MAX);
    assert_eq!(compute_health_bps(1, 0), u128::MAX);
    assert_eq!(compute_health_bps(100_000000, 0), u128::MAX);
    assert_eq!(compute_health_bps(u128::MAX, 0), u128::MAX);
}

#[test]
fn health_of_worthless_collateral_is_zero() {
    assert_eq!(compute_health_bps(0, 1), 0);
    assert_eq!(compute_health_bps(0, 90_000000), 0);
    assert_eq!(compute_health_bps(0, u128::MAX), 0);
}

#[test]
fn health_of_a_healthy_position() {
    assert_eq!(compute_health_bps(100_000000, 90_000000), 11111);
    assert!(is_above_maintenance(100_000000, 90_000000, 8000));
}

#[test]
fn health_at_the_boundary_uses_exact_division() {
    assert_eq!(compute_health_bps(100_000000, 95_000000), 10526);
    assert!(is_above_maintenance(100_000000, 95_000000, 9000));
    assert!(is_above_maintenance(100_000000, 95_000000, 10526));
    assert!(!is_above_maintenance(100_000000, 95_000000, 10527));
}

#[test]
fn health_saturates_instead_of_failing() {
    assert_eq!(compute_health_bps(u128::MAX, 1), u128::MAX);
    assert_eq!(compute_health_bps(u128::MAX, 2), u128::MAX / 2);
    assert_eq!(compute_health_bps(u128::MAX / 10_000, 1), (u128::MAX / 10_000) * 10_000);
    assert_eq!(compute_health_bps(u128::MAX / 10_000 + 1, 3), u128::MAX / 3);
}

#[test]
fn the_two_health_functions_agree() {
    let cases: [(u128, u128); 6] = [
        (0, 0),
        (0, 5),
        (100_000000, 90_000000),
        (100_000000, 95_000000),
        (u128::MAX, 7),
        (12345, 1),
    ];
    for (v, d) in cases {
        assert_eq!(pusd::accounts::compute_health_bps(v, d), compute_health_bps(v, d));
    }
}

#[test]
fn maintenance_threshold_is_inclusive() {
    assert!(is_above_maintenance(90, 100, 9000));
    assert!(!is_above_maintenance(89, 100, 9000));
    assert!(is_above_maintenance(0, 0, u16::MAX));
    assert!(is_above_maintenance(0, 1, 0));
    assert!(!is_above_maintenance(0, 1, 1));
}

#[test]
fn mint_admission_at_the_limit() {
    // 100 USD of collateral at 66% admits 66 PUSD of debt and not a unit more
    assert!(check_mint_within_initial_ltv(100_000000, 0, 66_000000, 6600));
    assert!(!check_mint_within_initial_ltv(100_000000, 0, 66_000001, 6600));
    assert!(check_mint_within_initial_ltv(100_000000, 60_000000, 6_000000, 6600));
    assert!(!check_mint_within_initial_ltv(100_000000, 60_000000, 6_000001, 6600));
    assert!(check_mint_within_initial_ltv(100_000000, 66_000000, 0, 6600));
}

#[test]
fn mint_admission_refuses_worthless_collateral() {
    assert!(!check_mint_within_initial_ltv(0, 0, 0, 6600));
    assert!(!check_mint_within_initial_ltv(0, 0, 1, 10_000));
    assert!(check_mint_within_initial_ltv(1, 0, 0, 0));
    assert!(!check_mint_within_initial_ltv(1, 0, 1, 0));
}

#[test]
fn mint_admission_saturates_instead_of_failing() {
    // both sides stop at the largest 128-bit number
    assert!(check_mint_within_initial_ltv(u128::MAX, u128::MAX, u128::MAX, 2));
    // debt side saturated, collateral side not
    assert!(!check_mint_within_initial_ltv(1, u128::MAX, 1, 10_000));
    // collateral side saturated
    assert!(check_mint_within_initial_ltv(u128::MAX, 5, 5, 6600));
}

#[test]
fn liquidation_bonus_of_five_percent() {
    assert_eq!(apply_liquidation_bonus_bps(1_000_000, 500), Some(1_050_000));
}

#[test]
fn liquidation_bonus_rounds_down_and_detects_overflow() {
    assert_eq!(apply_liquidation_bonus_bps(0, 500), Some(0));
    assert_eq!(apply_liquidation_bonus_bps(1, 500), Some(1));
    assert_eq!(apply_liquidation_bonus_bps(19, 500), Some(19));
    assert_eq!(apply_liquidation_bonus_bps(20, 500), Some(21));
    assert_eq!(apply_liquidation_bonus_bps(1_000_000, 0), Some(1_000_000));
    assert_eq!(apply_liquidation_bonus_bps(10_000, u16::MAX), Some(75_535));
    assert_eq!(apply_liquidation_bonus_bps(u128::MAX, 0), None);
    assert_eq!(apply_liquidation_bonus_bps(u128::MAX / 10_000, 0), Some(u128::MAX / 10_000));
    assert_eq!(apply_liquidation_bonus_bps(u128::MAX / 10_000, 1), None);
}
