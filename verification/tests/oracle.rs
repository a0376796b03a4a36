use pusd::state::OraclePrice;

fn price(price: i64, expo: i32, publish_time: i64) -> OraclePrice {
    OraclePrice { price, expo, conf: 0, publish_time }
}

#[test]
fn default_oracle_price_is_all_zero() {
    let p = OraclePrice::default();
    assert_eq!(p, OraclePrice { price: 0, expo: 0, conf: 0, publish_time: 0 });
    assert_eq!(p.to_usd_6dp(), (0, false));
    assert!(!p.is_fresh(0, 90));
}

#[test]
fn fresh_within_the_limit() {
    let p = price(1, 0, 1_000);
    assert!(p.is_fresh(1_000, 90));
    assert!(p.is_fresh(1_090, 90));
    assert!(!p.is_fresh(1_091, 90));
    assert!(p.is_fresh(1_000, 0));
    assert!(!p.is_fresh(1_001, 0));
}

#[test]
fn a_price_from_the_future_is_fresh() {
    let p = price(1, 0, 1_000);
    assert!(p.is_fresh(10, 90));
    assert!(p.is_fresh(990, -10));
    assert!(!p.is_fresh(991, -10));
}

#[test]
fn never_fresh_without_a_positive_publish_time() {
    assert!(!price(1, 0, 0).is_fresh(0, 90));
    assert!(!price(1, 0, 0).is_fresh(0, i64::MAX));
    assert!(!price(1, 0, -5).is_fresh(-5, 90));
    assert!(!price(1, 0, i64::MIN).is_fresh(i64::MIN, i64::MAX));
}

#[test]
fn freshness_at_the_ends_of_the_range() {
    // the age stops at the lowest value instead of wrapping round
    assert!(price(1, 0, i64::MAX).is_fresh(i64::MIN, i64::MIN));
    assert!(price(1, 0, 1).is_fresh(i64::MIN, i64::MIN));
    assert!(price(1, 0, 1).is_fresh(i64::MAX, i64::MAX));
    assert!(!price(1, 0, 1).is_fresh(i64::MAX, i64::MAX - 2));
    assert!(price(1, 0, 1).is_fresh(i64::MAX, i64::MAX - 1));
}

#[test]
fn to_usd_scales_up() {
    // 23.45 USD
    assert_eq!(price(2345, -2, 1).to_usd_6dp(), (23_450_000, true));
    // exponent -6 is already in 6 decimals
    assert_eq!(price(2_000_000, -6, 1).to_usd_6dp(), (2_000_000, true));
    // whole dollars
    assert_eq!(price(3, 0, 1).to_usd_6dp(), (3_000_000, true));
    assert_eq!(price(1, 13, 1).to_usd_6dp(), (10_000_000_000_000_000_000, true));
}

#[test]
fn to_usd_scales_down_and_rounds_down() {
    assert_eq!(price(123_456_789, -8, 1).to_usd_6dp(), (1_234_567, true));
    assert_eq!(price(199, -8, 1).to_usd_6dp(), (1, true));
    assert_eq!(price(99, -8, 1).to_usd_6dp(), (0, true));
    assert_eq!(price(i64::MAX, -7, 1).to_usd_6dp(), ((i64::MAX / 10) as u128, true));
}

#[test]
fn to_usd_with_a_divisor_beyond_the_price_is_zero_and_ok() {
    assert_eq!(price(i64::MAX, -25, 1).to_usd_6dp(), (0, true));
    assert_eq!(price(i64::MAX, -44, 1).to_usd_6dp(), (0, true));
    assert_eq!(price(i64::MAX, -45, 1).to_usd_6dp(), (0, true));
    assert_eq!(price(1, -1000, 1).to_usd_6dp(), (0, true));
    assert_eq!(price(i64::MAX, i32::MIN, 1).to_usd_6dp(), (0, true));
}

#[test]
fn to_usd_is_not_ok_for_a_price_that_is_not_positive() {
    assert_eq!(price(0, -2, 1).to_usd_6dp(), (0, false));
    assert_eq!(price(-1, -2, 1).to_usd_6dp(), (0, false));
    assert_eq!(price(i64::MIN, 0, 1).to_usd_6dp(), (0, false));
    assert_eq!(price(0, -20, 1).to_usd_6dp(), (0, false));
}

#[test]
fn to_usd_is_not_ok_when_the_product_does_not_fit() {
    // 10^38 fits 127 bits, 2 * 10^38 does not
    assert_eq!(
        price(1, 32, 1).to_usd_6dp(),
        (100_000_000_000_000_000_000_000_000_000_000_000_000, true)
    );
    assert_eq!(price(2, 32, 1).to_usd_6dp(), (0, false));
    assert_eq!(price(i64::MAX, 20, 1).to_usd_6dp(), (0, false));
    // (2^63 - 1) * 10^19 fits
    assert_eq!(
        price(i64::MAX, 13, 1).to_usd_6dp(),
        ((i64::MAX as u128) * 10_000_000_000_000_000_000, true)
    );
}

#[test]
fn to_usd_is_not_ok_for_an_exponent_whose_power_does_not_fit() {
    assert_eq!(price(1, 33, 1).to_usd_6dp(), (0, false));
    assert_eq!(price(1, 100, 1).to_usd_6dp(), (0, false));
    assert_eq!(price(1, i32::MAX, 1).to_usd_6dp(), (0, false));
    assert_eq!(price(i64::MAX, i32::MAX, 1).to_usd_6dp(), (0, false));
}
