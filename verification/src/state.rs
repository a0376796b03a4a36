//! Fixed-point conventions, value conversion and the risk formulas.
//!
//! USD values are integers scaled by 10^6.  Ratios are basis points:
//! 10 000 bps make 100%.

use crate::pubkey::Pubkey;
use vstd::prelude::*;

verus! {

/// Decimal digits carried by a USD value.
pub const USD_DECIMALS: u32 = 6;

/// Decimal digits carried by a PUSD amount.
pub const PUSD_DECIMALS: u32 = 6;

/// Basis points in 100%.
pub const BPS_DENOMINATOR: u128 = 10_000;

/// Default limit on the age of an oracle price, in seconds.
pub const DEFAULT_MAX_ORACLE_STALENESS_SECS: i64 = 90;

/// The largest 64-bit amount, as a 128-bit value.
pub const U64_MAX_AS_U128: u128 = 18_446_744_073_709_551_615;

/// The largest exponent whose power of ten fits 128 unsigned bits, and also
/// 127 bits.
pub const MAX_EXACT_POW10: u32 = 38;

// ===== Oracle price =====

/// A price as oracles publish it: a mantissa with a base-10 exponent, so
/// that 23.45 USD is `price = 2345`, `expo = -2`.
#[derive(Clone, Copy, Debug, PartialEq, Eq)]
pub struct OraclePrice {
    /// The mantissa.
    pub price: i64,
    /// The base-10 exponent of the mantissa.
    pub expo: i32,
    /// Confidence interval, with the exponent of the price.
    pub conf: u64,
    /// Unix time, in seconds, at which the price was published.
    pub publish_time: i64,
}

// ===== Models =====

/// 10^e.
pub open spec fn pow10(e: nat) -> nat
    decreases e,
{
    if e == 0 {
        1
    } else {
        10 * pow10((e - 1) as nat)
    }
}

/// A non-negative value cut off at the largest 128-bit number: what a
/// saturating operation leaves of its exact result.
pub open spec fn saturate_u128(x: int) -> u128 {
    if x > u128::MAX {
        u128::MAX
    } else if x < 0 {
        0
    } else {
        x as u128
    }
}

/// 10^p, cut off at the largest 128-bit number.
pub open spec fn spec_ten_pow_u128(p: u32) -> u128 {
    saturate_u128(pow10(p as nat) as int)
}

/// 10^p as a signed value; exponents whose power does not fit give -1.
pub open spec fn spec_ten_pow_i128(p: u32) -> i128 {
    if p <= MAX_EXACT_POW10 {
        pow10(p as nat) as i128
    } else {
        -1i128
    }
}

/// `amount * price_6dp / 10^token_decimals`, or nothing where the product
/// does not fit 128 bits.
pub open spec fn spec_token_amount_to_usd_6dp(
    amount: u64,
    token_decimals: u8,
    price_6dp: u128,
) -> Option<u128> {
    if amount * price_6dp > u128::MAX {
        None
    } else {
        Some(((amount * price_6dp) / (spec_ten_pow_u128(token_decimals as u32) as int)) as u128)
    }
}

/// Health of a position in basis points: `collateral_value * 10000 / debt`,
/// rounded down, with the product cut off at the largest 128-bit number.
/// A position without debt has the largest health there is.
pub open spec fn spec_compute_health_bps(
    collateral_value_usd_6dp: u128,
    debt_pusd_6dp: u128,
) -> u128 {
    if debt_pusd_6dp == 0 {
        u128::MAX
    } else {
        saturate_u128(collateral_value_usd_6dp * BPS_DENOMINATOR) / debt_pusd_6dp
    }
}

/// The admission rule for minting: with `new_debt = current + delta`,
/// `new_debt * 10000 <= collateral_value * initial_ltv_bps`, every step cut
/// off at the largest 128-bit number; never admitted on worthless collateral.
pub open spec fn spec_check_mint_within_initial_ltv(
    collateral_value_usd_6dp: u128,
    current_debt_pusd_6dp: u128,
    mint_delta_pusd_6dp: u128,
    initial_ltv_bps: u16,
) -> bool {
    let new_debt = saturate_u128(current_debt_pusd_6dp + mint_delta_pusd_6dp);
    collateral_value_usd_6dp != 0 && saturate_u128(new_debt * BPS_DENOMINATOR) <= saturate_u128(
        collateral_value_usd_6dp * initial_ltv_bps,
    )
}

/// A position is safe from liquidation while its health is at least the
/// maintenance threshold.
pub open spec fn spec_is_above_maintenance(
    collateral_value_usd_6dp: u128,
    debt_pusd_6dp: u128,
    maintenance_ltv_bps: u16,
) -> bool {
    spec_compute_health_bps(collateral_value_usd_6dp, debt_pusd_6dp) >= maintenance_ltv_bps
}

/// `amount * (10000 + bonus_bps) / 10000`, or nothing where the product does
/// not fit 128 bits.
pub open spec fn spec_apply_liquidation_bonus_bps(amount: u128, bonus_bps: u16) -> Option<u128> {
    if amount * (BPS_DENOMINATOR + bonus_bps) > u128::MAX {
        None
    } else {
        Some(((amount * (BPS_DENOMINATOR + bonus_bps)) / (BPS_DENOMINATOR as int)) as u128)
    }
}

// ===== Facts about powers of ten =====

/// The powers of ten up to 10^19.
pub proof fn pow10_small_values()
    ensures
        pow10(0) == 1,
        pow10(1) == 10,
        pow10(2) == 100,
        pow10(3) == 1_000,
        pow10(4) == 10_000,
        pow10(5) == 100_000,
        pow10(6) == 1_000_000,
        pow10(7) == 10_000_000,
        pow10(8) == 100_000_000,
        pow10(9) == 1_000_000_000,
        pow10(10) == 10_000_000_000,
        pow10(11) == 100_000_000_000,
        pow10(12) == 1_000_000_000_000,
        pow10(13) == 10_000_000_000_000,
        pow10(14) == 100_000_000_000_000,
        pow10(15) == 1_000_000_000_000_000,
        pow10(16) == 10_000_000_000_000_000,
        pow10(17) == 100_000_000_000_000_000,
        pow10(18) == 1_000_000_000_000_000_000,
        pow10(19) == 10_000_000_000_000_000_000,
{
    reveal_with_fuel(pow10, 21);
}

/// 10^38 is the last power of ten below 2^127; 10^39 is beyond 2^128.
pub proof fn pow10_limits()
    ensures
        pow10(38) == 100_000_000_000_000_000_000_000_000_000_000_000_000,
        pow10(38) <= i128::MAX,
        pow10(39) > u128::MAX,
{
    pow10_small_values();
    pow10_adds(19, 19);
    assert(pow10(38) == 10_000_000_000_000_000_000 * 10_000_000_000_000_000_000);
    assert(pow10(39) == 10 * pow10(38));
}

/// 10^(a+b) = 10^a * 10^b.
pub proof fn pow10_adds(a: nat, b: nat)
    ensures
        pow10(a + b) == pow10(a) * pow10(b),
    decreases a,
{
    if a == 0 {
        assert(pow10(0) == 1);
        assert(pow10(a + b) == 1 * pow10(b));
    } else {
        pow10_adds((a - 1) as nat, b);
        assert(pow10(a + b) == 10 * pow10((a + b - 1) as nat));
        assert(pow10(a) == 10 * pow10((a - 1) as nat));
        assert(10 * (pow10((a - 1) as nat) * pow10(b)) == (10 * pow10((a - 1) as nat)) * pow10(b))
            by (nonlinear_arith);
    }
}

/// Powers of ten are positive and grow with the exponent.
pub proof fn pow10_monotonic(a: nat, b: nat)
    requires
        a <= b,
    ensures
        0 < pow10(a) <= pow10(b),
    decreases b,
{
    if b == 0 {
    } else if a == b {
        pow10_monotonic((a - 1) as nat, (a - 1) as nat);
    } else {
        pow10_monotonic(a, (b - 1) as nat);
    }
}

/// The saturated power of ten is the exact one up to 10^38 and the largest
/// 128-bit number from 10^39 on; it is never zero.
pub proof fn ten_pow_u128_values(p: u32)
    ensures
        p <= MAX_EXACT_POW10 ==> spec_ten_pow_u128(p) == pow10(p as nat),
        p > MAX_EXACT_POW10 ==> spec_ten_pow_u128(p) == u128::MAX,
        spec_ten_pow_u128(p) > 0,
{
    pow10_limits();
    if p <= 38 {
        pow10_monotonic(p as nat, 38);
    } else {
        pow10_monotonic(39, p as nat);
    }
}

/// The signed power of ten is the exact one up to 10^38, where it agrees
/// with the unsigned one, and -1 from 10^39 on.
pub proof fn ten_pow_i128_values(p: u32)
    ensures
        p <= MAX_EXACT_POW10 ==> spec_ten_pow_i128(p) == pow10(p as nat) && spec_ten_pow_i128(p)
            == spec_ten_pow_u128(p) && 0 < pow10(p as nat) <= i128::MAX,
        p > MAX_EXACT_POW10 ==> spec_ten_pow_i128(p) == -1 && spec_ten_pow_u128(p) == u128::MAX,
{
    ten_pow_u128_values(p);
    pow10_limits();
    if p <= 38 {
        pow10_monotonic(p as nat, 38);
    }
}

// ===== Facts about the risk formulas =====

/// For debts that fit 64 bits nothing on the debt side of the admission
/// rule is cut off, and where the collateral side is, the rule holds
/// anyway: the rule is then the plain inequality
/// `(current + delta) * 10000 <= collateral_value * initial_ltv_bps` on
/// collateral that is worth something.
pub proof fn check_mint_is_exact_for_u64_debts(
    collateral_value_usd_6dp: u128,
    current_debt_pusd_6dp: u128,
    mint_delta_pusd_6dp: u128,
    initial_ltv_bps: u16,
)
    requires
        current_debt_pusd_6dp <= u64::MAX,
        mint_delta_pusd_6dp <= u64::MAX,
    ensures
        spec_check_mint_within_initial_ltv(
            collateral_value_usd_6dp,
            current_debt_pusd_6dp,
            mint_delta_pusd_6dp,
            initial_ltv_bps,
        ) <==> (collateral_value_usd_6dp != 0 && (current_debt_pusd_6dp + mint_delta_pusd_6dp)
            * 10_000 <= collateral_value_usd_6dp * initial_ltv_bps),
{
    let new_debt = current_debt_pusd_6dp + mint_delta_pusd_6dp;
    assert(new_debt * 10_000 <= u128::MAX);
}

/// A position without debt has the largest health there is, whatever its
/// collateral is worth; worthless collateral under any debt has health 0.
pub proof fn health_extremes(collateral_value_usd_6dp: u128, debt_pusd_6dp: u128)
    ensures
        spec_compute_health_bps(collateral_value_usd_6dp, 0) == u128::MAX,
        debt_pusd_6dp > 0 ==> spec_compute_health_bps(0, debt_pusd_6dp) == 0,
{
    if debt_pusd_6dp > 0 {
        assert(0u128 * BPS_DENOMINATOR == 0);
        assert(0u128 / debt_pusd_6dp == 0) by (nonlinear_arith)
            requires
                debt_pusd_6dp > 0,
        ;
    }
}

// ===== Saturating steps =====

/// Multiplies, and stops at the largest 128-bit number instead of
/// overflowing.
pub fn saturating_mul_u128(a: u128, b: u128) -> (r: u128)
    ensures
        r == saturate_u128(a * b),
{
    match a.checked_mul(b) {
        Some(v) => v,
        None => u128::MAX,
    }
}

/// Subtracts, and stops at either end of the 64-bit signed range instead
/// of overflowing.
pub fn saturating_sub_i64(a: i64, b: i64) -> (r: i64)
    ensures
        a - b < i64::MIN ==> r == i64::MIN,
        a - b > i64::MAX ==> r == i64::MAX,
        i64::MIN <= a - b <= i64::MAX ==> r == a - b,
{
    match a.checked_sub(b) {
        Some(v) => v,
        None => if b > 0 {
            i64::MIN
        } else {
            i64::MAX
        },
    }
}

// ===== Math helpers =====

/// 10^p.  Powers up to 10^19 come from a table; larger exponents are
/// multiplied out step by step and stop at the largest 128-bit number.
pub fn ten_pow_u128(p: u32) -> (r: u128)
    ensures
        r == spec_ten_pow_u128(p),
        r > 0,
{
    let pows: [u128; 20] = [
        1,
        10,
        100,
        1_000,
        10_000,
        100_000,
        1_000_000,
        10_000_000,
        100_000_000,
        1_000_000_000,
        10_000_000_000,
        100_000_000_000,
        1_000_000_000_000,
        10_000_000_000_000,
        100_000_000_000_000,
        1_000_000_000_000_000,
        10_000_000_000_000_000,
        100_000_000_000_000_000,
        1_000_000_000_000_000_000,
        10_000_000_000_000_000_000,
    ];
    proof {
        pow10_small_values();
        ten_pow_u128_values(p);
    }
    if (p as usize) < pows.len() {
        pows[p as usize]
    } else {
        let mut v: u128 = 1;
        let mut i: u32 = 0;
        while i < p
            invariant
                i <= p,
                v == spec_ten_pow_u128(i),
            decreases p - i,
        {
            proof {
                assert(pow10((i + 1) as nat) == 10 * pow10(i as nat));
            }
            v = saturating_mul_u128(v, 10);
            i += 1;
        }
        v
    }
}

/// 10^p as a signed value, for the small exponents of real prices: the
/// unsigned power reinterpreted, so that a power beyond 10^38 reads -1.
pub fn ten_pow_i128(p: u32) -> (r: i128)
    ensures
        r == spec_ten_pow_i128(p),
        r != 0,
{
    let v = ten_pow_u128(p);
    proof {
        ten_pow_u128_values(p);
        pow10_limits();
        if p <= 38 {
            pow10_monotonic(p as nat, 38);
        }
        assert(u128::MAX as i128 == -1i128) by (bit_vector);
    }
    #[verifier::truncate]
    (v as i128)
}

/// Value in 6-decimal USD of `amount` smallest units of a token with
/// `token_decimals` decimals, at `price_6dp` USD (6 decimals) per whole
/// token: `amount * price_6dp / 10^token_decimals`, rounded down.
/// `None` where the product does not fit 128 bits.
pub fn token_amount_to_usd_6dp(amount: u64, token_decimals: u8, price_6dp: u128) -> (r: Option<
    u128,
>)
    ensures
        r == spec_token_amount_to_usd_6dp(amount, token_decimals, price_6dp),
{
    let amt_u128 = amount as u128;
    let denom = ten_pow_u128(token_decimals as u32);
    if denom == 0 {
        return None;
    }
    match amt_u128.checked_mul(price_6dp) {
        None => None,
        Some(product) => product.checked_div(denom),
    }
}

/// Health in basis points: `collateral_value / debt * 10000`, rounded down.
/// Without debt the health is the largest 128-bit number.  Never fails:
/// the product stops at the largest 128-bit number.
pub fn compute_health_bps(collateral_value_usd_6dp: u128, debt_pusd_6dp: u128) -> (r: u128)
    ensures
        r == spec_compute_health_bps(collateral_value_usd_6dp, debt_pusd_6dp),
{
    if debt_pusd_6dp == 0 {
        return u128::MAX;
    }
    saturating_mul_u128(collateral_value_usd_6dp, BPS_DENOMINATOR) / debt_pusd_6dp
}

/// Whether minting `mint_delta_pusd_6dp` more keeps the debt within the
/// initial loan-to-value limit `initial_ltv_bps` (6600 = 66.00%).
pub fn check_mint_within_initial_ltv(
    collateral_value_usd_6dp: u128,
    current_debt_pusd_6dp: u128,
    mint_delta_pusd_6dp: u128,
    initial_ltv_bps: u16,
) -> (r: bool)
    ensures
        r == spec_check_mint_within_initial_ltv(
            collateral_value_usd_6dp,
            current_debt_pusd_6dp,
            mint_delta_pusd_6dp,
            initial_ltv_bps,
        ),
{
    let new_debt = current_debt_pusd_6dp.saturating_add(mint_delta_pusd_6dp);
    if collateral_value_usd_6dp == 0 {
        return false;
    }
    saturating_mul_u128(new_debt, BPS_DENOMINATOR) <= saturating_mul_u128(
        collateral_value_usd_6dp,
        initial_ltv_bps as u128,
    )
}

/// Whether the position's health is at least the maintenance threshold,
/// that is, whether it is safe from liquidation.
pub fn is_above_maintenance(
    collateral_value_usd_6dp: u128,
    debt_pusd_6dp: u128,
    maintenance_ltv_bps: u16,
) -> (r: bool)
    ensures
        r == spec_is_above_maintenance(collateral_value_usd_6dp, debt_pusd_6dp, maintenance_ltv_bps),
{
    let health_bps = compute_health_bps(collateral_value_usd_6dp, debt_pusd_6dp);
    health_bps >= maintenance_ltv_bps as u128
}

/// Adds the liquidation bonus to an amount of collateral:
/// `amount * (1 + bonus_bps / 10000)`, rounded down.  `None` where the
/// intermediate product does not fit 128 bits.
pub fn apply_liquidation_bonus_bps(amount: u128, bonus_bps: u16) -> (r: Option<u128>)
    ensures
        r == spec_apply_liquidation_bonus_bps(amount, bonus_bps),
{
    let num = BPS_DENOMINATOR.saturating_add(bonus_bps as u128);
    match amount.checked_mul(num) {
        None => None,
        Some(product) => product.checked_div(BPS_DENOMINATOR),
    }
}

// ===== Oracle price: operations =====

impl Default for OraclePrice {
    fn default() -> (r: OraclePrice)
        ensures
            r == (OraclePrice { price: 0, expo: 0, conf: 0, publish_time: 0 }),
    {
        OraclePrice { price: 0, expo: 0, conf: 0, publish_time: 0 }
    }
}

impl OraclePrice {
    /// A price is fresh at `now_ts` when it was published, at a positive
    /// time, no more than `max_age_secs` before.
    pub open spec fn spec_is_fresh(&self, now_ts: i64, max_age_secs: i64) -> bool {
        self.publish_time > 0 && now_ts - self.publish_time <= max_age_secs
    }

    /// The price in 6-decimal USD with its ok flag: the mantissa times
    /// `10^(expo + 6)`, or, for a negative `expo + 6`, divided by
    /// `10^-(expo + 6)` and rounded down.  Not ok, with value 0, for a
    /// mantissa that is not positive and where the product does not fit
    /// 127 bits.
    pub open spec fn spec_to_usd_6dp(&self) -> (u128, bool) {
        let target_exp: int = self.expo + PUSD_DECIMALS;
        if self.price <= 0 {
            (0u128, false)
        } else if target_exp >= 0 {
            if target_exp <= MAX_EXACT_POW10 && self.price * pow10(target_exp as nat)
                <= i128::MAX {
                ((self.price * pow10(target_exp as nat)) as u128, true)
            } else {
                (0u128, false)
            }
        } else {
            ((self.price as int / (spec_ten_pow_u128((-target_exp) as u32) as int)) as u128, true)
        }
    }

    /// Whether the price is fresh at `now_ts` under the limit
    /// `max_age_secs`.  Reports; never fails.
    pub fn is_fresh(&self, now_ts: i64, max_age_secs: i64) -> (r: bool)
        ensures
            r == self.spec_is_fresh(now_ts, max_age_secs),
    {
        if self.publish_time <= 0 {
            return false;
        }
        saturating_sub_i64(now_ts, self.publish_time) <= max_age_secs
    }

    /// The price as 6-decimal USD, and whether the conversion is ok.
    pub fn to_usd_6dp(&self) -> (r: (u128, bool))
        ensures
            r == self.spec_to_usd_6dp(),
    {
        if self.price <= 0 {
            return (0, false);
        }
        let price_i128 = self.price as i128;
        let target_exp = self.expo as i128 + PUSD_DECIMALS as i128;

        if target_exp >= 0 {
            let pow = ten_pow_i128(target_exp as u32);
            proof {
                ten_pow_i128_values(target_exp as u32);
            }
            match price_i128.checked_mul(pow) {
                Some(x) => if x >= 0 {
                    (x as u128, true)
                } else {
                    (0, false)
                },
                None => (0, false),
            }
        } else {
            let pow = ten_pow_i128((-target_exp) as u32);
            if pow == 0 {
                return (0, false);
            }
            if price_i128 <= 0 {
                return (0, false);
            }
            proof {
                ten_pow_i128_values((-target_exp) as u32);
                assert((-1i128) as u128 == u128::MAX) by (bit_vector);
            }
            let divisor = #[verifier::truncate]
            (pow as u128);
            match (price_i128 as u128).checked_div(divisor) {
                Some(q) => (q, true),
                None => (0, true),
            }
        }
    }
}

// ===== Events =====

/// The protocol record was created.
#[derive(Clone, Copy, Debug, PartialEq, Eq)]
pub struct Initialized {
    /// The protocol record.
    pub protocol: Pubkey,
    /// The stablecoin asset.
    pub pusd_mint: Pubkey,
    /// The governing authority.
    pub authority: Pubkey,
    /// Global debt ceiling, 6 decimals.
    pub global_debt_ceiling: u64,
}

/// A collateral type was registered.
#[derive(Clone, Copy, Debug, PartialEq, Eq)]
pub struct CollateralAdded {
    pub protocol: Pubkey,
    pub collateral_mint: Pubkey,
    pub vault: Pubkey,
    pub initial_ltv_bps: u16,
    pub maintenance_ltv_bps: u16,
    pub liq_bonus_bps: u16,
    pub debt_ceiling: u64,
}

/// Stablecoin was minted against a position.
#[derive(Clone, Copy, Debug, PartialEq, Eq)]
pub struct Minted {
    pub owner: Pubkey,
    pub collateral_mint: Pubkey,
    pub minted_pusd_6dp: u64,
    pub new_debt_pusd_6dp: u64,
}

/// Debt of a position was repaid.
#[derive(Clone, Copy, Debug, PartialEq, Eq)]
pub struct Burned {
    pub owner: Pubkey,
    pub collateral_mint: Pubkey,
    pub burned_pusd_6dp: u64,
    pub new_debt_pusd_6dp: u64,
}

/// A position was liquidated, in part or in whole.
#[derive(Clone, Copy, Debug, PartialEq, Eq)]
pub struct Liquidated {
    pub liquidator: Pubkey,
    pub owner: Pubkey,
    pub collateral_mint: Pubkey,
    pub repaid_pusd_6dp: u64,
    pub seized_collateral_amount: u64,
}

/// Minting was paused or resumed.
#[derive(Clone, Copy, Debug, PartialEq, Eq)]
pub struct PauseToggled {
    pub protocol: Pubkey,
    pub paused: bool,
}

/// A parameter of the protocol changed.
#[derive(Clone, Copy, Debug, PartialEq, Eq)]
pub struct ParameterUpdated {
    pub protocol: Pubkey,
    /// A short label of the parameter, such as "ltv" or "debt_cap".
    pub field: [u8; 16],
    pub old_value: u64,
    pub new_value: u64,
}

} // verus!
