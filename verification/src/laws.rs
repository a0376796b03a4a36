//! What holds of the operations taken together.

use crate::accounts::Position;
use crate::errors::ErrorCode;
use crate::instructions::{
    min_u64, spec_handle_add_collateral, spec_handle_burn, spec_handle_liquidate,
    spec_handle_mint, spec_handle_open_or_fund_position, spec_handle_toggle_pause,
    spec_prepare_seize, spec_seize_amount, AddCollateral, BurnPusd, Liquidate, MintPusd,
    OpenOrFundPosition, TogglePause,
};
use crate::state::{
    check_mint_is_exact_for_u64_debts, spec_apply_liquidation_bonus_bps,
    spec_check_mint_within_initial_ltv, spec_ten_pow_u128, spec_token_amount_to_usd_6dp,
    Burned,
};
use vstd::prelude::*;

verus! {

/// Collateral a position holds as far as a deposit is concerned: none
/// while the position has never been written.
pub open spec fn collateral_before_deposit(ctx: OpenOrFundPosition) -> u64 {
    if ctx.position.owner.spec_is_default() {
        0
    } else {
        ctx.position.collateral_amount
    }
}

/// Deposits add up.  After a deposit of `d1` that succeeded, a deposit of
/// `d2` into the same position succeeds whenever the sum fits 64 bits, and
/// the position then holds what it held before plus `d1 + d2`: exactly
/// `d1 + d2` for a position that the first deposit created.
///
/// The caller must not be the all-zero identity: a position of that owner
/// reads as never written, and each deposit would create it anew.
pub proof fn deposits_add_up(ctx: OpenOrFundPosition, d1: u64, d2: u64, t1: i64, t2: i64)
    requires
        d1 > 0,
        d2 > 0,
        !ctx.owner.spec_is_default(),
        spec_handle_open_or_fund_position(ctx, d1, t1) is Ok,
        collateral_before_deposit(ctx) + d1 + d2 <= u64::MAX,
    ensures
        spec_handle_open_or_fund_position(
            spec_handle_open_or_fund_position(ctx, d1, t1)->Ok_0,
            d2,
            t2,
        ) is Ok,
        spec_handle_open_or_fund_position(
            spec_handle_open_or_fund_position(ctx, d1, t1)->Ok_0,
            d2,
            t2,
        )->Ok_0.position.collateral_amount == collateral_before_deposit(ctx) + d1 + d2,
{
}

/// A mint that succeeded was within the initial loan-to-value limit, and
/// the position still is afterwards: with `value` the collateral's value,
/// `debt * 10000 <= value * initial_ltv_bps` for the debt after the mint.
pub proof fn mint_keeps_initial_ltv(
    ctx: MintPusd,
    mint_pusd_6dp: u64,
    collateral_price_usd_6dp: u128,
    collateral_decimals: u8,
    now_ts: i64,
)
    requires
        spec_handle_mint(
            ctx,
            mint_pusd_6dp,
            collateral_price_usd_6dp,
            collateral_decimals,
            now_ts,
        ) is Ok,
    ensures
        ({
            let value = spec_token_amount_to_usd_6dp(
                ctx.position.collateral_amount,
                collateral_decimals,
                collateral_price_usd_6dp,
            );
            let after = spec_handle_mint(
                ctx,
                mint_pusd_6dp,
                collateral_price_usd_6dp,
                collateral_decimals,
                now_ts,
            )->Ok_0.0;
            let ltv = ctx.collateral_config.initial_ltv_bps;
            &&& value is Some
            &&& after.position.debt_pusd == ctx.position.debt_pusd + mint_pusd_6dp
            &&& after.position.collateral_amount == ctx.position.collateral_amount
            &&& spec_check_mint_within_initial_ltv(
                value->0,
                ctx.position.debt_pusd as u128,
                mint_pusd_6dp as u128,
                ltv,
            )
            &&& (ctx.position.debt_pusd + mint_pusd_6dp) * 10_000 <= value->0 * ltv
            &&& spec_check_mint_within_initial_ltv(value->0, after.position.debt_pusd as u128, 0, ltv)
            &&& after.position.debt_pusd * 10_000 <= value->0 * ltv
        }),
{
    let value = spec_token_amount_to_usd_6dp(
        ctx.position.collateral_amount,
        collateral_decimals,
        collateral_price_usd_6dp,
    );
    let after = spec_handle_mint(
        ctx,
        mint_pusd_6dp,
        collateral_price_usd_6dp,
        collateral_decimals,
        now_ts,
    )->Ok_0.0;
    let ltv = ctx.collateral_config.initial_ltv_bps;
    check_mint_is_exact_for_u64_debts(
        value->0,
        ctx.position.debt_pusd as u128,
        mint_pusd_6dp as u128,
        ltv,
    );
    check_mint_is_exact_for_u64_debts(value->0, after.position.debt_pusd as u128, 0, ltv);
}

/// Repaying an amount and minting the same amount again restores the
/// debt: where a burn succeeded and a mint of the identical amount on the
/// position as the burn left it succeeds, the debt is what it was before
/// the burn.
pub proof fn burn_then_mint_restores_debt(
    burn: BurnPusd,
    mint: MintPusd,
    amount: u64,
    collateral_price_usd_6dp: u128,
    collateral_decimals: u8,
    burn_ts: i64,
    mint_ts: i64,
)
    requires
        spec_handle_burn(burn, amount, burn_ts) is Ok,
        mint.position == spec_handle_burn(burn, amount, burn_ts)->Ok_0.0.position,
        spec_handle_mint(mint, amount, collateral_price_usd_6dp, collateral_decimals, mint_ts) is Ok,
    ensures
        spec_handle_mint(
            mint,
            amount,
            collateral_price_usd_6dp,
            collateral_decimals,
            mint_ts,
        )->Ok_0.0.position.debt_pusd == burn.position.debt_pusd,
        spec_handle_mint(
            mint,
            amount,
            collateral_price_usd_6dp,
            collateral_decimals,
            mint_ts,
        )->Ok_0.0.position.collateral_amount == burn.position.collateral_amount,
{
}

/// The seized amount is never more than the position's collateral and
/// never zero, and it is exactly the position's collateral whenever the
/// repayment priced into collateral and raised by the bonus exceeds it.
pub proof fn seize_is_capped_at_collateral(
    repay: u64,
    price_6dp: u128,
    collateral_decimals: u8,
    liq_bonus_bps: u16,
    collateral_amount: u64,
)
    requires
        spec_seize_amount(
            repay,
            price_6dp,
            collateral_decimals,
            liq_bonus_bps,
            collateral_amount,
        ) is Ok,
    ensures
        ({
            let seize = spec_seize_amount(
                repay,
                price_6dp,
                collateral_decimals,
                liq_bonus_bps,
                collateral_amount,
            )->Ok_0;
            let base_tokens = ((repay * spec_ten_pow_u128(collateral_decimals as u32)) / (
            price_6dp as int)) as u128;
            let with_bonus = spec_apply_liquidation_bonus_bps(base_tokens, liq_bonus_bps);
            &&& 0 < seize <= collateral_amount
            &&& with_bonus is Some
            &&& with_bonus->0 > collateral_amount ==> seize == collateral_amount
            &&& with_bonus->0 <= collateral_amount ==> seize == with_bonus->0
        }),
{
}

/// A liquidation that succeeded took from the position no more collateral
/// than it held and no more debt than it owed, and left the rest: the
/// collateral after it is the collateral before less the seized amount,
/// and the seized amount is the one of `spec_seize_amount`.
pub proof fn liquidation_takes_no_more_than_held(
    ctx: Liquidate,
    repay_pusd_6dp: u64,
    collateral_price_usd_6dp: u128,
    collateral_decimals: u8,
)
    requires
        spec_handle_liquidate(
            ctx,
            repay_pusd_6dp,
            collateral_price_usd_6dp,
            collateral_decimals,
        ) is Ok,
    ensures
        ({
            let (after, event) = spec_handle_liquidate(
                ctx,
                repay_pusd_6dp,
                collateral_price_usd_6dp,
                collateral_decimals,
            )->Ok_0;
            &&& 0 < event.seized_collateral_amount <= ctx.position.collateral_amount
            &&& 0 < event.repaid_pusd_6dp <= ctx.position.debt_pusd
            &&& spec_seize_amount(
                event.repaid_pusd_6dp,
                collateral_price_usd_6dp,
                collateral_decimals,
                ctx.collateral_config.liq_bonus_bps,
                ctx.position.collateral_amount,
            ) == Ok::<u64, ErrorCode>(event.seized_collateral_amount)
            &&& after.position.collateral_amount == ctx.position.collateral_amount
                - event.seized_collateral_amount
            &&& after.position.debt_pusd == ctx.position.debt_pusd - event.repaid_pusd_6dp
        }),
{
    let transfer = spec_prepare_seize(
        ctx,
        repay_pusd_6dp,
        collateral_price_usd_6dp,
        collateral_decimals,
    );
    assert(transfer is Ok);
    if ctx.position.debt_pusd == 0 {
        // a position without debt has the largest health and is not liquidatable
        assert(false);
    }
}

/// Repaying more than is owed is refused: a burn by the position's owner
/// of an amount above the debt ends with `MathUnderflow`, on whatever
/// accounts pass the binding check, and so leaves the debt as it was.
pub proof fn burn_refuses_more_than_debt(ctx: BurnPusd, burn_pusd_6dp: u64, now_ts: i64)
    requires
        ctx.spec_check_accounts() is Ok,
        ctx.position.owner == ctx.owner,
        burn_pusd_6dp > ctx.position.debt_pusd,
    ensures
        spec_handle_burn(ctx, burn_pusd_6dp, now_ts) == Err::<(BurnPusd, Burned), ErrorCode>(
            ErrorCode::MathUnderflow,
        ),
{
}

/// A liquidation caps the repayment where a burn refuses it: a
/// liquidation that succeeds on a request above the debt repays exactly
/// the debt and leaves the position without debt.
pub proof fn liquidation_caps_repayment(
    ctx: Liquidate,
    repay_pusd_6dp: u64,
    collateral_price_usd_6dp: u128,
    collateral_decimals: u8,
)
    requires
        spec_handle_liquidate(
            ctx,
            repay_pusd_6dp,
            collateral_price_usd_6dp,
            collateral_decimals,
        ) is Ok,
    ensures
        ({
            let (after, event) = spec_handle_liquidate(
                ctx,
                repay_pusd_6dp,
                collateral_price_usd_6dp,
                collateral_decimals,
            )->Ok_0;
            &&& event.repaid_pusd_6dp == min_u64(repay_pusd_6dp, ctx.position.debt_pusd)
            &&& repay_pusd_6dp > ctx.position.debt_pusd ==> event.repaid_pusd_6dp
                == ctx.position.debt_pusd && after.position.debt_pusd == 0
            &&& repay_pusd_6dp <= ctx.position.debt_pusd ==> after.position.debt_pusd
                == ctx.position.debt_pusd - repay_pusd_6dp
        }),
{
}

// ===== What an operation may change =====

/// The same position but for its collateral, its debt and its accrual
/// time: owner, collateral configuration and bump are those of `before`.
pub open spec fn same_position(before: Position, after: Position) -> bool {
    &&& after.owner == before.owner
    &&& after.collateral_config == before.collateral_config
    &&& after.bump == before.bump
}

/// A deposit into a position that exists raises its collateral by the
/// deposit and changes nothing else: not the debt, nor the owner, nor the
/// collateral configuration the position refers to.
pub proof fn deposit_raises_collateral_only(ctx: OpenOrFundPosition, deposit_amount: u64, now_ts: i64)
    requires
        spec_handle_open_or_fund_position(ctx, deposit_amount, now_ts) is Ok,
        !ctx.spec_opens_position(),
    ensures
        ({
            let after = spec_handle_open_or_fund_position(ctx, deposit_amount, now_ts)->Ok_0;
            &&& after.position.collateral_amount == ctx.position.collateral_amount
                + deposit_amount
            &&& after.position.debt_pusd == ctx.position.debt_pusd
            &&& after.position.last_accrual_ts == ctx.position.last_accrual_ts
            &&& same_position(ctx.position, after.position)
            &&& after.collateral_config == ctx.collateral_config
        }),
{
}

/// A mint raises the debt by the minted amount and leaves the collateral,
/// the owner and the collateral configuration of the position alone; the
/// protocol and the collateral configuration are not changed either.
pub proof fn mint_raises_debt_only(
    ctx: MintPusd,
    mint_pusd_6dp: u64,
    collateral_price_usd_6dp: u128,
    collateral_decimals: u8,
    now_ts: i64,
)
    requires
        spec_handle_mint(
            ctx,
            mint_pusd_6dp,
            collateral_price_usd_6dp,
            collateral_decimals,
            now_ts,
        ) is Ok,
    ensures
        ({
            let after = spec_handle_mint(
                ctx,
                mint_pusd_6dp,
                collateral_price_usd_6dp,
                collateral_decimals,
                now_ts,
            )->Ok_0.0;
            &&& after.position.debt_pusd == ctx.position.debt_pusd + mint_pusd_6dp
            &&& after.position.collateral_amount == ctx.position.collateral_amount
            &&& after.position.last_accrual_ts == now_ts
            &&& same_position(ctx.position, after.position)
            &&& after.protocol == ctx.protocol
            &&& after.collateral_config == ctx.collateral_config
        }),
{
}

/// A burn lowers the debt by the burned amount and leaves the collateral,
/// the owner and the collateral configuration of the position alone.
pub proof fn burn_lowers_debt_only(ctx: BurnPusd, burn_pusd_6dp: u64, now_ts: i64)
    requires
        spec_handle_burn(ctx, burn_pusd_6dp, now_ts) is Ok,
    ensures
        ({
            let after = spec_handle_burn(ctx, burn_pusd_6dp, now_ts)->Ok_0.0;
            &&& after.position.debt_pusd == ctx.position.debt_pusd - burn_pusd_6dp
            &&& after.position.collateral_amount == ctx.position.collateral_amount
            &&& after.position.last_accrual_ts == now_ts
            &&& same_position(ctx.position, after.position)
            &&& after.collateral_config == ctx.collateral_config
        }),
{
}

/// A liquidation leaves the owner, the collateral configuration and the
/// accrual time of the position alone.
pub proof fn liquidation_keeps_the_position_bound(
    ctx: Liquidate,
    repay_pusd_6dp: u64,
    collateral_price_usd_6dp: u128,
    collateral_decimals: u8,
)
    requires
        spec_handle_liquidate(
            ctx,
            repay_pusd_6dp,
            collateral_price_usd_6dp,
            collateral_decimals,
        ) is Ok,
    ensures
        ({
            let after = spec_handle_liquidate(
                ctx,
                repay_pusd_6dp,
                collateral_price_usd_6dp,
                collateral_decimals,
            )->Ok_0.0;
            &&& same_position(ctx.position, after.position)
            &&& after.position.last_accrual_ts == ctx.position.last_accrual_ts
            &&& after.collateral_config == ctx.collateral_config
        }),
{
}

/// Pausing and resuming change the pause flag and nothing else of the
/// protocol: its authority, its asset and its ceiling stay.
pub proof fn pause_changes_the_flag_only(ctx: TogglePause, paused: bool)
    requires
        spec_handle_toggle_pause(ctx, paused) is Ok,
    ensures
        ({
            let after = spec_handle_toggle_pause(ctx, paused)->Ok_0.0;
            &&& after.protocol.mint_paused == paused
            &&& after.protocol.authority == ctx.protocol.authority
            &&& after.protocol.pusd_mint == ctx.protocol.pusd_mint
            &&& after.protocol.global_debt_ceiling == ctx.protocol.global_debt_ceiling
            &&& after.protocol.bump == ctx.protocol.bump
        }),
{
}

/// A collateral configuration that was added is well formed: both limits
/// are positive and the maintenance threshold does not exceed the initial
/// limit.  The protocol is not changed.
pub proof fn added_collateral_is_well_formed(
    ctx: AddCollateral,
    initial_ltv_bps: u16,
    maintenance_ltv_bps: u16,
    liq_bonus_bps: u16,
    debt_ceiling: u64,
    active: bool,
)
    requires
        spec_handle_add_collateral(
            ctx,
            initial_ltv_bps,
            maintenance_ltv_bps,
            liq_bonus_bps,
            debt_ceiling,
            active,
        ) is Ok,
    ensures
        ({
            let after = spec_handle_add_collateral(
                ctx,
                initial_ltv_bps,
                maintenance_ltv_bps,
                liq_bonus_bps,
                debt_ceiling,
                active,
            )->Ok_0.0;
            &&& after.collateral_config.well_formed()
            &&& after.collateral_config.protocol == ctx.protocol_key
            &&& after.protocol == ctx.protocol
        }),
{
}

} // verus!
