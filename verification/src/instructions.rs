//! The operations of the engine.
//!
//! An operation reads the records it is handed, decides, and changes them.
//! Moving assets is not the engine's work: where an operation needs tokens
//! transferred, minted or burned, a `prepare_*` function checks what can be
//! checked beforehand and returns the call to make, and the `handle_*`
//! function then commits the change to the records.  The caller issues the
//! token call between the two and gives up the whole operation if it
//! fails.  Each `handle_*` function repeats the checks of its preparation,
//! so its contract stands alone; on any error it leaves the records as
//! they were.

use crate::accounts::{
    collateral_seeds, protocol_seeds, seeds_view, spec_collateral_seeds, spec_protocol_seeds,
    CollateralConfig, Position, Protocol,
};
use crate::errors::ErrorCode;
use crate::pubkey::Pubkey;
use crate::state::{
    apply_liquidation_bonus_bps, check_mint_within_initial_ltv, is_above_maintenance,
    spec_apply_liquidation_bonus_bps, spec_check_mint_within_initial_ltv,
    spec_is_above_maintenance, spec_ten_pow_u128, spec_token_amount_to_usd_6dp, ten_pow_u128,
    token_amount_to_usd_6dp, Burned, CollateralAdded, Initialized, Liquidated, Minted,
    PauseToggled,
};
use vstd::prelude::*;

verus! {

// ===============================
// Calls to the token facility
// ===============================

/// Move `amount` of an asset from one token account to another, as
/// `authority`.
#[derive(Clone, Copy, Debug, PartialEq, Eq)]
pub struct TokenTransfer {
    pub from: Pubkey,
    pub to: Pubkey,
    pub authority: Pubkey,
    pub amount: u64,
}

/// Mint `amount` of the asset `mint` to the token account `to`, as
/// `authority`.
#[derive(Clone, Copy, Debug, PartialEq, Eq)]
pub struct TokenMintTo {
    pub mint: Pubkey,
    pub to: Pubkey,
    pub authority: Pubkey,
    pub amount: u64,
}

/// Burn `amount` of the asset `mint` from the token account `from`, as
/// `authority`.
#[derive(Clone, Copy, Debug, PartialEq, Eq)]
pub struct TokenBurn {
    pub mint: Pubkey,
    pub from: Pubkey,
    pub authority: Pubkey,
    pub amount: u64,
}

/// The smaller of two amounts.
pub open spec fn min_u64(a: u64, b: u64) -> u64 {
    if a <= b {
        a
    } else {
        b
    }
}

// ===============================
// Creating the protocol
// ===============================

/// What `initialize` reads and changes.
#[derive(Clone, Copy, Debug, PartialEq, Eq)]
pub struct Initialize {
    /// The record to fill in.
    pub protocol: Protocol,
    /// Address of the protocol record.
    pub protocol_key: Pubkey,
    /// Bump of that address, where the store found one.
    pub protocol_bump: Option<u8>,
    /// The caller, who signs and becomes the protocol's authority.
    pub authority: Pubkey,
    /// The stablecoin asset to bind.
    pub pusd_mint: Pubkey,
    /// Who may mint that asset, if anyone.
    pub pusd_mint_authority: Option<Pubkey>,
}

/// Creation of the protocol: the records after it and the event it emits,
/// or the error it ends with.
///
/// Fails with `InvalidPda` where the record's address has no bump, and
/// with `Unauthorized` unless the protocol record itself is the one that
/// may mint the stablecoin.  Else the record holds the caller as
/// authority, the asset and the ceiling, and minting is not paused.
pub open spec fn spec_handle_initialize(ctx: Initialize, global_debt_ceiling: u64) -> Result<
    (Initialize, Initialized),
    ErrorCode,
> {
    match ctx.protocol_bump {
        None => Err(ErrorCode::InvalidPda),
        Some(bump) => if ctx.pusd_mint_authority != Some(ctx.protocol_key) {
            Err(ErrorCode::Unauthorized)
        } else {
            Ok(
                (
                    Initialize {
                        protocol: Protocol {
                            authority: ctx.authority,
                            bump: bump,
                            pusd_mint: ctx.pusd_mint,
                            global_debt_ceiling: global_debt_ceiling,
                            mint_paused: false,
                        },
                        ..ctx
                    },
                    Initialized {
                        protocol: ctx.protocol_key,
                        pusd_mint: ctx.pusd_mint,
                        authority: ctx.authority,
                        global_debt_ceiling: global_debt_ceiling,
                    },
                ),
            )
        },
    }
}

/// Creates the protocol record and binds the stablecoin asset to it.
pub fn handle_initialize(ctx: &mut Initialize, global_debt_ceiling: u64) -> (r: Result<
    Initialized,
    ErrorCode,
>)
    ensures
        match spec_handle_initialize(*old(ctx), global_debt_ceiling) {
            Ok((after, event)) => r == Ok::<Initialized, ErrorCode>(event) && *final(ctx) == after,
            Err(e) => r == Err::<Initialized, ErrorCode>(e) && *final(ctx) == *old(ctx),
        },
{
    let bump = match ctx.protocol_bump {
        Some(bump) => bump,
        None => {
            return Err(ErrorCode::InvalidPda);
        },
    };
    // The asset's mint authority must be the protocol record
    let bound = match ctx.pusd_mint_authority {
        Some(mint_authority) => mint_authority == ctx.protocol_key,
        None => false,
    };
    if !bound {
        return Err(ErrorCode::Unauthorized);
    }
    ctx.protocol.authority = ctx.authority;
    ctx.protocol.bump = bump;
    ctx.protocol.pusd_mint = ctx.pusd_mint;
    ctx.protocol.global_debt_ceiling = global_debt_ceiling;
    ctx.protocol.mint_paused = false;

    Ok(
        Initialized {
            protocol: ctx.protocol_key,
            pusd_mint: ctx.protocol.pusd_mint,
            authority: ctx.protocol.authority,
            global_debt_ceiling,
        },
    )
}

// ===============================
// Adding a collateral type
// ===============================

/// What `add_collateral` reads and changes.
#[derive(Clone, Copy, Debug, PartialEq, Eq)]
pub struct AddCollateral {
    /// The protocol record.
    pub protocol: Protocol,
    /// Address of the protocol record.
    pub protocol_key: Pubkey,
    /// The caller, who signs.
    pub authority: Pubkey,
    /// The collateral asset to register.
    pub collateral_mint: Pubkey,
    /// The custody vault for it, which exists already.
    pub vault: Pubkey,
    /// The record to fill in.
    pub collateral_config: CollateralConfig,
    /// Bump of that record's derived address, where the store found one.
    pub collateral_config_bump: Option<u8>,
}

impl AddCollateral {
    /// The caller is the protocol's authority, else `Unauthorized`.
    pub open spec fn spec_check_accounts(&self) -> Result<(), ErrorCode> {
        if self.protocol.authority != self.authority {
            Err(ErrorCode::Unauthorized)
        } else {
            Ok(())
        }
    }

    /// Checks that the caller is the protocol's authority.
    pub fn check_accounts(&self) -> (r: Result<(), ErrorCode>)
        ensures
            r == self.spec_check_accounts(),
    {
        if !(self.protocol.authority == self.authority) {
            return Err(ErrorCode::Unauthorized);
        }
        Ok(())
    }
}

/// Registration of a collateral type: the records after it and the event
/// it emits, or the error it ends with.
///
/// Fails with `Unauthorized` unless the caller is the protocol's
/// authority, with `InvalidParameter` unless both loan-to-value limits are
/// positive and the maintenance threshold does not exceed the initial
/// limit, and with `InvalidPda` where the record's address has no bump.
/// Else the record holds the protocol, the asset, the vault and the
/// parameters as given; nothing else changes.
pub open spec fn spec_handle_add_collateral(
    ctx: AddCollateral,
    initial_ltv_bps: u16,
    maintenance_ltv_bps: u16,
    liq_bonus_bps: u16,
    debt_ceiling: u64,
    active: bool,
) -> Result<(AddCollateral, CollateralAdded), ErrorCode> {
    match ctx.spec_check_accounts() {
        Err(e) => Err(e),
        Ok(_) => if initial_ltv_bps == 0 || maintenance_ltv_bps == 0 {
            Err(ErrorCode::InvalidParameter)
        } else if maintenance_ltv_bps > initial_ltv_bps {
            Err(ErrorCode::InvalidParameter)
        } else {
            match ctx.collateral_config_bump {
                None => Err(ErrorCode::InvalidPda),
                Some(bump) => Ok(
                    (
                        AddCollateral {
                            collateral_config: CollateralConfig {
                                protocol: ctx.protocol_key,
                                collateral_mint: ctx.collateral_mint,
                                vault: ctx.vault,
                                initial_ltv_bps: initial_ltv_bps,
                                maintenance_ltv_bps: maintenance_ltv_bps,
                                liq_bonus_bps: liq_bonus_bps,
                                debt_ceiling: debt_ceiling,
                                active: active,
                                bump: bump,
                            },
                            ..ctx
                        },
                        CollateralAdded {
                            protocol: ctx.protocol_key,
                            collateral_mint: ctx.collateral_mint,
                            vault: ctx.vault,
                            initial_ltv_bps: initial_ltv_bps,
                            maintenance_ltv_bps: maintenance_ltv_bps,
                            liq_bonus_bps: liq_bonus_bps,
                            debt_ceiling: debt_ceiling,
                        },
                    ),
                ),
            }
        },
    }
}

/// Registers a collateral type and its vault.
pub fn handle_add_collateral(
    ctx: &mut AddCollateral,
    initial_ltv_bps: u16,
    maintenance_ltv_bps: u16,
    liq_bonus_bps: u16,
    debt_ceiling: u64,
    active: bool,
) -> (r: Result<CollateralAdded, ErrorCode>)
    ensures
        match spec_handle_add_collateral(
            *old(ctx),
            initial_ltv_bps,
            maintenance_ltv_bps,
            liq_bonus_bps,
            debt_ceiling,
            active,
        ) {
            Ok((after, event)) => r == Ok::<CollateralAdded, ErrorCode>(event) && *final(ctx)
                == after && final(ctx).collateral_config.well_formed(),
            Err(e) => r == Err::<CollateralAdded, ErrorCode>(e) && *final(ctx) == *old(ctx),
        },
{
    match ctx.check_accounts() {
        Err(e) => {
            return Err(e);
        },
        Ok(_) => {},
    }
    // Basic param checks

    if !(initial_ltv_bps > 0 && maintenance_ltv_bps > 0) {
        return Err(ErrorCode::InvalidParameter);
    }
    if !(maintenance_ltv_bps <= initial_ltv_bps) {
        return Err(ErrorCode::InvalidParameter);
    }
    let bump = match ctx.collateral_config_bump {
        Some(bump) => bump,
        None => {
            return Err(ErrorCode::InvalidPda);
        },
    };
    ctx.collateral_config.protocol = ctx.protocol_key;
    ctx.collateral_config.collateral_mint = ctx.collateral_mint;
    ctx.collateral_config.vault = ctx.vault;
    ctx.collateral_config.initial_ltv_bps = initial_ltv_bps;
    ctx.collateral_config.maintenance_ltv_bps = maintenance_ltv_bps;
    ctx.collateral_config.liq_bonus_bps = liq_bonus_bps;
    ctx.collateral_config.debt_ceiling = debt_ceiling;
    ctx.collateral_config.active = active;
    ctx.collateral_config.bump = bump;

    Ok(
        CollateralAdded {
            protocol: ctx.collateral_config.protocol,
            collateral_mint: ctx.collateral_config.collateral_mint,
            vault: ctx.collateral_config.vault,
            initial_ltv_bps,
            maintenance_ltv_bps,
            liq_bonus_bps,
            debt_ceiling,
        },
    )
}

// ===============================
// Opening and funding a position
// ===============================

/// What `open_or_fund_position` reads and changes.
#[derive(Clone, Copy, Debug, PartialEq, Eq)]
pub struct OpenOrFundPosition {
    /// Address of the protocol record.
    pub protocol_key: Pubkey,
    /// The collateral asset that is deposited.
    pub collateral_mint: Pubkey,
    /// Configuration of that collateral.
    pub collateral_config: CollateralConfig,
    /// Address of that configuration.
    pub collateral_config_key: Pubkey,
    /// Token account the deposit is taken from.
    pub user_collateral_ata: Pubkey,
    /// The custody vault handed in.
    pub vault: Pubkey,
    /// The position of the caller in this collateral; its owner is all
    /// zero if it has never been written.
    pub position: Position,
    /// Bump of the position's derived address, where the store found one.
    pub position_bump: Option<u8>,
    /// The caller, who signs.
    pub owner: Pubkey,
}

impl OpenOrFundPosition {
    /// The bindings among the accounts handed in: the collateral
    /// configuration belongs to the protocol (else `Unauthorized`), it is
    /// the configuration of the deposited asset (else `MintMismatch`), and
    /// the vault is the one it names (else `VaultMismatch`).
    pub open spec fn spec_check_accounts(&self) -> Result<(), ErrorCode> {
        if self.collateral_config.protocol != self.protocol_key {
            Err(ErrorCode::Unauthorized)
        } else if self.collateral_config.collateral_mint != self.collateral_mint {
            Err(ErrorCode::MintMismatch)
        } else if self.vault != self.collateral_config.vault {
            Err(ErrorCode::VaultMismatch)
        } else {
            Ok(())
        }
    }

    /// Whether the deposit will create the position, so that the time of
    /// the deposit is recorded in it.
    pub open spec fn spec_opens_position(&self) -> bool {
        self.position.owner.spec_is_default()
    }

    /// Checks the bindings among the accounts handed in.
    pub fn check_accounts(&self) -> (r: Result<(), ErrorCode>)
        ensures
            r == self.spec_check_accounts(),
    {
        if !(self.collateral_config.protocol == self.protocol_key) {
            return Err(ErrorCode::Unauthorized);
        }
        if !(self.collateral_config.collateral_mint == self.collateral_mint) {
            return Err(ErrorCode::MintMismatch);
        }
        if !(self.vault == self.collateral_config.vault) {
            return Err(ErrorCode::VaultMismatch);
        }
        Ok(())
    }

    /// Whether the deposit will create the position.
    pub fn opens_position(&self) -> (r: bool)
        ensures
            r == self.spec_opens_position(),
    {
        self.position.owner.is_default()
    }
}

/// The first step of a deposit: the transfer of `deposit_amount` from the
/// caller's token account into the vault.  Fails on a broken account
/// binding, with `ZeroAmount` on a zero deposit, and with
/// `CollateralInactive` on deactivated collateral.
pub open spec fn spec_prepare_open_or_fund_position(
    ctx: OpenOrFundPosition,
    deposit_amount: u64,
) -> Result<TokenTransfer, ErrorCode> {
    match ctx.spec_check_accounts() {
        Err(e) => Err(e),
        Ok(_) => if deposit_amount == 0 {
            Err(ErrorCode::ZeroAmount)
        } else if !ctx.collateral_config.active {
            Err(ErrorCode::CollateralInactive)
        } else {
            Ok(
                TokenTransfer {
                    from: ctx.user_collateral_ata,
                    to: ctx.vault,
                    authority: ctx.owner,
                    amount: deposit_amount,
                },
            )
        },
    }
}

/// A whole deposit: the records after it, or the error it ends with.
///
/// A position that has never been written is created: it gets the caller
/// as owner, the collateral configuration, the deposit as its collateral,
/// no debt, `now_ts` as accrual time and the bump of its address (or the
/// deposit fails with `InvalidPda` where there is none).  A position that
/// exists must be the caller's (else `Unauthorized`) and has the deposit
/// added to its collateral (or the deposit fails with `MathOverflow`
/// where the sum does not fit 64 bits).  Nothing else changes.
pub open spec fn spec_handle_open_or_fund_position(
    ctx: OpenOrFundPosition,
    deposit_amount: u64,
    now_ts: i64,
) -> Result<OpenOrFundPosition, ErrorCode> {
    match spec_prepare_open_or_fund_position(ctx, deposit_amount) {
        Err(e) => Err(e),
        Ok(_) => if ctx.position.owner.spec_is_default() {
            match ctx.position_bump {
                None => Err(ErrorCode::InvalidPda),
                Some(bump) => Ok(
                    OpenOrFundPosition {
                        position: Position {
                            owner: ctx.owner,
                            collateral_config: ctx.collateral_config_key,
                            collateral_amount: deposit_amount,
                            debt_pusd: 0,
                            last_accrual_ts: now_ts,
                            bump: bump,
                        },
                        ..ctx
                    },
                ),
            }
        } else if ctx.position.owner != ctx.owner {
            Err(ErrorCode::Unauthorized)
        } else if ctx.position.collateral_amount + deposit_amount > u64::MAX {
            Err(ErrorCode::MathOverflow)
        } else {
            Ok(
                OpenOrFundPosition {
                    position: Position {
                        collateral_amount: (ctx.position.collateral_amount + deposit_amount) as u64,
                        ..ctx.position
                    },
                    ..ctx
                },
            )
        },
    }
}

/// The first step of a deposit: returns the transfer of the collateral
/// into the vault.
pub fn prepare_open_or_fund_position(ctx: &OpenOrFundPosition, deposit_amount: u64) -> (r: Result<
    TokenTransfer,
    ErrorCode,
>)
    ensures
        r == spec_prepare_open_or_fund_position(*ctx, deposit_amount),
{
    match ctx.check_accounts() {
        Err(e) => {
            return Err(e);
        },
        Ok(_) => {},
    }
    if !(deposit_amount > 0) {
        return Err(ErrorCode::ZeroAmount);
    }
    let cfg = &ctx.collateral_config;
    if !cfg.active {
        return Err(ErrorCode::CollateralInactive);
    }
    Ok(
        TokenTransfer {
            from: ctx.user_collateral_ata,
            to: ctx.vault,
            authority: ctx.owner,
            amount: deposit_amount,
        },
    )
}

/// Creates the caller's position, or adds to its collateral.  To be
/// called at time `now_ts`, once the transfer of
/// `prepare_open_or_fund_position` is done.
pub fn handle_open_or_fund_position(
    ctx: &mut OpenOrFundPosition,
    deposit_amount: u64,
    now_ts: i64,
) -> (r: Result<(), ErrorCode>)
    ensures
        match spec_handle_open_or_fund_position(*old(ctx), deposit_amount, now_ts) {
            Ok(after) => r == Ok::<(), ErrorCode>(()) && *final(ctx) == after,
            Err(e) => r == Err::<(), ErrorCode>(e) && *final(ctx) == *old(ctx),
        },
{
    match prepare_open_or_fund_position(ctx, deposit_amount) {
        Ok(_) => {},
        Err(e) => {
            return Err(e);
        },
    }
    // Initialize or update position

    if ctx.position.owner.is_default() {
        let bump = match ctx.position_bump {
            Some(bump) => bump,
            None => {
                return Err(ErrorCode::InvalidPda);
            },
        };
        ctx.position.owner = ctx.owner;
        ctx.position.collateral_config = ctx.collateral_config_key;
        ctx.position.collateral_amount = deposit_amount;
        ctx.position.debt_pusd = 0;
        ctx.position.last_accrual_ts = now_ts;
        ctx.position.bump = bump;
    } else {
        if !(ctx.position.owner == ctx.owner) {
            return Err(ErrorCode::Unauthorized);
        }
        let collateral_amount = match ctx.position.collateral_amount.checked_add(deposit_amount) {
            Some(collateral_amount) => collateral_amount,
            None => {
                return Err(ErrorCode::MathOverflow);
            },
        };
        ctx.position.collateral_amount = collateral_amount;
    }

    Ok(())
}

// ===============================
// Minting
// ===============================

/// What `mint` reads and changes.
#[derive(Clone, Copy, Debug, PartialEq, Eq)]
pub struct MintPusd {
    /// The protocol record.
    pub protocol: Protocol,
    /// Address of the protocol record; it signs for the mint.
    pub protocol_key: Pubkey,
    /// The stablecoin asset.
    pub pusd_mint: Pubkey,
    /// Configuration of the position's collateral.
    pub collateral_config: CollateralConfig,
    /// Address of that configuration.
    pub collateral_config_key: Pubkey,
    /// The custody vault handed in.
    pub vault: Pubkey,
    /// The position that takes on the debt.
    pub position: Position,
    /// Token account that receives the minted stablecoin.
    pub user_pusd_ata: Pubkey,
    /// The caller, who signs.
    pub owner: Pubkey,
}

impl MintPusd {
    /// The bindings among the accounts handed in: the collateral
    /// configuration belongs to the protocol (else `Unauthorized`), and the
    /// vault is the one it names (else `VaultMismatch`).
    pub open spec fn spec_check_accounts(&self) -> Result<(), ErrorCode> {
        if self.collateral_config.protocol != self.protocol_key {
            Err(ErrorCode::Unauthorized)
        } else if self.collateral_config.vault != self.vault {
            Err(ErrorCode::VaultMismatch)
        } else {
            Ok(())
        }
    }

    /// Checks the bindings among the accounts handed in.
    pub fn check_accounts(&self) -> (r: Result<(), ErrorCode>)
        ensures
            r == self.spec_check_accounts(),
    {
        if !(self.collateral_config.protocol == self.protocol_key) {
            return Err(ErrorCode::Unauthorized);
        }
        if !(self.collateral_config.vault == self.vault) {
            return Err(ErrorCode::VaultMismatch);
        }
        Ok(())
    }

    /// The seeds with which the protocol record signs for the mint.
    pub fn signer_seeds(&self) -> (seeds: Vec<Vec<u8>>)
        ensures
            seeds_view(seeds) == spec_protocol_seeds(self.protocol.authority, self.protocol.bump),
    {
        protocol_seeds(&self.protocol.authority, self.protocol.bump)
    }
}

/// Admission of a mint: the call that mints `mint_pusd_6dp` to the owner,
/// signed by the protocol record.
///
/// Fails, in this order, on a broken account binding, with `ZeroAmount`
/// on a zero amount, `MintPaused` while minting is paused,
/// `CollateralInactive` on deactivated collateral, `Unauthorized` unless
/// the caller owns the position, `UnsupportedCollateral` unless the
/// position refers to this collateral configuration, `MathOverflow` where
/// the collateral's value does not fit 128 bits, and `LtvExceeded` where
/// the new debt would pass the initial loan-to-value limit.
pub open spec fn spec_prepare_mint(
    ctx: MintPusd,
    mint_pusd_6dp: u64,
    collateral_price_usd_6dp: u128,
    collateral_decimals: u8,
) -> Result<TokenMintTo, ErrorCode> {
    match ctx.spec_check_accounts() {
        Err(e) => Err(e),
        Ok(_) => if mint_pusd_6dp == 0 {
            Err(ErrorCode::ZeroAmount)
        } else if ctx.protocol.mint_paused {
            Err(ErrorCode::MintPaused)
        } else if !ctx.collateral_config.active {
            Err(ErrorCode::CollateralInactive)
        } else if ctx.position.owner != ctx.owner {
            Err(ErrorCode::Unauthorized)
        } else if ctx.position.collateral_config != ctx.collateral_config_key {
            Err(ErrorCode::UnsupportedCollateral)
        } else {
            match spec_token_amount_to_usd_6dp(
                ctx.position.collateral_amount,
                collateral_decimals,
                collateral_price_usd_6dp,
            ) {
                None => Err(ErrorCode::MathOverflow),
                Some(value) => if !spec_check_mint_within_initial_ltv(
                    value,
                    ctx.position.debt_pusd as u128,
                    mint_pusd_6dp as u128,
                    ctx.collateral_config.initial_ltv_bps,
                ) {
                    Err(ErrorCode::LtvExceeded)
                } else {
                    Ok(
                        TokenMintTo {
                            mint: ctx.pusd_mint,
                            to: ctx.user_pusd_ata,
                            authority: ctx.protocol_key,
                            amount: mint_pusd_6dp,
                        },
                    )
                },
            }
        },
    }
}

/// A whole mint: the records after it and the event it emits, or the error
/// it ends with.  The position's debt grows by the minted amount (or the
/// mint fails with `MathOverflow` where that does not fit 64 bits) and its
/// accrual time becomes `now_ts`; nothing else changes.
pub open spec fn spec_handle_mint(
    ctx: MintPusd,
    mint_pusd_6dp: u64,
    collateral_price_usd_6dp: u128,
    collateral_decimals: u8,
    now_ts: i64,
) -> Result<(MintPusd, Minted), ErrorCode> {
    match spec_prepare_mint(ctx, mint_pusd_6dp, collateral_price_usd_6dp, collateral_decimals) {
        Err(e) => Err(e),
        Ok(_) => if ctx.position.debt_pusd + mint_pusd_6dp > u64::MAX {
            Err(ErrorCode::MathOverflow)
        } else {
            let new_debt = (ctx.position.debt_pusd + mint_pusd_6dp) as u64;
            Ok(
                (
                    MintPusd {
                        position: Position {
                            debt_pusd: new_debt,
                            last_accrual_ts: now_ts,
                            ..ctx.position
                        },
                        ..ctx
                    },
                    Minted {
                        owner: ctx.position.owner,
                        collateral_mint: ctx.collateral_config.collateral_mint,
                        minted_pusd_6dp: mint_pusd_6dp,
                        new_debt_pusd_6dp: new_debt,
                    },
                ),
            )
        },
    }
}

/// Admission of a mint: checks everything that can be checked before the
/// stablecoin is minted, and returns the mint call.
pub fn prepare_mint(
    ctx: &MintPusd,
    mint_pusd_6dp: u64,
    collateral_price_usd_6dp: u128,
    collateral_decimals: u8,
) -> (r: Result<TokenMintTo, ErrorCode>)
    ensures
        r == spec_prepare_mint(*ctx, mint_pusd_6dp, collateral_price_usd_6dp, collateral_decimals),
{
    match ctx.check_accounts() {
        Err(e) => {
            return Err(e);
        },
        Ok(_) => {},
    }
    if !(mint_pusd_6dp > 0) {
        return Err(ErrorCode::ZeroAmount);
    }
    let protocol = &ctx.protocol;
    if protocol.mint_paused {
        return Err(ErrorCode::MintPaused);
    }
    let cfg = &ctx.collateral_config;
    if !cfg.active {
        return Err(ErrorCode::CollateralInactive);
    }
    // Position must belong to owner and this collateral

    let pos = &ctx.position;
    if !(pos.owner == ctx.owner) {
        return Err(ErrorCode::Unauthorized);
    }
    if !(pos.collateral_config == ctx.collateral_config_key) {
        return Err(ErrorCode::UnsupportedCollateral);
    }
    // Compute collateral value and check LTV

    let collateral_value_6dp = match token_amount_to_usd_6dp(
        pos.collateral_amount,
        collateral_decimals,
        collateral_price_usd_6dp,
    ) {
        Some(value) => value,
        None => {
            return Err(ErrorCode::MathOverflow);
        },
    };
    let current_debt = pos.debt_pusd as u128;
    let mint_delta = mint_pusd_6dp as u128;
    let within_ltv = check_mint_within_initial_ltv(
        collateral_value_6dp,
        current_debt,
        mint_delta,
        cfg.initial_ltv_bps,
    );
    if !within_ltv {
        return Err(ErrorCode::LtvExceeded);
    }
    // The global debt ceiling is not enforced: no record tracks the debt
    // outstanding over all positions.
    Ok(
        TokenMintTo {
            mint: ctx.pusd_mint,
            to: ctx.user_pusd_ata,
            authority: ctx.protocol_key,
            amount: mint_pusd_6dp,
        },
    )
}

/// Mints PUSD against the position's collateral.  To be called at time
/// `now_ts`, once the mint call of `prepare_mint` is done.
pub fn handle_mint(
    ctx: &mut MintPusd,
    mint_pusd_6dp: u64,
    collateral_price_usd_6dp: u128,
    collateral_decimals: u8,
    now_ts: i64,
) -> (r: Result<Minted, ErrorCode>)
    ensures
        match spec_handle_mint(
            *old(ctx),
            mint_pusd_6dp,
            collateral_price_usd_6dp,
            collateral_decimals,
            now_ts,
        ) {
            Ok((after, event)) => r == Ok::<Minted, ErrorCode>(event) && *final(ctx) == after,
            Err(e) => r == Err::<Minted, ErrorCode>(e) && *final(ctx) == *old(ctx),
        },
{
    match prepare_mint(ctx, mint_pusd_6dp, collateral_price_usd_6dp, collateral_decimals) {
        Ok(_) => {},
        Err(e) => {
            return Err(e);
        },
    }
    // Update position debt

    let debt_pusd = match ctx.position.debt_pusd.checked_add(mint_pusd_6dp) {
        Some(debt_pusd) => debt_pusd,
        None => {
            return Err(ErrorCode::MathOverflow);
        },
    };
    ctx.position.debt_pusd = debt_pusd;
    ctx.position.last_accrual_ts = now_ts;

    Ok(
        Minted {
            owner: ctx.position.owner,
            collateral_mint: ctx.collateral_config.collateral_mint,
            minted_pusd_6dp: mint_pusd_6dp,
            new_debt_pusd_6dp: ctx.position.debt_pusd,
        },
    )
}

// ===============================
// Burning
// ===============================

/// What `burn` reads and changes.
#[derive(Clone, Copy, Debug, PartialEq, Eq)]
pub struct BurnPusd {
    /// Address of the protocol record.
    pub protocol_key: Pubkey,
    /// The stablecoin asset.
    pub pusd_mint: Pubkey,
    /// Configuration of the position's collateral.
    pub collateral_config: CollateralConfig,
    /// The position whose debt is repaid.
    pub position: Position,
    /// Token account from which the stablecoin is burned.
    pub user_pusd_ata: Pubkey,
    /// The caller, who signs.
    pub owner: Pubkey,
}

impl BurnPusd {
    /// The binding among the accounts handed in: the collateral
    /// configuration belongs to the protocol (else `Unauthorized`).
    pub open spec fn spec_check_accounts(&self) -> Result<(), ErrorCode> {
        if self.collateral_config.protocol != self.protocol_key {
            Err(ErrorCode::Unauthorized)
        } else {
            Ok(())
        }
    }

    /// Checks the binding among the accounts handed in.
    pub fn check_accounts(&self) -> (r: Result<(), ErrorCode>)
        ensures
            r == self.spec_check_accounts(),
    {
        if !(self.collateral_config.protocol == self.protocol_key) {
            return Err(ErrorCode::Unauthorized);
        }
        Ok(())
    }
}

/// The first step of a repayment: the burn of `burn_pusd_6dp` of the
/// caller's stablecoin.  Fails on a broken account binding and, with
/// `ZeroAmount`, on a zero amount.
pub open spec fn spec_prepare_burn(ctx: BurnPusd, burn_pusd_6dp: u64) -> Result<
    TokenBurn,
    ErrorCode,
> {
    match ctx.spec_check_accounts() {
        Err(e) => Err(e),
        Ok(_) => if burn_pusd_6dp == 0 {
            Err(ErrorCode::ZeroAmount)
        } else {
            Ok(
                TokenBurn {
                    mint: ctx.pusd_mint,
                    from: ctx.user_pusd_ata,
                    authority: ctx.owner,
                    amount: burn_pusd_6dp,
                },
            )
        },
    }
}

/// A whole repayment: the records after it and the event it emits, or the
/// error it ends with.  After the checks of the first step it fails with
/// `Unauthorized` unless the caller owns the position, and with
/// `MathUnderflow` where the amount exceeds the debt: repaying too much is
/// refused, not capped.  Else the debt shrinks by the amount and the
/// accrual time becomes `now_ts`; nothing else changes.
pub open spec fn spec_handle_burn(ctx: BurnPusd, burn_pusd_6dp: u64, now_ts: i64) -> Result<
    (BurnPusd, Burned),
    ErrorCode,
> {
    match spec_prepare_burn(ctx, burn_pusd_6dp) {
        Err(e) => Err(e),
        Ok(_) => if ctx.position.owner != ctx.owner {
            Err(ErrorCode::Unauthorized)
        } else if burn_pusd_6dp > ctx.position.debt_pusd {
            Err(ErrorCode::MathUnderflow)
        } else {
            let new_debt = (ctx.position.debt_pusd - burn_pusd_6dp) as u64;
            Ok(
                (
                    BurnPusd {
                        position: Position {
                            debt_pusd: new_debt,
                            last_accrual_ts: now_ts,
                            ..ctx.position
                        },
                        ..ctx
                    },
                    Burned {
                        owner: ctx.position.owner,
                        collateral_mint: ctx.collateral_config.collateral_mint,
                        burned_pusd_6dp: burn_pusd_6dp,
                        new_debt_pusd_6dp: new_debt,
                    },
                ),
            )
        },
    }
}

/// The first step of a repayment: returns the burn of the caller's
/// stablecoin.
pub fn prepare_burn(ctx: &BurnPusd, burn_pusd_6dp: u64) -> (r: Result<TokenBurn, ErrorCode>)
    ensures
        r == spec_prepare_burn(*ctx, burn_pusd_6dp),
{
    match ctx.check_accounts() {
        Err(e) => {
            return Err(e);
        },
        Ok(_) => {},
    }
    if !(burn_pusd_6dp > 0) {
        return Err(ErrorCode::ZeroAmount);
    }
    Ok(
        TokenBurn {
            mint: ctx.pusd_mint,
            from: ctx.user_pusd_ata,
            authority: ctx.owner,
            amount: burn_pusd_6dp,
        },
    )
}

/// Repays debt of the caller's position.  To be called at time `now_ts`,
/// once the burn of `prepare_burn` is done.
pub fn handle_burn(ctx: &mut BurnPusd, burn_pusd_6dp: u64, now_ts: i64) -> (r: Result<
    Burned,
    ErrorCode,
>)
    ensures
        match spec_handle_burn(*old(ctx), burn_pusd_6dp, now_ts) {
            Ok((after, event)) => r == Ok::<Burned, ErrorCode>(event) && *final(ctx) == after,
            Err(e) => r == Err::<Burned, ErrorCode>(e) && *final(ctx) == *old(ctx),
        },
{
    match prepare_burn(ctx, burn_pusd_6dp) {
        Ok(_) => {},
        Err(e) => {
            return Err(e);
        },
    }
    // Decrease position debt

    if !(ctx.position.owner == ctx.owner) {
        return Err(ErrorCode::Unauthorized);
    }
    let debt_pusd = match ctx.position.debt_pusd.checked_sub(burn_pusd_6dp) {
        Some(debt_pusd) => debt_pusd,
        None => {
            return Err(ErrorCode::MathUnderflow);
        },
    };
    ctx.position.debt_pusd = debt_pusd;
    ctx.position.last_accrual_ts = now_ts;

    Ok(
        Burned {
            owner: ctx.position.owner,
            collateral_mint: ctx.collateral_config.collateral_mint,
            burned_pusd_6dp: burn_pusd_6dp,
            new_debt_pusd_6dp: ctx.position.debt_pusd,
        },
    )
}

// ===============================
// Liquidation
// ===============================

/// What `liquidate` reads and changes.
#[derive(Clone, Copy, Debug, PartialEq, Eq)]
pub struct Liquidate {
    /// Address of the protocol record.
    pub protocol_key: Pubkey,
    /// The stablecoin asset.
    pub pusd_mint: Pubkey,
    /// Configuration of the position's collateral.
    pub collateral_config: CollateralConfig,
    /// Address of that configuration; it signs for the seized collateral.
    pub collateral_config_key: Pubkey,
    /// The custody vault handed in.
    pub vault: Pubkey,
    /// The position under liquidation.
    pub position: Position,
    /// Token account from which the liquidator's stablecoin is burned.
    pub liquidator_pusd_ata: Pubkey,
    /// Token account that receives the seized collateral.
    pub liquidator_collateral_ata: Pubkey,
    /// The liquidator, who signs.
    pub liquidator: Pubkey,
}

/// Collateral to seize for a repayment of `repay` PUSD: the repayment
/// priced into collateral units, `repay * 10^decimals / price`, raised by
/// the liquidation bonus, and capped at the position's collateral.
///
/// Fails with `PriceOutOfBounds` on a zero price, `MathOverflow` where a
/// product does not fit 128 bits, and `InvalidAmount` where the amount
/// with bonus does not fit 64 bits or nothing would be seized.
pub open spec fn spec_seize_amount(
    repay: u64,
    price_6dp: u128,
    collateral_decimals: u8,
    liq_bonus_bps: u16,
    collateral_amount: u64,
) -> Result<u64, ErrorCode> {
    let scale = spec_ten_pow_u128(collateral_decimals as u32);
    if price_6dp == 0 {
        Err(ErrorCode::PriceOutOfBounds)
    } else if repay * scale > u128::MAX {
        Err(ErrorCode::MathOverflow)
    } else {
        let base_tokens = ((repay * scale) / (price_6dp as int)) as u128;
        match spec_apply_liquidation_bonus_bps(base_tokens, liq_bonus_bps) {
            None => Err(ErrorCode::MathOverflow),
            Some(with_bonus) => if with_bonus > u64::MAX {
                Err(ErrorCode::InvalidAmount)
            } else {
                let seize = min_u64(with_bonus as u64, collateral_amount);
                if seize == 0 {
                    Err(ErrorCode::InvalidAmount)
                } else {
                    Ok(seize)
                }
            },
        }
    }
}

impl Liquidate {
    /// The bindings among the accounts handed in: the collateral
    /// configuration belongs to the protocol (else `Unauthorized`), and the
    /// vault is the one it names (else `VaultMismatch`).
    pub open spec fn spec_check_accounts(&self) -> Result<(), ErrorCode> {
        if self.collateral_config.protocol != self.protocol_key {
            Err(ErrorCode::Unauthorized)
        } else if self.collateral_config.vault != self.vault {
            Err(ErrorCode::VaultMismatch)
        } else {
            Ok(())
        }
    }

    /// Checks the bindings among the accounts handed in.
    pub fn check_accounts(&self) -> (r: Result<(), ErrorCode>)
        ensures
            r == self.spec_check_accounts(),
    {
        if !(self.collateral_config.protocol == self.protocol_key) {
            return Err(ErrorCode::Unauthorized);
        }
        if !(self.collateral_config.vault == self.vault) {
            return Err(ErrorCode::VaultMismatch);
        }
        Ok(())
    }

    /// The seeds with which the collateral configuration signs for the
    /// transfer of the seized collateral out of its vault.
    pub fn signer_seeds(&self) -> (seeds: Vec<Vec<u8>>)
        ensures
            seeds_view(seeds) == spec_collateral_seeds(
                self.collateral_config.protocol,
                self.collateral_config.collateral_mint,
                self.collateral_config.bump,
            ),
    {
        collateral_seeds(
            &self.collateral_config.protocol,
            &self.collateral_config.collateral_mint,
            self.collateral_config.bump,
        )
    }
}

/// The first step of a liquidation: the burn of the liquidator's
/// stablecoin, for the requested repayment capped at the position's debt.
///
/// Fails, in this order, on a broken account binding, with `ZeroAmount` on
/// a zero request, with `MathOverflow` where the collateral's value does
/// not fit 128 bits, and with `NotLiquidatable` unless the position's
/// health is strictly below the maintenance threshold.
pub open spec fn spec_prepare_liquidate(
    ctx: Liquidate,
    repay_pusd_6dp: u64,
    collateral_price_usd_6dp: u128,
    collateral_decimals: u8,
) -> Result<TokenBurn, ErrorCode> {
    match ctx.spec_check_accounts() {
        Err(e) => Err(e),
        Ok(_) => if repay_pusd_6dp == 0 {
            Err(ErrorCode::ZeroAmount)
        } else {
            match spec_token_amount_to_usd_6dp(
                ctx.position.collateral_amount,
                collateral_decimals,
                collateral_price_usd_6dp,
            ) {
                None => Err(ErrorCode::MathOverflow),
                Some(value) => if spec_is_above_maintenance(
                    value,
                    ctx.position.debt_pusd as u128,
                    ctx.collateral_config.maintenance_ltv_bps,
                ) {
                    Err(ErrorCode::NotLiquidatable)
                } else {
                    Ok(
                        TokenBurn {
                            mint: ctx.pusd_mint,
                            from: ctx.liquidator_pusd_ata,
                            authority: ctx.liquidator,
                            amount: min_u64(repay_pusd_6dp, ctx.position.debt_pusd),
                        },
                    )
                },
            }
        },
    }
}

/// The second step of a liquidation, once the burn is done: the transfer
/// of the seized collateral from the vault to the liquidator, signed by
/// the collateral configuration.  The amount is `spec_seize_amount` of the
/// capped repayment.
pub open spec fn spec_prepare_seize(
    ctx: Liquidate,
    repay_pusd_6dp: u64,
    collateral_price_usd_6dp: u128,
    collateral_decimals: u8,
) -> Result<TokenTransfer, ErrorCode> {
    match spec_prepare_liquidate(ctx, repay_pusd_6dp, collateral_price_usd_6dp, collateral_decimals) {
        Err(e) => Err(e),
        Ok(burn) => match spec_seize_amount(
            burn.amount,
            collateral_price_usd_6dp,
            collateral_decimals,
            ctx.collateral_config.liq_bonus_bps,
            ctx.position.collateral_amount,
        ) {
            Err(e) => Err(e),
            Ok(seize) => Ok(
                TokenTransfer {
                    from: ctx.vault,
                    to: ctx.liquidator_collateral_ata,
                    authority: ctx.collateral_config_key,
                    amount: seize,
                },
            ),
        },
    }
}

/// A whole liquidation: the records after it and the event it emits, or
/// the error it ends with.  The position loses the seized collateral and
/// the capped repayment of its debt; nothing else changes.
pub open spec fn spec_handle_liquidate(
    ctx: Liquidate,
    repay_pusd_6dp: u64,
    collateral_price_usd_6dp: u128,
    collateral_decimals: u8,
) -> Result<(Liquidate, Liquidated), ErrorCode> {
    match spec_prepare_seize(ctx, repay_pusd_6dp, collateral_price_usd_6dp, collateral_decimals) {
        Err(e) => Err(e),
        Ok(transfer) => {
            let repay = min_u64(repay_pusd_6dp, ctx.position.debt_pusd);
            Ok(
                (
                    Liquidate {
                        position: Position {
                            collateral_amount: (ctx.position.collateral_amount
                                - transfer.amount) as u64,
                            debt_pusd: (ctx.position.debt_pusd - repay) as u64,
                            ..ctx.position
                        },
                        ..ctx
                    },
                    Liquidated {
                        liquidator: ctx.liquidator,
                        owner: ctx.position.owner,
                        collateral_mint: ctx.collateral_config.collateral_mint,
                        repaid_pusd_6dp: repay,
                        seized_collateral_amount: transfer.amount,
                    },
                ),
            )
        },
    }
}

/// Collateral to seize for a repayment of `repay` PUSD at the given price.
pub fn seize_amount(
    repay: u64,
    price_6dp: u128,
    collateral_decimals: u8,
    liq_bonus_bps: u16,
    collateral_amount: u64,
) -> (r: Result<u64, ErrorCode>)
    ensures
        r == spec_seize_amount(
            repay,
            price_6dp,
            collateral_decimals,
            liq_bonus_bps,
            collateral_amount,
        ),
{
    if !(price_6dp > 0) {
        return Err(ErrorCode::PriceOutOfBounds);
    }
    let repay_u128 = repay as u128;
    let num = match repay_u128.checked_mul(ten_pow_u128(collateral_decimals as u32)) {
        Some(num) => num,
        None => {
            return Err(ErrorCode::MathOverflow);
        },
    };
    let base_tokens = match num.checked_div(price_6dp) {
        Some(base_tokens) => base_tokens,
        None => {
            return Err(ErrorCode::DivisionByZero);
        },
    };
    let seized_with_bonus = match apply_liquidation_bonus_bps(base_tokens, liq_bonus_bps) {
        Some(seized_with_bonus) => seized_with_bonus,
        None => {
            return Err(ErrorCode::MathOverflow);
        },
    };
    if seized_with_bonus > u64::MAX as u128 {
        return Err(ErrorCode::InvalidAmount);
    }
    let seize_amount = seized_with_bonus as u64;

    // Bound by available collateral
    let seize_amount = if seize_amount < collateral_amount {
        seize_amount
    } else {
        collateral_amount
    };
    if !(seize_amount > 0) {
        return Err(ErrorCode::InvalidAmount);
    }
    Ok(seize_amount)
}

/// The first step of a liquidation: checks that the position may be
/// liquidated and returns the burn of the liquidator's stablecoin.
pub fn prepare_liquidate(
    ctx: &Liquidate,
    repay_pusd_6dp: u64,
    collateral_price_usd_6dp: u128,
    collateral_decimals: u8,
) -> (r: Result<TokenBurn, ErrorCode>)
    ensures
        r == spec_prepare_liquidate(
            *ctx,
            repay_pusd_6dp,
            collateral_price_usd_6dp,
            collateral_decimals,
        ),
{
    match ctx.check_accounts() {
        Err(e) => {
            return Err(e);
        },
        Ok(_) => {},
    }
    if !(repay_pusd_6dp > 0) {
        return Err(ErrorCode::ZeroAmount);
    }
    let cfg = &ctx.collateral_config;
    let pos = &ctx.position;

    // Check liquidatability: health < maintenance
    let collateral_value_6dp = match token_amount_to_usd_6dp(
        pos.collateral_amount,
        collateral_decimals,
        collateral_price_usd_6dp,
    ) {
        Some(value) => value,
        None => {
            return Err(ErrorCode::MathOverflow);
        },
    };
    let healthy = is_above_maintenance(
        collateral_value_6dp,
        pos.debt_pusd as u128,
        cfg.maintenance_ltv_bps,
    );
    if healthy {
        return Err(ErrorCode::NotLiquidatable);
    }
    // Cap repay to current debt

    let repay = if repay_pusd_6dp <= pos.debt_pusd {
        repay_pusd_6dp
    } else {
        pos.debt_pusd
    };
    Ok(
        TokenBurn {
            mint: ctx.pusd_mint,
            from: ctx.liquidator_pusd_ata,
            authority: ctx.liquidator,
            amount: repay,
        },
    )
}

/// The second step of a liquidation: prices the repayment into collateral
/// and returns the transfer of the seized collateral to the liquidator.
pub fn prepare_seize(
    ctx: &Liquidate,
    repay_pusd_6dp: u64,
    collateral_price_usd_6dp: u128,
    collateral_decimals: u8,
) -> (r: Result<TokenTransfer, ErrorCode>)
    ensures
        r == spec_prepare_seize(*ctx, repay_pusd_6dp, collateral_price_usd_6dp, collateral_decimals),
{
    let burn = match prepare_liquidate(
        ctx,
        repay_pusd_6dp,
        collateral_price_usd_6dp,
        collateral_decimals,
    ) {
        Ok(burn) => burn,
        Err(e) => {
            return Err(e);
        },
    };
    let seize = match seize_amount(
        burn.amount,
        collateral_price_usd_6dp,
        collateral_decimals,
        ctx.collateral_config.liq_bonus_bps,
        ctx.position.collateral_amount,
    ) {
        Ok(seize) => seize,
        Err(e) => {
            return Err(e);
        },
    };
    Ok(
        TokenTransfer {
            from: ctx.vault,
            to: ctx.liquidator_collateral_ata,
            authority: ctx.collateral_config_key,
            amount: seize,
        },
    )
}

/// Liquidates an unhealthy position: the liquidator repays debt and
/// receives collateral at a bonus.  To be called once the burn of
/// `prepare_liquidate` and the transfer of `prepare_seize` are done.
pub fn handle_liquidate(
    ctx: &mut Liquidate,
    repay_pusd_6dp: u64,
    collateral_price_usd_6dp: u128,
    collateral_decimals: u8,
) -> (r: Result<Liquidated, ErrorCode>)
    ensures
        match spec_handle_liquidate(
            *old(ctx),
            repay_pusd_6dp,
            collateral_price_usd_6dp,
            collateral_decimals,
        ) {
            Ok((after, event)) => r == Ok::<Liquidated, ErrorCode>(event) && *final(ctx) == after,
            Err(e) => r == Err::<Liquidated, ErrorCode>(e) && *final(ctx) == *old(ctx),
        },
{
    let transfer = match prepare_seize(
        ctx,
        repay_pusd_6dp,
        collateral_price_usd_6dp,
        collateral_decimals,
    ) {
        Ok(transfer) => transfer,
        Err(e) => {
            return Err(e);
        },
    };
    let seize_amount = transfer.amount;
    let repay = if repay_pusd_6dp <= ctx.position.debt_pusd {
        repay_pusd_6dp
    } else {
        ctx.position.debt_pusd
    };

    // Update position
    let collateral_amount = match ctx.position.collateral_amount.checked_sub(seize_amount) {
        Some(left) => left,
        None => {
            return Err(ErrorCode::MathUnderflow);
        },
    };
    let debt_pusd = match ctx.position.debt_pusd.checked_sub(repay) {
        Some(left) => left,
        None => {
            return Err(ErrorCode::MathUnderflow);
        },
    };
    ctx.position.collateral_amount = collateral_amount;
    ctx.position.debt_pusd = debt_pusd;

    Ok(
        Liquidated {
            liquidator: ctx.liquidator,
            owner: ctx.position.owner,
            collateral_mint: ctx.collateral_config.collateral_mint,
            repaid_pusd_6dp: repay,
            seized_collateral_amount: seize_amount,
        },
    )
}

// ===============================
// Pausing
// ===============================

/// What `toggle_pause` reads and changes.
#[derive(Clone, Copy, Debug, PartialEq, Eq)]
pub struct TogglePause {
    /// The protocol record.
    pub protocol: Protocol,
    /// Address of the protocol record.
    pub protocol_key: Pubkey,
    /// The caller, who signs.
    pub authority: Pubkey,
}

/// Pausing or resuming: the records after it and the event it emits, or
/// `Unauthorized` unless the caller is the protocol's authority.  Only the
/// pause flag changes.
pub open spec fn spec_handle_toggle_pause(ctx: TogglePause, paused: bool) -> Result<
    (TogglePause, PauseToggled),
    ErrorCode,
> {
    if ctx.protocol.authority != ctx.authority {
        Err(ErrorCode::Unauthorized)
    } else {
        Ok(
            (
                TogglePause { protocol: Protocol { mint_paused: paused, ..ctx.protocol }, ..ctx },
                PauseToggled { protocol: ctx.protocol_key, paused: paused },
            ),
        )
    }
}

/// Pauses or resumes minting.
pub fn handle_toggle_pause(ctx: &mut TogglePause, paused: bool) -> (r: Result<
    PauseToggled,
    ErrorCode,
>)
    ensures
        match spec_handle_toggle_pause(*old(ctx), paused) {
            Ok((after, event)) => r == Ok::<PauseToggled, ErrorCode>(event) && *final(ctx)
                == after,
            Err(e) => r == Err::<PauseToggled, ErrorCode>(e) && *final(ctx) == *old(ctx),
        },
{
    if !(ctx.protocol.authority == ctx.authority) {
        return Err(ErrorCode::Unauthorized);
    }
    ctx.protocol.mint_paused = paused;

    Ok(PauseToggled { protocol: ctx.protocol_key, paused })
}

} // verus!
