//! The error kinds an operation can end with.

use vstd::prelude::*;

verus! {

/// Every way an operation of the engine can fail.  A failed operation
/// leaves every record as it found it.
#[derive(Clone, Copy, Debug, PartialEq, Eq, Hash, Structural)]
pub enum ErrorCode {
    // -------- Access / Auth --------
    /// The caller is not the required owner or authority.
    Unauthorized,
    /// A derived address or its bump is missing or wrong.
    InvalidPda,
    /// The governance timelock has not elapsed.
    TimelockNotElapsed,
    // -------- Params / Config --------
    /// Minting is paused for the whole protocol.
    MintPaused,
    /// The collateral type has been deactivated.
    CollateralInactive,
    /// The position does not belong to this collateral type.
    UnsupportedCollateral,
    /// The global debt ceiling is reached.
    GlobalDebtCeilingReached,
    /// The debt ceiling of the collateral type is reached.
    CollateralDebtCeilingReached,
    /// A parameter is outside its allowed bounds.
    InvalidParameter,
    // -------- Amounts / Math --------
    /// An amount that must be positive is zero.
    ZeroAmount,
    /// An amount cannot be used as given.
    InvalidAmount,
    /// An arithmetic result does not fit its type.
    MathOverflow,
    /// A subtraction would go below zero.
    MathUnderflow,
    /// A division by zero.
    DivisionByZero,
    // -------- Position / Vault --------
    /// The position exists already.
    PositionAlreadyExists,
    /// The position does not exist.
    PositionNotFound,
    /// The position holds too little collateral.
    InsufficientCollateral,
    /// The debt would exceed the initial loan-to-value limit.
    LtvExceeded,
    /// The position's health is below the maintenance threshold.
    HealthBelowMaintenance,
    /// The vault handed in is not the one the collateral type names.
    VaultMismatch,
    // -------- Liquidation --------
    /// The position is healthy and cannot be liquidated.
    NotLiquidatable,
    /// The requested liquidation is too large.
    LiquidationTooLarge,
    /// Slippage or price impact exceeded its limit.
    SlippageExceeded,
    // -------- Oracles / Pricing --------
    /// The oracle account is invalid or missing.
    InvalidOracle,
    /// The oracle price is too old.
    OracleStale,
    /// The price is outside acceptable bounds.
    PriceOutOfBounds,
    // -------- Token --------
    /// The token mint is not the expected one.
    MintMismatch,
    /// The token account belongs to someone else.
    TokenOwnerMismatch,
    // -------- Misc --------
    /// The feature is not implemented.
    NotImplemented,
}

} // verus!
