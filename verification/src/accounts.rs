//! The persistent records of the engine and the seeds of their addresses.

use crate::pubkey::Pubkey;
use crate::state::{saturating_mul_u128, spec_compute_health_bps};
use vstd::prelude::*;

verus! {

/// Protocol-wide configuration: one record per deployment authority.
/// Created once, changed only by pausing and resuming, never deleted.
/// Address seeds: `["protocol", authority]`.
#[derive(Clone, Copy, Debug, PartialEq, Eq)]
pub struct Protocol {
    /// Governing authority; fixed once the record exists.
    pub authority: Pubkey,
    /// Bump of the record's derived address.
    pub bump: u8,
    /// The stablecoin asset this protocol issues.
    pub pusd_mint: Pubkey,
    /// Global debt ceiling in PUSD, 6 decimals.
    pub global_debt_ceiling: u64,
    /// Whether minting is paused.
    pub mint_paused: bool,
}

impl Protocol {
    /// First seed of the record's address: the bytes of `protocol`.
    pub const SEED_PREFIX: [u8; 8] = [112, 114, 111, 116, 111, 99, 111, 108];

    /// Bytes the record occupies in the store: an 8-byte tag, the fields,
    /// and 7 reserved bytes.
    pub const LEN: usize = 8 + 32 + 1 + 32 + 8 + 1 + 7;
}

/// Configuration of one supported collateral asset within a protocol.
/// Created when the collateral is added; switched off, never deleted.
/// Address seeds: `["collateral", protocol, collateral_mint]`.
#[derive(Clone, Copy, Debug, PartialEq, Eq)]
pub struct CollateralConfig {
    /// The protocol this collateral belongs to.
    pub protocol: Pubkey,
    /// The collateral asset.
    pub collateral_mint: Pubkey,
    /// The custody vault that holds the deposited collateral.
    pub vault: Pubkey,
    /// Initial loan-to-value limit in bps: 6600 = 66.00%.
    pub initial_ltv_bps: u16,
    /// Maintenance threshold in bps; a position whose health falls below
    /// it can be liquidated.
    pub maintenance_ltv_bps: u16,
    /// Liquidation bonus in bps: 500 = 5.00%.
    pub liq_bonus_bps: u16,
    /// Debt ceiling of this collateral in PUSD.
    pub debt_ceiling: u64,
    /// Cleared to stop new deposits and mints against this collateral.
    pub active: bool,
    /// Bump of the record's derived address.
    pub bump: u8,
}

impl CollateralConfig {
    /// First seed of the record's address: the bytes of `collateral`.
    pub const SEED_PREFIX: [u8; 10] = [99, 111, 108, 108, 97, 116, 101, 114, 97, 108];

    /// Bytes the record occupies in the store: an 8-byte tag, the fields,
    /// and 6 reserved bytes.
    pub const LEN: usize = 8 + 32 + 32 + 32 + 2 + 2 + 2 + 8 + 1 + 1 + 6;

    /// Both limits are positive and the maintenance threshold does not
    /// exceed the initial limit.
    pub open spec fn well_formed(&self) -> bool {
        0 < self.maintenance_ltv_bps <= self.initial_ltv_bps
    }
}

/// The position of one owner in one collateral asset.  Collateral and debt
/// are unsigned and so never negative.  Never deleted.
/// Address seeds: `["position", owner, collateral_mint]`.
#[derive(Clone, Copy, Debug, PartialEq, Eq)]
pub struct Position {
    /// The owner; all zero while the position has never been written.
    pub owner: Pubkey,
    /// The collateral configuration the position refers to; fixed with the
    /// first write.
    pub collateral_config: Pubkey,
    /// Deposited collateral, in the asset's smallest units.
    pub collateral_amount: u64,
    /// PUSD debt, 6 decimals.
    pub debt_pusd: u64,
    /// Unix time of the last change of the debt.
    pub last_accrual_ts: i64,
    /// Bump of the record's derived address.
    pub bump: u8,
}

impl Position {
    /// First seed of the record's address: the bytes of `position`.
    pub const SEED_PREFIX: [u8; 8] = [112, 111, 115, 105, 116, 105, 111, 110];

    /// Bytes the record occupies in the store: an 8-byte tag, the fields,
    /// and 7 reserved bytes.
    pub const LEN: usize = 8 + 32 + 32 + 8 + 8 + 8 + 1 + 7;
}

/// Timelock record of a protocol, kept for delayed parameter changes.
/// No operation reads it yet.
/// Address seeds: `["governance", protocol]`.
#[derive(Clone, Copy, Debug, PartialEq, Eq)]
pub struct Governance {
    /// The protocol this governance controls.
    pub protocol: Pubkey,
    /// Authority that may queue and execute parameter changes.
    pub authority: Pubkey,
    /// Delay for critical changes, in seconds.
    pub timelock_secs: u64,
    /// Bump of the record's derived address.
    pub bump: u8,
}

impl Governance {
    /// First seed of the record's address: the bytes of `governance`.
    pub const SEED_PREFIX: [u8; 10] = [103, 111, 118, 101, 114, 110, 97, 110, 99, 101];

    /// Bytes the record occupies in the store: an 8-byte tag, the fields,
    /// and 7 reserved bytes.
    pub const LEN: usize = 8 + 32 + 32 + 8 + 1 + 7;
}

/// Health in basis points: `collateral_value / debt * 10000`, rounded down;
/// the largest 128-bit number for a position without debt.
pub fn compute_health_bps(collateral_value_usd_6dp: u128, debt_pusd_6dp: u128) -> (r: u128)
    ensures
        r == spec_compute_health_bps(collateral_value_usd_6dp, debt_pusd_6dp),
{
    if debt_pusd_6dp == 0 {
        return u128::MAX;
    }
    saturating_mul_u128(collateral_value_usd_6dp, 10_000) / debt_pusd_6dp
}

// ===== Address seeds =====

/// A list of seeds as a sequence of byte strings.
pub open spec fn seeds_view(seeds: Vec<Vec<u8>>) -> Seq<Seq<u8>> {
    Seq::new(seeds@.len(), |i: int| seeds@[i]@)
}

/// Seeds of a protocol record: `"protocol"`, the authority, the bump.
pub open spec fn spec_protocol_seeds(authority: Pubkey, bump: u8) -> Seq<Seq<u8>> {
    seq![Protocol::SEED_PREFIX@, authority@, seq![bump]]
}

/// Seeds of a collateral configuration: `"collateral"`, the protocol, the
/// collateral asset, the bump.
pub open spec fn spec_collateral_seeds(protocol: Pubkey, collateral_mint: Pubkey, bump: u8) -> Seq<
    Seq<u8>,
> {
    seq![CollateralConfig::SEED_PREFIX@, protocol@, collateral_mint@, seq![bump]]
}

/// Seeds of a position: `"position"`, the owner, the collateral asset, the
/// bump.
pub open spec fn spec_position_seeds(owner: Pubkey, collateral_mint: Pubkey, bump: u8) -> Seq<
    Seq<u8>,
> {
    seq![Position::SEED_PREFIX@, owner@, collateral_mint@, seq![bump]]
}

/// Seeds of a governance record: `"governance"`, the protocol, the bump.
pub open spec fn spec_governance_seeds(protocol: Pubkey, bump: u8) -> Seq<Seq<u8>> {
    seq![Governance::SEED_PREFIX@, protocol@, seq![bump]]
}

/// The bytes of an array, as a vector.
fn seed_bytes<const N: usize>(bytes: &[u8; N]) -> (r: Vec<u8>)
    ensures
        r@ == bytes@,
{
    let mut out: Vec<u8> = Vec::new();
    let mut i: usize = 0;
    while i < N
        invariant
            i <= N,
            out@ == bytes@.subrange(0, i as int),
        decreases N - i,
    {
        out.push(bytes[i]);
        i += 1;
    }
    out
}

/// The one-byte seed that holds a bump.
fn bump_seed(bump: u8) -> (r: Vec<u8>)
    ensures
        r@ == seq![bump],
{
    let mut out: Vec<u8> = Vec::new();
    out.push(bump);
    out
}

/// The seeds of the protocol record of `authority`.
pub fn protocol_seeds(authority: &Pubkey, bump: u8) -> (seeds: Vec<Vec<u8>>)
    ensures
        seeds_view(seeds) == spec_protocol_seeds(*authority, bump),
{
    let mut seeds: Vec<Vec<u8>> = Vec::new();
    seeds.push(seed_bytes(&Protocol::SEED_PREFIX));
    seeds.push(seed_bytes(&authority.bytes));
    seeds.push(bump_seed(bump));
    assert(seeds_view(seeds) =~= spec_protocol_seeds(*authority, bump));
    seeds
}

/// The seeds of the configuration of `collateral_mint` under `protocol`.
pub fn collateral_seeds(protocol: &Pubkey, collateral_mint: &Pubkey, bump: u8) -> (seeds: Vec<
    Vec<u8>,
>)
    ensures
        seeds_view(seeds) == spec_collateral_seeds(*protocol, *collateral_mint, bump),
{
    let mut seeds: Vec<Vec<u8>> = Vec::new();
    seeds.push(seed_bytes(&CollateralConfig::SEED_PREFIX));
    seeds.push(seed_bytes(&protocol.bytes));
    seeds.push(seed_bytes(&collateral_mint.bytes));
    seeds.push(bump_seed(bump));
    assert(seeds_view(seeds) =~= spec_collateral_seeds(*protocol, *collateral_mint, bump));
    seeds
}

/// The seeds of the position of `owner` in `collateral_mint`.
pub fn position_seeds(owner: &Pubkey, collateral_mint: &Pubkey, bump: u8) -> (seeds: Vec<Vec<u8>>)
    ensures
        seeds_view(seeds) == spec_position_seeds(*owner, *collateral_mint, bump),
{
    let mut seeds: Vec<Vec<u8>> = Vec::new();
    seeds.push(seed_bytes(&Position::SEED_PREFIX));
    seeds.push(seed_bytes(&owner.bytes));
    seeds.push(seed_bytes(&collateral_mint.bytes));
    seeds.push(bump_seed(bump));
    assert(seeds_view(seeds) =~= spec_position_seeds(*owner, *collateral_mint, bump));
    seeds
}

/// The seeds of the governance record of `protocol`.
pub fn governance_seeds(protocol: &Pubkey, bump: u8) -> (seeds: Vec<Vec<u8>>)
    ensures
        seeds_view(seeds) == spec_governance_seeds(*protocol, bump),
{
    let mut seeds: Vec<Vec<u8>> = Vec::new();
    seeds.push(seed_bytes(&Governance::SEED_PREFIX));
    seeds.push(seed_bytes(&protocol.bytes));
    seeds.push(bump_seed(bump));
    assert(seeds_view(seeds) =~= spec_governance_seeds(*protocol, bump));
    seeds
}

} // verus!
