use pusd::accounts::{
    collateral_seeds, governance_seeds, position_seeds, protocol_seeds, CollateralConfig,
    Governance, Position, Protocol,
};
use pusd::errors::ErrorCode;
use pusd::pubkey::Pubkey;

fn key(n: u8) -> Pubkey {
    Pubkey::new_from_array([n; 32])
}

#[test]
fn default_key_is_all_zero() {
    let k = Pubkey::default();
    assert_eq!(k.to_bytes(), [0u8; 32]);
    assert!(k.is_default());
    assert_eq!(k, Pubkey::new_from_array([0u8; 32]));
}

#[test]
fn a_key_with_one_byte_set_is_not_default() {
    let mut i = 0;
    while i < 32 {
        let mut bytes = [0u8; 32];
        bytes[i] = 1;
        let k = Pubkey::new_from_array(bytes);
        assert!(!k.is_default());
        assert_ne!(k, Pubkey::default());
        i += 1;
    }
}

#[test]
fn keys_are_equal_by_their_bytes() {
    assert_eq!(key(7), key(7));
    assert_ne!(key(7), key(8));
    let mut a = [9u8; 32];
    let b = a;
    assert!(Pubkey::new_from_array(a) == Pubkey::new_from_array(b));
    a[31] = 10;
    assert!(Pubkey::new_from_array(a) != Pubkey::new_from_array(b));
    a[31] = 9;
    a[0] = 10;
    assert!(Pubkey::new_from_array(a) != Pubkey::new_from_array(b));
}

#[test]
fn key_bytes_round_trip() {
    let mut bytes = [0u8; 32];
    let mut i = 0;
    while i < 32 {
        bytes[i] = (i * 7 + 3) as u8;
        i += 1;
    }
    assert_eq!(Pubkey::new_from_array(bytes).to_bytes(), bytes);
    assert_eq!(Pubkey::new_from_array(bytes).bytes, bytes);
}

#[test]
fn record_sizes() {
    assert_eq!(Protocol::LEN, 89);
    assert_eq!(CollateralConfig::LEN, 126);
    assert_eq!(Position::LEN, 104);
    assert_eq!(Governance::LEN, 88);
}

#[test]
fn seed_prefixes_spell_the_record_names() {
    assert_eq!(&Protocol::SEED_PREFIX[..], "protocol".as_bytes());
    assert_eq!(&CollateralConfig::SEED_PREFIX[..], "collateral".as_bytes());
    assert_eq!(&Position::SEED_PREFIX[..], "position".as_bytes());
    assert_eq!(&Governance::SEED_PREFIX[..], "governance".as_bytes());
}

#[test]
fn protocol_seeds_are_prefix_authority_bump() {
    let seeds = protocol_seeds(&key(3), 254);
    assert_eq!(seeds, vec!["protocol".as_bytes().to_vec(), vec![3u8; 32], vec![254u8]]);
}

#[test]
fn collateral_seeds_are_prefix_protocol_mint_bump() {
    let seeds = collateral_seeds(&key(1), &key(2), 0);
    assert_eq!(
        seeds,
        vec!["collateral".as_bytes().to_vec(), vec![1u8; 32], vec![2u8; 32], vec![0u8]]
    );
}

#[test]
fn position_seeds_are_prefix_owner_mint_bump() {
    let seeds = position_seeds(&key(4), &key(5), 255);
    assert_eq!(
        seeds,
        vec!["position".as_bytes().to_vec(), vec![4u8; 32], vec![5u8; 32], vec![255u8]]
    );
}

#[test]
fn governance_seeds_are_prefix_protocol_bump() {
    let seeds = governance_seeds(&key(6), 17);
    assert_eq!(seeds, vec!["governance".as_bytes().to_vec(), vec![6u8; 32], vec![17u8]]);
}

#[test]
fn seeds_keep_the_order_of_their_keys() {
    assert_ne!(collateral_seeds(&key(1), &key(2), 9), collateral_seeds(&key(2), &key(1), 9));
    assert_ne!(position_seeds(&key(1), &key(2), 9), position_seeds(&key(2), &key(1), 9));
    assert_ne!(position_seeds(&key(1), &key(2), 9), collateral_seeds(&key(1), &key(2), 9));
}

#[test]
fn error_kinds_are_distinct_values() {
    assert_eq!(ErrorCode::ZeroAmount, ErrorCode::ZeroAmount);
    assert_ne!(ErrorCode::MathOverflow, ErrorCode::MathUnderflow);
    assert_ne!(ErrorCode::InvalidAmount, ErrorCode::ZeroAmount);
    let e = ErrorCode::NotLiquidatable;
    let copy = e;
    assert_eq!(e, copy);
}
