use anchor_lang::prelude::Pubkey as ChainKey;
use pusd::accounts::{collateral_seeds, position_seeds, protocol_seeds};
use pusd::pubkey::Pubkey;

fn pattern(seed: u8) -> [u8; 32] {
    let mut bytes = [0u8; 32];
    let mut i = 0;
    while i < 32 {
        bytes[i] = seed.wrapping_mul(31).wrapping_add(i as u8);
        i += 1;
    }
    bytes
}

#[test]
fn default_identity_is_the_default_chain_key() {
    assert_eq!(Pubkey::default().to_bytes(), ChainKey::default().to_bytes());
    assert!(Pubkey::new_from_array(ChainKey::default().to_bytes()).is_default());
    assert!(!Pubkey::new_from_array(ChainKey::new_from_array(pattern(1)).to_bytes()).is_default());
}

#[test]
fn identities_compare_as_chain_keys_do() {
    let mut a: u8 = 0;
    while a < 6 {
        let mut b: u8 = 0;
        while b < 6 {
            let on_chain = ChainKey::new_from_array(pattern(a)) == ChainKey::new_from_array(pattern(b));
            let here = Pubkey::new_from_array(pattern(a)) == Pubkey::new_from_array(pattern(b));
            assert_eq!(here, on_chain);
            assert_eq!(here, a == b);
            b += 1;
        }
        a += 1;
    }
}

#[test]
fn identity_bytes_round_trip_through_chain_keys() {
    let chain = ChainKey::new_from_array(pattern(9));
    let here = Pubkey::new_from_array(chain.to_bytes());
    assert_eq!(ChainKey::new_from_array(here.to_bytes()), chain);
}

fn slices(seeds: &[Vec<u8>]) -> Vec<&[u8]> {
    seeds.iter().map(|s| s.as_slice()).collect()
}

#[test]
fn protocol_seeds_derive_the_protocol_address() {
    let program = ChainKey::new_from_array(pattern(20));
    let authority = ChainKey::new_from_array(pattern(21));
    let (address, bump) =
        ChainKey::find_program_address(&["protocol".as_bytes(), authority.as_ref()], &program);
    let seeds = protocol_seeds(&Pubkey::new_from_array(authority.to_bytes()), bump);
    assert_eq!(ChainKey::create_program_address(&slices(&seeds), &program), Ok(address));
}

#[test]
fn collateral_and_position_seeds_derive_their_addresses() {
    let program = ChainKey::new_from_array(pattern(30));
    let first = ChainKey::new_from_array(pattern(31));
    let mint = ChainKey::new_from_array(pattern(32));

    let (address, bump) = ChainKey::find_program_address(
        &["collateral".as_bytes(), first.as_ref(), mint.as_ref()],
        &program,
    );
    let seeds = collateral_seeds(
        &Pubkey::new_from_array(first.to_bytes()),
        &Pubkey::new_from_array(mint.to_bytes()),
        bump,
    );
    assert_eq!(ChainKey::create_program_address(&slices(&seeds), &program), Ok(address));

    let (address, bump) = ChainKey::find_program_address(
        &["position".as_bytes(), first.as_ref(), mint.as_ref()],
        &program,
    );
    let seeds = position_seeds(
        &Pubkey::new_from_array(first.to_bytes()),
        &Pubkey::new_from_array(mint.to_bytes()),
        bump,
    );
    assert_eq!(ChainKey::create_program_address(&slices(&seeds), &program), Ok(address));
}
