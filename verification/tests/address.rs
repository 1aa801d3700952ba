use prophecy::address::{
    find_agent_executor_address, find_cred_stake_address, find_insight_pool_address,
    find_market_address, find_minter_config_address, find_program_address,
    find_reputation_vault_address,
};
use prophecy::constants::{
    AGENT_EXECUTOR_SEED, CRED_STAKE_SEED, INSIGHT_POOL_SEED, MARKET_SEED, MINTER_CONFIG_SEED,
    REPUTATION_VAULT_SEED,
};
use prophecy::pubkey::Pubkey;

fn key(n: u8) -> Pubkey {
    Pubkey::new_from_array([n; 32])
}

fn outside(seeds: &[&[u8]], program_id: &Pubkey) -> (Pubkey, u8) {
    let program = anchor_lang::prelude::Pubkey::new_from_array(program_id.to_bytes());
    let (address, bump) = anchor_lang::prelude::Pubkey::find_program_address(seeds, &program);
    (Pubkey::new_from_array(address.to_bytes()), bump)
}

#[test]
fn seed_tags_spell_their_names() {
    assert_eq!(&INSIGHT_POOL_SEED[..], &b"insight_pool"[..]);
    assert_eq!(&AGENT_EXECUTOR_SEED[..], &b"agent_executor"[..]);
    assert_eq!(&REPUTATION_VAULT_SEED[..], &b"reputation_vault"[..]);
    assert_eq!(&CRED_STAKE_SEED[..], &b"cred_stake"[..]);
    assert_eq!(&MARKET_SEED[..], &b"market"[..]);
    assert_eq!(&MINTER_CONFIG_SEED[..], &b"minter_config"[..]);
}

#[test]
fn singleton_addresses_are_derived_from_their_tags() {
    let program = key(42);
    let (pool, pool_bump) = find_insight_pool_address(&program).unwrap();
    let expected = outside(&[b"insight_pool"], &program);
    assert!(pool == expected.0);
    assert_eq!(pool_bump, expected.1);
    let (executor, executor_bump) = find_agent_executor_address(&program).unwrap();
    let expected = outside(&[b"agent_executor"], &program);
    assert!(executor == expected.0);
    assert_eq!(executor_bump, expected.1);
    let (config, config_bump) = find_minter_config_address(&program).unwrap();
    let expected = outside(&[b"minter_config"], &program);
    assert!(config == expected.0);
    assert_eq!(config_bump, expected.1);
    assert!(pool != executor);
    assert!(pool != program);
}

#[test]
fn vault_address_depends_on_owner_and_program() {
    let program = key(42);
    let (alice, bump) = find_reputation_vault_address(&program, &key(1)).unwrap();
    let expected = outside(&[b"reputation_vault", &[1u8; 32]], &program);
    assert!(alice == expected.0);
    assert_eq!(bump, expected.1);
    let (bob, _) = find_reputation_vault_address(&program, &key(2)).unwrap();
    assert!(alice != bob);
    assert!(alice != key(1));
    let (elsewhere, _) = find_reputation_vault_address(&key(43), &key(1)).unwrap();
    assert!(alice != elsewhere);
    // The same owner gives the same address again.
    let (again, bump_again) = find_reputation_vault_address(&program, &key(1)).unwrap();
    assert!(alice == again);
    assert_eq!(bump, bump_again);
}

#[test]
fn market_address_depends_on_identifier() {
    let program = key(42);
    let (first, bump) = find_market_address(&program, &"market-1".to_string()).unwrap();
    let expected = outside(&[b"market", b"market-1"], &program);
    assert!(first == expected.0);
    assert_eq!(bump, expected.1);
    let (second, _) = find_market_address(&program, &"market-2".to_string()).unwrap();
    assert!(first != second);
    let (empty, _) = find_market_address(&program, &String::new()).unwrap();
    let expected = outside(&[b"market", b""], &program);
    assert!(empty == expected.0);
}

#[test]
fn market_identifier_over_a_seed_has_no_address() {
    let program = key(42);
    assert!(find_market_address(&program, &"i".repeat(32)).is_some());
    assert!(find_market_address(&program, &"i".repeat(33)).is_none());
}

#[test]
fn stake_address_depends_on_market_and_user() {
    let program = key(42);
    let (receipt, bump) = find_cred_stake_address(&program, &key(7), &key(1)).unwrap();
    let expected = outside(&[b"cred_stake", &[7u8; 32], &[1u8; 32]], &program);
    assert!(receipt == expected.0);
    assert_eq!(bump, expected.1);
    let (other_user, _) = find_cred_stake_address(&program, &key(7), &key(2)).unwrap();
    let (other_market, _) = find_cred_stake_address(&program, &key(8), &key(1)).unwrap();
    let (swapped, _) = find_cred_stake_address(&program, &key(1), &key(7)).unwrap();
    assert!(receipt != other_user);
    assert!(receipt != other_market);
    assert!(receipt != swapped);
}

#[test]
fn any_seeds_within_limits_derive_an_address() {
    let program = key(42);
    let seeds = vec![b"a".to_vec(), b"bc".to_vec(), vec![0u8; 32]];
    let (address, bump) = find_program_address(&seeds, &program).unwrap();
    let expected = outside(&[b"a", b"bc", &[0u8; 32]], &program);
    assert!(address == expected.0);
    assert_eq!(bump, expected.1);
    let none: Vec<Vec<u8>> = Vec::new();
    let (address, _) = find_program_address(&none, &program).unwrap();
    assert!(address == outside(&[], &program).0);
    // Sixteen seeds leave no room for the bump seed.
    let too_many: Vec<Vec<u8>> = (0..16u8).map(|n| vec![n]).collect();
    assert!(find_program_address(&too_many, &program).is_none());
    let too_long = vec![vec![0u8; 33]];
    assert!(find_program_address(&too_long, &program).is_none());
}
