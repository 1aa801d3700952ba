use crate::constants::{
    AGENT_EXECUTOR_SEED, CRED_STAKE_SEED, INSIGHT_POOL_SEED, MARKET_SEED, MINTER_CONFIG_SEED,
    REPUTATION_VAULT_SEED,
};
use crate::pubkey::{lemma_pubkey_view_injective, Pubkey};
use vstd::prelude::*;
use vstd::slice::slice_to_vec;
use vstd::utf8::encode_utf8;

verus! {

/// What `Pubkey::try_find_program_address` returns for these seeds under the
/// program with these bytes: the bytes of the derived address and its bump
/// seed, or `None` where no address can be derived.
pub uninterp spec fn program_address(seeds: Seq<Seq<u8>>, program_id: Seq<u8>) -> Option<(Seq<u8>, u8)>;

/// Calls `anchor_lang::prelude::Pubkey::try_find_program_address`, which
/// searches the bump seeds from 255 down for the first one under which the
/// seeds and the program hash to an address off the curve. The search reads
/// nothing but its arguments, and returns `None` rather than panic where the
/// seeds are over their limits or no bump seed fits. The contract only names
/// the result.
#[verifier::external_body]
fn try_find_program_address(seeds: &Vec<Vec<u8>>, program_id: &Pubkey) -> (r: Option<(Pubkey, u8)>)
    ensures
        match r {
            Some((address, bump)) => program_address(seeds.deep_view(), program_id@) == Some(
                (address@, bump),
            ),
            None => program_address(seeds.deep_view(), program_id@) is None,
        },
{
    let parts: Vec<&[u8]> = seeds.iter().map(|seed| seed.as_slice()).collect();
    let program = anchor_lang::prelude::Pubkey::new_from_array(program_id.bytes);
    anchor_lang::prelude::Pubkey::try_find_program_address(&parts, &program).map(
        |(address, bump)| (Pubkey { bytes: address.to_bytes() }, bump),
    )
}

/// The identity with the given 32 bytes.
pub open spec fn pubkey_of(bytes: Seq<u8>) -> Pubkey {
    choose|p: Pubkey| p@ == bytes
}

/// The address that the seeds derive under the program, with its bump seed.
pub open spec fn find_address(seeds: Seq<Seq<u8>>, program_id: Pubkey) -> Option<(Pubkey, u8)> {
    match program_address(seeds, program_id@) {
        Some((bytes, bump)) => Some((pubkey_of(bytes), bump)),
        None => None,
    }
}

/// Derives the address of the record that the seeds identify under the program.
pub fn find_program_address(seeds: &Vec<Vec<u8>>, program_id: &Pubkey) -> (r: Option<(Pubkey, u8)>)
    ensures
        r == find_address(seeds.deep_view(), *program_id),
{
    let r = try_find_program_address(seeds, program_id);
    proof {
        if let Some((address, bump)) = r {
            lemma_pubkey_view_injective(pubkey_of(address@), address);
        }
    }
    r
}

/// What identifies the insight pool: its tag.
pub open spec fn insight_pool_seeds() -> Seq<Seq<u8>> {
    seq![INSIGHT_POOL_SEED@]
}

/// What identifies the agent executor: its tag.
pub open spec fn agent_executor_seeds() -> Seq<Seq<u8>> {
    seq![AGENT_EXECUTOR_SEED@]
}

/// What identifies a vault: the tag of vaults and the owner.
pub open spec fn reputation_vault_seeds(owner: Pubkey) -> Seq<Seq<u8>> {
    seq![REPUTATION_VAULT_SEED@, owner@]
}

/// What identifies a market: the tag of markets and the bytes of the
/// market's identifier.
pub open spec fn market_seeds(market_id: Seq<char>) -> Seq<Seq<u8>> {
    seq![MARKET_SEED@, encode_utf8(market_id)]
}

/// What identifies a stake receipt: the tag of receipts, the market's
/// address and the user.
pub open spec fn cred_stake_seeds(market: Pubkey, user: Pubkey) -> Seq<Seq<u8>> {
    seq![CRED_STAKE_SEED@, market@, user@]
}

/// What identifies the minter configuration: its tag.
pub open spec fn minter_config_seeds() -> Seq<Seq<u8>> {
    seq![MINTER_CONFIG_SEED@]
}

/// The address of the insight pool of the program.
pub open spec fn insight_pool_address(program_id: Pubkey) -> Option<(Pubkey, u8)> {
    find_address(insight_pool_seeds(), program_id)
}

/// The address of the agent executor of the program.
pub open spec fn agent_executor_address(program_id: Pubkey) -> Option<(Pubkey, u8)> {
    find_address(agent_executor_seeds(), program_id)
}

/// The address of the vault of `owner`.
pub open spec fn reputation_vault_address(program_id: Pubkey, owner: Pubkey) -> Option<
    (Pubkey, u8),
> {
    find_address(reputation_vault_seeds(owner), program_id)
}

/// The address of the market with the identifier `market_id`.
pub open spec fn market_address(program_id: Pubkey, market_id: Seq<char>) -> Option<(Pubkey, u8)> {
    find_address(market_seeds(market_id), program_id)
}

/// The address of the receipt of `user`'s stake on the market at `market`.
pub open spec fn cred_stake_address(program_id: Pubkey, market: Pubkey, user: Pubkey) -> Option<
    (Pubkey, u8),
> {
    find_address(cred_stake_seeds(market, user), program_id)
}

/// The address of the minter configuration of the program.
pub open spec fn minter_config_address(program_id: Pubkey) -> Option<(Pubkey, u8)> {
    find_address(minter_config_seeds(), program_id)
}

/// Derives the address of the insight pool.
pub fn find_insight_pool_address(program_id: &Pubkey) -> (r: Option<(Pubkey, u8)>)
    ensures
        r == insight_pool_address(*program_id),
{
    let mut seeds: Vec<Vec<u8>> = Vec::new();
    seeds.push(slice_to_vec(&INSIGHT_POOL_SEED));
    assert(seeds.deep_view() =~~= insight_pool_seeds());
    find_program_address(&seeds, program_id)
}

/// Derives the address of the agent executor.
pub fn find_agent_executor_address(program_id: &Pubkey) -> (r: Option<(Pubkey, u8)>)
    ensures
        r == agent_executor_address(*program_id),
{
    let mut seeds: Vec<Vec<u8>> = Vec::new();
    seeds.push(slice_to_vec(&AGENT_EXECUTOR_SEED));
    assert(seeds.deep_view() =~~= agent_executor_seeds());
    find_program_address(&seeds, program_id)
}

/// Derives the address of the vault of `owner`.
pub fn find_reputation_vault_address(program_id: &Pubkey, owner: &Pubkey) -> (r: Option<
    (Pubkey, u8),
>)
    ensures
        r == reputation_vault_address(*program_id, *owner),
{
    let mut seeds: Vec<Vec<u8>> = Vec::new();
    seeds.push(slice_to_vec(&REPUTATION_VAULT_SEED));
    seeds.push(slice_to_vec(&owner.bytes));
    assert(seeds.deep_view() =~~= reputation_vault_seeds(*owner));
    find_program_address(&seeds, program_id)
}

/// Derives the address of the market with the identifier `market_id`.
pub fn find_market_address(program_id: &Pubkey, market_id: &String) -> (r: Option<(Pubkey, u8)>)
    ensures
        r == market_address(*program_id, market_id@),
{
    let mut seeds: Vec<Vec<u8>> = Vec::new();
    seeds.push(slice_to_vec(&MARKET_SEED));
    seeds.push(slice_to_vec(market_id.as_str().as_bytes()));
    assert(seeds.deep_view() =~~= market_seeds(market_id@));
    find_program_address(&seeds, program_id)
}

/// Derives the address of the receipt of `user`'s stake on the market at
/// `market`.
pub fn find_cred_stake_address(program_id: &Pubkey, market: &Pubkey, user: &Pubkey) -> (r: Option<
    (Pubkey, u8),
>)
    ensures
        r == cred_stake_address(*program_id, *market, *user),
{
    let mut seeds: Vec<Vec<u8>> = Vec::new();
    seeds.push(slice_to_vec(&CRED_STAKE_SEED));
    seeds.push(slice_to_vec(&market.bytes));
    seeds.push(slice_to_vec(&user.bytes));
    assert(seeds.deep_view() =~~= cred_stake_seeds(*market, *user));
    find_program_address(&seeds, program_id)
}

/// Derives the address of the minter configuration.
pub fn find_minter_config_address(program_id: &Pubkey) -> (r: Option<(Pubkey, u8)>)
    ensures
        r == minter_config_address(*program_id),
{
    let mut seeds: Vec<Vec<u8>> = Vec::new();
    seeds.push(slice_to_vec(&MINTER_CONFIG_SEED));
    assert(seeds.deep_view() =~~= minter_config_seeds());
    find_program_address(&seeds, program_id)
}

} // verus!
