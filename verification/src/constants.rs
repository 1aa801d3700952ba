use vstd::prelude::*;

verus! {

/// Longest claim reference a market accepts, in bytes of UTF-8.
pub const MAX_TWEET_URL_LEN: usize = 280;

/// Longest market identifier, in bytes of UTF-8. The identifier is one seed of
/// the market's address, and a seed holds at most 32 bytes.
pub const MAX_MARKET_ID_LEN: usize = 32;

/// Longest evidence content identifier, in bytes of UTF-8.
pub const MAX_IPFS_CID_LEN: usize = 64;

/// How many evidence items one market accepts.
pub const MAX_EVIDENCE_COUNT: u8 = 10;

/// Cred amounts are fixed-point numbers with this many decimal places.
pub const CRED_DECIMALS: u8 = 6;

/// What a new vault is granted: 100 Cred.
pub const INITIAL_CRED_GRANT: u64 = 100_000_000;

/// The transcript hash of a market that is not resolved yet: all zero.
pub const EMPTY_TRANSCRIPT_HASH: [u8; 32] = [
    0, 0, 0, 0, 0, 0, 0, 0, 0, 0, 0, 0, 0, 0, 0, 0, 0, 0, 0, 0, 0, 0, 0, 0, 0, 0, 0, 0, 0, 0, 0, 0,
];

/// Address tag of the insight pool: `insight_pool`.
pub const INSIGHT_POOL_SEED: [u8; 12] = [105, 110, 115, 105, 103, 104, 116, 95, 112, 111, 111, 108];

/// Address tag of the agent executor: `agent_executor`.
pub const AGENT_EXECUTOR_SEED: [u8; 14] = [
    97, 103, 101, 110, 116, 95, 101, 120, 101, 99, 117, 116, 111, 114,
];

/// Address tag of a reputation vault: `reputation_vault`.
pub const REPUTATION_VAULT_SEED: [u8; 16] = [
    114, 101, 112, 117, 116, 97, 116, 105, 111, 110, 95, 118, 97, 117, 108, 116,
];

/// Address tag of a stake receipt: `cred_stake`.
pub const CRED_STAKE_SEED: [u8; 10] = [99, 114, 101, 100, 95, 115, 116, 97, 107, 101];

/// Address tag of a market: `market`.
pub const MARKET_SEED: [u8; 6] = [109, 97, 114, 107, 101, 116];

/// Address tag of the minter configuration: `minter_config`.
pub const MINTER_CONFIG_SEED: [u8; 13] = [
    109, 105, 110, 116, 101, 114, 95, 99, 111, 110, 102, 105, 103,
];

} // verus!
