use crate::pubkey::Pubkey;
use crate::state::EarnMethod;
use vstd::prelude::*;

verus! {

/// A market was created.
#[derive(Debug)]
pub struct MarketCreated {
    pub market: Pubkey,
    pub creator: Pubkey,
    pub tweet_url: String,
    pub market_id: String,
    pub timestamp: i64,
}

/// A user staked Cred on one outcome of a market.
#[derive(Clone, Copy, Debug)]
pub struct CredStaked {
    pub market: Pubkey,
    pub user: Pubkey,
    pub amount: u64,
    pub direction: bool,
    pub timestamp: i64,
}

/// A user submitted an evidence item; `evidence_index` counts from 1.
#[derive(Debug)]
pub struct EvidenceSubmitted {
    pub market: Pubkey,
    pub user: Pubkey,
    pub ipfs_cid: String,
    pub evidence_index: u8,
    pub timestamp: i64,
}

/// The executor's authority resolved a market.
#[derive(Clone, Copy, Debug)]
pub struct MarketResolved {
    pub market: Pubkey,
    pub outcome: u8,
    pub ipfs_transcript_hash: [u8; 32],
    pub resolver: Pubkey,
    pub timestamp: i64,
}

/// A winner was paid Cred.
#[derive(Clone, Copy, Debug)]
pub struct CredDistributed {
    pub market: Pubkey,
    pub recipient: Pubkey,
    pub amount: u64,
    pub timestamp: i64,
}

/// A vault was granted Cred.
#[derive(Clone, Copy, Debug)]
pub struct CredEarned {
    pub user: Pubkey,
    pub amount: u64,
    pub method: EarnMethod,
    pub timestamp: i64,
}

/// Asks the minting subsystem for the proof record of a resolved market.
#[derive(Clone, Copy, Debug)]
pub struct ProofNFTMintRequested {
    pub market: Pubkey,
    pub outcome: u8,
    pub ipfs_transcript_hash: [u8; 32],
    pub timestamp: i64,
}

/// Someone disputed the resolution of a market.
#[derive(Clone, Copy, Debug)]
pub struct MarketDisputed {
    pub market: Pubkey,
    pub disputer: Pubkey,
    pub timestamp: i64,
}

/// One entry of the append-only log that the operations write.
#[derive(Debug)]
pub enum Event {
    MarketCreated(MarketCreated),
    CredStaked(CredStaked),
    EvidenceSubmitted(EvidenceSubmitted),
    MarketResolved(MarketResolved),
    ProofNFTMintRequested(ProofNFTMintRequested),
    CredDistributed(CredDistributed),
    CredEarned(CredEarned),
    MarketDisputed(MarketDisputed),
}

} // verus!
