use crate::pubkey::Pubkey;
use vstd::prelude::*;

verus! {

/// Where a market stands in its life: `Open`, then `Resolved`, then `Disputed`.
#[derive(Clone, Copy, Debug, PartialEq, Eq, Structural)]
pub enum MarketStatus {
    Open,
    Resolved,
    Disputed,
}

/// How an amount of Cred was earned; recorded for audit.
#[derive(Clone, Copy, Debug, PartialEq, Eq, Structural)]
pub enum EarnMethod {
    InitialGrant,
    EvidenceSubmission,
    CorrectPrediction,
    Referral,
    IdentityVerification,
    CommunityContribution,
}

/// One prediction on a binary outcome of a claim.
#[derive(Debug)]
pub struct Market {
    pub creator: Pubkey,
    pub tweet_url: String,
    pub market_id: String,
    pub created_at: i64,
    pub status: MarketStatus,
    pub outcome: Option<u8>,
    pub ipfs_transcript_hash: [u8; 32],
    pub insight_pool_amount: u64,
    pub agent_executor: Pubkey,
    pub evidence_count: u8,
    pub total_yes_stake: u64,
    pub total_no_stake: u64,
    pub bump: u8,
}

impl Clone for Market {
    fn clone(&self) -> (r: Market)
        ensures
            r == *self,
    {
        Market {
            creator: self.creator,
            tweet_url: self.tweet_url.clone(),
            market_id: self.market_id.clone(),
            created_at: self.created_at,
            status: self.status,
            outcome: self.outcome,
            ipfs_transcript_hash: self.ipfs_transcript_hash,
            insight_pool_amount: self.insight_pool_amount,
            agent_executor: self.agent_executor,
            evidence_count: self.evidence_count,
            total_yes_stake: self.total_yes_stake,
            total_no_stake: self.total_no_stake,
            bump: self.bump,
        }
    }
}

/// The Cred ledger of one owner.
#[derive(Clone, Copy, Debug)]
pub struct ReputationVault {
    pub owner: Pubkey,
    pub cred_balance: u64,
    pub total_earned: u64,
    pub total_staked: u64,
    pub participation_count: u64,
    pub bump: u8,
}

impl ReputationVault {
    /// Every Cred the vault ever earned is either still in the balance or was
    /// staked: nothing was spent that had not been earned.
    pub open spec fn is_balanced(self) -> bool {
        self.cred_balance + self.total_staked == self.total_earned
    }
}

/// The counters of all Cred redistributed to winners.
#[derive(Clone, Copy, Debug)]
pub struct InsightPool {
    pub total_credits: u64,
    pub distributions_count: u64,
    pub last_distribution: i64,
    pub authority: Pubkey,
    pub bump: u8,
}

/// The identity that may resolve markets and grant Cred.
#[derive(Clone, Copy, Debug)]
pub struct AgentExecutor {
    pub authority: Pubkey,
    pub markets_resolved: u64,
    pub bump: u8,
}

/// The receipt of one user's stake on one market.
#[derive(Clone, Copy, Debug)]
pub struct CredStake {
    pub user: Pubkey,
    pub market: Pubkey,
    pub amount: u64,
    pub direction: bool,
    pub timestamp: i64,
    pub bump: u8,
}

impl CredStake {
    /// Whether the stake was placed on the outcome that the market resolved to:
    /// `true` stands for outcome 1 (yes), `false` for outcome 0 (no).
    pub open spec fn won(self, outcome: u8) -> bool {
        (self.direction && outcome == 1) || (!self.direction && outcome == 0)
    }
}

} // verus!
