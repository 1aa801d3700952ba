use crate::pubkey::Pubkey;
use vstd::prelude::*;

verus! {

/// The records and identities that the creation of the insight pool names.
#[derive(Clone, Copy, Debug)]
pub struct InitializeInsightPool {
    /// Where the pool is created.
    pub insight_pool: Pubkey,
    /// Who owns the pool.
    pub authority: Pubkey,
}

/// The records and identities that the creation of the agent executor names.
#[derive(Clone, Copy, Debug)]
pub struct InitializeAgentExecutor {
    /// Where the executor is created.
    pub agent_executor: Pubkey,
    /// Who may resolve markets and grant Cred from now on.
    pub authority: Pubkey,
}

/// The records and identities that the creation of a vault names.
#[derive(Clone, Copy, Debug)]
pub struct InitializeReputationVault {
    /// Where the vault is created.
    pub reputation_vault: Pubkey,
    /// Whose vault it is.
    pub owner: Pubkey,
    /// Who pays for the record.
    pub payer: Pubkey,
}

/// The records and identities that the creation of a market names.
#[derive(Clone, Copy, Debug)]
pub struct InitializeMarket {
    /// Where the market is created.
    pub market: Pubkey,
    /// The executor that the market is bound to.
    pub agent_executor: Pubkey,
    /// Who creates the market.
    pub creator: Pubkey,
}

/// The records and identities that a stake names.
#[derive(Clone, Copy, Debug)]
pub struct StakeCred {
    pub market: Pubkey,
    /// The vault that the stake is taken from.
    pub reputation_vault: Pubkey,
    /// Where the receipt of the stake is created.
    pub cred_stake: Pubkey,
    /// Who stakes.
    pub user: Pubkey,
}

/// The records and identities that a submission of evidence names.
#[derive(Clone, Copy, Debug)]
pub struct SubmitEvidence {
    pub market: Pubkey,
    /// Who submits.
    pub user: Pubkey,
}

/// The records and identities that a resolution names.
#[derive(Clone, Copy, Debug)]
pub struct ResolveMarket {
    pub market: Pubkey,
    pub agent_executor: Pubkey,
    /// Who resolves: must be the executor's authority.
    pub authority: Pubkey,
}

/// The records and identities that a distribution names.
#[derive(Clone, Copy, Debug)]
pub struct DistributeInsightRewards {
    pub market: Pubkey,
    pub insight_pool: Pubkey,
    /// The receipt of the recipient's stake on the market.
    pub cred_stake: Pubkey,
    /// The vault that is paid.
    pub recipient_vault: Pubkey,
    pub agent_executor: Pubkey,
    /// Who asks for the distribution.
    pub authority: Pubkey,
}

/// The records and identities that a grant of Cred names.
#[derive(Clone, Copy, Debug)]
pub struct EarnCred {
    /// The vault that is paid.
    pub reputation_vault: Pubkey,
    pub agent_executor: Pubkey,
    /// Who grants: must be the executor's authority.
    pub authority: Pubkey,
}

/// The records and identities that a dispute names.
#[derive(Clone, Copy, Debug)]
pub struct DisputeMarket {
    pub market: Pubkey,
    /// Who disputes.
    pub disputer: Pubkey,
}

} // verus!
