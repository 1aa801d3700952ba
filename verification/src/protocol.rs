use crate::accounts::{
    DisputeMarket, DistributeInsightRewards, EarnCred, InitializeAgentExecutor,
    InitializeInsightPool, InitializeMarket, InitializeReputationVault, ResolveMarket, StakeCred,
    SubmitEvidence,
};
use crate::address::{
    agent_executor_address, cred_stake_address, find_agent_executor_address,
    find_cred_stake_address, find_insight_pool_address, find_market_address,
    find_reputation_vault_address, insight_pool_address, market_address,
    reputation_vault_address,
};
use crate::instructions::{check_market_texts, initialize_market_error};
use crate::ledger::{
    committed, dispute_market_step, distribute_insight_rewards_step, earn_cred_step,
    initialize_agent_executor_step, initialize_insight_pool_step, initialize_market_step,
    initialize_reputation_vault_step, resolve_market_step, stake_cred_step, submit_evidence_step,
    Ledger, LedgerError, LedgerState,
};
use crate::pubkey::Pubkey;
use crate::state::EarnMethod;
use vstd::prelude::*;

verus! {

// ---------------------------------------------------------------------------
// Instructions: operations on records at given addresses
// ---------------------------------------------------------------------------

/// One operation with the addresses of all the records that it touches, the
/// bump seed of the record that it creates, if it creates one, and its
/// arguments.
#[derive(Debug)]
#[allow(inconsistent_fields)]
pub enum Instruction {
    InitializeInsightPool { accounts: InitializeInsightPool, bump: u8 },
    InitializeAgentExecutor { accounts: InitializeAgentExecutor, bump: u8 },
    InitializeReputationVault { accounts: InitializeReputationVault, bump: u8 },
    InitializeMarket { accounts: InitializeMarket, bump: u8, tweet_url: String, market_id: String },
    StakeCred { accounts: StakeCred, bump: u8, direction: bool, amount: u64 },
    SubmitEvidence { accounts: SubmitEvidence, ipfs_cid: String },
    ResolveMarket { accounts: ResolveMarket, outcome: u8, ipfs_transcript_hash: [u8; 32] },
    DistributeInsightRewards { accounts: DistributeInsightRewards, amount: u64 },
    EarnCred { accounts: EarnCred, amount: u64, method: EarnMethod },
    DisputeMarket { accounts: DisputeMarket },
}

/// What an instruction at time `now` makes of a ledger: the next ledger, or
/// why the instruction is refused.
pub open spec fn step(pre: LedgerState, instruction: Instruction, now: i64) -> Result<
    LedgerState,
    LedgerError,
> {
    match instruction {
        Instruction::InitializeInsightPool { accounts, bump } => initialize_insight_pool_step(
            pre,
            accounts,
            bump,
            now,
        ),
        Instruction::InitializeAgentExecutor { accounts, bump } => initialize_agent_executor_step(
            pre,
            accounts,
            bump,
        ),
        Instruction::InitializeReputationVault {
            accounts,
            bump,
        } => initialize_reputation_vault_step(pre, accounts, bump, now),
        Instruction::InitializeMarket {
            accounts,
            bump,
            tweet_url,
            market_id,
        } => initialize_market_step(pre, accounts, bump, tweet_url, market_id, now),
        Instruction::StakeCred { accounts, bump, direction, amount } => stake_cred_step(
            pre,
            accounts,
            bump,
            direction,
            amount,
            now,
        ),
        Instruction::SubmitEvidence { accounts, ipfs_cid } => submit_evidence_step(
            pre,
            accounts,
            ipfs_cid,
            now,
        ),
        Instruction::ResolveMarket {
            accounts,
            outcome,
            ipfs_transcript_hash,
        } => resolve_market_step(pre, accounts, outcome, ipfs_transcript_hash, now),
        Instruction::DistributeInsightRewards {
            accounts,
            amount,
        } => distribute_insight_rewards_step(pre, accounts, amount, now),
        Instruction::EarnCred { accounts, amount, method } => earn_cred_step(
            pre,
            accounts,
            amount,
            method,
            now,
        ),
        Instruction::DisputeMarket { accounts } => dispute_market_step(pre, accounts, now),
    }
}

// ---------------------------------------------------------------------------
// Calls: operations on records found by derivation
// ---------------------------------------------------------------------------

/// One operation as a caller asks for it: who calls, which market is meant,
/// whose vault, and the arguments. The addresses of the two singletons, of
/// vaults, of new markets and of stake receipts are not given: they are derived
/// from what identifies the record.
#[derive(Debug)]
pub enum Call {
    InitializeInsightPool { authority: Pubkey },
    InitializeAgentExecutor { authority: Pubkey },
    InitializeReputationVault { owner: Pubkey, payer: Pubkey },
    InitializeMarket { creator: Pubkey, tweet_url: String, market_id: String },
    StakeCred { market: Pubkey, user: Pubkey, direction: bool, amount: u64 },
    SubmitEvidence { market: Pubkey, user: Pubkey, ipfs_cid: String },
    ResolveMarket {
        market: Pubkey,
        authority: Pubkey,
        outcome: u8,
        ipfs_transcript_hash: [u8; 32],
    },
    DistributeInsightRewards { market: Pubkey, recipient: Pubkey, authority: Pubkey, amount: u64 },
    EarnCred { owner: Pubkey, authority: Pubkey, amount: u64, method: EarnMethod },
    DisputeMarket { market: Pubkey, disputer: Pubkey },
}

/// The instruction that a call stands for under the program `program_id`. A
/// call for which an address cannot be derived is refused. The texts of a new
/// market are checked first, because its address is derived from one of them.
pub open spec fn resolved(program_id: Pubkey, call: Call) -> Result<Instruction, LedgerError> {
    match call {
        Call::InitializeInsightPool { authority } => match insight_pool_address(program_id) {
            None => Err(LedgerError::AddressNotDerivable),
            Some((insight_pool, bump)) => Ok(
                Instruction::InitializeInsightPool {
                    accounts: InitializeInsightPool { insight_pool, authority },
                    bump,
                },
            ),
        },
        Call::InitializeAgentExecutor { authority } => match agent_executor_address(program_id) {
            None => Err(LedgerError::AddressNotDerivable),
            Some((agent_executor, bump)) => Ok(
                Instruction::InitializeAgentExecutor {
                    accounts: InitializeAgentExecutor { agent_executor, authority },
                    bump,
                },
            ),
        },
        Call::InitializeReputationVault { owner, payer } => match reputation_vault_address(
            program_id,
            owner,
        ) {
            None => Err(LedgerError::AddressNotDerivable),
            Some((reputation_vault, bump)) => Ok(
                Instruction::InitializeReputationVault {
                    accounts: InitializeReputationVault { reputation_vault, owner, payer },
                    bump,
                },
            ),
        },
        Call::InitializeMarket { creator, tweet_url, market_id } => {
            match initialize_market_error(tweet_url@, market_id@) {
                Some(e) => Err(LedgerError::Program(e)),
                None => match (
                    market_address(program_id, market_id@),
                    agent_executor_address(program_id),
                ) {
                    (Some((market, bump)), Some((agent_executor, _))) => Ok(
                        Instruction::InitializeMarket {
                            accounts: InitializeMarket { market, agent_executor, creator },
                            bump,
                            tweet_url,
                            market_id,
                        },
                    ),
                    _ => Err(LedgerError::AddressNotDerivable),
                },
            }
        },
        Call::StakeCred { market, user, direction, amount } => match (
            reputation_vault_address(program_id, user),
            cred_stake_address(program_id, market, user),
        ) {
            (Some((reputation_vault, _)), Some((cred_stake, bump))) => Ok(
                Instruction::StakeCred {
                    accounts: StakeCred { market, reputation_vault, cred_stake, user },
                    bump,
                    direction,
                    amount,
                },
            ),
            _ => Err(LedgerError::AddressNotDerivable),
        },
        Call::SubmitEvidence { market, user, ipfs_cid } => Ok(
            Instruction::SubmitEvidence { accounts: SubmitEvidence { market, user }, ipfs_cid },
        ),
        Call::ResolveMarket {
            market,
            authority,
            outcome,
            ipfs_transcript_hash,
        } => match agent_executor_address(program_id) {
            None => Err(LedgerError::AddressNotDerivable),
            Some((agent_executor, _)) => Ok(
                Instruction::ResolveMarket {
                    accounts: ResolveMarket { market, agent_executor, authority },
                    outcome,
                    ipfs_transcript_hash,
                },
            ),
        },
        Call::DistributeInsightRewards { market, recipient, authority, amount } => match (
            insight_pool_address(program_id),
            cred_stake_address(program_id, market, recipient),
            reputation_vault_address(program_id, recipient),
            agent_executor_address(program_id),
        ) {
            (
                Some((insight_pool, _)),
                Some((cred_stake, _)),
                Some((recipient_vault, _)),
                Some((agent_executor, _)),
            ) => Ok(
                Instruction::DistributeInsightRewards {
                    accounts: DistributeInsightRewards {
                        market,
                        insight_pool,
                        cred_stake,
                        recipient_vault,
                        agent_executor,
                        authority,
                    },
                    amount,
                },
            ),
            _ => Err(LedgerError::AddressNotDerivable),
        },
        Call::EarnCred { owner, authority, amount, method } => match (
            reputation_vault_address(program_id, owner),
            agent_executor_address(program_id),
        ) {
            (Some((reputation_vault, _)), Some((agent_executor, _))) => Ok(
                Instruction::EarnCred {
                    accounts: EarnCred { reputation_vault, agent_executor, authority },
                    amount,
                    method,
                },
            ),
            _ => Err(LedgerError::AddressNotDerivable),
        },
        Call::DisputeMarket { market, disputer } => Ok(
            Instruction::DisputeMarket { accounts: DisputeMarket { market, disputer } },
        ),
    }
}

/// What a call at time `now` makes of a ledger of the program `program_id`.
pub open spec fn apply(pre: LedgerState, program_id: Pubkey, call: Call, now: i64) -> Result<
    LedgerState,
    LedgerError,
> {
    match resolved(program_id, call) {
        Err(e) => Err(e),
        Ok(instruction) => step(pre, instruction, now),
    }
}

/// Finds the records that a call means: derives each address that the call
/// leaves to derivation, and returns the instruction on those addresses.
pub fn resolve(program_id: &Pubkey, call: Call) -> (r: Result<Instruction, LedgerError>)
    ensures
        r == resolved(*program_id, call),
{
    match call {
        Call::InitializeInsightPool { authority } => match find_insight_pool_address(program_id) {
            None => Err(LedgerError::AddressNotDerivable),
            Some((insight_pool, bump)) => Ok(
                Instruction::InitializeInsightPool {
                    accounts: InitializeInsightPool { insight_pool, authority },
                    bump,
                },
            ),
        },
        Call::InitializeAgentExecutor { authority } => {
            match find_agent_executor_address(program_id) {
                None => Err(LedgerError::AddressNotDerivable),
                Some((agent_executor, bump)) => Ok(
                    Instruction::InitializeAgentExecutor {
                        accounts: InitializeAgentExecutor { agent_executor, authority },
                        bump,
                    },
                ),
            }
        },
        Call::InitializeReputationVault { owner, payer } => {
            match find_reputation_vault_address(program_id, &owner) {
                None => Err(LedgerError::AddressNotDerivable),
                Some((reputation_vault, bump)) => Ok(
                    Instruction::InitializeReputationVault {
                        accounts: InitializeReputationVault { reputation_vault, owner, payer },
                        bump,
                    },
                ),
            }
        },
        Call::InitializeMarket { creator, tweet_url, market_id } => {
            match check_market_texts(&tweet_url, &market_id) {
                Err(e) => { return Err(LedgerError::Program(e)); },
                Ok(_) => {},
            }
            let derived_market = find_market_address(program_id, &market_id);
            let derived_executor = find_agent_executor_address(program_id);
            match (derived_market, derived_executor) {
                (Some((market, bump)), Some((agent_executor, _))) => Ok(
                    Instruction::InitializeMarket {
                        accounts: InitializeMarket { market, agent_executor, creator },
                        bump,
                        tweet_url,
                        market_id,
                    },
                ),
                _ => Err(LedgerError::AddressNotDerivable),
            }
        },
        Call::StakeCred { market, user, direction, amount } => {
            let derived_vault = find_reputation_vault_address(program_id, &user);
            let derived_stake = find_cred_stake_address(program_id, &market, &user);
            match (derived_vault, derived_stake) {
                (Some((reputation_vault, _)), Some((cred_stake, bump))) => Ok(
                    Instruction::StakeCred {
                        accounts: StakeCred { market, reputation_vault, cred_stake, user },
                        bump,
                        direction,
                        amount,
                    },
                ),
                _ => Err(LedgerError::AddressNotDerivable),
            }
        },
        Call::SubmitEvidence { market, user, ipfs_cid } => Ok(
            Instruction::SubmitEvidence { accounts: SubmitEvidence { market, user }, ipfs_cid },
        ),
        Call::ResolveMarket { market, authority, outcome, ipfs_transcript_hash } => {
            match find_agent_executor_address(program_id) {
                None => Err(LedgerError::AddressNotDerivable),
                Some((agent_executor, _)) => Ok(
                    Instruction::ResolveMarket {
                        accounts: ResolveMarket { market, agent_executor, authority },
                        outcome,
                        ipfs_transcript_hash,
                    },
                ),
            }
        },
        Call::DistributeInsightRewards { market, recipient, authority, amount } => {
            let derived_pool = find_insight_pool_address(program_id);
            let derived_stake = find_cred_stake_address(program_id, &market, &recipient);
            let derived_vault = find_reputation_vault_address(program_id, &recipient);
            let derived_executor = find_agent_executor_address(program_id);
            match (derived_pool, derived_stake, derived_vault, derived_executor) {
                (
                    Some((insight_pool, _)),
                    Some((cred_stake, _)),
                    Some((recipient_vault, _)),
                    Some((agent_executor, _)),
                ) => Ok(
                    Instruction::DistributeInsightRewards {
                        accounts: DistributeInsightRewards {
                            market,
                            insight_pool,
                            cred_stake,
                            recipient_vault,
                            agent_executor,
                            authority,
                        },
                        amount,
                    },
                ),
                _ => Err(LedgerError::AddressNotDerivable),
            }
        },
        Call::EarnCred { owner, authority, amount, method } => {
            let derived_vault = find_reputation_vault_address(program_id, &owner);
            let derived_executor = find_agent_executor_address(program_id);
            match (derived_vault, derived_executor) {
                (Some((reputation_vault, _)), Some((agent_executor, _))) => Ok(
                    Instruction::EarnCred {
                        accounts: EarnCred { reputation_vault, agent_executor, authority },
                        amount,
                        method,
                    },
                ),
                _ => Err(LedgerError::AddressNotDerivable),
            }
        },
        Call::DisputeMarket { market, disputer } => Ok(
            Instruction::DisputeMarket { accounts: DisputeMarket { market, disputer } },
        ),
    }
}

impl Ledger {
    /// Carries out one instruction at time `now`, or refuses it and leaves
    /// the ledger as it was.
    pub fn execute(&mut self, instruction: Instruction, now: i64) -> (r: Result<(), LedgerError>)
        ensures
            final(self).id() == old(self).id(),
            committed(old(self)@, step(old(self)@, instruction, now), r, final(self)@),
    {
        match instruction {
            Instruction::InitializeInsightPool { accounts, bump } => self.initialize_insight_pool(
                &accounts,
                bump,
                now,
            ),
            Instruction::InitializeAgentExecutor {
                accounts,
                bump,
            } => self.initialize_agent_executor(&accounts, bump),
            Instruction::InitializeReputationVault {
                accounts,
                bump,
            } => self.initialize_reputation_vault(&accounts, bump, now),
            Instruction::InitializeMarket {
                accounts,
                bump,
                tweet_url,
                market_id,
            } => self.initialize_market(&accounts, bump, tweet_url, market_id, now),
            Instruction::StakeCred { accounts, bump, direction, amount } => self.stake_cred(
                &accounts,
                bump,
                direction,
                amount,
                now,
            ),
            Instruction::SubmitEvidence { accounts, ipfs_cid } => self.submit_evidence(
                &accounts,
                ipfs_cid,
                now,
            ),
            Instruction::ResolveMarket {
                accounts,
                outcome,
                ipfs_transcript_hash,
            } => self.resolve_market(&accounts, outcome, ipfs_transcript_hash, now),
            Instruction::DistributeInsightRewards {
                accounts,
                amount,
            } => self.distribute_insight_rewards(&accounts, amount, now),
            Instruction::EarnCred { accounts, amount, method } => self.earn_cred(
                &accounts,
                amount,
                method,
                now,
            ),
            Instruction::DisputeMarket { accounts } => self.dispute_market(&accounts, now),
        }
    }

    /// Carries out one call at time `now`: finds the records that the call
    /// means, then carries out the instruction on them. A call that is refused
    /// leaves the ledger as it was.
    pub fn process(&mut self, call: Call, now: i64) -> (r: Result<(), LedgerError>)
        ensures
            final(self).id() == old(self).id(),
            committed(old(self)@, apply(old(self)@, old(self).id(), call, now), r, final(self)@),
    {
        let program_id = self.program_id();
        match resolve(&program_id, call) {
            Err(e) => Err(e),
            Ok(instruction) => self.execute(instruction, now),
        }
    }
}

} // verus!
