use crate::accounts::{
    DisputeMarket, DistributeInsightRewards, EarnCred, InitializeAgentExecutor,
    InitializeInsightPool, InitializeMarket, InitializeReputationVault, ResolveMarket, StakeCred,
    SubmitEvidence,
};
use crate::error::ErrorCode;
use crate::events::{
    CredDistributed, CredEarned, CredStaked, Event, EvidenceSubmitted, MarketCreated,
    MarketDisputed, MarketResolved, ProofNFTMintRequested,
};
use crate::instructions;
use crate::instructions::{
    dispute_market_error, distribute_insight_rewards_error, earn_cred_error,
    initialize_market_error, market_after_resolve, market_after_stake, new_market,
    new_reputation_vault, pool_after_distribution, resolve_market_error, stake_cred_error,
    submit_evidence_error, vault_after_credit, vault_after_stake,
};
use crate::constants::INITIAL_CRED_GRANT;
use crate::pubkey::Pubkey;
use crate::state::{
    AgentExecutor, CredStake, EarnMethod, InsightPool, Market, MarketStatus, ReputationVault,
};
use crate::store::{Account, AccountStore};
use vstd::prelude::*;

verus! {

/// Why an operation on the ledger was refused.
#[derive(Clone, Copy, Debug, PartialEq, Eq, Structural)]
pub enum LedgerError {
    /// The operation itself refused its arguments or the state of its records.
    Program(ErrorCode),
    /// A record was to be created at an address that holds one already.
    AccountAlreadyInUse,
    /// No record lives at an address that the operation reads.
    AccountNotInitialized,
    /// The record at an address is of another kind than the operation expects.
    AccountKindMismatch,
    /// No address can be derived for a record that the operation names.
    AddressNotDerivable,
}

/// What a ledger holds: the records by address, and the log of events.
pub struct LedgerState {
    pub accounts: Map<Pubkey, Account>,
    pub events: Seq<Event>,
}

impl LedgerState {
    /// The ledger before any operation.
    pub open spec fn empty() -> LedgerState {
        LedgerState { accounts: Map::empty(), events: Seq::empty() }
    }

    /// This ledger with `account` at `key`.
    pub open spec fn with(self, key: Pubkey, account: Account) -> LedgerState {
        LedgerState { accounts: self.accounts.insert(key, account), ..self }
    }

    /// This ledger with one more event at the end of its log.
    pub open spec fn emit(self, event: Event) -> LedgerState {
        LedgerState { events: self.events.push(event), ..self }
    }
}

/// The market at `key`.
pub open spec fn market_at(accounts: Map<Pubkey, Account>, key: Pubkey) -> Result<
    Market,
    LedgerError,
> {
    if !accounts.contains_key(key) {
        Err(LedgerError::AccountNotInitialized)
    } else {
        match accounts[key] {
            Account::Market(market) => Ok(market),
            _ => Err(LedgerError::AccountKindMismatch),
        }
    }
}

/// The reputation vault at `key`.
pub open spec fn vault_at(accounts: Map<Pubkey, Account>, key: Pubkey) -> Result<
    ReputationVault,
    LedgerError,
> {
    if !accounts.contains_key(key) {
        Err(LedgerError::AccountNotInitialized)
    } else {
        match accounts[key] {
            Account::ReputationVault(vault) => Ok(vault),
            _ => Err(LedgerError::AccountKindMismatch),
        }
    }
}

/// The insight pool at `key`.
pub open spec fn pool_at(accounts: Map<Pubkey, Account>, key: Pubkey) -> Result<
    InsightPool,
    LedgerError,
> {
    if !accounts.contains_key(key) {
        Err(LedgerError::AccountNotInitialized)
    } else {
        match accounts[key] {
            Account::InsightPool(pool) => Ok(pool),
            _ => Err(LedgerError::AccountKindMismatch),
        }
    }
}

/// The agent executor at `key`.
pub open spec fn executor_at(accounts: Map<Pubkey, Account>, key: Pubkey) -> Result<
    AgentExecutor,
    LedgerError,
> {
    if !accounts.contains_key(key) {
        Err(LedgerError::AccountNotInitialized)
    } else {
        match accounts[key] {
            Account::AgentExecutor(executor) => Ok(executor),
            _ => Err(LedgerError::AccountKindMismatch),
        }
    }
}

/// The stake receipt at `key`.
pub open spec fn stake_at(accounts: Map<Pubkey, Account>, key: Pubkey) -> Result<
    CredStake,
    LedgerError,
> {
    if !accounts.contains_key(key) {
        Err(LedgerError::AccountNotInitialized)
    } else {
        match accounts[key] {
            Account::CredStake(stake) => Ok(stake),
            _ => Err(LedgerError::AccountKindMismatch),
        }
    }
}

/// An operation is atomic: where its step succeeds the ledger is the step's
/// result, and where the step fails the caller gets the step's error and the
/// ledger is what it was.
pub open spec fn committed(
    pre: LedgerState,
    step: Result<LedgerState, LedgerError>,
    r: Result<(), LedgerError>,
    post: LedgerState,
) -> bool {
    match step {
        Ok(next) => r is Ok && post == next,
        Err(e) => r == Err::<(), LedgerError>(e) && post == pre,
    }
}

// ---------------------------------------------------------------------------
// The steps: what each operation makes of a ledger
// ---------------------------------------------------------------------------

/// Creating the insight pool: refused where its address is in use.
pub open spec fn initialize_insight_pool_step(
    pre: LedgerState,
    accounts: InitializeInsightPool,
    bump: u8,
    now: i64,
) -> Result<LedgerState, LedgerError> {
    if pre.accounts.contains_key(accounts.insight_pool) {
        Err(LedgerError::AccountAlreadyInUse)
    } else {
        Ok(
            pre.with(
                accounts.insight_pool,
                Account::InsightPool(
                    InsightPool {
                        total_credits: 0,
                        distributions_count: 0,
                        last_distribution: now,
                        authority: accounts.authority,
                        bump,
                    },
                ),
            ),
        )
    }
}

/// Creating the agent executor: refused where its address is in use.
pub open spec fn initialize_agent_executor_step(
    pre: LedgerState,
    accounts: InitializeAgentExecutor,
    bump: u8,
) -> Result<LedgerState, LedgerError> {
    if pre.accounts.contains_key(accounts.agent_executor) {
        Err(LedgerError::AccountAlreadyInUse)
    } else {
        Ok(
            pre.with(
                accounts.agent_executor,
                Account::AgentExecutor(
                    AgentExecutor { authority: accounts.authority, markets_resolved: 0, bump },
                ),
            ),
        )
    }
}

/// Creating a vault with the initial grant: refused where its address is in
/// use.
pub open spec fn initialize_reputation_vault_step(
    pre: LedgerState,
    accounts: InitializeReputationVault,
    bump: u8,
    now: i64,
) -> Result<LedgerState, LedgerError> {
    if pre.accounts.contains_key(accounts.reputation_vault) {
        Err(LedgerError::AccountAlreadyInUse)
    } else {
        Ok(
            pre.with(
                accounts.reputation_vault,
                Account::ReputationVault(new_reputation_vault(accounts.owner, bump)),
            ).emit(
                Event::CredEarned(
                    CredEarned {
                        user: accounts.owner,
                        amount: INITIAL_CRED_GRANT,
                        method: EarnMethod::InitialGrant,
                        timestamp: now,
                    },
                ),
            ),
        )
    }
}

/// Creating a market: refused where its address is in use, where the
/// executor is not found, or where a text is too long.
pub open spec fn initialize_market_step(
    pre: LedgerState,
    accounts: InitializeMarket,
    bump: u8,
    tweet_url: String,
    market_id: String,
    now: i64,
) -> Result<LedgerState, LedgerError> {
    if pre.accounts.contains_key(accounts.market) {
        Err(LedgerError::AccountAlreadyInUse)
    } else {
        match executor_at(pre.accounts, accounts.agent_executor) {
            Err(e) => Err(e),
            Ok(_) => match initialize_market_error(tweet_url@, market_id@) {
                Some(e) => Err(LedgerError::Program(e)),
                None => Ok(
                    pre.with(
                        accounts.market,
                        Account::Market(
                            new_market(
                                accounts.creator,
                                accounts.agent_executor,
                                bump,
                                tweet_url,
                                market_id,
                                now,
                            ),
                        ),
                    ).emit(
                        Event::MarketCreated(
                            MarketCreated {
                                market: accounts.market,
                                creator: accounts.creator,
                                tweet_url,
                                market_id,
                                timestamp: now,
                            },
                        ),
                    ),
                ),
            },
        }
    }
}

/// Staking: the market and the vault are looked up, the receipt's address
/// must be free, and the stake itself must be accepted. Then the market and
/// the vault are written back, the receipt is created and the event logged.
pub open spec fn stake_cred_step(
    pre: LedgerState,
    accounts: StakeCred,
    bump: u8,
    direction: bool,
    amount: u64,
    now: i64,
) -> Result<LedgerState, LedgerError> {
    match market_at(pre.accounts, accounts.market) {
        Err(e) => Err(e),
        Ok(market) => match vault_at(pre.accounts, accounts.reputation_vault) {
            Err(e) => Err(e),
            Ok(vault) => if pre.accounts.contains_key(accounts.cred_stake) {
                Err(LedgerError::AccountAlreadyInUse)
            } else {
                match stake_cred_error(market, vault, direction, amount) {
                    Some(e) => Err(LedgerError::Program(e)),
                    None => Ok(
                        pre.with(
                            accounts.market,
                            Account::Market(market_after_stake(market, direction, amount)),
                        ).with(
                            accounts.reputation_vault,
                            Account::ReputationVault(vault_after_stake(vault, amount)),
                        ).with(
                            accounts.cred_stake,
                            Account::CredStake(
                                CredStake {
                                    user: accounts.user,
                                    market: accounts.market,
                                    amount,
                                    direction,
                                    timestamp: now,
                                    bump,
                                },
                            ),
                        ).emit(
                            Event::CredStaked(
                                CredStaked {
                                    market: accounts.market,
                                    user: accounts.user,
                                    amount,
                                    direction,
                                    timestamp: now,
                                },
                            ),
                        ),
                    ),
                }
            },
        },
    }
}

/// Submitting evidence: the market is looked up and counts one more item.
pub open spec fn submit_evidence_step(
    pre: LedgerState,
    accounts: SubmitEvidence,
    ipfs_cid: String,
    now: i64,
) -> Result<LedgerState, LedgerError> {
    match market_at(pre.accounts, accounts.market) {
        Err(e) => Err(e),
        Ok(market) => match submit_evidence_error(market, ipfs_cid@) {
            Some(e) => Err(LedgerError::Program(e)),
            None => Ok(
                pre.with(
                    accounts.market,
                    Account::Market(
                        Market { evidence_count: (market.evidence_count + 1) as u8, ..market },
                    ),
                ).emit(
                    Event::EvidenceSubmitted(
                        EvidenceSubmitted {
                            market: accounts.market,
                            user: accounts.user,
                            ipfs_cid,
                            evidence_index: (market.evidence_count + 1) as u8,
                            timestamp: now,
                        },
                    ),
                ),
            ),
        },
    }
}

/// Resolving: the market and the executor are looked up; both are written
/// back, and two events are logged: the resolution and the request to mint.
pub open spec fn resolve_market_step(
    pre: LedgerState,
    accounts: ResolveMarket,
    outcome: u8,
    ipfs_transcript_hash: [u8; 32],
    now: i64,
) -> Result<LedgerState, LedgerError> {
    match market_at(pre.accounts, accounts.market) {
        Err(e) => Err(e),
        Ok(market) => match executor_at(pre.accounts, accounts.agent_executor) {
            Err(e) => Err(e),
            Ok(executor) => match resolve_market_error(
                market,
                executor,
                accounts.authority,
                outcome,
            ) {
                Some(e) => Err(LedgerError::Program(e)),
                None => Ok(
                    pre.with(
                        accounts.market,
                        Account::Market(market_after_resolve(market, outcome, ipfs_transcript_hash)),
                    ).with(
                        accounts.agent_executor,
                        Account::AgentExecutor(
                            AgentExecutor {
                                markets_resolved: (executor.markets_resolved + 1) as u64,
                                ..executor
                            },
                        ),
                    ).emit(
                        Event::MarketResolved(
                            MarketResolved {
                                market: accounts.market,
                                outcome,
                                ipfs_transcript_hash,
                                resolver: accounts.authority,
                                timestamp: now,
                            },
                        ),
                    ).emit(
                        Event::ProofNFTMintRequested(
                            ProofNFTMintRequested {
                                market: accounts.market,
                                outcome,
                                ipfs_transcript_hash,
                                timestamp: now,
                            },
                        ),
                    ),
                ),
            },
        },
    }
}

/// Distributing: the market, the pool, the receipt, the vault and the
/// executor are looked up; the vault and the pool are written back.
pub open spec fn distribute_insight_rewards_step(
    pre: LedgerState,
    accounts: DistributeInsightRewards,
    amount: u64,
    now: i64,
) -> Result<LedgerState, LedgerError> {
    match market_at(pre.accounts, accounts.market) {
        Err(e) => Err(e),
        Ok(market) => match pool_at(pre.accounts, accounts.insight_pool) {
            Err(e) => Err(e),
            Ok(pool) => match stake_at(pre.accounts, accounts.cred_stake) {
                Err(e) => Err(e),
                Ok(stake) => match vault_at(pre.accounts, accounts.recipient_vault) {
                    Err(e) => Err(e),
                    Ok(vault) => match executor_at(pre.accounts, accounts.agent_executor) {
                        Err(e) => Err(e),
                        Ok(_) => match distribute_insight_rewards_error(
                            market,
                            stake,
                            vault,
                            pool,
                            amount,
                        ) {
                            Some(e) => Err(LedgerError::Program(e)),
                            None => Ok(
                                pre.with(
                                    accounts.recipient_vault,
                                    Account::ReputationVault(vault_after_credit(vault, amount)),
                                ).with(
                                    accounts.insight_pool,
                                    Account::InsightPool(
                                        pool_after_distribution(pool, amount, now),
                                    ),
                                ).emit(
                                    Event::CredDistributed(
                                        CredDistributed {
                                            market: accounts.market,
                                            recipient: vault.owner,
                                            amount,
                                            timestamp: now,
                                        },
                                    ),
                                ),
                            ),
                        },
                    },
                },
            },
        },
    }
}

/// Granting Cred: the vault and the executor are looked up; the vault is
/// written back.
pub open spec fn earn_cred_step(
    pre: LedgerState,
    accounts: EarnCred,
    amount: u64,
    method: EarnMethod,
    now: i64,
) -> Result<LedgerState, LedgerError> {
    match vault_at(pre.accounts, accounts.reputation_vault) {
        Err(e) => Err(e),
        Ok(vault) => match executor_at(pre.accounts, accounts.agent_executor) {
            Err(e) => Err(e),
            Ok(executor) => match earn_cred_error(vault, executor, accounts.authority, amount) {
                Some(e) => Err(LedgerError::Program(e)),
                None => Ok(
                    pre.with(
                        accounts.reputation_vault,
                        Account::ReputationVault(vault_after_credit(vault, amount)),
                    ).emit(
                        Event::CredEarned(
                            CredEarned { user: vault.owner, amount, method, timestamp: now },
                        ),
                    ),
                ),
            },
        },
    }
}

/// Disputing: the market is looked up and written back as disputed.
pub open spec fn dispute_market_step(pre: LedgerState, accounts: DisputeMarket, now: i64) -> Result<
    LedgerState,
    LedgerError,
> {
    match market_at(pre.accounts, accounts.market) {
        Err(e) => Err(e),
        Ok(market) => match dispute_market_error(market) {
            Some(e) => Err(LedgerError::Program(e)),
            None => Ok(
                pre.with(
                    accounts.market,
                    Account::Market(Market { status: MarketStatus::Disputed, ..market }),
                ).emit(
                    Event::MarketDisputed(
                        MarketDisputed {
                            market: accounts.market,
                            disputer: accounts.disputer,
                            timestamp: now,
                        },
                    ),
                ),
            ),
        },
    }
}

// ---------------------------------------------------------------------------
// The ledger
// ---------------------------------------------------------------------------

/// The records of one deployment of the program, each at its address, and the
/// append-only log of the events that its operations wrote.
///
/// Each operation takes the addresses of the records that it reads, changes or
/// creates. It looks the records up in the order in which its list of accounts
/// names them, then checks its own rules, and only then writes: an operation
/// that is refused leaves the ledger as it was.
///
/// The operations take the addresses on trust: which vault belongs to which
/// user, and which record is the one executor, is decided by the addresses
/// that the caller names. `process` names them by derivation.
pub struct Ledger {
    program_id: Pubkey,
    store: AccountStore,
    events: Vec<Event>,
}

impl View for Ledger {
    type V = LedgerState;

    closed spec fn view(&self) -> LedgerState {
        LedgerState { accounts: self.store@, events: self.events@ }
    }
}

impl Ledger {
    /// The program whose records the ledger holds.
    pub closed spec fn id(&self) -> Pubkey {
        self.program_id
    }

    /// An empty ledger for the program `program_id`.
    pub fn new(program_id: Pubkey) -> (r: Ledger)
        ensures
            r@ == LedgerState::empty(),
            r.id() == program_id,
    {
        Ledger { program_id, store: AccountStore::new(), events: Vec::new() }
    }

    /// The program whose records the ledger holds.
    pub fn program_id(&self) -> (r: Pubkey)
        ensures
            r == self.id(),
    {
        self.program_id
    }

    /// The record at `key`, if there is one.
    pub fn account(&self, key: &Pubkey) -> (r: Option<&Account>)
        ensures
            match r {
                Some(account) => self@.accounts.contains_key(*key) && *account
                    == self@.accounts[*key],
                None => !self@.accounts.contains_key(*key),
            },
    {
        self.store.get(key)
    }

    /// The log of events, oldest first.
    pub fn events(&self) -> (r: &Vec<Event>)
        ensures
            r@ == self@.events,
    {
        &self.events
    }

    /// The market at `key`.
    pub fn market(&self, key: &Pubkey) -> (r: Result<Market, LedgerError>)
        ensures
            r == market_at(self@.accounts, *key),
    {
        match self.store.get(key) {
            None => Err(LedgerError::AccountNotInitialized),
            Some(Account::Market(market)) => Ok(market.clone()),
            Some(_) => Err(LedgerError::AccountKindMismatch),
        }
    }

    /// The reputation vault at `key`.
    pub fn reputation_vault(&self, key: &Pubkey) -> (r: Result<ReputationVault, LedgerError>)
        ensures
            r == vault_at(self@.accounts, *key),
    {
        match self.store.get(key) {
            None => Err(LedgerError::AccountNotInitialized),
            Some(Account::ReputationVault(vault)) => Ok(*vault),
            Some(_) => Err(LedgerError::AccountKindMismatch),
        }
    }

    /// The insight pool at `key`.
    pub fn insight_pool(&self, key: &Pubkey) -> (r: Result<InsightPool, LedgerError>)
        ensures
            r == pool_at(self@.accounts, *key),
    {
        match self.store.get(key) {
            None => Err(LedgerError::AccountNotInitialized),
            Some(Account::InsightPool(pool)) => Ok(*pool),
            Some(_) => Err(LedgerError::AccountKindMismatch),
        }
    }

    /// The agent executor at `key`.
    pub fn agent_executor(&self, key: &Pubkey) -> (r: Result<AgentExecutor, LedgerError>)
        ensures
            r == executor_at(self@.accounts, *key),
    {
        match self.store.get(key) {
            None => Err(LedgerError::AccountNotInitialized),
            Some(Account::AgentExecutor(executor)) => Ok(*executor),
            Some(_) => Err(LedgerError::AccountKindMismatch),
        }
    }

    /// The stake receipt at `key`.
    pub fn cred_stake(&self, key: &Pubkey) -> (r: Result<CredStake, LedgerError>)
        ensures
            r == stake_at(self@.accounts, *key),
    {
        match self.store.get(key) {
            None => Err(LedgerError::AccountNotInitialized),
            Some(Account::CredStake(stake)) => Ok(*stake),
            Some(_) => Err(LedgerError::AccountKindMismatch),
        }
    }

    /// Creates the insight pool at the address that `accounts` gives it.
    pub fn initialize_insight_pool(
        &mut self,
        accounts: &InitializeInsightPool,
        bump: u8,
        now: i64,
    ) -> (r: Result<(), LedgerError>)
        ensures
            final(self).id() == old(self).id(),
            committed(
                old(self)@,
                initialize_insight_pool_step(old(self)@, *accounts, bump, now),
                r,
                final(self)@,
            ),
    {
        if self.store.contains_key(&accounts.insight_pool) {
            return Err(LedgerError::AccountAlreadyInUse);
        }
        let pool = instructions::initialize_insight_pool(accounts.authority, bump, now);
        self.store.insert(accounts.insight_pool, Account::InsightPool(pool));
        Ok(())
    }

    /// Creates the agent executor at the address that `accounts` gives it.
    pub fn initialize_agent_executor(&mut self, accounts: &InitializeAgentExecutor, bump: u8) -> (r:
        Result<(), LedgerError>)
        ensures
            final(self).id() == old(self).id(),
            committed(
                old(self)@,
                initialize_agent_executor_step(old(self)@, *accounts, bump),
                r,
                final(self)@,
            ),
    {
        if self.store.contains_key(&accounts.agent_executor) {
            return Err(LedgerError::AccountAlreadyInUse);
        }
        let executor = instructions::initialize_agent_executor(accounts.authority, bump);
        self.store.insert(accounts.agent_executor, Account::AgentExecutor(executor));
        Ok(())
    }

    /// Creates the vault of `accounts.owner`, with the initial grant, at the
    /// address that `accounts` gives it.
    pub fn initialize_reputation_vault(
        &mut self,
        accounts: &InitializeReputationVault,
        bump: u8,
        now: i64,
    ) -> (r: Result<(), LedgerError>)
        ensures
            final(self).id() == old(self).id(),
            committed(
                old(self)@,
                initialize_reputation_vault_step(old(self)@, *accounts, bump, now),
                r,
                final(self)@,
            ),
    {
        if self.store.contains_key(&accounts.reputation_vault) {
            return Err(LedgerError::AccountAlreadyInUse);
        }
        let (vault, event) = instructions::initialize_reputation_vault(accounts.owner, bump, now);
        self.store.insert(accounts.reputation_vault, Account::ReputationVault(vault));
        self.events.push(Event::CredEarned(event));
        Ok(())
    }

    /// Creates a market at the address that `accounts` gives it.
    pub fn initialize_market(
        &mut self,
        accounts: &InitializeMarket,
        bump: u8,
        tweet_url: String,
        market_id: String,
        now: i64,
    ) -> (r: Result<(), LedgerError>)
        ensures
            final(self).id() == old(self).id(),
            committed(
                old(self)@,
                initialize_market_step(old(self)@, *accounts, bump, tweet_url, market_id, now),
                r,
                final(self)@,
            ),
    {
        if self.store.contains_key(&accounts.market) {
            return Err(LedgerError::AccountAlreadyInUse);
        }
        match self.agent_executor(&accounts.agent_executor) {
            Err(e) => { return Err(e); },
            Ok(_) => {},
        }
        match instructions::initialize_market(
            accounts.creator,
            accounts.agent_executor,
            accounts.market,
            bump,
            tweet_url,
            market_id,
            now,
        ) {
            Err(e) => Err(LedgerError::Program(e)),
            Ok((market, event)) => {
                self.store.insert(accounts.market, Account::Market(market));
                self.events.push(Event::MarketCreated(event));
                Ok(())
            },
        }
    }

    /// Stakes Cred of the vault at `accounts.reputation_vault` on the market at
    /// `accounts.market`, and creates the receipt at `accounts.cred_stake`:
    /// where a receipt lives there already, the stake is refused.
    pub fn stake_cred(
        &mut self,
        accounts: &StakeCred,
        bump: u8,
        direction: bool,
        amount: u64,
        now: i64,
    ) -> (r: Result<(), LedgerError>)
        ensures
            final(self).id() == old(self).id(),
            committed(
                old(self)@,
                stake_cred_step(old(self)@, *accounts, bump, direction, amount, now),
                r,
                final(self)@,
            ),
    {
        let mut market = match self.market(&accounts.market) {
            Err(e) => { return Err(e); },
            Ok(market) => market,
        };
        let mut vault = match self.reputation_vault(&accounts.reputation_vault) {
            Err(e) => { return Err(e); },
            Ok(vault) => vault,
        };
        if self.store.contains_key(&accounts.cred_stake) {
            return Err(LedgerError::AccountAlreadyInUse);
        }
        match instructions::stake_cred(
            &mut market,
            accounts.market,
            &mut vault,
            accounts.user,
            bump,
            direction,
            amount,
            now,
        ) {
            Err(e) => Err(LedgerError::Program(e)),
            Ok((stake, event)) => {
                self.store.insert(accounts.market, Account::Market(market));
                self.store.insert(accounts.reputation_vault, Account::ReputationVault(vault));
                self.store.insert(accounts.cred_stake, Account::CredStake(stake));
                self.events.push(Event::CredStaked(event));
                Ok(())
            },
        }
    }

    /// Records one more evidence item on the market at `accounts.market`.
    pub fn submit_evidence(&mut self, accounts: &SubmitEvidence, ipfs_cid: String, now: i64) -> (r:
        Result<(), LedgerError>)
        ensures
            final(self).id() == old(self).id(),
            committed(
                old(self)@,
                submit_evidence_step(old(self)@, *accounts, ipfs_cid, now),
                r,
                final(self)@,
            ),
    {
        let mut market = match self.market(&accounts.market) {
            Err(e) => { return Err(e); },
            Ok(market) => market,
        };
        match instructions::submit_evidence(
            &mut market,
            accounts.market,
            accounts.user,
            ipfs_cid,
            now,
        ) {
            Err(e) => Err(LedgerError::Program(e)),
            Ok(event) => {
                self.store.insert(accounts.market, Account::Market(market));
                self.events.push(Event::EvidenceSubmitted(event));
                Ok(())
            },
        }
    }

    /// Resolves the market at `accounts.market` under the executor at
    /// `accounts.agent_executor`, and asks for the market's proof record.
    pub fn resolve_market(
        &mut self,
        accounts: &ResolveMarket,
        outcome: u8,
        ipfs_transcript_hash: [u8; 32],
        now: i64,
    ) -> (r: Result<(), LedgerError>)
        ensures
            final(self).id() == old(self).id(),
            committed(
                old(self)@,
                resolve_market_step(old(self)@, *accounts, outcome, ipfs_transcript_hash, now),
                r,
                final(self)@,
            ),
    {
        let mut market = match self.market(&accounts.market) {
            Err(e) => { return Err(e); },
            Ok(market) => market,
        };
        let mut executor = match self.agent_executor(&accounts.agent_executor) {
            Err(e) => { return Err(e); },
            Ok(executor) => executor,
        };
        match instructions::resolve_market(
            &mut market,
            accounts.market,
            &mut executor,
            accounts.authority,
            outcome,
            ipfs_transcript_hash,
            now,
        ) {
            Err(e) => Err(LedgerError::Program(e)),
            Ok((resolved, mint)) => {
                self.store.insert(accounts.market, Account::Market(market));
                self.store.insert(accounts.agent_executor, Account::AgentExecutor(executor));
                self.events.push(Event::MarketResolved(resolved));
                self.events.push(Event::ProofNFTMintRequested(mint));
                Ok(())
            },
        }
    }

    /// Pays `amount` to the vault at `accounts.recipient_vault` on the stake
    /// receipt at `accounts.cred_stake`, and counts it in the pool.
    pub fn distribute_insight_rewards(
        &mut self,
        accounts: &DistributeInsightRewards,
        amount: u64,
        now: i64,
    ) -> (r: Result<(), LedgerError>)
        ensures
            final(self).id() == old(self).id(),
            committed(
                old(self)@,
                distribute_insight_rewards_step(old(self)@, *accounts, amount, now),
                r,
                final(self)@,
            ),
    {
        let market = match self.market(&accounts.market) {
            Err(e) => { return Err(e); },
            Ok(market) => market,
        };
        let mut pool = match self.insight_pool(&accounts.insight_pool) {
            Err(e) => { return Err(e); },
            Ok(pool) => pool,
        };
        let stake = match self.cred_stake(&accounts.cred_stake) {
            Err(e) => { return Err(e); },
            Ok(stake) => stake,
        };
        let mut vault = match self.reputation_vault(&accounts.recipient_vault) {
            Err(e) => { return Err(e); },
            Ok(vault) => vault,
        };
        match self.agent_executor(&accounts.agent_executor) {
            Err(e) => { return Err(e); },
            Ok(_) => {},
        }
        match instructions::distribute_insight_rewards(
            &market,
            accounts.market,
            &stake,
            &mut vault,
            &mut pool,
            amount,
            now,
        ) {
            Err(e) => Err(LedgerError::Program(e)),
            Ok(event) => {
                self.store.insert(accounts.recipient_vault, Account::ReputationVault(vault));
                self.store.insert(accounts.insight_pool, Account::InsightPool(pool));
                self.events.push(Event::CredDistributed(event));
                Ok(())
            },
        }
    }

    /// Grants `amount` to the vault at `accounts.reputation_vault` under the
    /// executor at `accounts.agent_executor`.
    pub fn earn_cred(&mut self, accounts: &EarnCred, amount: u64, method: EarnMethod, now: i64) -> (r:
        Result<(), LedgerError>)
        ensures
            final(self).id() == old(self).id(),
            committed(
                old(self)@,
                earn_cred_step(old(self)@, *accounts, amount, method, now),
                r,
                final(self)@,
            ),
    {
        let mut vault = match self.reputation_vault(&accounts.reputation_vault) {
            Err(e) => { return Err(e); },
            Ok(vault) => vault,
        };
        let executor = match self.agent_executor(&accounts.agent_executor) {
            Err(e) => { return Err(e); },
            Ok(executor) => executor,
        };
        match instructions::earn_cred(
            &mut vault,
            &executor,
            accounts.authority,
            amount,
            method,
            now,
        ) {
            Err(e) => Err(LedgerError::Program(e)),
            Ok(event) => {
                self.store.insert(accounts.reputation_vault, Account::ReputationVault(vault));
                self.events.push(Event::CredEarned(event));
                Ok(())
            },
        }
    }

    /// Disputes the resolution of the market at `accounts.market`.
    pub fn dispute_market(&mut self, accounts: &DisputeMarket, now: i64) -> (r: Result<
        (),
        LedgerError,
    >)
        ensures
            final(self).id() == old(self).id(),
            committed(old(self)@, dispute_market_step(old(self)@, *accounts, now), r, final(self)@),
    {
        let mut market = match self.market(&accounts.market) {
            Err(e) => { return Err(e); },
            Ok(market) => market,
        };
        match instructions::dispute_market(
            &mut market,
            accounts.market,
            accounts.disputer,
            now,
        ) {
            Err(e) => Err(LedgerError::Program(e)),
            Ok(event) => {
                self.store.insert(accounts.market, Account::Market(market));
                self.events.push(Event::MarketDisputed(event));
                Ok(())
            },
        }
    }
}

} // verus!
