use crate::constants::{
    EMPTY_TRANSCRIPT_HASH, INITIAL_CRED_GRANT, MAX_EVIDENCE_COUNT, MAX_IPFS_CID_LEN, MAX_MARKET_ID_LEN, MAX_TWEET_URL_LEN,
};
use crate::error::ErrorCode;
use crate::events::{
    CredDistributed, CredEarned, CredStaked, EvidenceSubmitted, MarketCreated, MarketDisputed,
    MarketResolved, ProofNFTMintRequested,
};
use crate::pubkey::Pubkey;
use crate::state::{
    AgentExecutor, CredStake, EarnMethod, InsightPool, Market, MarketStatus, ReputationVault,
};
use vstd::prelude::*;
use vstd::utf8::encode_utf8;

verus! {

/// Length of a text in bytes of UTF-8.
pub open spec fn utf8_len(text: Seq<char>) -> nat {
    encode_utf8(text).len()
}

fn text_len(text: &String) -> (r: usize)
    ensures
        r == utf8_len(text@),
{
    text.as_str().as_bytes().len()
}

// ---------------------------------------------------------------------------
// Staking
// ---------------------------------------------------------------------------

/// Why a stake of `amount` on `market` out of `vault` is refused, if it is.
pub open spec fn stake_cred_error(
    market: Market,
    vault: ReputationVault,
    direction: bool,
    amount: u64,
) -> Option<ErrorCode> {
    if amount == 0 {
        Some(ErrorCode::InvalidAmount)
    } else if market.status != MarketStatus::Open {
        Some(ErrorCode::MarketNotOpen)
    } else if vault.cred_balance < amount {
        Some(ErrorCode::InsufficientCred)
    } else if vault.total_staked + amount > u64::MAX {
        Some(ErrorCode::Overflow)
    } else if vault.participation_count + 1 > u64::MAX {
        Some(ErrorCode::Overflow)
    } else if direction && market.total_yes_stake + amount > u64::MAX {
        Some(ErrorCode::Overflow)
    } else if !direction && market.total_no_stake + amount > u64::MAX {
        Some(ErrorCode::Overflow)
    } else {
        None
    }
}

/// The vault once `amount` has left its balance for a stake.
pub open spec fn vault_after_stake(vault: ReputationVault, amount: u64) -> ReputationVault {
    ReputationVault {
        cred_balance: (vault.cred_balance - amount) as u64,
        total_staked: (vault.total_staked + amount) as u64,
        participation_count: (vault.participation_count + 1) as u64,
        ..vault
    }
}

/// The market once `amount` has been added to the total of one side.
pub open spec fn market_after_stake(market: Market, direction: bool, amount: u64) -> Market {
    if direction {
        Market { total_yes_stake: (market.total_yes_stake + amount) as u64, ..market }
    } else {
        Market { total_no_stake: (market.total_no_stake + amount) as u64, ..market }
    }
}

/// Stakes `amount` of the user's Cred on one outcome of the market at
/// `market_key`: `direction` is `true` for yes, `false` for no. The amount
/// leaves the vault's balance and joins the market's total for that side.
/// Returns the receipt to be stored for this user and market, and the event.
/// A refused stake changes nothing.
pub fn stake_cred(
    market: &mut Market,
    market_key: Pubkey,
    vault: &mut ReputationVault,
    user: Pubkey,
    bump: u8,
    direction: bool,
    amount: u64,
    now: i64,
) -> (r: Result<(CredStake, CredStaked), ErrorCode>)
    ensures
        match r {
            Ok((stake, event)) => {
                &&& stake_cred_error(*old(market), *old(vault), direction, amount) is None
                &&& *final(market) == market_after_stake(*old(market), direction, amount)
                &&& *final(vault) == vault_after_stake(*old(vault), amount)
                &&& stake == (CredStake {
                    user,
                    market: market_key,
                    amount,
                    direction,
                    timestamp: now,
                    bump,
                })
                &&& event == (CredStaked {
                    market: market_key,
                    user,
                    amount,
                    direction,
                    timestamp: now,
                })
            },
            Err(e) => {
                &&& stake_cred_error(*old(market), *old(vault), direction, amount) == Some(e)
                &&& *final(market) == *old(market)
                &&& *final(vault) == *old(vault)
            },
        },
{
    if amount == 0 {
        return Err(ErrorCode::InvalidAmount);
    }
    if market.status != MarketStatus::Open {
        return Err(ErrorCode::MarketNotOpen);
    }
    if vault.cred_balance < amount {
        return Err(ErrorCode::InsufficientCred);
    }
    let balance: u64 = vault.cred_balance - amount;
    let staked: u64 = match vault.total_staked.checked_add(amount) {
        Some(v) => v,
        None => { return Err(ErrorCode::Overflow); },
    };
    let participation: u64 = match vault.participation_count.checked_add(1) {
        Some(v) => v,
        None => { return Err(ErrorCode::Overflow); },
    };
    let side: u64 = if direction {
        market.total_yes_stake
    } else {
        market.total_no_stake
    };
    let total: u64 = match side.checked_add(amount) {
        Some(v) => v,
        None => { return Err(ErrorCode::Overflow); },
    };
    vault.cred_balance = balance;
    vault.total_staked = staked;
    vault.participation_count = participation;
    if direction {
        market.total_yes_stake = total;
    } else {
        market.total_no_stake = total;
    }
    let stake = CredStake { user, market: market_key, amount, direction, timestamp: now, bump };
    let event = CredStaked { market: market_key, user, amount, direction, timestamp: now };
    Ok((stake, event))
}

// ---------------------------------------------------------------------------
// Resolution
// ---------------------------------------------------------------------------

/// Why `authority` may not resolve `market` with `outcome`, if it may not.
pub open spec fn resolve_market_error(
    market: Market,
    executor: AgentExecutor,
    authority: Pubkey,
    outcome: u8,
) -> Option<ErrorCode> {
    if outcome > 1 {
        Some(ErrorCode::InvalidOutcome)
    } else if market.status != MarketStatus::Open {
        Some(ErrorCode::MarketNotOpen)
    } else if authority != executor.authority {
        Some(ErrorCode::UnauthorizedResolver)
    } else if executor.markets_resolved + 1 > u64::MAX {
        Some(ErrorCode::Overflow)
    } else {
        None
    }
}

/// The market once resolved with `outcome` and the hash of the evidence transcript.
pub open spec fn market_after_resolve(
    market: Market,
    outcome: u8,
    ipfs_transcript_hash: [u8; 32],
) -> Market {
    Market {
        status: MarketStatus::Resolved,
        outcome: Some(outcome),
        ipfs_transcript_hash,
        ..market
    }
}

/// Resolves the open market at `market_key`: `outcome` is 1 for yes and 0 for
/// no. Only the executor's authority may do so. The executor counts the
/// resolution. Returns the event of the resolution and the request to mint the
/// market's proof record. A refused resolution changes nothing.
pub fn resolve_market(
    market: &mut Market,
    market_key: Pubkey,
    executor: &mut AgentExecutor,
    authority: Pubkey,
    outcome: u8,
    ipfs_transcript_hash: [u8; 32],
    now: i64,
) -> (r: Result<(MarketResolved, ProofNFTMintRequested), ErrorCode>)
    ensures
        match r {
            Ok((resolved, mint)) => {
                &&& resolve_market_error(*old(market), *old(executor), authority, outcome) is None
                &&& *final(market) == market_after_resolve(
                    *old(market),
                    outcome,
                    ipfs_transcript_hash,
                )
                &&& *final(executor) == (AgentExecutor {
                    markets_resolved: (old(executor).markets_resolved + 1) as u64,
                    ..*old(executor)
                })
                &&& resolved == (MarketResolved {
                    market: market_key,
                    outcome,
                    ipfs_transcript_hash,
                    resolver: authority,
                    timestamp: now,
                })
                &&& mint == (ProofNFTMintRequested {
                    market: market_key,
                    outcome,
                    ipfs_transcript_hash,
                    timestamp: now,
                })
            },
            Err(e) => {
                &&& resolve_market_error(*old(market), *old(executor), authority, outcome)
                    == Some(e)
                &&& *final(market) == *old(market)
                &&& *final(executor) == *old(executor)
            },
        },
{
    if outcome > 1 {
        return Err(ErrorCode::InvalidOutcome);
    }
    if market.status != MarketStatus::Open {
        return Err(ErrorCode::MarketNotOpen);
    }
    if authority != executor.authority {
        return Err(ErrorCode::UnauthorizedResolver);
    }
    let resolved_count: u64 = match executor.markets_resolved.checked_add(1) {
        Some(v) => v,
        None => { return Err(ErrorCode::Overflow); },
    };
    market.status = MarketStatus::Resolved;
    market.outcome = Some(outcome);
    market.ipfs_transcript_hash = ipfs_transcript_hash;
    executor.markets_resolved = resolved_count;
    let resolved = MarketResolved {
        market: market_key,
        outcome,
        ipfs_transcript_hash,
        resolver: authority,
        timestamp: now,
    };
    let mint = ProofNFTMintRequested {
        market: market_key,
        outcome,
        ipfs_transcript_hash,
        timestamp: now,
    };
    Ok((resolved, mint))
}

// ---------------------------------------------------------------------------
// Market creation
// ---------------------------------------------------------------------------

/// Why a market with these texts is refused, if it is.
pub open spec fn initialize_market_error(tweet_url: Seq<char>, market_id: Seq<char>) -> Option<
    ErrorCode,
> {
    if utf8_len(tweet_url) > MAX_TWEET_URL_LEN {
        Some(ErrorCode::TweetUrlTooLong)
    } else if utf8_len(market_id) > MAX_MARKET_ID_LEN {
        Some(ErrorCode::MarketIdTooLong)
    } else {
        None
    }
}

/// Tells whether a market may carry these texts, and if not, why not.
pub fn check_market_texts(tweet_url: &String, market_id: &String) -> (r: Result<(), ErrorCode>)
    ensures
        match r {
            Ok(_) => initialize_market_error(tweet_url@, market_id@) is None,
            Err(e) => initialize_market_error(tweet_url@, market_id@) == Some(e),
        },
{
    if text_len(tweet_url) > MAX_TWEET_URL_LEN {
        return Err(ErrorCode::TweetUrlTooLong);
    }
    if text_len(market_id) > MAX_MARKET_ID_LEN {
        return Err(ErrorCode::MarketIdTooLong);
    }
    Ok(())
}

/// A market as it is created: open, without outcome, evidence or stakes.
pub open spec fn new_market(
    creator: Pubkey,
    agent_executor: Pubkey,
    bump: u8,
    tweet_url: String,
    market_id: String,
    now: i64,
) -> Market {
    Market {
        creator,
        tweet_url,
        market_id,
        created_at: now,
        status: MarketStatus::Open,
        outcome: None,
        ipfs_transcript_hash: EMPTY_TRANSCRIPT_HASH,
        insight_pool_amount: 0,
        agent_executor,
        evidence_count: 0,
        total_yes_stake: 0,
        total_no_stake: 0,
        bump,
    }
}

/// Creates the market that will live at `market_key`, on the claim that
/// `tweet_url` refers to, under the identifier `market_id`, bound to the
/// executor record at `agent_executor`. Returns the new market and the event.
pub fn initialize_market(
    creator: Pubkey,
    agent_executor: Pubkey,
    market_key: Pubkey,
    bump: u8,
    tweet_url: String,
    market_id: String,
    now: i64,
) -> (r: Result<(Market, MarketCreated), ErrorCode>)
    ensures
        match r {
            Ok((market, event)) => {
                &&& initialize_market_error(tweet_url@, market_id@) is None
                &&& market == new_market(creator, agent_executor, bump, tweet_url, market_id, now)
                &&& event == (MarketCreated {
                    market: market_key,
                    creator,
                    tweet_url,
                    market_id,
                    timestamp: now,
                })
            },
            Err(e) => initialize_market_error(tweet_url@, market_id@) == Some(e),
        },
{
    match check_market_texts(&tweet_url, &market_id) {
        Ok(_) => {},
        Err(e) => { return Err(e); },
    }
    let event = MarketCreated {
        market: market_key,
        creator,
        tweet_url: tweet_url.clone(),
        market_id: market_id.clone(),
        timestamp: now,
    };
    let market = Market {
        creator,
        tweet_url,
        market_id,
        created_at: now,
        status: MarketStatus::Open,
        outcome: None,
        ipfs_transcript_hash: EMPTY_TRANSCRIPT_HASH,
        insight_pool_amount: 0,
        agent_executor,
        evidence_count: 0,
        total_yes_stake: 0,
        total_no_stake: 0,
        bump,
    };
    Ok((market, event))
}

// ---------------------------------------------------------------------------
// Reward distribution
// ---------------------------------------------------------------------------

/// Why `amount` is not paid out on `stake`, if it is not.
pub open spec fn distribute_insight_rewards_error(
    market: Market,
    stake: CredStake,
    vault: ReputationVault,
    pool: InsightPool,
    amount: u64,
) -> Option<ErrorCode> {
    if amount == 0 {
        Some(ErrorCode::InvalidAmount)
    } else if market.status != MarketStatus::Resolved {
        Some(ErrorCode::MarketNotResolved)
    } else if market.outcome is None {
        Some(ErrorCode::MarketNotResolved)
    } else if !stake.won(market.outcome->0) {
        Some(ErrorCode::UserDidNotWin)
    } else if vault.cred_balance + amount > u64::MAX {
        Some(ErrorCode::Overflow)
    } else if vault.total_earned + amount > u64::MAX {
        Some(ErrorCode::Overflow)
    } else if pool.total_credits + amount > u64::MAX {
        Some(ErrorCode::Overflow)
    } else if pool.distributions_count + 1 > u64::MAX {
        Some(ErrorCode::Overflow)
    } else {
        None
    }
}

/// The vault once it has earned `amount`.
pub open spec fn vault_after_credit(vault: ReputationVault, amount: u64) -> ReputationVault {
    ReputationVault {
        cred_balance: (vault.cred_balance + amount) as u64,
        total_earned: (vault.total_earned + amount) as u64,
        ..vault
    }
}

/// The pool once it has counted a distribution of `amount` at time `now`.
pub open spec fn pool_after_distribution(pool: InsightPool, amount: u64, now: i64) -> InsightPool {
    InsightPool {
        total_credits: (pool.total_credits + amount) as u64,
        distributions_count: (pool.distributions_count + 1) as u64,
        last_distribution: now,
        ..pool
    }
}

/// Pays `amount` of Cred to the owner of a winning stake on the resolved
/// market at `market_key`. `stake` is the receipt of the vault's owner on that
/// market; a stake on the other outcome is refused. The amount is the
/// caller's to choose. The pool counts the distribution. A refused
/// distribution changes nothing.
pub fn distribute_insight_rewards(
    market: &Market,
    market_key: Pubkey,
    stake: &CredStake,
    vault: &mut ReputationVault,
    pool: &mut InsightPool,
    amount: u64,
    now: i64,
) -> (r: Result<CredDistributed, ErrorCode>)
    ensures
        match r {
            Ok(event) => {
                &&& distribute_insight_rewards_error(
                    *market,
                    *stake,
                    *old(vault),
                    *old(pool),
                    amount,
                ) is None
                &&& *final(vault) == vault_after_credit(*old(vault), amount)
                &&& *final(pool) == pool_after_distribution(*old(pool), amount, now)
                &&& event == (CredDistributed {
                    market: market_key,
                    recipient: old(vault).owner,
                    amount,
                    timestamp: now,
                })
            },
            Err(e) => {
                &&& distribute_insight_rewards_error(
                    *market,
                    *stake,
                    *old(vault),
                    *old(pool),
                    amount,
                ) == Some(e)
                &&& *final(vault) == *old(vault)
                &&& *final(pool) == *old(pool)
            },
        },
{
    if amount == 0 {
        return Err(ErrorCode::InvalidAmount);
    }
    if market.status != MarketStatus::Resolved {
        return Err(ErrorCode::MarketNotResolved);
    }
    let outcome: u8 = match market.outcome {
        Some(o) => o,
        None => { return Err(ErrorCode::MarketNotResolved); },
    };
    let user_won = (stake.direction && outcome == 1) || (!stake.direction && outcome == 0);
    if !user_won {
        return Err(ErrorCode::UserDidNotWin);
    }
    let balance: u64 = match vault.cred_balance.checked_add(amount) {
        Some(v) => v,
        None => { return Err(ErrorCode::Overflow); },
    };
    let earned: u64 = match vault.total_earned.checked_add(amount) {
        Some(v) => v,
        None => { return Err(ErrorCode::Overflow); },
    };
    let credits: u64 = match pool.total_credits.checked_add(amount) {
        Some(v) => v,
        None => { return Err(ErrorCode::Overflow); },
    };
    let count: u64 = match pool.distributions_count.checked_add(1) {
        Some(v) => v,
        None => { return Err(ErrorCode::Overflow); },
    };
    vault.cred_balance = balance;
    vault.total_earned = earned;
    pool.total_credits = credits;
    pool.distributions_count = count;
    pool.last_distribution = now;
    Ok(CredDistributed { market: market_key, recipient: vault.owner, amount, timestamp: now })
}

// ---------------------------------------------------------------------------
// Earning
// ---------------------------------------------------------------------------

/// Why `authority` may not grant `amount` to `vault`, if it may not.
pub open spec fn earn_cred_error(
    vault: ReputationVault,
    executor: AgentExecutor,
    authority: Pubkey,
    amount: u64,
) -> Option<ErrorCode> {
    if amount == 0 {
        Some(ErrorCode::InvalidAmount)
    } else if authority != executor.authority {
        Some(ErrorCode::UnauthorizedMinter)
    } else if vault.cred_balance + amount > u64::MAX {
        Some(ErrorCode::Overflow)
    } else if vault.total_earned + amount > u64::MAX {
        Some(ErrorCode::Overflow)
    } else {
        None
    }
}

/// Grants `amount` of Cred to the vault, earned by `method`. Only the
/// executor's authority may do so. A refused grant changes nothing.
pub fn earn_cred(
    vault: &mut ReputationVault,
    executor: &AgentExecutor,
    authority: Pubkey,
    amount: u64,
    method: EarnMethod,
    now: i64,
) -> (r: Result<CredEarned, ErrorCode>)
    ensures
        match r {
            Ok(event) => {
                &&& earn_cred_error(*old(vault), *executor, authority, amount) is None
                &&& *final(vault) == vault_after_credit(*old(vault), amount)
                &&& event == (CredEarned {
                    user: old(vault).owner,
                    amount,
                    method,
                    timestamp: now,
                })
            },
            Err(e) => {
                &&& earn_cred_error(*old(vault), *executor, authority, amount) == Some(e)
                &&& *final(vault) == *old(vault)
            },
        },
{
    if amount == 0 {
        return Err(ErrorCode::InvalidAmount);
    }
    if authority != executor.authority {
        return Err(ErrorCode::UnauthorizedMinter);
    }
    let balance: u64 = match vault.cred_balance.checked_add(amount) {
        Some(v) => v,
        None => { return Err(ErrorCode::Overflow); },
    };
    let earned: u64 = match vault.total_earned.checked_add(amount) {
        Some(v) => v,
        None => { return Err(ErrorCode::Overflow); },
    };
    vault.cred_balance = balance;
    vault.total_earned = earned;
    Ok(CredEarned { user: vault.owner, amount, method, timestamp: now })
}

// ---------------------------------------------------------------------------
// Vault creation
// ---------------------------------------------------------------------------

/// A vault as it is created: the initial grant in the balance, nothing staked.
pub open spec fn new_reputation_vault(owner: Pubkey, bump: u8) -> ReputationVault {
    ReputationVault {
        owner,
        cred_balance: INITIAL_CRED_GRANT,
        total_earned: INITIAL_CRED_GRANT,
        total_staked: 0,
        participation_count: 0,
        bump,
    }
}

/// Creates the vault of `owner` with the initial grant of Cred. Returns the
/// vault and the event of the grant.
pub fn initialize_reputation_vault(owner: Pubkey, bump: u8, now: i64) -> (r: (
    ReputationVault,
    CredEarned,
))
    ensures
        r.0 == new_reputation_vault(owner, bump),
        r.1 == (CredEarned {
            user: owner,
            amount: INITIAL_CRED_GRANT,
            method: EarnMethod::InitialGrant,
            timestamp: now,
        }),
{
    let vault = ReputationVault {
        owner,
        cred_balance: INITIAL_CRED_GRANT,
        total_earned: INITIAL_CRED_GRANT,
        total_staked: 0,
        participation_count: 0,
        bump,
    };
    let event = CredEarned {
        user: owner,
        amount: INITIAL_CRED_GRANT,
        method: EarnMethod::InitialGrant,
        timestamp: now,
    };
    (vault, event)
}

// ---------------------------------------------------------------------------
// Evidence
// ---------------------------------------------------------------------------

/// Why an evidence item with content identifier `ipfs_cid` is refused, if it is.
pub open spec fn submit_evidence_error(market: Market, ipfs_cid: Seq<char>) -> Option<ErrorCode> {
    if utf8_len(ipfs_cid) > MAX_IPFS_CID_LEN {
        Some(ErrorCode::IpfsCidTooLong)
    } else if market.status != MarketStatus::Open {
        Some(ErrorCode::MarketNotOpen)
    } else if market.evidence_count >= MAX_EVIDENCE_COUNT {
        Some(ErrorCode::TooManyEvidenceSubmissions)
    } else {
        None
    }
}

/// Records one more evidence item on the open market at `market_key`. The
/// content behind `ipfs_cid` is not looked at. The event carries the number of
/// the item, counted from 1. A refused submission changes nothing.
pub fn submit_evidence(
    market: &mut Market,
    market_key: Pubkey,
    user: Pubkey,
    ipfs_cid: String,
    now: i64,
) -> (r: Result<EvidenceSubmitted, ErrorCode>)
    ensures
        match r {
            Ok(event) => {
                &&& submit_evidence_error(*old(market), ipfs_cid@) is None
                &&& *final(market) == (Market {
                    evidence_count: (old(market).evidence_count + 1) as u8,
                    ..*old(market)
                })
                &&& event == (EvidenceSubmitted {
                    market: market_key,
                    user,
                    ipfs_cid,
                    evidence_index: (old(market).evidence_count + 1) as u8,
                    timestamp: now,
                })
            },
            Err(e) => {
                &&& submit_evidence_error(*old(market), ipfs_cid@) == Some(e)
                &&& *final(market) == *old(market)
            },
        },
{
    if text_len(&ipfs_cid) > MAX_IPFS_CID_LEN {
        return Err(ErrorCode::IpfsCidTooLong);
    }
    if market.status != MarketStatus::Open {
        return Err(ErrorCode::MarketNotOpen);
    }
    if market.evidence_count >= MAX_EVIDENCE_COUNT {
        return Err(ErrorCode::TooManyEvidenceSubmissions);
    }
    let count: u8 = market.evidence_count + 1;
    market.evidence_count = count;
    Ok(EvidenceSubmitted {
        market: market_key,
        user,
        ipfs_cid,
        evidence_index: count,
        timestamp: now,
    })
}

// ---------------------------------------------------------------------------
// Dispute
// ---------------------------------------------------------------------------

/// Why `market` cannot be disputed, if it cannot.
pub open spec fn dispute_market_error(market: Market) -> Option<ErrorCode> {
    if market.status != MarketStatus::Resolved {
        Some(ErrorCode::MarketNotResolved)
    } else {
        None
    }
}

/// Disputes the resolution of the market at `market_key`. Anyone may dispute a
/// resolved market; a disputed market stays disputed. A refused dispute
/// changes nothing.
pub fn dispute_market(market: &mut Market, market_key: Pubkey, disputer: Pubkey, now: i64) -> (r:
    Result<MarketDisputed, ErrorCode>)
    ensures
        match r {
            Ok(event) => {
                &&& dispute_market_error(*old(market)) is None
                &&& *final(market) == (Market { status: MarketStatus::Disputed, ..*old(market) })
                &&& event == (MarketDisputed { market: market_key, disputer, timestamp: now })
            },
            Err(e) => {
                &&& dispute_market_error(*old(market)) == Some(e)
                &&& *final(market) == *old(market)
            },
        },
{
    if market.status != MarketStatus::Resolved {
        return Err(ErrorCode::MarketNotResolved);
    }
    market.status = MarketStatus::Disputed;
    Ok(MarketDisputed { market: market_key, disputer, timestamp: now })
}

// ---------------------------------------------------------------------------
// The two singletons
// ---------------------------------------------------------------------------

/// Creates the insight pool, owned by `authority`, with nothing distributed.
pub fn initialize_insight_pool(authority: Pubkey, bump: u8, now: i64) -> (r: InsightPool)
    ensures
        r == (InsightPool {
            total_credits: 0,
            distributions_count: 0,
            last_distribution: now,
            authority,
            bump,
        }),
{
    InsightPool { total_credits: 0, distributions_count: 0, last_distribution: now, authority, bump }
}

/// Creates the agent executor: `authority` is from now on the one identity
/// that may resolve markets and grant Cred.
pub fn initialize_agent_executor(authority: Pubkey, bump: u8) -> (r: AgentExecutor)
    ensures
        r == (AgentExecutor { authority, markets_resolved: 0, bump }),
{
    AgentExecutor { authority, markets_resolved: 0, bump }
}

} // verus!
