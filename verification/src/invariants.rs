use crate::accounts::{DistributeInsightRewards, ResolveMarket, StakeCred, SubmitEvidence};
use crate::constants::{MAX_EVIDENCE_COUNT, MAX_IPFS_CID_LEN, MAX_TWEET_URL_LEN};
use crate::error::ErrorCode;
use crate::events::Event;
use crate::instructions::{
    distribute_insight_rewards_error, market_after_resolve, market_after_stake, new_market,
    new_reputation_vault, resolve_market_error, utf8_len, vault_after_credit, vault_after_stake,
};
use crate::ledger::{
    distribute_insight_rewards_step, executor_at, market_at, resolve_market_step, stake_at,
    stake_cred_step, submit_evidence_step, vault_at, LedgerError, LedgerState,
};
use crate::address::{
    agent_executor_address, cred_stake_address, insight_pool_address, market_address,
    reputation_vault_address,
};
use crate::protocol::{apply, resolved, step, Call, Instruction};
use crate::pubkey::Pubkey;
use crate::state::{AgentExecutor, CredStake, InsightPool, Market, MarketStatus, ReputationVault};
use crate::store::Account;
use vstd::prelude::*;

verus! {

// ---------------------------------------------------------------------------
// What holds of every ledger that the operations can reach
// ---------------------------------------------------------------------------

/// A market's counters and outcome fit its status: at most ten evidence
/// items; an outcome, 0 or 1, exactly when the market is no longer open.
pub open spec fn market_sound(market: Market) -> bool {
    &&& market.evidence_count <= MAX_EVIDENCE_COUNT
    &&& (market.status == MarketStatus::Open <==> market.outcome is None)
    &&& (market.outcome matches Some(outcome) ==> outcome <= 1)
}

/// What holds of a record of a reachable ledger: a vault is balanced, a
/// market is sound.
pub open spec fn record_sound(account: Account) -> bool {
    match account {
        Account::ReputationVault(vault) => vault.is_balanced(),
        Account::Market(market) => market_sound(market),
        _ => true,
    }
}

/// Every record of the ledger is sound.
pub open spec fn sound(state: LedgerState) -> bool {
    forall|key: Pubkey| #[trigger]
        state.accounts.contains_key(key) ==> record_sound(state.accounts[key])
}

/// How far a market has come: open, then resolved, then disputed.
pub open spec fn status_rank(status: MarketStatus) -> nat {
    match status {
        MarketStatus::Open => 0,
        MarketStatus::Resolved => 1,
        MarketStatus::Disputed => 2,
    }
}

/// How a record may differ from what it was: it keeps its kind and what
/// identifies it; its counters only grow; a market's status only advances, and
/// once it is resolved its outcome and transcript hash stay; a stake receipt
/// never changes.
pub open spec fn record_evolves(before: Account, after: Account) -> bool {
    match (before, after) {
        (Account::InsightPool(a), Account::InsightPool(b)) => {
            &&& a.authority == b.authority
            &&& a.bump == b.bump
            &&& a.total_credits <= b.total_credits
            &&& a.distributions_count <= b.distributions_count
        },
        (Account::AgentExecutor(a), Account::AgentExecutor(b)) => {
            &&& a.authority == b.authority
            &&& a.bump == b.bump
            &&& a.markets_resolved <= b.markets_resolved
        },
        (Account::ReputationVault(a), Account::ReputationVault(b)) => {
            &&& a.owner == b.owner
            &&& a.bump == b.bump
            &&& a.total_earned <= b.total_earned
            &&& a.total_staked <= b.total_staked
            &&& a.participation_count <= b.participation_count
        },
        (Account::Market(a), Account::Market(b)) => {
            &&& a.creator == b.creator
            &&& a.tweet_url == b.tweet_url
            &&& a.market_id == b.market_id
            &&& a.created_at == b.created_at
            &&& a.insight_pool_amount == b.insight_pool_amount
            &&& a.agent_executor == b.agent_executor
            &&& a.bump == b.bump
            &&& status_rank(a.status) <= status_rank(b.status)
            &&& a.evidence_count <= b.evidence_count
            &&& a.total_yes_stake <= b.total_yes_stake
            &&& a.total_no_stake <= b.total_no_stake
            &&& (a.status != MarketStatus::Open ==> b.outcome == a.outcome
                && b.ipfs_transcript_hash == a.ipfs_transcript_hash)
        },
        (Account::CredStake(a), Account::CredStake(b)) => a == b,
        _ => false,
    }
}

/// How a ledger may differ from what it was: no record is lost, each record
/// evolves, and the log only grows at its end.
pub open spec fn evolves(before: LedgerState, after: LedgerState) -> bool {
    &&& forall|key: Pubkey| #[trigger]
        before.accounts.contains_key(key) ==> after.accounts.contains_key(key) && record_evolves(
            before.accounts[key],
            after.accounts[key],
        )
    &&& before.events.is_prefix_of(after.events)
}

/// A ledger evolves into itself.
pub proof fn lemma_evolves_reflexive(state: LedgerState)
    ensures
        evolves(state, state),
{
}

/// Evolving twice is evolving.
pub proof fn lemma_evolves_transitive(a: LedgerState, b: LedgerState, c: LedgerState)
    requires
        evolves(a, b),
        evolves(b, c),
    ensures
        evolves(a, c),
{
    assert forall|key: Pubkey| #[trigger] a.accounts.contains_key(key) implies c.accounts.contains_key(
        key,
    ) && record_evolves(a.accounts[key], c.accounts[key]) by {
        assert(b.accounts.contains_key(key));
    }
}

/// The ledger before any operation is sound.
pub proof fn lemma_empty_is_sound()
    ensures
        sound(LedgerState::empty()),
{
}

/// Putting a record in place of one that it evolved from, or at a free
/// address, lets the ledger evolve; a sound record keeps the ledger sound.
proof fn lemma_with_evolves(pre: LedgerState, key: Pubkey, account: Account)
    requires
        pre.accounts.contains_key(key) ==> record_evolves(pre.accounts[key], account),
    ensures
        evolves(pre, pre.with(key, account)),
        sound(pre) && record_sound(account) ==> sound(pre.with(key, account)),
{
    let next = pre.with(key, account);
    assert(pre.events.is_prefix_of(next.events));
    assert forall|k: Pubkey| #[trigger] pre.accounts.contains_key(k) implies next.accounts.contains_key(
        k,
    ) && record_evolves(pre.accounts[k], next.accounts[k]) by {}
    if sound(pre) && record_sound(account) {
        assert forall|k: Pubkey| #[trigger] next.accounts.contains_key(k) implies record_sound(
            next.accounts[k],
        ) by {
            if k != key {
                assert(pre.accounts.contains_key(k));
            }
        }
    }
}

/// Writing an event lets the ledger evolve and keeps it sound.
proof fn lemma_emit_evolves(pre: LedgerState, event: Event)
    ensures
        evolves(pre, pre.emit(event)),
        sound(pre) ==> sound(pre.emit(event)),
{
    let next = pre.emit(event);
    assert(pre.events.is_prefix_of(next.events));
    assert forall|k: Pubkey| #[trigger] pre.accounts.contains_key(k) implies next.accounts.contains_key(
        k,
    ) && record_evolves(pre.accounts[k], next.accounts[k]) by {}
    if sound(pre) {
        assert forall|k: Pubkey| #[trigger] next.accounts.contains_key(k) implies record_sound(
            next.accounts[k],
        ) by {
            assert(pre.accounts.contains_key(k));
        }
    }
}

/// Every instruction that succeeds lets the ledger evolve, and leaves a sound
/// ledger sound: no operation overdraws a vault, loses a record, rewrites a
/// stake receipt, reopens a market or takes an entry out of the log.
pub proof fn lemma_step_evolves(pre: LedgerState, instruction: Instruction, now: i64)
    requires
        step(pre, instruction, now) is Ok,
    ensures
        evolves(pre, step(pre, instruction, now)->Ok_0),
        sound(pre) ==> sound(step(pre, instruction, now)->Ok_0),
{
    let next = step(pre, instruction, now)->Ok_0;
    match instruction {
        Instruction::InitializeInsightPool { accounts, bump } => {
            lemma_with_evolves(pre, accounts.insight_pool, next.accounts[accounts.insight_pool]);
            assert(next == pre.with(accounts.insight_pool, next.accounts[accounts.insight_pool]));
        },
        Instruction::InitializeAgentExecutor { accounts, bump } => {
            lemma_with_evolves(
                pre,
                accounts.agent_executor,
                next.accounts[accounts.agent_executor],
            );
            assert(next == pre.with(
                accounts.agent_executor,
                next.accounts[accounts.agent_executor],
            ));
        },
        Instruction::InitializeReputationVault { accounts, bump } => {
            let s1 = pre.with(
                accounts.reputation_vault,
                Account::ReputationVault(new_reputation_vault(accounts.owner, bump)),
            );
            lemma_with_evolves(
                pre,
                accounts.reputation_vault,
                Account::ReputationVault(new_reputation_vault(accounts.owner, bump)),
            );
            lemma_emit_evolves(s1, next.events.last());
            assert(next == s1.emit(next.events.last()));
            lemma_evolves_transitive(pre, s1, next);
        },
        Instruction::InitializeMarket { accounts, bump, tweet_url, market_id } => {
            let market = Account::Market(
                new_market(
                    accounts.creator,
                    accounts.agent_executor,
                    bump,
                    tweet_url,
                    market_id,
                    now,
                ),
            );
            let s1 = pre.with(accounts.market, market);
            lemma_with_evolves(pre, accounts.market, market);
            lemma_emit_evolves(s1, next.events.last());
            assert(next == s1.emit(next.events.last()));
            lemma_evolves_transitive(pre, s1, next);
        },
        Instruction::StakeCred { accounts, bump, direction, amount } => {
            let market = market_at(pre.accounts, accounts.market)->Ok_0;
            let vault = vault_at(pre.accounts, accounts.reputation_vault)->Ok_0;
            let a1 = Account::Market(market_after_stake(market, direction, amount));
            let a2 = Account::ReputationVault(vault_after_stake(vault, amount));
            let a3 = next.accounts[accounts.cred_stake];
            let s1 = pre.with(accounts.market, a1);
            let s2 = s1.with(accounts.reputation_vault, a2);
            let s3 = s2.with(accounts.cred_stake, a3);
            lemma_with_evolves(pre, accounts.market, a1);
            lemma_with_evolves(s1, accounts.reputation_vault, a2);
            lemma_with_evolves(s2, accounts.cred_stake, a3);
            lemma_emit_evolves(s3, next.events.last());
            assert(next == s3.emit(next.events.last()));
            lemma_evolves_transitive(pre, s1, s2);
            lemma_evolves_transitive(pre, s2, s3);
            lemma_evolves_transitive(pre, s3, next);
        },
        Instruction::SubmitEvidence { accounts, ipfs_cid } => {
            let a1 = next.accounts[accounts.market];
            let s1 = pre.with(accounts.market, a1);
            lemma_with_evolves(pre, accounts.market, a1);
            lemma_emit_evolves(s1, next.events.last());
            assert(next == s1.emit(next.events.last()));
            lemma_evolves_transitive(pre, s1, next);
        },
        Instruction::ResolveMarket { accounts, outcome, ipfs_transcript_hash } => {
            let market = market_at(pre.accounts, accounts.market)->Ok_0;
            let a1 = Account::Market(market_after_resolve(market, outcome, ipfs_transcript_hash));
            let a2 = next.accounts[accounts.agent_executor];
            let s1 = pre.with(accounts.market, a1);
            let s2 = s1.with(accounts.agent_executor, a2);
            let e1 = next.events[next.events.len() - 2];
            let s3 = s2.emit(e1);
            lemma_with_evolves(pre, accounts.market, a1);
            lemma_with_evolves(s1, accounts.agent_executor, a2);
            lemma_emit_evolves(s2, e1);
            lemma_emit_evolves(s3, next.events.last());
            assert(next == s3.emit(next.events.last()));
            lemma_evolves_transitive(pre, s1, s2);
            lemma_evolves_transitive(pre, s2, s3);
            lemma_evolves_transitive(pre, s3, next);
        },
        Instruction::DistributeInsightRewards { accounts, amount } => {
            let vault = vault_at(pre.accounts, accounts.recipient_vault)->Ok_0;
            let a1 = Account::ReputationVault(vault_after_credit(vault, amount));
            let a2 = next.accounts[accounts.insight_pool];
            let s1 = pre.with(accounts.recipient_vault, a1);
            let s2 = s1.with(accounts.insight_pool, a2);
            lemma_with_evolves(pre, accounts.recipient_vault, a1);
            lemma_with_evolves(s1, accounts.insight_pool, a2);
            lemma_emit_evolves(s2, next.events.last());
            assert(next == s2.emit(next.events.last()));
            lemma_evolves_transitive(pre, s1, s2);
            lemma_evolves_transitive(pre, s2, next);
        },
        Instruction::EarnCred { accounts, amount, method } => {
            let vault = vault_at(pre.accounts, accounts.reputation_vault)->Ok_0;
            let a1 = Account::ReputationVault(vault_after_credit(vault, amount));
            let s1 = pre.with(accounts.reputation_vault, a1);
            lemma_with_evolves(pre, accounts.reputation_vault, a1);
            lemma_emit_evolves(s1, next.events.last());
            assert(next == s1.emit(next.events.last()));
            lemma_evolves_transitive(pre, s1, next);
        },
        Instruction::DisputeMarket { accounts } => {
            let a1 = next.accounts[accounts.market];
            let s1 = pre.with(accounts.market, a1);
            lemma_with_evolves(pre, accounts.market, a1);
            lemma_emit_evolves(s1, next.events.last());
            assert(next == s1.emit(next.events.last()));
            lemma_evolves_transitive(pre, s1, next);
        },
    }
}

// ---------------------------------------------------------------------------
// Sequences of operations
// ---------------------------------------------------------------------------

/// The ledger after a sequence of instructions, each with its time. An
/// instruction that is refused leaves the ledger as it was.
pub open spec fn run(pre: LedgerState, instructions: Seq<(Instruction, i64)>) -> LedgerState
    decreases instructions.len(),
{
    if instructions.len() == 0 {
        pre
    } else {
        let before = run(pre, instructions.drop_last());
        match step(before, instructions.last().0, instructions.last().1) {
            Ok(next) => next,
            Err(_) => before,
        }
    }
}

/// The ledger of the program `program_id` after a sequence of calls, each
/// with its time. A call that is refused leaves the ledger as it was.
pub open spec fn run_calls(pre: LedgerState, program_id: Pubkey, calls: Seq<(Call, i64)>)
    -> LedgerState
    decreases calls.len(),
{
    if calls.len() == 0 {
        pre
    } else {
        let before = run_calls(pre, program_id, calls.drop_last());
        match apply(before, program_id, calls.last().0, calls.last().1) {
            Ok(next) => next,
            Err(_) => before,
        }
    }
}

/// Every call that succeeds lets the ledger evolve and leaves a sound ledger
/// sound.
pub proof fn lemma_apply_evolves(pre: LedgerState, program_id: Pubkey, call: Call, now: i64)
    requires
        apply(pre, program_id, call, now) is Ok,
    ensures
        evolves(pre, apply(pre, program_id, call, now)->Ok_0),
        sound(pre) ==> sound(apply(pre, program_id, call, now)->Ok_0),
{
    lemma_step_evolves(pre, resolved(program_id, call)->Ok_0, now);
}

/// Whatever instructions are run, in whatever order and whether they succeed
/// or not, the ledger evolves, and a sound ledger stays sound.
pub proof fn lemma_run_evolves(pre: LedgerState, instructions: Seq<(Instruction, i64)>)
    ensures
        evolves(pre, run(pre, instructions)),
        sound(pre) ==> sound(run(pre, instructions)),
    decreases instructions.len(),
{
    if instructions.len() > 0 {
        let before = run(pre, instructions.drop_last());
        lemma_run_evolves(pre, instructions.drop_last());
        if step(before, instructions.last().0, instructions.last().1) is Ok {
            lemma_step_evolves(before, instructions.last().0, instructions.last().1);
            lemma_evolves_transitive(pre, before, run(pre, instructions));
        }
    }
}

/// Whatever calls are made, in whatever order and whether they succeed or
/// not, the ledger evolves, and a sound ledger stays sound.
pub proof fn lemma_run_calls_evolves(pre: LedgerState, program_id: Pubkey, calls: Seq<(Call, i64)>)
    ensures
        evolves(pre, run_calls(pre, program_id, calls)),
        sound(pre) ==> sound(run_calls(pre, program_id, calls)),
    decreases calls.len(),
{
    if calls.len() > 0 {
        let before = run_calls(pre, program_id, calls.drop_last());
        lemma_run_calls_evolves(pre, program_id, calls.drop_last());
        if apply(before, program_id, calls.last().0, calls.last().1) is Ok {
            lemma_apply_evolves(before, program_id, calls.last().0, calls.last().1);
            lemma_evolves_transitive(pre, before, run_calls(pre, program_id, calls));
        }
    }
}

// ---------------------------------------------------------------------------
// Creation
// ---------------------------------------------------------------------------

/// The insight pool is created once: after a call that created it, and
/// whatever calls have been made since, every further creation is refused,
/// whoever asks.
pub proof fn lemma_insight_pool_created_once(
    pre: LedgerState,
    program_id: Pubkey,
    authority: Pubkey,
    now: i64,
    between: Seq<(Call, i64)>,
    authority_again: Pubkey,
    later: i64,
)
    requires
        apply(pre, program_id, Call::InitializeInsightPool { authority }, now) is Ok,
    ensures
        apply(
            run_calls(
                apply(pre, program_id, Call::InitializeInsightPool { authority }, now)->Ok_0,
                program_id,
                between,
            ),
            program_id,
            Call::InitializeInsightPool { authority: authority_again },
            later,
        ) == Err::<LedgerState, LedgerError>(LedgerError::AccountAlreadyInUse),
{
    let created = apply(pre, program_id, Call::InitializeInsightPool { authority }, now)->Ok_0;
    lemma_run_calls_evolves(created, program_id, between);
    assert(created.accounts.contains_key(insight_pool_address(program_id)->Some_0.0));
}

/// The agent executor is created once: after a call that created it, and
/// whatever calls have been made since, every further creation is refused,
/// whoever asks, and the executor's authority is the one it was created with.
pub proof fn lemma_agent_executor_created_once(
    pre: LedgerState,
    program_id: Pubkey,
    authority: Pubkey,
    now: i64,
    between: Seq<(Call, i64)>,
    authority_again: Pubkey,
    later: i64,
)
    requires
        apply(pre, program_id, Call::InitializeAgentExecutor { authority }, now) is Ok,
    ensures
        ({
            let state = run_calls(
                apply(pre, program_id, Call::InitializeAgentExecutor { authority }, now)->Ok_0,
                program_id,
                between,
            );
            &&& apply(
                state,
                program_id,
                Call::InitializeAgentExecutor { authority: authority_again },
                later,
            ) == Err::<LedgerState, LedgerError>(LedgerError::AccountAlreadyInUse)
            &&& executor_at(state.accounts, agent_executor_address(program_id)->Some_0.0) is Ok
            &&& executor_at(
                state.accounts,
                agent_executor_address(program_id)->Some_0.0,
            )->Ok_0.authority == authority
        }),
{
    let created = apply(pre, program_id, Call::InitializeAgentExecutor { authority }, now)->Ok_0;
    lemma_run_calls_evolves(created, program_id, between);
    assert(created.accounts.contains_key(agent_executor_address(program_id)->Some_0.0));
}

/// An owner has one vault: after a call that created the vault of `owner`,
/// and whatever calls have been made since, every further creation of a vault
/// for that owner is refused, whoever pays.
pub proof fn lemma_vault_created_once(
    pre: LedgerState,
    program_id: Pubkey,
    owner: Pubkey,
    payer: Pubkey,
    now: i64,
    between: Seq<(Call, i64)>,
    payer_again: Pubkey,
    later: i64,
)
    requires
        apply(pre, program_id, Call::InitializeReputationVault { owner, payer }, now) is Ok,
    ensures
        apply(
            run_calls(
                apply(
                    pre,
                    program_id,
                    Call::InitializeReputationVault { owner, payer },
                    now,
                )->Ok_0,
                program_id,
                between,
            ),
            program_id,
            Call::InitializeReputationVault { owner, payer: payer_again },
            later,
        ) == Err::<LedgerState, LedgerError>(LedgerError::AccountAlreadyInUse),
{
    let created = apply(
        pre,
        program_id,
        Call::InitializeReputationVault { owner, payer },
        now,
    )->Ok_0;
    lemma_run_calls_evolves(created, program_id, between);
    assert(created.accounts.contains_key(reputation_vault_address(program_id, owner)->Some_0.0));
}

/// A market identifier names one market: after a call that created a market
/// under an identifier, and whatever calls have been made since, every
/// further creation under the same identifier is refused, whoever asks and
/// whatever the claim: because the market exists, where the claim reference
/// is not too long.
pub proof fn lemma_market_created_once(
    pre: LedgerState,
    program_id: Pubkey,
    creator: Pubkey,
    tweet_url: String,
    market_id: String,
    now: i64,
    between: Seq<(Call, i64)>,
    creator_again: Pubkey,
    tweet_url_again: String,
    market_id_again: String,
    later: i64,
)
    requires
        apply(pre, program_id, Call::InitializeMarket { creator, tweet_url, market_id }, now) is Ok,
        market_id_again@ == market_id@,
    ensures
        ({
            let second = apply(
                run_calls(
                    apply(
                        pre,
                        program_id,
                        Call::InitializeMarket { creator, tweet_url, market_id },
                        now,
                    )->Ok_0,
                    program_id,
                    between,
                ),
                program_id,
                Call::InitializeMarket {
                    creator: creator_again,
                    tweet_url: tweet_url_again,
                    market_id: market_id_again,
                },
                later,
            );
            &&& second is Err
            &&& utf8_len(tweet_url_again@) <= MAX_TWEET_URL_LEN ==> second == Err::<
                LedgerState,
                LedgerError,
            >(LedgerError::AccountAlreadyInUse)
        }),
{
    let created = apply(
        pre,
        program_id,
        Call::InitializeMarket { creator, tweet_url, market_id },
        now,
    )->Ok_0;
    lemma_run_calls_evolves(created, program_id, between);
    assert(created.accounts.contains_key(market_address(program_id, market_id@)->Some_0.0));
}

// ---------------------------------------------------------------------------
// The life of a market
// ---------------------------------------------------------------------------

/// A disputed market stays disputed, with the outcome it was resolved to,
/// whatever instructions run.
pub proof fn lemma_disputed_is_final(
    pre: LedgerState,
    key: Pubkey,
    instructions: Seq<(Instruction, i64)>,
)
    requires
        market_at(pre.accounts, key) is Ok,
        market_at(pre.accounts, key)->Ok_0.status == MarketStatus::Disputed,
    ensures
        market_at(run(pre, instructions).accounts, key) is Ok,
        market_at(run(pre, instructions).accounts, key)->Ok_0.status == MarketStatus::Disputed,
        market_at(run(pre, instructions).accounts, key)->Ok_0.outcome == market_at(
            pre.accounts,
            key,
        )->Ok_0.outcome,
{
    lemma_run_evolves(pre, instructions);
    assert(pre.accounts.contains_key(key));
}

// ---------------------------------------------------------------------------
// Addresses
// ---------------------------------------------------------------------------

/// The record lives where its identity puts it: at the address derived, under
/// the program, from what identifies the record, and with that address's bump
/// seed.
pub open spec fn record_addressed(program_id: Pubkey, key: Pubkey, account: Account) -> bool {
    match account {
        Account::InsightPool(pool) => insight_pool_address(program_id) == Some((key, pool.bump)),
        Account::AgentExecutor(executor) => agent_executor_address(program_id) == Some(
            (key, executor.bump),
        ),
        Account::ReputationVault(vault) => reputation_vault_address(program_id, vault.owner)
            == Some((key, vault.bump)),
        Account::Market(market) => market_address(program_id, market.market_id@) == Some(
            (key, market.bump),
        ),
        Account::CredStake(stake) => cred_stake_address(program_id, stake.market, stake.user)
            == Some((key, stake.bump)),
    }
}

/// Every record of the ledger lives where its identity puts it.
pub open spec fn addressed(state: LedgerState, program_id: Pubkey) -> bool {
    forall|key: Pubkey| #[trigger]
        state.accounts.contains_key(key) ==> record_addressed(
            program_id,
            key,
            state.accounts[key],
        )
}

/// The record that an instruction creates, with its address, if it creates one.
pub open spec fn created(instruction: Instruction, now: i64) -> Option<(Pubkey, Account)> {
    match instruction {
        Instruction::InitializeInsightPool { accounts, bump } => Some(
            (
                accounts.insight_pool,
                Account::InsightPool(
                    InsightPool {
                        total_credits: 0,
                        distributions_count: 0,
                        last_distribution: now,
                        authority: accounts.authority,
                        bump,
                    },
                ),
            ),
        ),
        Instruction::InitializeAgentExecutor { accounts, bump } => Some(
            (
                accounts.agent_executor,
                Account::AgentExecutor(
                    AgentExecutor { authority: accounts.authority, markets_resolved: 0, bump },
                ),
            ),
        ),
        Instruction::InitializeReputationVault { accounts, bump } => Some(
            (
                accounts.reputation_vault,
                Account::ReputationVault(new_reputation_vault(accounts.owner, bump)),
            ),
        ),
        Instruction::InitializeMarket { accounts, bump, tweet_url, market_id } => Some(
            (
                accounts.market,
                Account::Market(
                    new_market(
                        accounts.creator,
                        accounts.agent_executor,
                        bump,
                        tweet_url,
                        market_id,
                        now,
                    ),
                ),
            ),
        ),
        Instruction::StakeCred { accounts, bump, direction, amount } => Some(
            (
                accounts.cred_stake,
                Account::CredStake(
                    CredStake {
                        user: accounts.user,
                        market: accounts.market,
                        amount,
                        direction,
                        timestamp: now,
                        bump,
                    },
                ),
            ),
        ),
        _ => None,
    }
}

/// An instruction that succeeds adds no record but the one it creates.
pub proof fn lemma_step_creates(pre: LedgerState, instruction: Instruction, now: i64, key: Pubkey)
    requires
        step(pre, instruction, now) is Ok,
        step(pre, instruction, now)->Ok_0.accounts.contains_key(key),
        !pre.accounts.contains_key(key),
    ensures
        created(instruction, now) == Some((key, step(pre, instruction, now)->Ok_0.accounts[key])),
{
}

/// A record that evolved still lives where its identity puts it.
proof fn lemma_evolved_record_keeps_address(
    program_id: Pubkey,
    key: Pubkey,
    before: Account,
    after: Account,
)
    requires
        record_evolves(before, after),
        record_addressed(program_id, key, before),
    ensures
        record_addressed(program_id, key, after),
{
}

/// The record that a call creates lives where its identity puts it.
proof fn lemma_created_record_is_addressed(program_id: Pubkey, call: Call, now: i64)
    requires
        resolved(program_id, call) is Ok,
        created(resolved(program_id, call)->Ok_0, now) is Some,
    ensures
        record_addressed(
            program_id,
            created(resolved(program_id, call)->Ok_0, now)->Some_0.0,
            created(resolved(program_id, call)->Ok_0, now)->Some_0.1,
        ),
{
}

/// Every call that succeeds leaves the records where their identities put
/// them: calls create records only at derived addresses, and no call changes
/// what identifies a record.
pub proof fn lemma_apply_keeps_addresses(
    pre: LedgerState,
    program_id: Pubkey,
    call: Call,
    now: i64,
)
    requires
        apply(pre, program_id, call, now) is Ok,
        addressed(pre, program_id),
    ensures
        addressed(apply(pre, program_id, call, now)->Ok_0, program_id),
{
    let instruction = resolved(program_id, call)->Ok_0;
    let next = step(pre, instruction, now)->Ok_0;
    lemma_step_evolves(pre, instruction, now);
    assert forall|key: Pubkey| #[trigger] next.accounts.contains_key(key) implies record_addressed(
        program_id,
        key,
        next.accounts[key],
    ) by {
        if pre.accounts.contains_key(key) {
            lemma_evolved_record_keeps_address(
                program_id,
                key,
                pre.accounts[key],
                next.accounts[key],
            );
        } else {
            lemma_step_creates(pre, instruction, now, key);
            lemma_created_record_is_addressed(program_id, call, now);
        }
    }
}

/// After any sequence of calls on a ledger whose records live where their
/// identities put them, they still do.
pub proof fn lemma_run_calls_keeps_addresses(
    pre: LedgerState,
    program_id: Pubkey,
    calls: Seq<(Call, i64)>,
)
    requires
        addressed(pre, program_id),
    ensures
        addressed(run_calls(pre, program_id, calls), program_id),
    decreases calls.len(),
{
    if calls.len() > 0 {
        let before = run_calls(pre, program_id, calls.drop_last());
        lemma_run_calls_keeps_addresses(pre, program_id, calls.drop_last());
        if apply(before, program_id, calls.last().0, calls.last().1) is Ok {
            lemma_apply_keeps_addresses(before, program_id, calls.last().0, calls.last().1);
        }
    }
}

/// Whether two records are of one kind and identified by the same: any two
/// pools, any two executors, two vaults of one owner, two markets under one
/// identifier, two receipts of one user on one market.
pub open spec fn same_identity(a: Account, b: Account) -> bool {
    match (a, b) {
        (Account::InsightPool(_), Account::InsightPool(_)) => true,
        (Account::AgentExecutor(_), Account::AgentExecutor(_)) => true,
        (Account::ReputationVault(x), Account::ReputationVault(y)) => x.owner == y.owner,
        (Account::Market(x), Account::Market(y)) => x.market_id@ == y.market_id@,
        (Account::CredStake(x), Account::CredStake(y)) => x.market == y.market && x.user
            == y.user,
        _ => false,
    }
}

/// One record per identity: after any sequence of calls on a new ledger there
/// is at most one insight pool and one agent executor, one vault per owner,
/// one market per identifier, and one receipt per user and market.
pub proof fn lemma_one_record_per_identity(
    program_id: Pubkey,
    calls: Seq<(Call, i64)>,
    first: Pubkey,
    second: Pubkey,
)
    requires
        run_calls(LedgerState::empty(), program_id, calls).accounts.contains_key(first),
        run_calls(LedgerState::empty(), program_id, calls).accounts.contains_key(second),
        same_identity(
            run_calls(LedgerState::empty(), program_id, calls).accounts[first],
            run_calls(LedgerState::empty(), program_id, calls).accounts[second],
        ),
    ensures
        first == second,
{
    lemma_run_calls_keeps_addresses(LedgerState::empty(), program_id, calls);
}

// ---------------------------------------------------------------------------
// Vaults
// ---------------------------------------------------------------------------

/// After any sequence of instructions on a new ledger, every vault is
/// balanced: what it holds and what it has staked add up to what it has
/// earned. So no vault has staked more than it earned, and no operation has
/// driven a balance below zero.
pub proof fn lemma_vaults_never_overdrawn(instructions: Seq<(Instruction, i64)>, key: Pubkey)
    requires
        run(LedgerState::empty(), instructions).accounts.contains_key(key),
        run(LedgerState::empty(), instructions).accounts[key] is ReputationVault,
    ensures
        ({
            let vault = run(LedgerState::empty(), instructions).accounts[key]->ReputationVault_0;
            &&& vault.cred_balance + vault.total_staked == vault.total_earned
            &&& vault.total_earned >= vault.total_staked
            &&& vault.cred_balance >= 0
        }),
{
    lemma_run_evolves(LedgerState::empty(), instructions);
}

/// After any sequence of calls on a new ledger, every vault is balanced.
pub proof fn lemma_vaults_never_overdrawn_by_calls(
    program_id: Pubkey,
    calls: Seq<(Call, i64)>,
    key: Pubkey,
)
    requires
        run_calls(LedgerState::empty(), program_id, calls).accounts.contains_key(key),
        run_calls(LedgerState::empty(), program_id, calls).accounts[key] is ReputationVault,
    ensures
        ({
            let vault = run_calls(
                LedgerState::empty(),
                program_id,
                calls,
            ).accounts[key]->ReputationVault_0;
            &&& vault.cred_balance + vault.total_staked == vault.total_earned
            &&& vault.total_earned >= vault.total_staked
            &&& vault.cred_balance >= 0
        }),
{
    lemma_run_calls_evolves(LedgerState::empty(), program_id, calls);
}

// ---------------------------------------------------------------------------
// Stakes
// ---------------------------------------------------------------------------

/// A receipt is created once: after a stake with a receipt at some address
/// has succeeded, and whatever instructions have run since, every stake that
/// names the same market, the same vault and the same address for its receipt
/// is refused because the address is in use, and leaves the ledger, and with
/// it the market's totals, as it was.
pub proof fn lemma_receipt_created_once(
    pre: LedgerState,
    accounts: StakeCred,
    bump: u8,
    direction: bool,
    amount: u64,
    now: i64,
    between: Seq<(Instruction, i64)>,
    again: StakeCred,
    bump_again: u8,
    direction_again: bool,
    amount_again: u64,
    later: i64,
)
    requires
        stake_cred_step(pre, accounts, bump, direction, amount, now) is Ok,
        again.market == accounts.market,
        again.reputation_vault == accounts.reputation_vault,
        again.cred_stake == accounts.cred_stake,
    ensures
        stake_cred_step(
            run(stake_cred_step(pre, accounts, bump, direction, amount, now)->Ok_0, between),
            again,
            bump_again,
            direction_again,
            amount_again,
            later,
        ) == Err::<LedgerState, LedgerError>(LedgerError::AccountAlreadyInUse),
        ({
            let staked = stake_cred_step(pre, accounts, bump, direction, amount, now)->Ok_0;
            let second = Instruction::StakeCred {
                accounts: again,
                bump: bump_again,
                direction: direction_again,
                amount: amount_again,
            };
            run(staked, between.push((second, later))) == run(staked, between)
        }),
{
    let staked = stake_cred_step(pre, accounts, bump, direction, amount, now)->Ok_0;
    let second = Instruction::StakeCred {
        accounts: again,
        bump: bump_again,
        direction: direction_again,
        amount: amount_again,
    };
    lemma_run_evolves(staked, between);
    assert(staked.accounts.contains_key(accounts.market));
    assert(staked.accounts.contains_key(accounts.reputation_vault));
    assert(staked.accounts.contains_key(accounts.cred_stake));
    assert(between.push((second, later)).drop_last() =~= between);
}

/// A user stakes on a market at most once: after a call that staked for
/// `user` on `market` has succeeded, and whatever calls have been made since,
/// every further stake of that user on that market is refused, whatever its
/// direction and amount, because the receipt exists, and leaves the ledger as
/// it was: the market's totals changed only once.
pub proof fn lemma_stake_at_most_once(
    pre: LedgerState,
    program_id: Pubkey,
    market: Pubkey,
    user: Pubkey,
    direction: bool,
    amount: u64,
    now: i64,
    between: Seq<(Call, i64)>,
    direction_again: bool,
    amount_again: u64,
    later: i64,
)
    requires
        apply(pre, program_id, Call::StakeCred { market, user, direction, amount }, now) is Ok,
    ensures
        apply(
            run_calls(
                apply(
                    pre,
                    program_id,
                    Call::StakeCred { market, user, direction, amount },
                    now,
                )->Ok_0,
                program_id,
                between,
            ),
            program_id,
            Call::StakeCred { market, user, direction: direction_again, amount: amount_again },
            later,
        ) == Err::<LedgerState, LedgerError>(LedgerError::AccountAlreadyInUse),
        ({
            let staked = apply(
                pre,
                program_id,
                Call::StakeCred { market, user, direction, amount },
                now,
            )->Ok_0;
            let second = Call::StakeCred {
                market,
                user,
                direction: direction_again,
                amount: amount_again,
            };
            run_calls(staked, program_id, between.push((second, later))) == run_calls(
                staked,
                program_id,
                between,
            )
        }),
{
    let staked = apply(
        pre,
        program_id,
        Call::StakeCred { market, user, direction, amount },
        now,
    )->Ok_0;
    let second = Call::StakeCred { market, user, direction: direction_again, amount: amount_again };
    let vault = reputation_vault_address(program_id, user)->Some_0.0;
    let receipt = cred_stake_address(program_id, market, user)->Some_0.0;
    lemma_run_calls_evolves(staked, program_id, between);
    assert(staked.accounts.contains_key(market));
    assert(staked.accounts.contains_key(vault));
    assert(staked.accounts.contains_key(receipt));
    assert(between.push((second, later)).drop_last() =~= between);
}

// ---------------------------------------------------------------------------
// Distribution
// ---------------------------------------------------------------------------

/// Only winners are paid: where a distribution is not refused, the market is
/// resolved and the stake was placed on the outcome that it resolved to.
pub proof fn lemma_only_winners_are_paid(
    market: Market,
    stake: CredStake,
    vault: ReputationVault,
    pool: InsightPool,
    amount: u64,
)
    requires
        distribute_insight_rewards_error(market, stake, vault, pool, amount) is None,
    ensures
        market.status == MarketStatus::Resolved,
        market.outcome is Some,
        stake.won(market.outcome->0),
        stake.direction == (market.outcome->0 == 1),
{
}

/// A stake on the other outcome is never paid: on a resolved market, a
/// positive amount asked on a stake whose direction is not the market's
/// outcome is refused because the user did not win, whatever the vault and the
/// pool hold.
pub proof fn lemma_losers_are_refused(
    market: Market,
    stake: CredStake,
    vault: ReputationVault,
    pool: InsightPool,
    amount: u64,
)
    requires
        amount > 0,
        market.status == MarketStatus::Resolved,
        market.outcome is Some,
        stake.direction != (market.outcome->0 == 1),
    ensures
        distribute_insight_rewards_error(market, stake, vault, pool, amount) == Some(
            ErrorCode::UserDidNotWin,
        ),
{
}

/// On the ledger, no distribution succeeds on the receipt of a stake that did
/// not win its market.
pub proof fn lemma_losing_receipt_pays_nothing(
    pre: LedgerState,
    accounts: DistributeInsightRewards,
    amount: u64,
    now: i64,
)
    requires
        market_at(pre.accounts, accounts.market) is Ok,
        stake_at(pre.accounts, accounts.cred_stake) is Ok,
        ({
            let market = market_at(pre.accounts, accounts.market)->Ok_0;
            let stake = stake_at(pre.accounts, accounts.cred_stake)->Ok_0;
            market.outcome is None || !stake.won(market.outcome->0)
        }),
    ensures
        distribute_insight_rewards_step(pre, accounts, amount, now) is Err,
{
}

// ---------------------------------------------------------------------------
// Resolution
// ---------------------------------------------------------------------------

/// A resolution that is not refused was asked on an open market, with outcome
/// 0 or 1, by the executor's authority.
pub proof fn lemma_resolution_needs_open_market(
    market: Market,
    executor: AgentExecutor,
    authority: Pubkey,
    outcome: u8,
)
    requires
        resolve_market_error(market, executor, authority, outcome) is None,
    ensures
        market.status == MarketStatus::Open,
        outcome <= 1,
        authority == executor.authority,
{
}

/// A market is resolved once: after a resolution of the market at some
/// address has succeeded, and whatever instructions have run since, every
/// further resolution of that market is refused, whoever asks and with
/// whatever outcome; where the executor is found and the outcome is 0 or 1,
/// because the market is not open.
pub proof fn lemma_market_resolved_once(
    pre: LedgerState,
    accounts: ResolveMarket,
    outcome: u8,
    ipfs_transcript_hash: [u8; 32],
    now: i64,
    between: Seq<(Instruction, i64)>,
    again: ResolveMarket,
    outcome_again: u8,
    hash_again: [u8; 32],
    later: i64,
)
    requires
        resolve_market_step(pre, accounts, outcome, ipfs_transcript_hash, now) is Ok,
        again.market == accounts.market,
    ensures
        ({
            let state = run(
                resolve_market_step(pre, accounts, outcome, ipfs_transcript_hash, now)->Ok_0,
                between,
            );
            let second = resolve_market_step(state, again, outcome_again, hash_again, later);
            &&& second is Err
            &&& executor_at(state.accounts, again.agent_executor) is Ok && outcome_again <= 1
                ==> second == Err::<LedgerState, LedgerError>(
                LedgerError::Program(ErrorCode::MarketNotOpen),
            )
            &&& market_at(state.accounts, accounts.market) is Ok
            &&& market_at(state.accounts, accounts.market)->Ok_0.outcome == Some(outcome)
        }),
{
    let resolved_state = resolve_market_step(
        pre,
        accounts,
        outcome,
        ipfs_transcript_hash,
        now,
    )->Ok_0;
    lemma_run_evolves(resolved_state, between);
    assert(resolved_state.accounts.contains_key(accounts.market));
}

// ---------------------------------------------------------------------------
// Evidence
// ---------------------------------------------------------------------------

/// The ledger after `count` submissions of evidence to one market, each
/// counted only where it is accepted.
pub open spec fn after_submissions(
    pre: LedgerState,
    accounts: SubmitEvidence,
    ipfs_cid: String,
    now: i64,
    count: nat,
) -> LedgerState
    decreases count,
{
    if count == 0 {
        pre
    } else {
        let before = after_submissions(pre, accounts, ipfs_cid, now, (count - 1) as nat);
        match submit_evidence_step(before, accounts, ipfs_cid, now) {
            Ok(next) => next,
            Err(_) => before,
        }
    }
}

/// A market takes ten evidence items and no more: on an open market without
/// evidence, each of the first ten submissions is accepted and makes the count
/// one more, from 1 to 10; the eleventh and every later one is refused, and
/// the count stays at 10.
pub proof fn lemma_evidence_cap(
    pre: LedgerState,
    accounts: SubmitEvidence,
    ipfs_cid: String,
    now: i64,
    count: nat,
)
    requires
        market_at(pre.accounts, accounts.market) is Ok,
        market_at(pre.accounts, accounts.market)->Ok_0.status == MarketStatus::Open,
        market_at(pre.accounts, accounts.market)->Ok_0.evidence_count == 0,
        utf8_len(ipfs_cid@) <= MAX_IPFS_CID_LEN,
    ensures
        ({
            let state = after_submissions(pre, accounts, ipfs_cid, now, count);
            let next = submit_evidence_step(state, accounts, ipfs_cid, now);
            &&& market_at(state.accounts, accounts.market) is Ok
            &&& market_at(state.accounts, accounts.market)->Ok_0.status == MarketStatus::Open
            &&& market_at(state.accounts, accounts.market)->Ok_0.evidence_count == (if count
                < 10 {
                count
            } else {
                10
            })
            &&& count < 10 ==> next is Ok && market_at(
                next->Ok_0.accounts,
                accounts.market,
            )->Ok_0.evidence_count == count + 1
            &&& count >= 10 ==> next == Err::<LedgerState, LedgerError>(
                LedgerError::Program(ErrorCode::TooManyEvidenceSubmissions),
            )
        }),
    decreases count,
{
    if count > 0 {
        lemma_evidence_cap(pre, accounts, ipfs_cid, now, (count - 1) as nat);
    }
}

} // verus!
