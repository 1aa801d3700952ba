use prophecy::accounts::{
    DisputeMarket, DistributeInsightRewards, EarnCred, InitializeAgentExecutor,
    InitializeInsightPool, InitializeMarket, InitializeReputationVault, ResolveMarket, StakeCred,
    SubmitEvidence,
};
use prophecy::address::{
    find_agent_executor_address, find_cred_stake_address, find_insight_pool_address,
    find_market_address, find_reputation_vault_address,
};
use prophecy::error::ErrorCode;
use prophecy::events::Event;
use prophecy::ledger::{Ledger, LedgerError};
use prophecy::protocol::{resolve, Call, Instruction};
use prophecy::pubkey::Pubkey;
use prophecy::state::{EarnMethod, MarketStatus};
use prophecy::store::{Account, AccountStore};

const CRED: u64 = 1_000_000;

fn key(n: u8) -> Pubkey {
    Pubkey::new_from_array([n; 32])
}

fn program() -> Pubkey {
    key(200)
}

fn oracle() -> Pubkey {
    key(9)
}

fn alice() -> Pubkey {
    key(1)
}

fn bob() -> Pubkey {
    key(2)
}

fn refused(code: ErrorCode) -> Result<(), LedgerError> {
    Err(LedgerError::Program(code))
}

/// A ledger with pool, executor, a vault for Alice and for Bob, and one market.
fn world() -> (Ledger, Pubkey) {
    let mut ledger = Ledger::new(program());
    ledger.process(Call::InitializeInsightPool { authority: key(8) }, 10).unwrap();
    ledger.process(Call::InitializeAgentExecutor { authority: oracle() }, 11).unwrap();
    ledger.process(Call::InitializeReputationVault { owner: alice(), payer: alice() }, 12).unwrap();
    ledger.process(Call::InitializeReputationVault { owner: bob(), payer: alice() }, 13).unwrap();
    ledger
        .process(
            Call::InitializeMarket {
                creator: alice(),
                tweet_url: "https://x.com/claim/1".to_string(),
                market_id: "M".to_string(),
            },
            14,
        )
        .unwrap();
    let (market, _) = find_market_address(&program(), &"M".to_string()).unwrap();
    (ledger, market)
}

fn vault_key(owner: &Pubkey) -> Pubkey {
    find_reputation_vault_address(&program(), owner).unwrap().0
}

fn pool_key() -> Pubkey {
    find_insight_pool_address(&program()).unwrap().0
}

fn executor_key() -> Pubkey {
    find_agent_executor_address(&program()).unwrap().0
}

fn balance(ledger: &Ledger, owner: &Pubkey) -> u64 {
    ledger.reputation_vault(&vault_key(owner)).unwrap().cred_balance
}

#[test]
fn store_keeps_one_record_per_address() {
    let mut store = AccountStore::new();
    assert!(!store.contains_key(&key(1)));
    assert!(store.get(&key(1)).is_none());
    let executor = prophecy::instructions::initialize_agent_executor(key(5), 1);
    let pool = prophecy::instructions::initialize_insight_pool(key(6), 2, 3);
    store.insert(key(1), Account::AgentExecutor(executor));
    store.insert(key(2), Account::InsightPool(pool));
    assert!(store.contains_key(&key(1)));
    assert!(store.contains_key(&key(2)));
    assert!(!store.contains_key(&key(3)));
    assert!(matches!(store.get(&key(1)), Some(Account::AgentExecutor(e)) if e.authority == key(5)));
    store.insert(key(1), Account::InsightPool(pool));
    assert!(matches!(store.get(&key(1)), Some(Account::InsightPool(p)) if p.bump == 2));
    assert!(matches!(store.get(&key(2)), Some(Account::InsightPool(_))));
}

#[test]
fn new_ledger_is_empty() {
    let ledger = Ledger::new(program());
    assert!(ledger.program_id() == program());
    assert!(ledger.events().is_empty());
    assert!(ledger.account(&key(1)).is_none());
    assert_eq!(ledger.market(&key(1)).err(), Some(LedgerError::AccountNotInitialized));
    assert_eq!(ledger.reputation_vault(&key(1)).err(), Some(LedgerError::AccountNotInitialized));
    assert_eq!(ledger.insight_pool(&key(1)).err(), Some(LedgerError::AccountNotInitialized));
    assert_eq!(ledger.agent_executor(&key(1)).err(), Some(LedgerError::AccountNotInitialized));
    assert_eq!(ledger.cred_stake(&key(1)).err(), Some(LedgerError::AccountNotInitialized));
}

#[test]
fn records_are_found_by_kind() {
    let (ledger, market) = world();
    assert!(ledger.market(&market).is_ok());
    assert_eq!(ledger.reputation_vault(&market).err(), Some(LedgerError::AccountKindMismatch));
    assert_eq!(ledger.market(&pool_key()).err(), Some(LedgerError::AccountKindMismatch));
    assert_eq!(ledger.insight_pool(&executor_key()).err(), Some(LedgerError::AccountKindMismatch));
    assert_eq!(ledger.agent_executor(&pool_key()).err(), Some(LedgerError::AccountKindMismatch));
    assert_eq!(ledger.cred_stake(&market).err(), Some(LedgerError::AccountKindMismatch));
    assert!(matches!(ledger.account(&market), Some(Account::Market(_))));
    assert!(ledger.insight_pool(&pool_key()).unwrap().authority == key(8));
    assert!(ledger.agent_executor(&executor_key()).unwrap().authority == oracle());
}

#[test]
fn singletons_are_created_once() {
    let (mut ledger, _) = world();
    let r = ledger.process(Call::InitializeInsightPool { authority: key(77) }, 20);
    assert_eq!(r, Err(LedgerError::AccountAlreadyInUse));
    let r = ledger.process(Call::InitializeAgentExecutor { authority: key(77) }, 20);
    assert_eq!(r, Err(LedgerError::AccountAlreadyInUse));
    assert!(ledger.agent_executor(&executor_key()).unwrap().authority == oracle());
    assert!(ledger.insight_pool(&pool_key()).unwrap().authority == key(8));
    assert_eq!(ledger.insight_pool(&pool_key()).unwrap().last_distribution, 10);
}

#[test]
fn vault_is_created_once_per_owner() {
    let (mut ledger, _) = world();
    let events = ledger.events().len();
    let r = ledger.process(Call::InitializeReputationVault { owner: alice(), payer: bob() }, 20);
    assert_eq!(r, Err(LedgerError::AccountAlreadyInUse));
    assert_eq!(ledger.events().len(), events);
    assert_eq!(balance(&ledger, &alice()), 100 * CRED);
    assert!(ledger.reputation_vault(&vault_key(&alice())).unwrap().owner == alice());
}

#[test]
fn market_is_created_once_per_identifier() {
    let (mut ledger, market) = world();
    let r = ledger.process(
        Call::InitializeMarket {
            creator: bob(),
            tweet_url: "https://x.com/claim/other".to_string(),
            market_id: "M".to_string(),
        },
        20,
    );
    assert_eq!(r, Err(LedgerError::AccountAlreadyInUse));
    let kept = ledger.market(&market).unwrap();
    assert!(kept.creator == alice());
    assert_eq!(kept.tweet_url, "https://x.com/claim/1");
    assert_eq!(kept.created_at, 14);
    assert!(kept.agent_executor == executor_key());
    let r = ledger.process(
        Call::InitializeMarket {
            creator: bob(),
            tweet_url: "https://x.com/claim/other".to_string(),
            market_id: "N".to_string(),
        },
        21,
    );
    assert_eq!(r, Ok(()));
}

#[test]
fn market_texts_are_checked_before_the_address() {
    let (mut ledger, _) = world();
    let r = ledger.process(
        Call::InitializeMarket {
            creator: bob(),
            tweet_url: "u".repeat(281),
            market_id: "N".to_string(),
        },
        20,
    );
    assert_eq!(r, refused(ErrorCode::TweetUrlTooLong));
    let r = ledger.process(
        Call::InitializeMarket { creator: bob(), tweet_url: "u".to_string(), market_id: "i".repeat(33) },
        20,
    );
    assert_eq!(r, refused(ErrorCode::MarketIdTooLong));
}

#[test]
fn market_needs_the_executor() {
    let mut ledger = Ledger::new(program());
    let r = ledger.process(
        Call::InitializeMarket {
            creator: alice(),
            tweet_url: "u".to_string(),
            market_id: "M".to_string(),
        },
        5,
    );
    assert_eq!(r, Err(LedgerError::AccountNotInitialized));
    assert!(ledger.events().is_empty());
}

#[test]
fn events_are_logged_in_order() {
    let (mut ledger, market) = world();
    // Two vaults and one market so far; the singletons write no event.
    assert_eq!(ledger.events().len(), 3);
    assert!(matches!(&ledger.events()[0], Event::CredEarned(e)
        if e.user == alice() && e.amount == 100 * CRED && e.method == EarnMethod::InitialGrant && e.timestamp == 12));
    assert!(matches!(&ledger.events()[2], Event::MarketCreated(e)
        if e.market == market && e.creator == alice() && e.market_id == "M" && e.timestamp == 14));
    ledger
        .process(Call::StakeCred { market, user: alice(), direction: true, amount: 5 }, 30)
        .unwrap();
    ledger
        .process(
            Call::SubmitEvidence { market, user: bob(), ipfs_cid: "bafy".to_string() },
            31,
        )
        .unwrap();
    ledger
        .process(
            Call::ResolveMarket {
                market,
                authority: oracle(),
                outcome: 1,
                ipfs_transcript_hash: [3u8; 32],
            },
            32,
        )
        .unwrap();
    ledger
        .process(
            Call::DistributeInsightRewards {
                market,
                recipient: alice(),
                authority: bob(),
                amount: 2,
            },
            33,
        )
        .unwrap();
    ledger.process(Call::DisputeMarket { market, disputer: bob() }, 34).unwrap();
    let events = ledger.events();
    assert_eq!(events.len(), 9);
    assert!(matches!(&events[3], Event::CredStaked(e) if e.amount == 5 && e.direction && e.timestamp == 30));
    assert!(matches!(&events[4], Event::EvidenceSubmitted(e) if e.evidence_index == 1 && e.ipfs_cid == "bafy"));
    assert!(matches!(&events[5], Event::MarketResolved(e) if e.outcome == 1 && e.resolver == oracle()));
    assert!(matches!(&events[6], Event::ProofNFTMintRequested(e)
        if e.market == market && e.outcome == 1 && e.ipfs_transcript_hash == [3u8; 32] && e.timestamp == 32));
    assert!(matches!(&events[7], Event::CredDistributed(e) if e.recipient == alice() && e.amount == 2));
    assert!(matches!(&events[8], Event::MarketDisputed(e) if e.disputer == bob() && e.timestamp == 34));
}

#[test]
fn winner_scenario() {
    let (mut ledger, market) = world();
    assert_eq!(balance(&ledger, &alice()), 100 * CRED);
    ledger
        .process(Call::StakeCred { market, user: alice(), direction: true, amount: 40 * CRED }, 30)
        .unwrap();
    assert_eq!(balance(&ledger, &alice()), 60 * CRED);
    assert_eq!(ledger.market(&market).unwrap().total_yes_stake, 40 * CRED);
    assert_eq!(ledger.market(&market).unwrap().total_no_stake, 0);
    ledger
        .process(
            Call::ResolveMarket {
                market,
                authority: oracle(),
                outcome: 1,
                ipfs_transcript_hash: [3u8; 32],
            },
            31,
        )
        .unwrap();
    assert_eq!(ledger.agent_executor(&executor_key()).unwrap().markets_resolved, 1);
    let pool_before = ledger.insight_pool(&pool_key()).unwrap();
    ledger
        .process(
            Call::DistributeInsightRewards {
                market,
                recipient: alice(),
                authority: oracle(),
                amount: 10 * CRED,
            },
            32,
        )
        .unwrap();
    let vault = ledger.reputation_vault(&vault_key(&alice())).unwrap();
    assert_eq!(vault.cred_balance, 70 * CRED);
    assert_eq!(vault.total_earned, 110 * CRED);
    assert_eq!(vault.total_staked, 40 * CRED);
    let pool = ledger.insight_pool(&pool_key()).unwrap();
    assert_eq!(pool.total_credits, pool_before.total_credits + 10 * CRED);
    assert_eq!(pool.distributions_count, pool_before.distributions_count + 1);
    assert_eq!(pool.last_distribution, 32);
    // Bob's vault was never touched.
    assert_eq!(balance(&ledger, &bob()), 100 * CRED);
}

#[test]
fn loser_scenario() {
    let (mut ledger, market) = world();
    ledger
        .process(Call::StakeCred { market, user: alice(), direction: true, amount: 40 * CRED }, 30)
        .unwrap();
    ledger
        .process(
            Call::ResolveMarket {
                market,
                authority: oracle(),
                outcome: 0,
                ipfs_transcript_hash: [3u8; 32],
            },
            31,
        )
        .unwrap();
    let events = ledger.events().len();
    for amount in [1, 10 * CRED, u64::MAX] {
        let r = ledger.process(
            Call::DistributeInsightRewards { market, recipient: alice(), authority: oracle(), amount },
            32,
        );
        assert_eq!(r, refused(ErrorCode::UserDidNotWin));
    }
    assert_eq!(balance(&ledger, &alice()), 60 * CRED);
    assert_eq!(ledger.reputation_vault(&vault_key(&alice())).unwrap().total_earned, 100 * CRED);
    assert_eq!(ledger.insight_pool(&pool_key()).unwrap().total_credits, 0);
    assert_eq!(ledger.insight_pool(&pool_key()).unwrap().distributions_count, 0);
    assert_eq!(ledger.events().len(), events);
}

#[test]
fn distribution_needs_a_receipt() {
    let (mut ledger, market) = world();
    ledger
        .process(Call::StakeCred { market, user: alice(), direction: true, amount: 40 * CRED }, 30)
        .unwrap();
    ledger
        .process(
            Call::ResolveMarket {
                market,
                authority: oracle(),
                outcome: 1,
                ipfs_transcript_hash: [3u8; 32],
            },
            31,
        )
        .unwrap();
    // Bob did not stake on this market.
    let r = ledger.process(
        Call::DistributeInsightRewards { market, recipient: bob(), authority: oracle(), amount: 5 },
        32,
    );
    assert_eq!(r, Err(LedgerError::AccountNotInitialized));
    assert_eq!(balance(&ledger, &bob()), 100 * CRED);
}

#[test]
fn second_stake_on_a_market_is_refused() {
    let (mut ledger, market) = world();
    ledger
        .process(Call::StakeCred { market, user: alice(), direction: true, amount: 40 * CRED }, 30)
        .unwrap();
    ledger
        .process(Call::StakeCred { market, user: bob(), direction: false, amount: 7 * CRED }, 31)
        .unwrap();
    let events = ledger.events().len();
    let r = ledger.process(
        Call::StakeCred { market, user: alice(), direction: true, amount: CRED },
        32,
    );
    assert_eq!(r, Err(LedgerError::AccountAlreadyInUse));
    let r = ledger.process(
        Call::StakeCred { market, user: alice(), direction: false, amount: CRED },
        33,
    );
    assert_eq!(r, Err(LedgerError::AccountAlreadyInUse));
    let kept = ledger.market(&market).unwrap();
    assert_eq!(kept.total_yes_stake, 40 * CRED);
    assert_eq!(kept.total_no_stake, 7 * CRED);
    assert_eq!(balance(&ledger, &alice()), 60 * CRED);
    let vault = ledger.reputation_vault(&vault_key(&alice())).unwrap();
    assert_eq!(vault.participation_count, 1);
    assert_eq!(vault.total_staked, 40 * CRED);
    assert_eq!(ledger.events().len(), events);
    let (receipt, bump) = find_cred_stake_address(&program(), &market, &alice()).unwrap();
    let stake = ledger.cred_stake(&receipt).unwrap();
    assert!(stake.user == alice());
    assert!(stake.market == market);
    assert_eq!(stake.amount, 40 * CRED);
    assert!(stake.direction);
    assert_eq!(stake.timestamp, 30);
    assert_eq!(stake.bump, bump);
}

#[test]
fn same_user_stakes_on_two_markets() {
    let (mut ledger, market) = world();
    ledger
        .process(
            Call::InitializeMarket {
                creator: bob(),
                tweet_url: "u".to_string(),
                market_id: "N".to_string(),
            },
            20,
        )
        .unwrap();
    let (other, _) = find_market_address(&program(), &"N".to_string()).unwrap();
    ledger
        .process(Call::StakeCred { market, user: alice(), direction: true, amount: 40 * CRED }, 30)
        .unwrap();
    ledger
        .process(
            Call::StakeCred { market: other, user: alice(), direction: false, amount: 60 * CRED },
            31,
        )
        .unwrap();
    assert_eq!(balance(&ledger, &alice()), 0);
    let vault = ledger.reputation_vault(&vault_key(&alice())).unwrap();
    assert_eq!(vault.participation_count, 2);
    assert_eq!(vault.total_staked, 100 * CRED);
    assert_eq!(ledger.market(&other).unwrap().total_no_stake, 60 * CRED);
}

#[test]
fn refused_stake_leaves_the_ledger() {
    let (mut ledger, market) = world();
    let r = ledger.process(Call::StakeCred { market, user: alice(), direction: true, amount: 0 }, 30);
    assert_eq!(r, refused(ErrorCode::InvalidAmount));
    let r = ledger.process(
        Call::StakeCred { market, user: alice(), direction: true, amount: 100 * CRED + 1 },
        30,
    );
    assert_eq!(r, refused(ErrorCode::InsufficientCred));
    let r = ledger.process(Call::StakeCred { market, user: key(50), direction: true, amount: 1 }, 30);
    assert_eq!(r, Err(LedgerError::AccountNotInitialized));
    let r = ledger.process(
        Call::StakeCred { market: key(51), user: alice(), direction: true, amount: 1 },
        30,
    );
    assert_eq!(r, Err(LedgerError::AccountNotInitialized));
    let r = ledger.process(
        Call::StakeCred { market: pool_key(), user: alice(), direction: true, amount: 1 },
        30,
    );
    assert_eq!(r, Err(LedgerError::AccountKindMismatch));
    assert_eq!(balance(&ledger, &alice()), 100 * CRED);
    assert_eq!(ledger.events().len(), 3);
    let (receipt, _) = find_cred_stake_address(&program(), &market, &alice()).unwrap();
    assert!(ledger.account(&receipt).is_none());
    // A stake that was refused does not stand in the way of a later one.
    let r = ledger.process(Call::StakeCred { market, user: alice(), direction: true, amount: 1 }, 31);
    assert_eq!(r, Ok(()));
}

#[test]
fn staking_ends_with_resolution() {
    let (mut ledger, market) = world();
    ledger
        .process(
            Call::ResolveMarket {
                market,
                authority: oracle(),
                outcome: 1,
                ipfs_transcript_hash: [3u8; 32],
            },
            31,
        )
        .unwrap();
    let r = ledger.process(Call::StakeCred { market, user: alice(), direction: true, amount: 1 }, 32);
    assert_eq!(r, refused(ErrorCode::MarketNotOpen));
    let r = ledger.process(
        Call::SubmitEvidence { market, user: alice(), ipfs_cid: "c".to_string() },
        32,
    );
    assert_eq!(r, refused(ErrorCode::MarketNotOpen));
}

#[test]
fn resolution_rules() {
    let (mut ledger, market) = world();
    let hash = [3u8; 32];
    let r = ledger.process(
        Call::ResolveMarket { market, authority: oracle(), outcome: 2, ipfs_transcript_hash: hash },
        31,
    );
    assert_eq!(r, refused(ErrorCode::InvalidOutcome));
    let r = ledger.process(
        Call::ResolveMarket { market, authority: oracle(), outcome: 255, ipfs_transcript_hash: hash },
        31,
    );
    assert_eq!(r, refused(ErrorCode::InvalidOutcome));
    let r = ledger.process(
        Call::ResolveMarket { market, authority: alice(), outcome: 1, ipfs_transcript_hash: hash },
        31,
    );
    assert_eq!(r, refused(ErrorCode::UnauthorizedResolver));
    assert_eq!(ledger.market(&market).unwrap().status, MarketStatus::Open);
    assert_eq!(ledger.agent_executor(&executor_key()).unwrap().markets_resolved, 0);
    let r = ledger.process(
        Call::ResolveMarket { market, authority: oracle(), outcome: 0, ipfs_transcript_hash: hash },
        32,
    );
    assert_eq!(r, Ok(()));
    let resolved = ledger.market(&market).unwrap();
    assert_eq!(resolved.status, MarketStatus::Resolved);
    assert_eq!(resolved.outcome, Some(0));
    assert_eq!(resolved.ipfs_transcript_hash, hash);
    // The same market cannot be resolved twice.
    let r = ledger.process(
        Call::ResolveMarket {
            market,
            authority: oracle(),
            outcome: 1,
            ipfs_transcript_hash: [4u8; 32],
        },
        33,
    );
    assert_eq!(r, refused(ErrorCode::MarketNotOpen));
    ledger.process(Call::DisputeMarket { market, disputer: bob() }, 34).unwrap();
    let r = ledger.process(
        Call::ResolveMarket {
            market,
            authority: oracle(),
            outcome: 1,
            ipfs_transcript_hash: [4u8; 32],
        },
        35,
    );
    assert_eq!(r, refused(ErrorCode::MarketNotOpen));
    let kept = ledger.market(&market).unwrap();
    assert_eq!(kept.status, MarketStatus::Disputed);
    assert_eq!(kept.outcome, Some(0));
    assert_eq!(kept.ipfs_transcript_hash, hash);
    assert_eq!(ledger.agent_executor(&executor_key()).unwrap().markets_resolved, 1);
}

#[test]
fn dispute_rules() {
    let (mut ledger, market) = world();
    let r = ledger.process(Call::DisputeMarket { market, disputer: bob() }, 30);
    assert_eq!(r, refused(ErrorCode::MarketNotResolved));
    ledger
        .process(
            Call::ResolveMarket {
                market,
                authority: oracle(),
                outcome: 1,
                ipfs_transcript_hash: [3u8; 32],
            },
            31,
        )
        .unwrap();
    // Anyone may dispute, also someone without a vault.
    assert_eq!(ledger.process(Call::DisputeMarket { market, disputer: key(99) }, 32), Ok(()));
    assert_eq!(ledger.market(&market).unwrap().status, MarketStatus::Disputed);
    let r = ledger.process(Call::DisputeMarket { market, disputer: key(99) }, 33);
    assert_eq!(r, refused(ErrorCode::MarketNotResolved));
    // A disputed market pays no one.
    let r = ledger.process(
        Call::DistributeInsightRewards { market, recipient: alice(), authority: oracle(), amount: 1 },
        34,
    );
    assert!(r.is_err());
}

#[test]
fn ten_evidence_items_and_no_more() {
    let (mut ledger, market) = world();
    for n in 1..=10u8 {
        let r = ledger.process(
            Call::SubmitEvidence { market, user: alice(), ipfs_cid: format!("cid-{}", n) },
            40 + n as i64,
        );
        assert_eq!(r, Ok(()));
        assert_eq!(ledger.market(&market).unwrap().evidence_count, n);
        assert!(matches!(ledger.events().last(), Some(Event::EvidenceSubmitted(e)) if e.evidence_index == n));
    }
    let events = ledger.events().len();
    let r = ledger.process(
        Call::SubmitEvidence { market, user: alice(), ipfs_cid: "cid-11".to_string() },
        60,
    );
    assert_eq!(r, refused(ErrorCode::TooManyEvidenceSubmissions));
    assert_eq!(ledger.market(&market).unwrap().evidence_count, 10);
    assert_eq!(ledger.events().len(), events);
    let r = ledger.process(
        Call::SubmitEvidence { market, user: bob(), ipfs_cid: "c".repeat(65) },
        61,
    );
    assert_eq!(r, refused(ErrorCode::IpfsCidTooLong));
}

#[test]
fn only_the_executor_grants_cred() {
    let (mut ledger, _) = world();
    let r = ledger.process(
        Call::EarnCred {
            owner: alice(),
            authority: oracle(),
            amount: 3 * CRED,
            method: EarnMethod::IdentityVerification,
        },
        50,
    );
    assert_eq!(r, Ok(()));
    assert_eq!(balance(&ledger, &alice()), 103 * CRED);
    assert_eq!(ledger.reputation_vault(&vault_key(&alice())).unwrap().total_earned, 103 * CRED);
    assert!(matches!(ledger.events().last(), Some(Event::CredEarned(e))
        if e.user == alice() && e.amount == 3 * CRED && e.method == EarnMethod::IdentityVerification && e.timestamp == 50));
    let r = ledger.process(
        Call::EarnCred {
            owner: alice(),
            authority: alice(),
            amount: 3 * CRED,
            method: EarnMethod::CommunityContribution,
        },
        51,
    );
    assert_eq!(r, refused(ErrorCode::UnauthorizedMinter));
    let r = ledger.process(
        Call::EarnCred { owner: alice(), authority: oracle(), amount: 0, method: EarnMethod::Referral },
        51,
    );
    assert_eq!(r, refused(ErrorCode::InvalidAmount));
    let r = ledger.process(
        Call::EarnCred {
            owner: alice(),
            authority: oracle(),
            amount: u64::MAX,
            method: EarnMethod::Referral,
        },
        51,
    );
    assert_eq!(r, refused(ErrorCode::Overflow));
    let r = ledger.process(
        Call::EarnCred { owner: key(60), authority: oracle(), amount: 1, method: EarnMethod::Referral },
        51,
    );
    assert_eq!(r, Err(LedgerError::AccountNotInitialized));
    assert_eq!(balance(&ledger, &alice()), 103 * CRED);
}

#[test]
fn vaults_stay_balanced() {
    let (mut ledger, market) = world();
    let calls = vec![
        Call::StakeCred { market, user: alice(), direction: true, amount: 40 * CRED },
        Call::StakeCred { market, user: bob(), direction: false, amount: 100 * CRED },
        Call::StakeCred { market, user: bob(), direction: false, amount: 1 },
        Call::EarnCred { owner: bob(), authority: oracle(), amount: 9, method: EarnMethod::Referral },
        Call::ResolveMarket {
            market,
            authority: oracle(),
            outcome: 1,
            ipfs_transcript_hash: [1u8; 32],
        },
        Call::DistributeInsightRewards { market, recipient: alice(), authority: bob(), amount: 77 },
        Call::DistributeInsightRewards { market, recipient: bob(), authority: bob(), amount: 77 },
        Call::DisputeMarket { market, disputer: alice() },
    ];
    for (n, call) in calls.into_iter().enumerate() {
        let _ = ledger.process(call, 100 + n as i64);
        for owner in [alice(), bob()] {
            let vault = ledger.reputation_vault(&vault_key(&owner)).unwrap();
            assert_eq!(vault.cred_balance as u128 + vault.total_staked as u128, vault.total_earned as u128);
            assert!(vault.total_earned >= vault.total_staked);
        }
    }
    assert_eq!(balance(&ledger, &alice()), 60 * CRED + 77);
    assert_eq!(balance(&ledger, &bob()), 9);
}

#[test]
fn instructions_run_on_given_addresses() {
    let mut ledger = Ledger::new(program());
    let pool = InitializeInsightPool { insight_pool: key(10), authority: key(8) };
    assert_eq!(ledger.initialize_insight_pool(&pool, 1, 5), Ok(()));
    assert_eq!(ledger.initialize_insight_pool(&pool, 1, 6), Err(LedgerError::AccountAlreadyInUse));
    let executor = InitializeAgentExecutor { agent_executor: key(11), authority: oracle() };
    assert_eq!(ledger.initialize_agent_executor(&executor, 2), Ok(()));
    assert_eq!(
        ledger.initialize_agent_executor(
            &InitializeAgentExecutor { agent_executor: key(10), authority: oracle() },
            2
        ),
        Err(LedgerError::AccountAlreadyInUse)
    );
    let vault = InitializeReputationVault { reputation_vault: key(12), owner: alice(), payer: bob() };
    assert_eq!(ledger.initialize_reputation_vault(&vault, 3, 7), Ok(()));
    assert_eq!(ledger.reputation_vault(&key(12)).unwrap().bump, 3);
    let market = InitializeMarket { market: key(13), agent_executor: key(11), creator: alice() };
    assert_eq!(
        ledger.initialize_market(&market, 4, "u".repeat(281), "M".to_string(), 8),
        Err(LedgerError::Program(ErrorCode::TweetUrlTooLong))
    );
    assert_eq!(
        ledger.initialize_market(
            &InitializeMarket { market: key(13), agent_executor: key(10), creator: alice() },
            4,
            "u".to_string(),
            "M".to_string(),
            8
        ),
        Err(LedgerError::AccountKindMismatch)
    );
    assert_eq!(ledger.initialize_market(&market, 4, "u".to_string(), "M".to_string(), 8), Ok(()));
    let stake = StakeCred { market: key(13), reputation_vault: key(12), cred_stake: key(14), user: alice() };
    assert_eq!(ledger.stake_cred(&stake, 5, false, 30 * CRED, 9), Ok(()));
    assert_eq!(ledger.stake_cred(&stake, 5, false, 30 * CRED, 9), Err(LedgerError::AccountAlreadyInUse));
    assert_eq!(ledger.market(&key(13)).unwrap().total_no_stake, 30 * CRED);
    assert_eq!(ledger.cred_stake(&key(14)).unwrap().bump, 5);
    let evidence = SubmitEvidence { market: key(13), user: bob() };
    assert_eq!(ledger.submit_evidence(&evidence, "cid".to_string(), 10), Ok(()));
    let resolve_accounts = ResolveMarket { market: key(13), agent_executor: key(11), authority: oracle() };
    assert_eq!(ledger.resolve_market(&resolve_accounts, 0, [9u8; 32], 11), Ok(()));
    let distribute = DistributeInsightRewards {
        market: key(13),
        insight_pool: key(10),
        cred_stake: key(14),
        recipient_vault: key(12),
        agent_executor: key(11),
        authority: bob(),
    };
    assert_eq!(ledger.distribute_insight_rewards(&distribute, 4 * CRED, 12), Ok(()));
    assert_eq!(ledger.reputation_vault(&key(12)).unwrap().cred_balance, 74 * CRED);
    assert_eq!(ledger.insight_pool(&key(10)).unwrap().total_credits, 4 * CRED);
    let earn = EarnCred { reputation_vault: key(12), agent_executor: key(11), authority: oracle() };
    assert_eq!(ledger.earn_cred(&earn, CRED, EarnMethod::EvidenceSubmission, 13), Ok(()));
    assert_eq!(ledger.reputation_vault(&key(12)).unwrap().total_earned, 105 * CRED);
    assert_eq!(ledger.dispute_market(&DisputeMarket { market: key(13) , disputer: bob() }, 14), Ok(()));
    assert_eq!(
        ledger.execute(Instruction::DisputeMarket { accounts: DisputeMarket { market: key(13), disputer: bob() } }, 15),
        Err(LedgerError::Program(ErrorCode::MarketNotResolved))
    );
    assert_eq!(
        ledger.execute(
            Instruction::EarnCred { accounts: earn, amount: CRED, method: EarnMethod::Referral },
            16
        ),
        Ok(())
    );
    assert_eq!(ledger.reputation_vault(&key(12)).unwrap().cred_balance, 76 * CRED);
}

#[test]
fn calls_resolve_to_derived_addresses() {
    let market = key(70);
    let r = resolve(&program(), Call::StakeCred { market, user: alice(), direction: true, amount: 5 });
    let (vault, _) = find_reputation_vault_address(&program(), &alice()).unwrap();
    let (receipt, receipt_bump) = find_cred_stake_address(&program(), &market, &alice()).unwrap();
    assert!(matches!(r, Ok(Instruction::StakeCred { accounts, bump, direction: true, amount: 5 })
        if accounts.market == market && accounts.reputation_vault == vault
            && accounts.cred_stake == receipt && accounts.user == alice() && bump == receipt_bump));
    let r = resolve(
        &program(),
        Call::DistributeInsightRewards { market, recipient: alice(), authority: bob(), amount: 5 },
    );
    assert!(matches!(r, Ok(Instruction::DistributeInsightRewards { accounts, amount: 5 })
        if accounts.market == market && accounts.insight_pool == pool_key()
            && accounts.cred_stake == receipt && accounts.recipient_vault == vault
            && accounts.agent_executor == executor_key() && accounts.authority == bob()));
    let r = resolve(
        &program(),
        Call::InitializeMarket { creator: alice(), tweet_url: "u".to_string(), market_id: "i".repeat(33) },
    );
    assert!(matches!(r, Err(LedgerError::Program(ErrorCode::MarketIdTooLong))));
    let r = resolve(
        &program(),
        Call::InitializeMarket { creator: alice(), tweet_url: "u".to_string(), market_id: "M".to_string() },
    );
    let (derived, derived_bump) = find_market_address(&program(), &"M".to_string()).unwrap();
    assert!(matches!(r, Ok(Instruction::InitializeMarket { accounts, bump, .. })
        if accounts.market == derived && accounts.agent_executor == executor_key() && bump == derived_bump));
}
