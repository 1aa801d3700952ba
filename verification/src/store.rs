use crate::pubkey::Pubkey;
use crate::state::{AgentExecutor, CredStake, InsightPool, Market, ReputationVault};
use vstd::prelude::*;

verus! {

/// A record of one of the five kinds.
#[derive(Debug)]
pub enum Account {
    InsightPool(InsightPool),
    AgentExecutor(AgentExecutor),
    ReputationVault(ReputationVault),
    Market(Market),
    CredStake(CredStake),
}

impl Clone for Account {
    fn clone(&self) -> (r: Account)
        ensures
            r == *self,
    {
        match self {
            Account::InsightPool(pool) => Account::InsightPool(*pool),
            Account::AgentExecutor(executor) => Account::AgentExecutor(*executor),
            Account::ReputationVault(vault) => Account::ReputationVault(*vault),
            Account::Market(market) => Account::Market(market.clone()),
            Account::CredStake(stake) => Account::CredStake(*stake),
        }
    }
}

struct Entry {
    key: Pubkey,
    account: Account,
}

spec fn holds(entries: Seq<Entry>, key: Pubkey) -> bool {
    exists|i: int| 0 <= i < entries.len() && (#[trigger] entries[i]).key == key
}

spec fn place(entries: Seq<Entry>, key: Pubkey) -> int {
    choose|i: int| 0 <= i < entries.len() && (#[trigger] entries[i]).key == key
}

spec fn distinct(entries: Seq<Entry>) -> bool {
    forall|i: int, j: int|
        0 <= i < entries.len() && 0 <= j < entries.len() && (#[trigger] entries[i]).key == (
        #[trigger] entries[j]).key ==> i == j
}

spec fn contents(entries: Seq<Entry>) -> Map<Pubkey, Account> {
    Map::new(|key: Pubkey| holds(entries, key), |key: Pubkey| entries[place(entries, key)].account)
}

/// The records of a ledger, each under its address: at most one record per
/// address. Its view is the map from the addresses in use to their records.
pub struct AccountStore {
    entries: Vec<Entry>,
}

impl View for AccountStore {
    type V = Map<Pubkey, Account>;

    closed spec fn view(&self) -> Map<Pubkey, Account> {
        contents(self.entries@)
    }
}

impl AccountStore {
    #[verifier::type_invariant]
    spec fn well_formed(&self) -> bool {
        distinct(self.entries@)
    }

    /// A store without records.
    pub fn new() -> (r: AccountStore)
        ensures
            r@ == Map::<Pubkey, Account>::empty(),
    {
        let r = AccountStore { entries: Vec::new() };
        assert(r@ =~= Map::<Pubkey, Account>::empty());
        r
    }

    fn position(&self, key: &Pubkey) -> (r: Option<usize>)
        ensures
            match r {
                Some(i) => i < self.entries@.len() && self.entries@[i as int].key == *key,
                None => !holds(self.entries@, *key),
            },
    {
        let mut i: usize = 0;
        while i < self.entries.len()
            invariant
                i <= self.entries@.len(),
                forall|j: int| 0 <= j < i ==> (#[trigger] self.entries@[j]).key != *key,
            decreases self.entries@.len() - i,
        {
            if self.entries[i].key == *key {
                return Some(i);
            }
            i += 1;
        }
        None
    }

    /// Whether a record lives at `key`.
    pub fn contains_key(&self, key: &Pubkey) -> (r: bool)
        ensures
            r == self@.contains_key(*key),
    {
        self.position(key).is_some()
    }

    /// The record at `key`, if there is one.
    pub fn get(&self, key: &Pubkey) -> (r: Option<&Account>)
        ensures
            match r {
                Some(account) => self@.contains_key(*key) && *account == self@[*key],
                None => !self@.contains_key(*key),
            },
    {
        proof {
            use_type_invariant(self);
        }
        match self.position(key) {
            Some(i) => {
                assert(holds(self.entries@, *key));
                Some(&self.entries[i].account)
            },
            None => None,
        }
    }

    /// Puts `account` at `key`, in place of the record that was there, if any.
    pub fn insert(&mut self, key: Pubkey, account: Account)
        ensures
            final(self)@ == old(self)@.insert(key, account),
    {
        proof {
            use_type_invariant(&*self);
        }
        let ghost before = self.entries@;
        match self.position(&key) {
            Some(i) => {
                let mut entries: Vec<Entry> = Vec::new();
                std::mem::swap(&mut self.entries, &mut entries);
                entries[i] = Entry { key, account };
                std::mem::swap(&mut self.entries, &mut entries);
                proof {
                    let after = self.entries@;
                    assert(after == before.update(i as int, Entry { key, account }));
                    assert(distinct(after));
                    assert forall|k: Pubkey| holds(after, k) == (holds(before, k) || k == key) by {
                        if holds(before, k) {
                            let j = place(before, k);
                            assert(after[j].key == k);
                        }
                        if holds(after, k) {
                            let j = place(after, k);
                            assert(before[j].key == after[j].key);
                        }
                        if k == key {
                            assert(after[i as int].key == k);
                        }
                    }
                    assert forall|k: Pubkey| holds(after, k) implies #[trigger] contents(after)[k]
                        == contents(before).insert(key, account)[k] by {
                        let j = place(after, k);
                        if k == key {
                            assert(after[i as int].key == k);
                        } else {
                            assert(before[j].key == k);
                            let j0 = place(before, k);
                            assert(after[j0].key == k);
                        }
                    }
                    assert(contents(after) =~= contents(before).insert(key, account));
                }
            },
            None => {
                let mut entries: Vec<Entry> = Vec::new();
                std::mem::swap(&mut self.entries, &mut entries);
                entries.push(Entry { key, account });
                std::mem::swap(&mut self.entries, &mut entries);
                proof {
                    let after = self.entries@;
                    let n = before.len() as int;
                    assert(after == before.push(Entry { key, account }));
                    assert(distinct(after)) by {
                        assert forall|a: int, b: int|
                            0 <= a < after.len() && 0 <= b < after.len() && (
                            #[trigger] after[a]).key == (#[trigger] after[b]).key implies a
                            == b by {
                            if a < n {
                                assert(before[a].key == after[a].key);
                            }
                            if b < n {
                                assert(before[b].key == after[b].key);
                            }
                        }
                    }
                    assert forall|k: Pubkey| holds(after, k) == (holds(before, k) || k == key) by {
                        if holds(before, k) {
                            let j = place(before, k);
                            assert(after[j].key == k);
                        }
                        if holds(after, k) {
                            let j = place(after, k);
                            if j < n {
                                assert(before[j].key == k);
                            }
                        }
                        if k == key {
                            assert(after[n].key == k);
                        }
                    }
                    assert forall|k: Pubkey| holds(after, k) implies #[trigger] contents(after)[k]
                        == contents(before).insert(key, account)[k] by {
                        let j = place(after, k);
                        if k == key {
                            assert(after[n].key == k);
                        } else {
                            assert(before[j].key == k);
                            let j0 = place(before, k);
                            assert(after[j0].key == k);
                        }
                    }
                    assert(contents(after) =~= contents(before).insert(key, account));
                }
            },
        }
    }
}

} // verus!
