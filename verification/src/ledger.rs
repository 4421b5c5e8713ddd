//! The contribution ledger: for each fund a namespace of its own, which maps
//! a contributor to what they have contributed, net of withdrawals.
//!
//! A contributor without an entry has contributed zero. One fund's namespace
//! is found without looking at any other, and is dropped in one step.

use vstd::prelude::*;
use std::collections::HashMap;
use crate::types::{AccountId, Balance, FundIndex};

verus! {

broadcast use vstd::std_specs::hash::group_hash_axioms;

/// What one namespace holds: contributor to balance.
pub type Namespace = Map<AccountId, Balance>;

/// What the whole ledger holds: fund to namespace.
pub type Contributions = Map<FundIndex, Namespace>;

/// The namespace of the fund `index`; empty if the ledger has none for it.
pub open spec fn namespace(ledger: Contributions, index: FundIndex) -> Namespace {
    if ledger.contains_key(index) {
        ledger[index]
    } else {
        Map::empty()
    }
}

/// What `who` has contributed to the fund `index`; zero without an entry.
pub open spec fn contribution(ledger: Contributions, index: FundIndex, who: AccountId) -> Balance {
    if namespace(ledger, index).contains_key(who) {
        namespace(ledger, index)[who]
    } else {
        0
    }
}

/// The ledger after the balance of `who` in the fund `index` was set to `balance`.
pub open spec fn put(ledger: Contributions, index: FundIndex, who: AccountId, balance: Balance) -> Contributions {
    ledger.insert(index, namespace(ledger, index).insert(who, balance))
}

/// The ledger after the entry of `who` in the fund `index` was removed.
pub open spec fn kill(ledger: Contributions, index: FundIndex, who: AccountId) -> Contributions {
    if ledger.contains_key(index) {
        ledger.insert(index, ledger[index].remove(who))
    } else {
        ledger
    }
}

/// The ledger after the whole namespace of the fund `index` was removed.
pub open spec fn kill_all(ledger: Contributions, index: FundIndex) -> Contributions {
    ledger.remove(index)
}

/// The sum of all balances in a namespace with finitely many entries.
pub open spec fn sum(entries: Namespace) -> nat
    decreases entries.dom().len(),
{
    if entries.dom().finite() && entries.dom().len() > 0 {
        let who = entries.dom().choose();
        entries[who] as nat + sum(entries.remove(who))
    } else {
        0
    }
}

/// The sum of all contributions to the fund `index`.
pub open spec fn total(ledger: Contributions, index: FundIndex) -> nat {
    sum(namespace(ledger, index))
}

/// Every namespace of the ledger has finitely many entries.
pub open spec fn finite(ledger: Contributions) -> bool {
    forall|index: FundIndex| #[trigger]
        ledger.contains_key(index) ==> ledger[index].dom().finite()
}

/// The sum of a namespace is any one of its entries plus the sum of the rest.
pub proof fn lemma_sum_remove(entries: Namespace, who: AccountId)
    requires
        entries.dom().finite(),
        entries.contains_key(who),
    ensures
        sum(entries) == entries[who] + sum(entries.remove(who)),
    decreases entries.dom().len(),
{
    let first = entries.dom().choose();
    if first != who {
        let rest = entries.remove(first);
        lemma_sum_remove(rest, who);
        lemma_sum_remove(entries.remove(who), first);
        assert(rest.remove(who) =~= entries.remove(who).remove(first));
    }
}

/// Setting one entry changes the sum by what the entry gains or loses.
pub proof fn lemma_sum_insert(entries: Namespace, who: AccountId, balance: Balance)
    requires
        entries.dom().finite(),
    ensures
        sum(entries.insert(who, balance)) == sum(entries.remove(who)) + balance,
{
    let after = entries.insert(who, balance);
    lemma_sum_remove(after, who);
    assert(after.remove(who) =~= entries.remove(who));
}

/// Removing an entry twice is removing it once, and leaves the contributor
/// with nothing.
pub proof fn lemma_kill_idempotent(ledger: Contributions, index: FundIndex, who: AccountId)
    ensures
        kill(kill(ledger, index, who), index, who) == kill(ledger, index, who),
        contribution(kill(ledger, index, who), index, who) == 0,
{
    let once = kill(ledger, index, who);
    if ledger.contains_key(index) {
        assert(once[index].remove(who) =~= once[index]);
        assert(kill(once, index, who) =~= once);
    }
}

/// What was put is what is read back.
pub proof fn lemma_put_then_get(
    ledger: Contributions,
    index: FundIndex,
    who: AccountId,
    balance: Balance,
)
    ensures
        contribution(put(ledger, index, who, balance), index, who) == balance,
{
}

/// A balance stays as it is while other entries are put, removed or dropped.
pub proof fn lemma_other_entries_keep(
    ledger: Contributions,
    index: FundIndex,
    who: AccountId,
    other_index: FundIndex,
    other_who: AccountId,
    balance: Balance,
)
    ensures
        (index, who) != (other_index, other_who) ==> contribution(
            put(ledger, other_index, other_who, balance),
            index,
            who,
        ) == contribution(ledger, index, who),
        (index, who) != (other_index, other_who) ==> contribution(
            kill(ledger, other_index, other_who),
            index,
            who,
        ) == contribution(ledger, index, who),
        index != other_index ==> contribution(kill_all(ledger, other_index), index, who)
            == contribution(ledger, index, who),
        contribution(kill_all(ledger, index), index, who) == 0,
{
}

/// A contribution ledger held in memory.
pub struct ContributionLedger {
    spaces: HashMap<FundIndex, HashMap<AccountId, Balance>>,
}

impl View for ContributionLedger {
    type V = Contributions;

    closed spec fn view(&self) -> Contributions {
        Map::new(
            |index: FundIndex| self.spaces@.contains_key(index),
            |index: FundIndex| self.spaces@[index]@,
        )
    }
}

impl ContributionLedger {
    /// Makes a ledger without any entry.
    pub fn new() -> (ledger: ContributionLedger)
        ensures
            ledger@ == Map::<FundIndex, Namespace>::empty(),
    {
        let ledger = ContributionLedger { spaces: HashMap::new() };
        assert(ledger@ =~= Map::<FundIndex, Namespace>::empty());
        ledger
    }

    /// Every namespace has finitely many entries.
    pub proof fn lemma_finite(&self)
        ensures
            finite(self@),
    {
    }

    /// Looks up what `who` has contributed to the fund `index`.
    pub fn get(&self, index: FundIndex, who: &AccountId) -> (balance: Balance)
        ensures
            balance == contribution(self@, index, *who),
    {
        match self.spaces.get(&index) {
            None => 0,
            Some(space) => match space.get(who) {
                None => 0,
                Some(held) => *held,
            },
        }
    }

    /// Sets what `who` has contributed to the fund `index`, whatever it was.
    pub fn put(&mut self, index: FundIndex, who: &AccountId, balance: &Balance)
        ensures
            final(self)@ == put(old(self)@, index, *who, *balance),
    {
        let mut space = match self.spaces.remove(&index) {
            Some(space) => space,
            None => HashMap::new(),
        };
        space.insert(*who, *balance);
        self.spaces.insert(index, space);
        assert(self@ =~= put(old(self)@, index, *who, *balance));
    }

    /// Removes the entry of `who` in the fund `index`, if there is one.
    pub fn kill(&mut self, index: FundIndex, who: &AccountId)
        ensures
            final(self)@ == kill(old(self)@, index, *who),
    {
        match self.spaces.remove(&index) {
            None => {
                assert(self@ =~= old(self)@);
            },
            Some(space) => {
                let mut space = space;
                space.remove(who);
                self.spaces.insert(index, space);
                assert(self@ =~= kill(old(self)@, index, *who));
            },
        }
    }

    /// Removes every entry of the fund `index` in one step. The work grows
    /// with the number of entries, and nothing caps it.
    pub fn kill_all(&mut self, index: FundIndex)
        ensures
            final(self)@ == kill_all(old(self)@, index),
    {
        self.spaces.remove(&index);
        assert(self@ =~= kill_all(old(self)@, index));
    }
}

} // verus!
