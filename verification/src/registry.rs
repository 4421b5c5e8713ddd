//! The fund registry: the record of every fund that is open, and the counter
//! from which new indices are taken.

use vstd::prelude::*;
use std::collections::HashMap;
use crate::fund::FundInfo;
use crate::types::FundIndex;

verus! {

broadcast use vstd::std_specs::hash::group_hash_axioms;

/// What `funds` holds under `index`, if anything.
pub open spec fn lookup(funds: Map<FundIndex, FundInfo>, index: FundIndex) -> Option<FundInfo> {
    if funds.contains_key(index) {
        Some(funds[index])
    } else {
        None
    }
}

/// A fund registry held in memory.
pub struct FundRegistry {
    funds: HashMap<FundIndex, FundInfo>,
    count: FundIndex,
}

impl FundRegistry {
    /// The records of the funds that are open, by index.
    pub closed spec fn funds(&self) -> Map<FundIndex, FundInfo> {
        self.funds@
    }

    /// How many indices were handed out so far; the next one to hand out.
    pub closed spec fn count(&self) -> nat {
        self.count as nat
    }

    /// Every recorded fund has an index that was handed out. This holds of
    /// every registry at all times.
    #[verifier::type_invariant]
    pub open spec fn wf(&self) -> bool {
        &&& self.count() <= FundIndex::MAX
        &&& forall|index: FundIndex| #[trigger]
            self.funds().contains_key(index) ==> index < self.count()
    }

    /// Makes a registry without funds, which hands out indices from zero.
    pub fn new() -> (registry: FundRegistry)
        ensures
            registry.wf(),
            registry.funds() == Map::<FundIndex, FundInfo>::empty(),
            registry.count() == 0,
    {
        FundRegistry { funds: HashMap::new(), count: 0 }
    }

    /// Hands out the next index. An index is handed out once and never again.
    pub fn allocate_index(&mut self) -> (index: FundIndex)
        requires
            old(self).count() < FundIndex::MAX,
        ensures
            final(self).wf(),
            index == old(self).count(),
            final(self).count() == old(self).count() + 1,
            final(self).funds() == old(self).funds(),
            !old(self).funds().contains_key(index),
    {
        proof {
            use_type_invariant(&*self);
            self.lemma_fields();
        }
        let index: FundIndex = self.count;
        self.count = index + 1;
        assert(self.funds() == old(self).funds());
        index
    }

    /// Records `info` under an index that was handed out, in place of what
    /// was recorded there.
    pub fn insert(&mut self, index: FundIndex, info: FundInfo)
        requires
            index < old(self).count(),
        ensures
            final(self).wf(),
            final(self).funds() == old(self).funds().insert(index, info),
            final(self).count() == old(self).count(),
    {
        proof {
            use_type_invariant(&*self);
            self.lemma_fields();
        }
        let mut funds: HashMap<FundIndex, FundInfo> = HashMap::new();
        std::mem::swap(&mut funds, &mut self.funds);
        funds.insert(index, info);
        self.funds = funds;
        assert(self.funds() == old(self).funds().insert(index, info));
    }

    /// Looks up the record of the fund `index`. An index without a record
    /// gives `None`.
    pub fn get(&self, index: FundIndex) -> (found: Option<FundInfo>)
        ensures
            self.wf(),
            found == lookup(self.funds(), index),
    {
        proof {
            use_type_invariant(self);
        }
        match self.funds.get(&index) {
            Some(info) => Some(*info),
            None => None,
        }
    }

    /// Removes the record of the fund `index`, if there is one.
    pub fn remove(&mut self, index: FundIndex)
        ensures
            final(self).wf(),
            final(self).funds() == old(self).funds().remove(index),
            final(self).count() == old(self).count(),
    {
        proof {
            use_type_invariant(&*self);
            self.lemma_fields();
        }
        let mut funds: HashMap<FundIndex, FundInfo> = HashMap::new();
        std::mem::swap(&mut funds, &mut self.funds);
        funds.remove(&index);
        self.funds = funds;
        assert(self.funds() == old(self).funds().remove(index));
    }

    /// What `wf` says, said of the fields.
    proof fn lemma_fields(&self)
        requires
            self.wf(),
        ensures
            forall|index: FundIndex| #[trigger]
                self.funds@.contains_key(index) ==> index < self.count,
    {
        assert forall|index: FundIndex| #[trigger]
            self.funds@.contains_key(index) implies index < self.count by {
            assert(self.funds().contains_key(index));
        }
    }

    /// Reads how many indices were handed out so far.
    pub fn fund_count(&self) -> (count: FundIndex)
        ensures
            self.wf(),
            count == self.count(),
    {
        proof {
            use_type_invariant(self);
        }
        self.count
    }
}

/// Removing a record twice is removing it once.
pub proof fn lemma_remove_idempotent(funds: Map<FundIndex, FundInfo>, index: FundIndex)
    ensures
        funds.remove(index).remove(index) == funds.remove(index),
        lookup(funds.remove(index), index) is None,
{
    assert(funds.remove(index).remove(index) =~= funds.remove(index));
}

} // verus!
