//! The account book: who holds how much, and the three ways value moves.
//!
//! Every account holds a balance; one that was never touched holds zero.
//! Each move either happens whole or fails and changes nothing.

use vstd::prelude::*;
use std::collections::HashMap;
use crate::fund::saturating_sum;
use crate::types::{AccountId, Balance, CurrencyError};

verus! {

broadcast use vstd::std_specs::hash::group_hash_axioms;

/// The book after `amount` was taken from `who`, or why it cannot be taken.
pub open spec fn withdrawn(book: Map<AccountId, Balance>, who: AccountId, amount: Balance) -> Result<
    Map<AccountId, Balance>,
    CurrencyError,
> {
    if book[who] < amount {
        Err(CurrencyError::InsufficientBalance)
    } else {
        Ok(book.insert(who, (book[who] - amount) as Balance))
    }
}

/// The book after `amount` was given to `who`. What does not fit is lost.
pub open spec fn deposited(book: Map<AccountId, Balance>, who: AccountId, amount: Balance) -> Map<
    AccountId,
    Balance,
> {
    book.insert(who, saturating_sum(book[who], amount))
}

/// The book after `amount` went from `from` to `to`, or why it cannot go.
pub open spec fn transferred(
    book: Map<AccountId, Balance>,
    from: AccountId,
    to: AccountId,
    amount: Balance,
) -> Result<Map<AccountId, Balance>, CurrencyError> {
    if book[from] < amount {
        Err(CurrencyError::InsufficientBalance)
    } else {
        let debited = book.insert(from, (book[from] - amount) as Balance);
        if debited[to] + amount > Balance::MAX {
            Err(CurrencyError::Overflow)
        } else {
            Ok(debited.insert(to, (debited[to] + amount) as Balance))
        }
    }
}

/// An amount that was taken from one account and is still to be placed in
/// another.
#[derive(Debug, PartialEq, Eq)]
pub struct Imbalance {
    amount: Balance,
}

impl Imbalance {
    /// The amount that is to be placed.
    pub closed spec fn amount(&self) -> Balance {
        self.amount
    }

    /// Reads the amount that is to be placed.
    pub fn peek(&self) -> (amount: Balance)
        ensures
            amount == self.amount(),
    {
        self.amount
    }
}

/// An account book held in memory.
pub struct Balances {
    accounts: HashMap<AccountId, Balance>,
}

impl View for Balances {
    type V = Map<AccountId, Balance>;

    /// The balance of every account; zero for one that was never touched.
    closed spec fn view(&self) -> Map<AccountId, Balance> {
        Map::total(
            |who: AccountId|
                if self.accounts@.contains_key(who) {
                    self.accounts@[who]
                } else {
                    0
                },
        )
    }
}

impl Balances {
    /// Makes a book in which every account holds zero.
    pub fn new() -> (book: Balances)
        ensures
            book@ == Map::<AccountId, Balance>::total(|who: AccountId| 0),
    {
        let book = Balances { accounts: HashMap::new() };
        assert(book@ =~= Map::<AccountId, Balance>::total(|who: AccountId| 0));
        book
    }

    /// Reads what `who` holds.
    pub fn free_balance(&self, who: AccountId) -> (balance: Balance)
        ensures
            balance == self@[who],
    {
        match self.accounts.get(&who) {
            Some(held) => *held,
            None => 0,
        }
    }

    /// Takes `amount` from `who`, if `who` holds as much, and hands it out
    /// to be placed elsewhere.
    pub fn withdraw(&mut self, who: AccountId, amount: Balance) -> (outcome: Result<
        Imbalance,
        CurrencyError,
    >)
        ensures
            match withdrawn(old(self)@, who, amount) {
                Ok(book) => outcome is Ok && outcome->Ok_0.amount() == amount && final(self)@
                    == book,
                Err(e) => outcome is Err && outcome->Err_0 == e && final(self)@ == old(self)@,
            },
    {
        let held: Balance = self.free_balance(who);
        if held < amount {
            return Err(CurrencyError::InsufficientBalance);
        }
        self.accounts.insert(who, held - amount);
        assert(self@ =~= old(self)@.insert(who, (held - amount) as Balance));
        Ok(Imbalance { amount })
    }

    /// Gives `amount` of new money to `who`, opening the account if it was
    /// never touched. This cannot fail: what the account cannot hold is lost.
    pub fn deposit_creating(&mut self, who: AccountId, amount: Balance)
        ensures
            final(self)@ == deposited(old(self)@, who, amount),
    {
        let held: Balance = self.free_balance(who);
        self.accounts.insert(who, held.saturating_add(amount));
        assert(self@ =~= deposited(old(self)@, who, amount));
    }

    /// Places what was taken from another account with `who`, opening the
    /// account if it was never touched. This cannot fail: what the account
    /// cannot hold is lost.
    pub fn resolve_creating(&mut self, who: AccountId, imbalance: Imbalance)
        ensures
            final(self)@ == deposited(old(self)@, who, imbalance.amount()),
    {
        self.deposit_creating(who, imbalance.peek());
    }

    /// Moves `amount` from `from` to `to`, if `from` holds as much and `to`
    /// can hold it.
    pub fn transfer(&mut self, from: AccountId, to: AccountId, amount: Balance) -> (outcome: Result<
        (),
        CurrencyError,
    >)
        ensures
            match transferred(old(self)@, from, to, amount) {
                Ok(book) => outcome is Ok && final(self)@ == book,
                Err(e) => outcome == Err::<(), CurrencyError>(e) && final(self)@ == old(self)@,
            },
    {
        let held: Balance = self.free_balance(from);
        if held < amount {
            return Err(CurrencyError::InsufficientBalance);
        }
        if from == to {
            assert(old(self)@.insert(from, (held - amount) as Balance).insert(to, held) =~= old(
                self,
            )@);
            return Ok(());
        }
        let target: Balance = self.free_balance(to);
        if target > Balance::MAX - amount {
            return Err(CurrencyError::Overflow);
        }
        self.accounts.insert(from, held - amount);
        self.accounts.insert(to, target + amount);
        assert(self@ =~= old(self)@.insert(from, (held - amount) as Balance).insert(
            to,
            (target + amount) as Balance,
        ));
        Ok(())
    }
}

} // verus!
