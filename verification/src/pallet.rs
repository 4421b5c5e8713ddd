//! The engine: it holds the registry, the ledger and the account book, and
//! runs the five operations on them. Each operation either takes effect
//! whole, and reports one event, or fails and changes nothing.

use vstd::prelude::*;
use crate::currency::Balances;
use crate::fund::{
    check_contribute, check_create, check_dispense, check_dissolve, check_withdraw, FundInfo,
};
use crate::identity::{blake2_256, child_seed, fund_account, is_fund_account};
use crate::ledger::{contribution, kill, kill_all, put, ContributionLedger};
use crate::laws::{
    lemma_contribute_consistent, lemma_create_allocates, lemma_create_consistent,
    lemma_dispense_consistent, lemma_dissolve_consistent, lemma_init, lemma_withdraw_consistent,
};
use crate::model::State;
use crate::registry::{lookup, FundRegistry};
use crate::types::{
    AccountId, Balance, BlockNumber, Config, DispatchError, Event, FundIndex,
};

verus! {

/// The crowdfund and everything it keeps.
pub struct Pallet {
    config: Config,
    registry: FundRegistry,
    ledger: ContributionLedger,
    currency: Balances,
    events: Vec<Event>,
}

impl View for Pallet {
    type V = State;

    closed spec fn view(&self) -> State {
        State {
            config: self.config,
            funds: self.registry.funds(),
            fund_count: self.registry.count(),
            contributions: self.ledger@,
            balances: self.currency@,
            events: self.events@,
        }
    }
}

impl Pallet {
    /// Makes a crowdfund without funds, over the account book `currency`.
    pub fn new(config: Config, currency: Balances) -> (pallet: Pallet)
        ensures
            pallet@.wf(),
            pallet@ == State::init(config, currency@),
            (forall|index: FundIndex| currency@[#[trigger] fund_account(index)] == 0)
                ==> pallet@.consistent(),
    {
        proof {
            if forall|index: FundIndex| currency@[#[trigger] fund_account(index)] == 0 {
                lemma_init(config, currency@);
            }
        }
        let pallet = Pallet {
            config,
            registry: FundRegistry::new(),
            ledger: ContributionLedger::new(),
            currency,
            events: Vec::new(),
        };
        proof {
            pallet.ledger.lemma_finite();
        }
        pallet
    }

    /// Opens a fund for `beneficiary` that ends at `end`, and returns its
    /// index. The counter of indices must not be exhausted.
    ///
    /// Fails with `EndTooEarly` unless `end` is after `now`, and with the
    /// account book's reason if `caller` cannot pay the deposit. Otherwise
    /// the deposit goes from `caller` to the account of the new fund, the
    /// fund is recorded with nothing raised, and `Created` is reported.
    pub fn create(
        &mut self,
        caller: AccountId,
        beneficiary: AccountId,
        goal: Balance,
        end: BlockNumber,
        now: BlockNumber,
    ) -> (result: Result<FundIndex, DispatchError>)
        requires
            old(self)@.fund_count < FundIndex::MAX,
        ensures
            final(self)@.wf(),
            final(self)@ == old(self)@.create(caller, beneficiary, goal, end, now).0,
            result == old(self)@.create(caller, beneficiary, goal, end, now).1,
            result is Err ==> final(self)@ == old(self)@,
            result matches Ok(index) ==> {
                &&& index == old(self)@.fund_count
                &&& !old(self)@.funds.contains_key(index)
                &&& final(self)@.fund_count == index + 1
            },
            old(self)@.consistent() && !is_fund_account(caller) ==> final(self)@.consistent(),
    {
        proof {
            use_type_invariant(&self.registry);
            self.ledger.lemma_finite();
        }
        match check_create(end, now) {
            Err(e) => {
                return Err(DispatchError::Crowdfund(e));
            },
            Ok(_) => {},
        }
        let deposit: Balance = self.config.submission_deposit;
        let imbalance = match self.currency.withdraw(caller, deposit) {
            Err(e) => {
                return Err(DispatchError::Currency(e));
            },
            Ok(taken) => taken,
        };
        let index: FundIndex = self.registry.allocate_index();
        self.currency.resolve_creating(Self::fund_account_id(index), imbalance);
        self.registry.insert(index, FundInfo::new(beneficiary, deposit, goal, end));
        self.events.push(Event::Created(index, now));
        proof {
            self.ledger.lemma_finite();
            lemma_create_allocates(old(self)@, caller, beneficiary, goal, end, now);
            if old(self)@.consistent() && !is_fund_account(caller) {
                lemma_create_consistent(old(self)@, caller, beneficiary, goal, end, now);
            }
        }
        Ok(index)
    }

    /// Contributes `value` from `caller` to the fund `index`, and returns
    /// what `caller` has then contributed to the fund in all.
    ///
    /// Fails with `ContributionTooSmall` if `value` is under the minimum,
    /// with `InvalidIndex` if no such fund is recorded, with
    /// `ContributionPeriodOver` if the fund has ended, and with the account
    /// book's reason if `caller` cannot pay. Otherwise `value` goes from
    /// `caller` to the fund's account, the fund's record and the caller's
    /// ledger entry grow by `value`, and `Contributed` is reported.
    pub fn contribute(
        &mut self,
        caller: AccountId,
        index: FundIndex,
        value: Balance,
        now: BlockNumber,
    ) -> (result: Result<Balance, DispatchError>)
        ensures
            final(self)@.wf(),
            final(self)@ == old(self)@.contribute(caller, index, value, now).0,
            result == old(self)@.contribute(caller, index, value, now).1,
            result is Err ==> final(self)@ == old(self)@,
            old(self)@.consistent() && !is_fund_account(caller) ==> final(self)@.consistent(),
    {
        proof {
            use_type_invariant(&self.registry);
            self.ledger.lemma_finite();
        }
        let found = self.registry.get(index);
        let mut fund = match check_contribute(found, value, self.config.min_contribution, now) {
            Err(e) => {
                return Err(DispatchError::Crowdfund(e));
            },
            Ok(info) => info,
        };
        match self.currency.transfer(caller, Self::fund_account_id(index), value) {
            Err(e) => {
                return Err(DispatchError::Currency(e));
            },
            Ok(_) => {},
        }
        fund.credit(value);
        self.registry.insert(index, fund);
        let balance: Balance = self.ledger.get(index, &caller).saturating_add(value);
        self.ledger.put(index, &caller, &balance);
        self.events.push(Event::Contributed(caller, index, balance, now));
        proof {
            self.ledger.lemma_finite();
            if old(self)@.consistent() && !is_fund_account(caller) {
                lemma_contribute_consistent(old(self)@, caller, index, value, now);
            }
        }
        Ok(balance)
    }

    /// Gives `caller` back what they contributed to the fund `index`, and
    /// returns the amount.
    ///
    /// Fails with `InvalidIndex` if no such fund is recorded, with
    /// `FundStillActive` if the fund has not ended or has met its goal, with
    /// `NoContribution` if `caller` holds nothing in the fund, and with the
    /// account book's reason if the money cannot move. Otherwise the amount
    /// goes from the fund's account to `caller`, the caller's ledger entry is
    /// removed, the fund's record shrinks by the amount, and `Withdrew` is
    /// reported.
    pub fn withdraw(&mut self, caller: AccountId, index: FundIndex, now: BlockNumber) -> (result:
        Result<Balance, DispatchError>)
        ensures
            final(self)@.wf(),
            final(self)@ == old(self)@.withdraw(caller, index, now).0,
            result == old(self)@.withdraw(caller, index, now).1,
            result is Err ==> final(self)@ == old(self)@,
            old(self)@.consistent() && !is_fund_account(caller) ==> final(self)@.consistent(),
    {
        proof {
            use_type_invariant(&self.registry);
            self.ledger.lemma_finite();
        }
        let found = self.registry.get(index);
        let amount: Balance = self.ledger.get(index, &caller);
        let mut fund = match check_withdraw(found, amount, now) {
            Err(e) => {
                return Err(DispatchError::Crowdfund(e));
            },
            Ok(info) => info,
        };
        match self.currency.transfer(Self::fund_account_id(index), caller, amount) {
            Err(e) => {
                return Err(DispatchError::Currency(e));
            },
            Ok(_) => {},
        }
        self.ledger.kill(index, &caller);
        fund.debit(amount);
        self.registry.insert(index, fund);
        self.events.push(Event::Withdrew(caller, index, amount, now));
        proof {
            self.ledger.lemma_finite();
            if old(self)@.consistent() && !is_fund_account(caller) {
                lemma_withdraw_consistent(old(self)@, caller, index, now);
            }
        }
        Ok(amount)
    }

    /// Dissolves the fund `index`, which has failed and completed its
    /// retirement period.
    ///
    /// Fails with `InvalidIndex` if no such fund is recorded, with
    /// `FundStillActive` if the fund has not ended, with `FundNotRetired` if
    /// it has met its goal or its retirement period is still running, and
    /// with the account book's reason if the deposit cannot move. Otherwise
    /// the deposit goes from the fund's account to the beneficiary on record,
    /// the record and the fund's whole ledger namespace are removed, and
    /// `Dissolved` is reported. What contributors did not take back stays in
    /// the fund's account.
    pub fn dissolve(&mut self, caller: AccountId, index: FundIndex, now: BlockNumber) -> (result:
        Result<(), DispatchError>)
        ensures
            final(self)@.wf(),
            final(self)@ == old(self)@.dissolve(caller, index, now).0,
            result == old(self)@.dissolve(caller, index, now).1,
            result is Err ==> final(self)@ == old(self)@,
            old(self)@.consistent() && old(self)@.pays_an_outsider(index)
                ==> final(self)@.consistent(),
    {
        proof {
            use_type_invariant(&self.registry);
            self.ledger.lemma_finite();
        }
        let found = self.registry.get(index);
        let fund = match check_dissolve(found, self.config.retirement_period, now) {
            Err(e) => {
                return Err(DispatchError::Crowdfund(e));
            },
            Ok(info) => info,
        };
        match self.currency.transfer(
            Self::fund_account_id(index),
            fund.beneficiary,
            fund.deposit,
        ) {
            Err(e) => {
                return Err(DispatchError::Currency(e));
            },
            Ok(_) => {},
        }
        self.registry.remove(index);
        self.ledger.kill_all(index);
        self.events.push(Event::Dissolved(index, now, caller));
        proof {
            self.ledger.lemma_finite();
            if old(self)@.consistent() && old(self)@.pays_an_outsider(index) {
                lemma_dissolve_consistent(old(self)@, caller, index, now);
            }
        }
        Ok(())
    }

    /// Pays out the fund `index`, which has ended and met its goal.
    ///
    /// Fails with `InvalidIndex` if no such fund is recorded, with
    /// `FundStillActive` if the fund has not ended, with `UnsuccessfulFund`
    /// if it has not met its goal, and with the account book's reason if the
    /// money cannot move. Otherwise all that the fund's account holds goes to
    /// the beneficiary, the record is removed, and `Dispensed` is reported.
    /// The fund's ledger namespace stays as it is.
    pub fn dispense(&mut self, caller: AccountId, index: FundIndex, now: BlockNumber) -> (result:
        Result<(), DispatchError>)
        ensures
            final(self)@.wf(),
            final(self)@ == old(self)@.dispense(caller, index, now).0,
            result == old(self)@.dispense(caller, index, now).1,
            result is Err ==> final(self)@ == old(self)@,
            old(self)@.consistent() && old(self)@.pays_an_outsider(index)
                ==> final(self)@.consistent(),
    {
        proof {
            use_type_invariant(&self.registry);
            self.ledger.lemma_finite();
        }
        let found = self.registry.get(index);
        let fund = match check_dispense(found, now) {
            Err(e) => {
                return Err(DispatchError::Crowdfund(e));
            },
            Ok(info) => info,
        };
        let account: AccountId = Self::fund_account_id(index);
        let amount: Balance = self.currency.free_balance(account);
        match self.currency.transfer(account, fund.beneficiary, amount) {
            Err(e) => {
                return Err(DispatchError::Currency(e));
            },
            Ok(_) => {},
        }
        self.registry.remove(index);
        self.events.push(Event::Dispensed(index, now, caller));
        proof {
            self.ledger.lemma_finite();
            if old(self)@.consistent() && old(self)@.pays_an_outsider(index) {
                lemma_dispense_consistent(old(self)@, caller, index, now);
            }
        }
        Ok(())
    }

    /// Computes the account that holds the money of the fund `index`.
    ///
    /// The account follows from the index alone and is computed anew on each
    /// call; nothing records it.
    pub fn fund_account_id(index: FundIndex) -> (account: AccountId)
        ensures
            account == fund_account(index),
    {
        crate::identity::fund_account_id(index)
    }

    /// Computes the identifier of the ledger namespace of the fund `index`.
    pub fn id_from_index(index: FundIndex) -> (id: [u8; 32])
        ensures
            id@ == blake2_256(child_seed(index)),
    {
        crate::identity::id_from_index(index)
    }

    /// Records that `who` has contributed `balance` to the fund `index`,
    /// whatever was recorded before.
    pub fn contribution_put(&mut self, index: FundIndex, who: &AccountId, balance: &Balance)
        ensures
            final(self)@.wf(),
            final(self)@ == (State {
                contributions: put(old(self)@.contributions, index, *who, *balance),
                ..old(self)@
            }),
    {
        proof {
            use_type_invariant(&self.registry);
            self.ledger.lemma_finite();
        }
        self.ledger.put(index, who, balance);
        proof {
            self.ledger.lemma_finite();
        }
    }

    /// Looks up what `who` has contributed to the fund `index`: zero if
    /// nothing is recorded.
    pub fn contribution_get(&self, index: FundIndex, who: &AccountId) -> (balance: Balance)
        ensures
            balance == contribution(self@.contributions, index, *who),
    {
        self.ledger.get(index, who)
    }

    /// Removes what is recorded of `who` in the fund `index`, if anything.
    pub fn contribution_kill(&mut self, index: FundIndex, who: &AccountId)
        ensures
            final(self)@.wf(),
            final(self)@ == (State {
                contributions: kill(old(self)@.contributions, index, *who),
                ..old(self)@
            }),
    {
        proof {
            use_type_invariant(&self.registry);
            self.ledger.lemma_finite();
        }
        self.ledger.kill(index, who);
        proof {
            self.ledger.lemma_finite();
        }
    }

    /// Removes the whole record of contributions to the fund `index` in one
    /// step.
    pub fn crowdfund_kill(&mut self, index: FundIndex)
        ensures
            final(self)@.wf(),
            final(self)@ == (State {
                contributions: kill_all(old(self)@.contributions, index),
                ..old(self)@
            }),
    {
        proof {
            use_type_invariant(&self.registry);
            self.ledger.lemma_finite();
        }
        self.ledger.kill_all(index);
        proof {
            self.ledger.lemma_finite();
        }
    }

    /// Looks up the record of the fund `index`.
    pub fn funds(&self, index: FundIndex) -> (found: Option<FundInfo>)
        ensures
            self@.wf(),
            found == lookup(self@.funds, index),
    {
        proof {
            self.ledger.lemma_finite();
        }
        self.registry.get(index)
    }

    /// Reads how many funds were opened so far.
    pub fn fund_count(&self) -> (count: FundIndex)
        ensures
            self@.wf(),
            count == self@.fund_count,
    {
        proof {
            self.ledger.lemma_finite();
        }
        self.registry.fund_count()
    }

    /// Reads what the account `who` holds.
    pub fn free_balance(&self, who: AccountId) -> (balance: Balance)
        ensures
            balance == self@.balances[who],
    {
        self.currency.free_balance(who)
    }

    /// The events reported so far, oldest first.
    pub fn events(&self) -> (events: &Vec<Event>)
        ensures
            events@ == self@.events,
    {
        &self.events
    }

    /// The parameters that this crowdfund was made with.
    pub fn config(&self) -> (config: Config)
        ensures
            config == self@.config,
    {
        self.config
    }
}

} // verus!
