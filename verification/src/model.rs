//! The whole system as one mathematical state, and the five operations as
//! functions on it.

use vstd::prelude::*;
use crate::currency::{deposited, transferred, withdrawn};
use crate::fund::{
    contribute_rule, create_rule, dispense_rule, dissolve_rule, saturating_sum, withdraw_rule,
    FundInfo,
};
use crate::identity::{fund_account, is_fund_account};
use crate::ledger::{contribution, finite, kill, kill_all, put, total, Contributions};
use crate::registry::lookup;
use crate::types::{
    AccountId, Balance, BlockNumber, Config, DispatchError, Event, FundIndex,
};

verus! {

/// Everything that the operations read or change.
#[verifier::ext_equal]
pub struct State {
    /// The parameters; they never change.
    pub config: Config,
    /// The records of the funds that are open.
    pub funds: Map<FundIndex, FundInfo>,
    /// How many indices were handed out.
    pub fund_count: nat,
    /// What each contributor has contributed to each fund.
    pub contributions: Contributions,
    /// What every account holds.
    pub balances: Map<AccountId, Balance>,
    /// What was reported so far, oldest first.
    pub events: Seq<Event>,
}

/// One request to the crowdfund.
pub enum Call {
    /// Open a fund.
    Create { caller: AccountId, beneficiary: AccountId, goal: Balance, end: BlockNumber },
    /// Contribute to a fund.
    Contribute { caller: AccountId, index: FundIndex, value: Balance },
    /// Take a contribution back.
    Withdraw { caller: AccountId, index: FundIndex },
    /// Dissolve a fund that failed.
    Dissolve { caller: AccountId, index: FundIndex },
    /// Pay out a fund that succeeded.
    Dispense { caller: AccountId, index: FundIndex },
}

impl Call {
    /// Whoever this request makes pay or be paid in the state `s`, apart
    /// from the fund that it is about, is not the account of a fund.
    pub open spec fn among_outsiders(self, s: State) -> bool {
        match self {
            Call::Create { caller, .. } => !is_fund_account(caller),
            Call::Contribute { caller, .. } => !is_fund_account(caller),
            Call::Withdraw { caller, .. } => !is_fund_account(caller),
            Call::Dissolve { index, .. } => s.pays_an_outsider(index),
            Call::Dispense { index, .. } => s.pays_an_outsider(index),
        }
    }
}

impl State {
    /// The state before anything happened: no fund, no contribution, no
    /// event, and the accounts as `balances` has them.
    pub open spec fn init(config: Config, balances: Map<AccountId, Balance>) -> State {
        State {
            config,
            funds: Map::empty(),
            fund_count: 0,
            contributions: Map::empty(),
            balances,
            events: Seq::empty(),
        }
    }

    /// Opens a fund: the state afterwards, and the new fund's index.
    ///
    /// The fund must end after `now`. The deposit is taken from `caller` and
    /// given to the account of the new fund.
    pub open spec fn create(
        self,
        caller: AccountId,
        beneficiary: AccountId,
        goal: Balance,
        end: BlockNumber,
        now: BlockNumber,
    ) -> (State, Result<FundIndex, DispatchError>) {
        let deposit = self.config.submission_deposit;
        match create_rule(end, now) {
            Err(e) => (self, Err(DispatchError::Crowdfund(e))),
            Ok(_) => match withdrawn(self.balances, caller, deposit) {
                Err(e) => (self, Err(DispatchError::Currency(e))),
                Ok(book) => {
                    let index = self.fund_count as FundIndex;
                    (
                        State {
                            funds: self.funds.insert(
                                index,
                                FundInfo::opened(beneficiary, deposit, goal, end),
                            ),
                            fund_count: self.fund_count + 1,
                            balances: deposited(book, fund_account(index), deposit),
                            events: self.events.push(Event::Created(index, now)),
                            ..self
                        },
                        Ok(index),
                    )
                },
            },
        }
    }

    /// Contributes `value` to the fund `index`: the state afterwards, and
    /// what `caller` has then contributed to the fund in all.
    pub open spec fn contribute(
        self,
        caller: AccountId,
        index: FundIndex,
        value: Balance,
        now: BlockNumber,
    ) -> (State, Result<Balance, DispatchError>) {
        match contribute_rule(
            lookup(self.funds, index),
            value,
            self.config.min_contribution,
            now,
        ) {
            Err(e) => (self, Err(DispatchError::Crowdfund(e))),
            Ok(info) => match transferred(self.balances, caller, fund_account(index), value) {
                Err(e) => (self, Err(DispatchError::Currency(e))),
                Ok(book) => {
                    let balance = saturating_sum(
                        contribution(self.contributions, index, caller),
                        value,
                    );
                    (
                        State {
                            funds: self.funds.insert(index, info.credited(value)),
                            contributions: put(self.contributions, index, caller, balance),
                            balances: book,
                            events: self.events.push(
                                Event::Contributed(caller, index, balance, now),
                            ),
                            ..self
                        },
                        Ok(balance),
                    )
                },
            },
        }
    }

    /// Gives `caller` back what they contributed to the fund `index`: the
    /// state afterwards, and the amount given back.
    pub open spec fn withdraw(self, caller: AccountId, index: FundIndex, now: BlockNumber) -> (
        State,
        Result<Balance, DispatchError>,
    ) {
        let amount = contribution(self.contributions, index, caller);
        match withdraw_rule(lookup(self.funds, index), amount, now) {
            Err(e) => (self, Err(DispatchError::Crowdfund(e))),
            Ok(info) => match transferred(self.balances, fund_account(index), caller, amount) {
                Err(e) => (self, Err(DispatchError::Currency(e))),
                Ok(book) => (
                    State {
                        funds: self.funds.insert(index, info.debited(amount)),
                        contributions: kill(self.contributions, index, caller),
                        balances: book,
                        events: self.events.push(Event::Withdrew(caller, index, amount, now)),
                        ..self
                    },
                    Ok(amount),
                ),
            },
        }
    }

    /// Dissolves the fund `index`: the state afterwards.
    ///
    /// The deposit goes to the beneficiary on record, the only account that
    /// the record names. The record and all contribution entries are removed.
    /// What contributors did not take back stays in the fund's account.
    pub open spec fn dissolve(self, caller: AccountId, index: FundIndex, now: BlockNumber) -> (
        State,
        Result<(), DispatchError>,
    ) {
        match dissolve_rule(lookup(self.funds, index), self.config.retirement_period, now) {
            Err(e) => (self, Err(DispatchError::Crowdfund(e))),
            Ok(info) => match transferred(
                self.balances,
                fund_account(index),
                info.beneficiary,
                info.deposit,
            ) {
                Err(e) => (self, Err(DispatchError::Currency(e))),
                Ok(book) => (
                    State {
                        funds: self.funds.remove(index),
                        contributions: kill_all(self.contributions, index),
                        balances: book,
                        events: self.events.push(Event::Dissolved(index, now, caller)),
                        ..self
                    },
                    Ok(()),
                ),
            },
        }
    }

    /// Pays out the fund `index`: the state afterwards.
    ///
    /// Everything that the fund's account holds goes to the beneficiary, and
    /// the record is removed.
    pub open spec fn dispense(self, caller: AccountId, index: FundIndex, now: BlockNumber) -> (
        State,
        Result<(), DispatchError>,
    ) {
        match dispense_rule(lookup(self.funds, index), now) {
            Err(e) => (self, Err(DispatchError::Crowdfund(e))),
            Ok(info) => match transferred(
                self.balances,
                fund_account(index),
                info.beneficiary,
                self.balances[fund_account(index)],
            ) {
                Err(e) => (self, Err(DispatchError::Currency(e))),
                Ok(book) => (
                    State {
                        funds: self.funds.remove(index),
                        balances: book,
                        events: self.events.push(Event::Dispensed(index, now, caller)),
                        ..self
                    },
                    Ok(()),
                ),
            },
        }
    }

    /// The state after one request made at time `now`. A request to open a
    /// fund when no index is left is not taken.
    pub open spec fn apply(self, call: Call, now: BlockNumber) -> State {
        match call {
            Call::Create { caller, beneficiary, goal, end } => if self.fund_count
                < FundIndex::MAX {
                self.create(caller, beneficiary, goal, end, now).0
            } else {
                self
            },
            Call::Contribute { caller, index, value } => self.contribute(
                caller,
                index,
                value,
                now,
            ).0,
            Call::Withdraw { caller, index } => self.withdraw(caller, index, now).0,
            Call::Dissolve { caller, index } => self.dissolve(caller, index, now).0,
            Call::Dispense { caller, index } => self.dispense(caller, index, now).0,
        }
    }

    /// The index of the fund that the request opens at time `now`, if it
    /// opens one.
    pub open spec fn opens(self, call: Call, now: BlockNumber) -> Option<FundIndex> {
        match call {
            Call::Create { caller, beneficiary, goal, end } => if self.fund_count
                < FundIndex::MAX {
                match self.create(caller, beneficiary, goal, end, now).1 {
                    Ok(index) => Some(index),
                    Err(_) => None,
                }
            } else {
                None
            },
            _ => None,
        }
    }

    /// The state after a sequence of requests, each with the time at which
    /// it is made.
    pub open spec fn run(self, calls: Seq<(Call, BlockNumber)>) -> State
        decreases calls.len(),
    {
        if calls.len() == 0 {
            self
        } else {
            self.run(calls.drop_last()).apply(calls.last().0, calls.last().1)
        }
    }

    /// The state is well formed: every recorded fund has an index that was
    /// handed out, and every ledger namespace has finitely many entries.
    pub open spec fn wf(self) -> bool {
        &&& self.fund_count <= FundIndex::MAX
        &&& forall|index: FundIndex| #[trigger]
            self.funds.contains_key(index) ==> index < self.fund_count
        &&& finite(self.contributions)
    }

    /// What a fund has raised is the sum of the balances in its namespace.
    pub open spec fn raised_is_contributed(self, index: FundIndex) -> bool {
        self.funds[index].raised == total(self.contributions, index)
    }

    /// A fund's account holds the fund's deposit and what the fund raised.
    pub open spec fn account_holds_fund(self, index: FundIndex) -> bool {
        self.balances[fund_account(index)] == self.funds[index].deposit
            + self.funds[index].raised
    }

    /// The fund `index` is in order: its record, its namespace and its
    /// account agree.
    pub open spec fn fund_in_order(self, index: FundIndex) -> bool {
        &&& self.raised_is_contributed(index)
        &&& self.account_holds_fund(index)
    }

    /// If the fund `index` is recorded, its beneficiary is not the account
    /// of a fund.
    pub open spec fn pays_an_outsider(self, index: FundIndex) -> bool {
        self.funds.contains_key(index) ==> !is_fund_account(self.funds[index].beneficiary)
    }

    /// Nothing has touched the fund `index` yet: its account is empty and
    /// it has no namespace.
    pub open spec fn untouched(self, index: FundIndex) -> bool {
        &&& self.balances[fund_account(index)] == 0
        &&& !self.contributions.contains_key(index)
    }

    /// The books agree: every recorded fund is in order, and no index that
    /// is still to be handed out has been touched.
    pub open spec fn consistent(self) -> bool {
        &&& forall|index: FundIndex| #[trigger]
            self.funds.contains_key(index) ==> self.fund_in_order(index)
        &&& forall|index: FundIndex| index >= self.fund_count ==> #[trigger] self.untouched(index)
    }
}

} // verus!
