//! The laws that hold of the operations, whatever the state and the request.

use vstd::prelude::*;
use crate::identity::{fund_account, is_fund_account, lemma_fund_account_injective};
use crate::ledger::{
    contribution, finite, lemma_sum_insert, lemma_sum_remove, namespace,
};
use crate::fund::saturating_sum;
use crate::model::{Call, State};
use crate::types::{
    AccountId, Balance, BlockNumber, Config, CurrencyError, DispatchError, FundIndex,
};

verus! {

/// An account that is no fund's account differs from the account of each fund.
pub proof fn lemma_outsider(who: AccountId, index: FundIndex)
    requires
        !is_fund_account(who),
    ensures
        who != fund_account(index),
{
}

/// The first state is well formed, and its books agree if no fund's account
/// holds anything yet.
pub proof fn lemma_init(config: Config, balances: Map<AccountId, Balance>)
    requires
        forall|index: FundIndex| balances[#[trigger] fund_account(index)] == 0,
    ensures
        State::init(config, balances).wf(),
        State::init(config, balances).consistent(),
{
    let s = State::init(config, balances);
    assert forall|index: FundIndex| index >= s.fund_count implies #[trigger] s.untouched(
        index,
    ) by {}
}

/// A request leaves the state well formed and takes no index back.
pub proof fn lemma_apply_wf(s: State, call: Call, now: BlockNumber)
    requires
        s.wf(),
    ensures
        s.apply(call, now).wf(),
        s.apply(call, now).fund_count >= s.fund_count,
        s.apply(call, now).config == s.config,
{
    let t = s.apply(call, now);
    assert(finite(t.contributions)) by {
        assert forall|index: FundIndex| #[trigger]
            t.contributions.contains_key(index) implies t.contributions[index].dom().finite() by {
            if s.contributions.contains_key(index) {
                assert(s.contributions[index].dom().finite());
            }
        }
    }
}

/// Any sequence of requests leaves the state well formed and takes no index
/// back.
pub proof fn lemma_run_wf(s: State, calls: Seq<(Call, BlockNumber)>)
    requires
        s.wf(),
    ensures
        s.run(calls).wf(),
        s.run(calls).fund_count >= s.fund_count,
    decreases calls.len(),
{
    if calls.len() > 0 {
        lemma_run_wf(s, calls.drop_last());
        lemma_apply_wf(s.run(calls.drop_last()), calls.last().0, calls.last().1);
    }
}

/// Opening a fund keeps the books in agreement, if the caller is not the
/// account of a fund.
pub proof fn lemma_create_consistent(
    s: State,
    caller: AccountId,
    beneficiary: AccountId,
    goal: Balance,
    end: BlockNumber,
    now: BlockNumber,
)
    requires
        s.wf(),
        s.consistent(),
        s.fund_count < FundIndex::MAX,
        !is_fund_account(caller),
    ensures
        s.create(caller, beneficiary, goal, end, now).0.consistent(),
{
    let outcome = s.create(caller, beneficiary, goal, end, now);
    let t = outcome.0;
    if outcome.1 is Ok {
        let index = s.fund_count as FundIndex;
        assert(s.untouched(index));
        lemma_outsider(caller, index);
        assert forall|i: FundIndex| #[trigger] t.funds.contains_key(i) implies t.fund_in_order(
            i,
        ) by {
            lemma_fund_account_injective(i, index);
            lemma_outsider(caller, i);
            if i == index {
                assert(namespace(t.contributions, i) =~= Map::empty());
            } else {
                assert(s.funds.contains_key(i));
                assert(s.fund_in_order(i));
            }
        }
        assert forall|i: FundIndex| i >= t.fund_count implies #[trigger] t.untouched(i) by {
            lemma_fund_account_injective(i, index);
            lemma_outsider(caller, i);
            assert(s.untouched(i));
        }
    }
}

/// A contribution keeps the books in agreement, if the caller is not the
/// account of a fund. What is raised and what the contributor holds then
/// grow by exactly the value: neither sum reaches its limit.
pub proof fn lemma_contribute_consistent(
    s: State,
    caller: AccountId,
    index: FundIndex,
    value: Balance,
    now: BlockNumber,
)
    requires
        s.wf(),
        s.consistent(),
        !is_fund_account(caller),
    ensures
        s.contribute(caller, index, value, now).0.consistent(),
        s.contribute(caller, index, value, now).1 is Ok ==> {
            &&& s.contribute(caller, index, value, now).0.funds[index].raised
                == s.funds[index].raised + value
            &&& s.contribute(caller, index, value, now).1->Ok_0 == contribution(
                s.contributions,
                index,
                caller,
            ) + value
        },
{
    let outcome = s.contribute(caller, index, value, now);
    let t = outcome.0;
    if outcome.1 is Ok {
        let entries = namespace(s.contributions, index);
        let held = contribution(s.contributions, index, caller);
        assert(s.funds.contains_key(index));
        assert(s.fund_in_order(index));
        lemma_outsider(caller, index);
        if s.contributions.contains_key(index) {
            assert(entries.dom().finite());
        }
        if entries.contains_key(caller) {
            lemma_sum_remove(entries, caller);
        } else {
            assert(entries.remove(caller) =~= entries);
        }
        let balance = saturating_sum(held, value);
        assert(balance == held + value);
        lemma_sum_insert(entries, caller, balance);
        assert(namespace(t.contributions, index) =~= entries.insert(caller, balance));
        assert forall|i: FundIndex| #[trigger] t.funds.contains_key(i) implies t.fund_in_order(
            i,
        ) by {
            lemma_fund_account_injective(i, index);
            lemma_outsider(caller, i);
            if i != index {
                assert(s.funds.contains_key(i));
                assert(s.fund_in_order(i));
                assert(namespace(t.contributions, i) =~= namespace(s.contributions, i));
            }
        }
        assert forall|i: FundIndex| i >= t.fund_count implies #[trigger] t.untouched(i) by {
            lemma_fund_account_injective(i, index);
            lemma_outsider(caller, i);
            assert(s.untouched(i));
        }
    }
}

/// A withdrawal keeps the books in agreement, if the caller is not the
/// account of a fund.
pub proof fn lemma_withdraw_consistent(
    s: State,
    caller: AccountId,
    index: FundIndex,
    now: BlockNumber,
)
    requires
        s.wf(),
        s.consistent(),
        !is_fund_account(caller),
    ensures
        s.withdraw(caller, index, now).0.consistent(),
{
    let outcome = s.withdraw(caller, index, now);
    let t = outcome.0;
    if outcome.1 is Ok {
        let entries = namespace(s.contributions, index);
        assert(s.funds.contains_key(index));
        assert(s.fund_in_order(index));
        lemma_outsider(caller, index);
        assert(entries.contains_key(caller));
        assert(s.contributions.contains_key(index));
        assert(entries.dom().finite());
        lemma_sum_remove(entries, caller);
        assert(namespace(t.contributions, index) =~= entries.remove(caller));
        assert forall|i: FundIndex| #[trigger] t.funds.contains_key(i) implies t.fund_in_order(
            i,
        ) by {
            lemma_fund_account_injective(i, index);
            lemma_outsider(caller, i);
            if i != index {
                assert(s.funds.contains_key(i));
                assert(s.fund_in_order(i));
                assert(namespace(t.contributions, i) =~= namespace(s.contributions, i));
            }
        }
        assert forall|i: FundIndex| i >= t.fund_count implies #[trigger] t.untouched(i) by {
            lemma_fund_account_injective(i, index);
            lemma_outsider(caller, i);
            assert(s.untouched(i));
        }
    }
}

/// Dissolving a fund keeps the books in agreement, if its beneficiary is
/// not the account of a fund.
pub proof fn lemma_dissolve_consistent(
    s: State,
    caller: AccountId,
    index: FundIndex,
    now: BlockNumber,
)
    requires
        s.wf(),
        s.consistent(),
        s.pays_an_outsider(index),
    ensures
        s.dissolve(caller, index, now).0.consistent(),
{
    let outcome = s.dissolve(caller, index, now);
    let t = outcome.0;
    if outcome.1 is Ok {
        assert(s.funds.contains_key(index));
        assert(s.fund_in_order(index));
        let beneficiary = s.funds[index].beneficiary;
        assert forall|i: FundIndex| #[trigger] t.funds.contains_key(i) implies t.fund_in_order(
            i,
        ) by {
            lemma_fund_account_injective(i, index);
            lemma_outsider(beneficiary, i);
            assert(s.funds.contains_key(i));
            assert(s.fund_in_order(i));
            assert(namespace(t.contributions, i) =~= namespace(s.contributions, i));
        }
        assert forall|i: FundIndex| i >= t.fund_count implies #[trigger] t.untouched(i) by {
            lemma_fund_account_injective(i, index);
            lemma_outsider(beneficiary, i);
            assert(s.untouched(i));
        }
    }
}

/// Paying out a fund keeps the books in agreement, if its beneficiary is
/// not the account of a fund.
pub proof fn lemma_dispense_consistent(
    s: State,
    caller: AccountId,
    index: FundIndex,
    now: BlockNumber,
)
    requires
        s.wf(),
        s.consistent(),
        s.pays_an_outsider(index),
    ensures
        s.dispense(caller, index, now).0.consistent(),
{
    let outcome = s.dispense(caller, index, now);
    let t = outcome.0;
    if outcome.1 is Ok {
        assert(s.funds.contains_key(index));
        assert(s.fund_in_order(index));
        let beneficiary = s.funds[index].beneficiary;
        assert forall|i: FundIndex| #[trigger] t.funds.contains_key(i) implies t.fund_in_order(
            i,
        ) by {
            lemma_fund_account_injective(i, index);
            lemma_outsider(beneficiary, i);
            assert(s.funds.contains_key(i));
            assert(s.fund_in_order(i));
        }
        assert forall|i: FundIndex| i >= t.fund_count implies #[trigger] t.untouched(i) by {
            lemma_fund_account_injective(i, index);
            lemma_outsider(beneficiary, i);
            assert(s.untouched(i));
        }
    }
}

/// Between requests the books agree: for every recorded fund, what it has
/// raised is the sum of the balances in its namespace, and its account
/// holds its deposit and what it raised. A request keeps this so, if
/// whoever it makes pay or be paid, apart from the fund that it is about,
/// is not the account of a fund.
pub proof fn lemma_apply_consistent(s: State, call: Call, now: BlockNumber)
    requires
        s.wf(),
        s.consistent(),
        call.among_outsiders(s),
    ensures
        s.apply(call, now).consistent(),
        forall|index: FundIndex| #[trigger]
            s.apply(call, now).funds.contains_key(index) ==> {
                &&& s.apply(call, now).raised_is_contributed(index)
                &&& s.apply(call, now).account_holds_fund(index)
            },
{
    match call {
        Call::Create { caller, beneficiary, goal, end } => {
            if s.fund_count < FundIndex::MAX {
                lemma_create_consistent(s, caller, beneficiary, goal, end, now);
            }
        },
        Call::Contribute { caller, index, value } => {
            lemma_contribute_consistent(s, caller, index, value, now);
        },
        Call::Withdraw { caller, index } => {
            lemma_withdraw_consistent(s, caller, index, now);
        },
        Call::Dissolve { caller, index } => {
            lemma_dissolve_consistent(s, caller, index, now);
        },
        Call::Dispense { caller, index } => {
            lemma_dispense_consistent(s, caller, index, now);
        },
    }
    let t = s.apply(call, now);
    assert forall|index: FundIndex| #[trigger] t.funds.contains_key(index) implies {
        &&& t.raised_is_contributed(index)
        &&& t.account_holds_fund(index)
    } by {
        assert(t.fund_in_order(index));
    }
}

/// The books agree after every sequence of requests, if whoever a request
/// makes pay or be paid, apart from the fund that it is about, is not the
/// account of a fund.
pub proof fn lemma_run_consistent(s: State, calls: Seq<(Call, BlockNumber)>)
    requires
        s.wf(),
        s.consistent(),
        forall|k: int|
            0 <= k < calls.len() ==> (#[trigger] calls[k]).0.among_outsiders(
                s.run(calls.take(k)),
            ),
    ensures
        s.run(calls).wf(),
        s.run(calls).consistent(),
    decreases calls.len(),
{
    if calls.len() > 0 {
        let before = calls.drop_last();
        assert forall|k: int| 0 <= k < before.len() implies (#[trigger] before[k]).0.among_outsiders(
            s.run(before.take(k)),
        ) by {
            assert(before[k] == calls[k]);
            assert(before.take(k) =~= calls.take(k));
        }
        lemma_run_consistent(s, before);
        assert(calls.take(calls.len() - 1) =~= before);
        lemma_apply_wf(s.run(before), calls.last().0, calls.last().1);
        lemma_apply_consistent(s.run(before), calls.last().0, calls.last().1);
    }
}

/// While the books agree, a recorded fund can always pay: no contributor
/// holds more in it than it has raised, and neither a withdrawal nor a
/// dissolution nor a payout fails for want of money in the fund's account.
pub proof fn lemma_fund_can_pay(s: State, caller: AccountId, index: FundIndex, now: BlockNumber)
    requires
        s.wf(),
        s.consistent(),
        s.funds.contains_key(index),
    ensures
        contribution(s.contributions, index, caller) <= s.funds[index].raised,
        s.withdraw(caller, index, now).1 != Err::<Balance, DispatchError>(
            DispatchError::Currency(CurrencyError::InsufficientBalance),
        ),
        s.dissolve(caller, index, now).1 != Err::<(), DispatchError>(
            DispatchError::Currency(CurrencyError::InsufficientBalance),
        ),
        s.dispense(caller, index, now).1 != Err::<(), DispatchError>(
            DispatchError::Currency(CurrencyError::InsufficientBalance),
        ),
{
    let entries = namespace(s.contributions, index);
    assert(s.fund_in_order(index));
    if entries.contains_key(caller) {
        assert(s.contributions.contains_key(index));
        assert(entries.dom().finite());
        lemma_sum_remove(entries, caller);
    }
}

/// A request that takes effect reports exactly one event, after all that
/// were reported before. A request that fails reports nothing and changes
/// nothing.
pub proof fn lemma_apply_reports(s: State, call: Call, now: BlockNumber)
    ensures
        s.apply(call, now) == s || {
            &&& s.apply(call, now).events.len() == s.events.len() + 1
            &&& s.apply(call, now).events.drop_last() == s.events
        },
{
    let t = s.apply(call, now);
    if t != s {
        assert(t.events.drop_last() =~= s.events);
    }
}

/// Opening a fund hands out the index that the counter shows, which no
/// recorded fund has, and moves the counter on by one.
pub proof fn lemma_create_allocates(
    s: State,
    caller: AccountId,
    beneficiary: AccountId,
    goal: Balance,
    end: BlockNumber,
    now: BlockNumber,
)
    requires
        s.wf(),
        s.fund_count < FundIndex::MAX,
    ensures
        match s.create(caller, beneficiary, goal, end, now).1 {
            Ok(index) => {
                &&& index == s.fund_count
                &&& !s.funds.contains_key(index)
                &&& s.create(caller, beneficiary, goal, end, now).0.fund_count == index + 1
            },
            Err(_) => s.create(caller, beneficiary, goal, end, now).0 == s,
        },
{
}

/// Indices are handed out in strictly increasing order, so none is handed
/// out twice: in any sequence of requests, of two that open a fund the later
/// one gets the greater index.
pub proof fn lemma_indices_increase(
    s: State,
    calls: Seq<(Call, BlockNumber)>,
    earlier: int,
    later: int,
)
    requires
        s.wf(),
        0 <= earlier < later < calls.len(),
    ensures
        ({
            let first = s.run(calls.take(earlier)).opens(calls[earlier].0, calls[earlier].1);
            let second = s.run(calls.take(later)).opens(calls[later].0, calls[later].1);
            first is Some && second is Some ==> first->0 < second->0
        }),
{
    let before = s.run(calls.take(earlier));
    let after = s.run(calls.take(earlier + 1));
    lemma_run_wf(s, calls.take(earlier));
    lemma_run_wf(s, calls.take(later));
    assert(calls.take(earlier + 1).drop_last() =~= calls.take(earlier));
    assert(after == before.apply(calls[earlier].0, calls[earlier].1));
    lemma_run_counts(s, calls, earlier + 1, later);
    match calls[earlier].0 {
        Call::Create { caller, beneficiary, goal, end } => {
            if before.fund_count < FundIndex::MAX {
                lemma_create_allocates(before, caller, beneficiary, goal, end, calls[earlier].1);
            }
        },
        _ => {},
    }
    match calls[later].0 {
        Call::Create { caller, beneficiary, goal, end } => {
            if s.run(calls.take(later)).fund_count < FundIndex::MAX {
                lemma_create_allocates(
                    s.run(calls.take(later)),
                    caller,
                    beneficiary,
                    goal,
                    end,
                    calls[later].1,
                );
            }
        },
        _ => {},
    }
}

/// The counter never goes back: after more requests of a sequence it shows
/// at least what it showed after fewer.
pub proof fn lemma_run_counts(s: State, calls: Seq<(Call, BlockNumber)>, fewer: int, more: int)
    requires
        s.wf(),
        0 <= fewer <= more <= calls.len(),
    ensures
        s.run(calls.take(fewer)).fund_count <= s.run(calls.take(more)).fund_count,
    decreases more - fewer,
{
    if fewer < more {
        lemma_run_counts(s, calls, fewer, more - 1);
        lemma_run_wf(s, calls.take(more - 1));
        assert(calls.take(more).drop_last() =~= calls.take(more - 1));
        lemma_apply_wf(s.run(calls.take(more - 1)), calls[more - 1].0, calls[more - 1].1);
    }
}

/// A recorded fund keeps its beneficiary, its deposit, its end and its goal.
/// Once it has ended, whether it met its goal is settled: no request made at
/// or after its end changes that while the fund is recorded.
pub proof fn lemma_outcome_settled(s: State, call: Call, now: BlockNumber, index: FundIndex)
    requires
        s.wf(),
        s.funds.contains_key(index),
    ensures
        s.apply(call, now).funds.contains_key(index) ==> {
            let before = s.funds[index];
            let after = s.apply(call, now).funds[index];
            &&& after.beneficiary == before.beneficiary
            &&& after.deposit == before.deposit
            &&& after.end == before.end
            &&& after.goal == before.goal
            &&& now >= before.end ==> (after.raised >= after.goal <==> before.raised
                >= before.goal)
        },
{
}

} // verus!
