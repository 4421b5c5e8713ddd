//! One fund's record, the status derived from it, and the rules that decide
//! which operation a fund admits at a given time.

use vstd::prelude::*;
use crate::types::{AccountId, Balance, BlockNumber, Error};

verus! {

/// The record of one fund.
#[derive(Clone, Copy, Debug, PartialEq, Eq)]
pub struct FundInfo {
    /// The account that receives the money if the fund succeeds.
    pub beneficiary: AccountId,
    /// The deposit placed when the fund was opened.
    pub deposit: Balance,
    /// The total raised, net of withdrawals.
    pub raised: Balance,
    /// The time from which no more contributions are accepted.
    pub end: BlockNumber,
    /// The amount that `raised` must reach for the fund to succeed.
    pub goal: Balance,
}

/// Where a recorded fund stands at a given time. The status is not stored: it
/// follows from the record, the time and the retirement period.
#[derive(Clone, Copy, Debug, PartialEq, Eq)]
pub enum FundStatus {
    /// The end has not come: contributions are accepted.
    Active,
    /// The end has come and the goal is met: the fund awaits dispensing.
    Successful,
    /// The end has come, the goal is not met, and the retirement period is
    /// still running: contributors can withdraw.
    Retiring,
    /// The goal is not met and the retirement period is over: contributors
    /// can still withdraw, and the fund can be dissolved.
    Retired,
}

/// `a + b`, or the largest balance if the sum does not fit.
pub open spec fn saturating_sum(a: Balance, b: Balance) -> Balance {
    if a + b > Balance::MAX {
        Balance::MAX
    } else {
        (a + b) as Balance
    }
}

/// `a - b`, or zero if `b` exceeds `a`.
pub open spec fn saturating_difference(a: Balance, b: Balance) -> Balance {
    if a < b {
        0
    } else {
        (a - b) as Balance
    }
}

impl FundInfo {
    /// The record of a fund that was just opened: nothing raised yet.
    pub open spec fn opened(
        beneficiary: AccountId,
        deposit: Balance,
        goal: Balance,
        end: BlockNumber,
    ) -> FundInfo {
        FundInfo { beneficiary, deposit, raised: 0, end, goal }
    }

    /// The status of this fund at time `now`.
    pub open spec fn status_at(self, now: BlockNumber, retirement_period: BlockNumber) -> FundStatus {
        if now < self.end {
            FundStatus::Active
        } else if self.raised >= self.goal {
            FundStatus::Successful
        } else if now < self.end + retirement_period {
            FundStatus::Retiring
        } else {
            FundStatus::Retired
        }
    }

    /// This record with `value` more raised.
    pub open spec fn credited(self, value: Balance) -> FundInfo {
        FundInfo { raised: saturating_sum(self.raised, value), ..self }
    }

    /// This record with `value` less raised.
    pub open spec fn debited(self, value: Balance) -> FundInfo {
        FundInfo { raised: saturating_difference(self.raised, value), ..self }
    }

    /// Makes the record of a fund that was just opened.
    pub fn new(beneficiary: AccountId, deposit: Balance, goal: Balance, end: BlockNumber) -> (info:
        FundInfo)
        ensures
            info == FundInfo::opened(beneficiary, deposit, goal, end),
    {
        FundInfo { beneficiary, deposit, raised: 0, end, goal }
    }

    /// Derives the status of this fund at time `now`.
    pub fn status(&self, now: BlockNumber, retirement_period: BlockNumber) -> (status: FundStatus)
        ensures
            status == self.status_at(now, retirement_period),
    {
        if now < self.end {
            FundStatus::Active
        } else if self.raised >= self.goal {
            FundStatus::Successful
        } else if now - self.end < retirement_period {
            FundStatus::Retiring
        } else {
            FundStatus::Retired
        }
    }

    /// Adds `value` to what was raised, stopping at the largest balance.
    pub fn credit(&mut self, value: Balance)
        ensures
            *final(self) == old(self).credited(value),
    {
        self.raised = self.raised.saturating_add(value);
    }

    /// Takes `value` from what was raised, stopping at zero.
    pub fn debit(&mut self, value: Balance)
        ensures
            *final(self) == old(self).debited(value),
    {
        self.raised = self.raised.saturating_sub(value);
    }
}

impl Default for FundInfo {
    fn default() -> (info: FundInfo)
        ensures
            info == FundInfo::opened(0, 0, 0, 0),
    {
        FundInfo { beneficiary: 0, deposit: 0, raised: 0, end: 0, goal: 0 }
    }
}

/// Whether a fund that ends at `end` may be opened at time `now`.
pub open spec fn create_rule(end: BlockNumber, now: BlockNumber) -> Result<(), Error> {
    if end > now {
        Ok(())
    } else {
        Err(Error::EndTooEarly)
    }
}

/// Whether `value` may be contributed at time `now` to the fund recorded as
/// `fund`, and if so, to which record.
pub open spec fn contribute_rule(
    fund: Option<FundInfo>,
    value: Balance,
    min_contribution: Balance,
    now: BlockNumber,
) -> Result<FundInfo, Error> {
    if value < min_contribution {
        Err(Error::ContributionTooSmall)
    } else if fund is None {
        Err(Error::InvalidIndex)
    } else if now >= fund->0.end {
        Err(Error::ContributionPeriodOver)
    } else {
        Ok(fund->0)
    }
}

/// Whether a contributor who holds `contributed` in the fund recorded as
/// `fund` may take it back at time `now`.
///
/// Contributions can be taken back once the fund has ended without meeting
/// its goal. A fund that met its goal stays live until it is dispensed, and
/// is refused like one that has not ended.
pub open spec fn withdraw_rule(fund: Option<FundInfo>, contributed: Balance, now: BlockNumber) -> Result<
    FundInfo,
    Error,
> {
    if fund is None {
        Err(Error::InvalidIndex)
    } else if now < fund->0.end || fund->0.raised >= fund->0.goal {
        Err(Error::FundStillActive)
    } else if contributed == 0 {
        Err(Error::NoContribution)
    } else {
        Ok(fund->0)
    }
}

/// Whether the fund recorded as `fund` may be dissolved at time `now`.
pub open spec fn dissolve_rule(
    fund: Option<FundInfo>,
    retirement_period: BlockNumber,
    now: BlockNumber,
) -> Result<FundInfo, Error> {
    if fund is None {
        Err(Error::InvalidIndex)
    } else if now < fund->0.end {
        Err(Error::FundStillActive)
    } else if fund->0.status_at(now, retirement_period) != FundStatus::Retired {
        Err(Error::FundNotRetired)
    } else {
        Ok(fund->0)
    }
}

/// Whether the fund recorded as `fund` may be paid out at time `now`.
pub open spec fn dispense_rule(fund: Option<FundInfo>, now: BlockNumber) -> Result<FundInfo, Error> {
    if fund is None {
        Err(Error::InvalidIndex)
    } else if now < fund->0.end {
        Err(Error::FundStillActive)
    } else if fund->0.raised < fund->0.goal {
        Err(Error::UnsuccessfulFund)
    } else {
        Ok(fund->0)
    }
}

/// Decides whether a fund that ends at `end` may be opened at time `now`.
pub fn check_create(end: BlockNumber, now: BlockNumber) -> (decision: Result<(), Error>)
    ensures
        decision == create_rule(end, now),
{
    if end > now {
        Ok(())
    } else {
        Err(Error::EndTooEarly)
    }
}

/// Decides whether `value` may be contributed at time `now`; `fund` is what
/// the registry holds under the index, if anything.
pub fn check_contribute(
    fund: Option<FundInfo>,
    value: Balance,
    min_contribution: Balance,
    now: BlockNumber,
) -> (decision: Result<FundInfo, Error>)
    ensures
        decision == contribute_rule(fund, value, min_contribution, now),
{
    if value < min_contribution {
        return Err(Error::ContributionTooSmall);
    }
    match fund {
        None => Err(Error::InvalidIndex),
        Some(info) => {
            if now >= info.end {
                Err(Error::ContributionPeriodOver)
            } else {
                Ok(info)
            }
        },
    }
}

/// Decides whether a contributor who holds `contributed` in the fund may take
/// it back at time `now`.
pub fn check_withdraw(fund: Option<FundInfo>, contributed: Balance, now: BlockNumber) -> (decision:
    Result<FundInfo, Error>)
    ensures
        decision == withdraw_rule(fund, contributed, now),
{
    match fund {
        None => Err(Error::InvalidIndex),
        Some(info) => {
            if now < info.end || info.raised >= info.goal {
                Err(Error::FundStillActive)
            } else if contributed == 0 {
                Err(Error::NoContribution)
            } else {
                Ok(info)
            }
        },
    }
}

/// Decides whether the fund may be dissolved at time `now`.
pub fn check_dissolve(fund: Option<FundInfo>, retirement_period: BlockNumber, now: BlockNumber) -> (decision:
    Result<FundInfo, Error>)
    ensures
        decision == dissolve_rule(fund, retirement_period, now),
{
    match fund {
        None => Err(Error::InvalidIndex),
        Some(info) => {
            match info.status(now, retirement_period) {
                FundStatus::Active => Err(Error::FundStillActive),
                FundStatus::Retired => Ok(info),
                _ => Err(Error::FundNotRetired),
            }
        },
    }
}

/// Decides whether the fund may be paid out at time `now`.
pub fn check_dispense(fund: Option<FundInfo>, now: BlockNumber) -> (decision: Result<FundInfo, Error>)
    ensures
        decision == dispense_rule(fund, now),
{
    match fund {
        None => Err(Error::InvalidIndex),
        Some(info) => {
            if now < info.end {
                Err(Error::FundStillActive)
            } else if info.raised < info.goal {
                Err(Error::UnsuccessfulFund)
            } else {
                Ok(info)
            }
        },
    }
}

} // verus!
