//! Identities, amounts, configuration, events and failure kinds.

use vstd::prelude::*;

verus! {

/// Identifies one fund. Indices are handed out from zero upwards.
pub type FundIndex = u32;

/// Identifies an account.
pub type AccountId = u128;

/// An amount of currency.
pub type Balance = u128;

/// A point in time: the height of a block.
pub type BlockNumber = u64;

/// The parameters that the host supplies.
#[derive(Clone, Copy, Debug, PartialEq, Eq)]
pub struct Config {
    /// The amount that the creator of a fund places on deposit.
    pub submission_deposit: Balance,
    /// The least amount that may be contributed in one call.
    pub min_contribution: Balance,
    /// The number of blocks after an unsuccessful fund's end during which
    /// contributors can take their money back.
    pub retirement_period: BlockNumber,
}

/// What an operation that took effect reports.
#[derive(Clone, Copy, Debug, PartialEq, Eq)]
pub enum Event {
    /// A fund was opened: its index and the time.
    Created(FundIndex, BlockNumber),
    /// A contribution arrived: who, to which fund, their new balance, the time.
    Contributed(AccountId, FundIndex, Balance, BlockNumber),
    /// A contributor took their money back: who, from which fund, how much, the time.
    Withdrew(AccountId, FundIndex, Balance, BlockNumber),
    /// A fund began to retire: its index and the time.
    Retiring(FundIndex, BlockNumber),
    /// A fund was dissolved: its index, the time and who asked.
    Dissolved(FundIndex, BlockNumber, AccountId),
    /// A fund was paid out: its index, the time and who asked.
    Dispensed(FundIndex, BlockNumber, AccountId),
}

/// Why the crowdfund itself refuses an operation.
#[derive(Clone, Copy, Debug, PartialEq, Eq)]
pub enum Error {
    /// A fund must end after it starts.
    EndTooEarly,
    /// A contribution must be at least the minimum.
    ContributionTooSmall,
    /// No fund has this index.
    InvalidIndex,
    /// The fund's contribution period has ended.
    ContributionPeriodOver,
    /// Money cannot be withdrawn or dispensed while the fund is still live.
    FundStillActive,
    /// The caller has contributed nothing to the fund.
    NoContribution,
    /// The fund has not completed its retirement period.
    FundNotRetired,
    /// An unsuccessful fund cannot be dispensed.
    UnsuccessfulFund,
}

/// Why the account book refuses to move value.
#[derive(Clone, Copy, Debug, PartialEq, Eq)]
pub enum CurrencyError {
    /// The paying account holds less than the amount.
    InsufficientBalance,
    /// The receiving account cannot hold the amount on top of what it has.
    Overflow,
}

/// Why an operation failed. A failed operation changes nothing.
#[derive(Clone, Copy, Debug, PartialEq, Eq)]
pub enum DispatchError {
    /// The crowdfund refused.
    Crowdfund(Error),
    /// The account book refused; its reason is passed on as it is.
    Currency(CurrencyError),
}

} // verus!
