//! A crowdfunding ledger.
//!
//! Anyone may open a fund with a goal, a deadline and a beneficiary. Others
//! contribute to it before the deadline. Afterwards the fund is resolved: if
//! the goal was met the money goes to the beneficiary, otherwise contributors
//! take their contributions back and the fund is dissolved.
//!
//! * [`types`]: identities, amounts, events and failure kinds.
//! * [`fund`]: one fund's record, its derived status and the rules on it.
//! * [`identity`]: the account and the ledger namespace derived from an index.
//! * [`currency`]: the account book that moves value.
//! * [`ledger`]: per-fund contributor balances.
//! * [`registry`]: fund records and the index counter.
//! * [`model`]: the whole system as a mathematical state.
//! * [`laws`]: what holds of every state and every request.
//! * [`pallet`]: the engine that runs the operations.

pub mod types;
pub mod fund;
pub mod identity;
pub mod currency;
pub mod ledger;
pub mod registry;
pub mod model;
pub mod laws;
pub mod pallet;

pub use crate::currency::{Balances, Imbalance};
pub use crate::fund::{FundInfo, FundStatus};
pub use crate::ledger::ContributionLedger;
pub use crate::model::{Call, State};
pub use crate::pallet::Pallet;
pub use crate::registry::FundRegistry;
pub use crate::types::{
    AccountId, Balance, BlockNumber, Config, CurrencyError, DispatchError, Error, Event, FundIndex,
};
