//! A collection of unique tokens whose mints pay into per-token vaults and
//! whose burns pay a dividend to the remaining holders.
//!
//! `model` states what every call does, as functions on a mathematical
//! state; `contract` holds the executable state and proves each call
//! against them; `laws` proves what holds of the calls together. The calls
//! take what the environment supplies as a `CallContext` and hand back, as
//! `Receipt`s, what is to be sent to other accounts.

pub mod account;
pub mod contract;
pub mod error;
pub mod holders;
pub mod laws;
pub mod ledger;
pub mod model;
pub mod payout;
pub mod receipt;
pub mod registry;
pub mod table;
pub mod text;

pub use account::{AccountId, TokenId};
pub use contract::{BurnDividend, CallContext, Contract, Payout};
pub use error::Error;
pub use holders::HolderSet;
pub use ledger::Ledger;
pub use receipt::{Action, Provision, Receipt, Resolution};
pub use registry::TokenRegistry;
