//! A trading engine for non-fungible tokens: a registry of collections, a
//! store of market items, direct sales and timed auctions, bid bookkeeping,
//! and the division of each sale's proceeds between seller, marketplace and
//! collection creator.
//!
//! The engine decides; the host performs. Each operation that needs a token
//! transfer or a payment is split into a check or plan, which says exactly
//! what to transfer, and a step that takes the outcome of the transfers and
//! updates the state only where they all succeeded.
use vstd::prelude::*;

pub mod account;
pub mod marketplace;
pub mod rates;
pub mod salt;
pub mod table;
pub mod types;

pub use account::{AccountId, CodeHash};
pub use marketplace::{BidPlan, DeploymentPlan, ItemKey, MarketplaceContract, SalePlan, settlement_result};
pub use rates::{SalesBreakdown, next_minimum_bid, portion_of, sales_breakdown};
pub use types::{AuctionItem, Collection, MarketplaceError};

verus! {

} // verus!
