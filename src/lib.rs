//! Rule engine of a sealed-venue OTC auction: configuration, order placement,
//! bid admission and settlement with reputation bookkeeping.
//!
//! Every operation is a function from the records it reads to the records it
//! writes. Time, asset movement and persistent storage are left to the host,
//! which hands in the current time and carries out the ledger effects that a
//! settlement returns.

mod auction;
mod config;
pub mod laws;
mod settlement;
mod types;

pub use auction::{place_bid, place_order, Order, StakeInfo, BPS_DENOMINATOR};
pub use config::{initialize, update_auction_parameters, State};
pub use settlement::{settle_auction, Settlement, TraderStats, SETTLEMENT_REWARD};
pub use types::{AuctionError, OrderType, Pubkey};
