//! A small verified library: an overflow-checked calculator with a textual
//! history, and a ledger of tweets, reactions and comments stored at
//! deterministically derived addresses.

pub mod address;
pub mod calculator;
pub mod instructions;
pub mod laws;
pub mod shapes;
pub mod ledger;
pub mod states;
pub mod store;
pub mod twitter;
