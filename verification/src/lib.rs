//! Gas cost estimation across Ethereum mainnet and rollups, in exact integer
//! arithmetic: amounts are kept in wei and prices in units of `10^-39`
//! dollars, so every contract is an equation over natural numbers.

pub mod aggregator;
pub mod args;
pub mod chains;
pub mod cost;
pub mod error;
pub mod quote;
pub mod table;
pub mod text;
pub mod wide;
