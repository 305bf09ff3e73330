//! A token presale ledger: a phased, price-tiered token sale with
//! per-wallet and per-transaction purchase limits, payment in two
//! denominations, and a deterministic vesting release schedule.
//!
//! The crate holds the purchase-validation-and-accounting engine and the
//! vesting computation. Fund custody, signature verification and durable
//! storage are external collaborators: the functions here take the values
//! those collaborators supply (the current time, a treasury balance, a
//! caller identity) as plain arguments and state exactly what they decide.

pub mod admin;
pub mod constants;
pub mod error;
pub mod initialize;
pub mod laws;
pub mod purchase;
pub mod state;
pub mod status;
pub mod vesting;
