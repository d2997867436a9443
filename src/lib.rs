//! A signal-to-order pipeline for a binary prediction market: a weather
//! question parser and market filter, forecast statistics, fractional Kelly
//! sizing, a risk gate, a circuit breaker, a price cache, a paper-trading
//! simulator and the position ledger's aggregates.
//!
//! Every real-valued quantity is held in fixed point with six decimal places:
//! prices, probabilities and fractions in parts per million (`SCALE` stands
//! for 1),
//! amounts of money in micro-dollars, share counts in micro-shares and
//! temperatures in micro-degrees Celsius. Instants are milliseconds since the
//! Unix epoch (UTC).
use vstd::prelude::*;

pub mod breaker;
pub mod cache;
mod clock;
pub mod config;
pub mod forecast;
pub mod kelly;
pub mod ledger;
pub mod question;
pub mod risk;
pub mod simulator;
pub mod strategy;
pub mod text;
pub mod types;

verus! {

/// Fixed-point scale: the integer that stands for the real number 1.
pub const SCALE: u64 = 1_000_000;

} // verus!
