//! A two-sided quoting engine for binary-outcome prediction markets: per-market
//! order reconciliation, acknowledgement absorption, exposure capping and event
//! dispatch, with contracts proved by Verus.

pub mod config;
pub mod decimal;
pub mod ids;
pub mod laws;
pub mod market;
pub mod market_types;
pub mod registry;
pub mod ws_types;
