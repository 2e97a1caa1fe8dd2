//! Verified core of a Monte Carlo simulator for sharded constant-product
//! market makers: fee tiers, swap bookkeeping, arbitrage search and
//! selection, instruction encoding and account decoding.

pub mod fee;
pub mod search;
pub mod arbitrage;
pub mod trading;
pub mod rng;
pub mod stats;
pub mod instruction;
pub mod registry;
pub mod accounts;
pub mod address;
pub mod ix;
pub mod config;
pub mod scenarios;
pub mod env;
pub mod files;
