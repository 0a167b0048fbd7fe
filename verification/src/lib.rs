//! Verified core logic of the DAO DAO augmented bonding curve, its factory,
//! the gauge vote-hook dispatcher and the gauge adapter data model.
mod curves;
pub mod cw_abc;
pub mod hatch_migration;
pub mod reply_data;
pub mod token_setup;
pub mod budget_allocator;
pub mod cosmos;
pub mod dao_abc_factory;
pub mod decimal;
pub mod gauge_adapter;
pub mod vote_hooks;

pub use curves::{CurveError, DecimalPlaces, Power};
