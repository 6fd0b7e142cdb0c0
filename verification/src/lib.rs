//! Verified core of a financial analytics toolkit: screener keys and metrics,
//! calendar and schedule logic, returns grouping and portfolio helpers.

pub mod text;
pub mod keys;
pub mod screeners;
pub mod builder;
pub mod config;
pub mod schedule;
pub mod calendar;
pub mod periods;
pub mod hrp;
pub mod objective;
pub mod technicals;
pub mod error;
pub mod transactions;
pub mod session;
pub mod constraints;
pub mod events;
pub mod quotes;
pub mod summary;
pub mod overview;
