//! A small scheduled bot's decisions, stated and proved: which candidate a
//! weighted draw selects, how connection settings are resolved from named
//! values, which remote calls a retweet run issues and in what order, and
//! the exact text of a republished status.

pub mod config;
pub mod date;
pub mod dispatch;
pub mod error;
pub mod number;
pub mod select;
pub mod status;
