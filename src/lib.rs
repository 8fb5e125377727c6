//! Unsigned transaction and script construction for a two-party payment channel.
pub mod error;
pub mod keys;
pub mod order;
pub mod script;
pub mod tx;
