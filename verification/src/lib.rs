//! Decision core of an automated-market-maker trading assistant.
//!
//! Given the call data of a pending router transaction, the crate recovers
//! the swap it asks for, decides whether it trades a pair of interest,
//! interprets the answers of the chain queries that support the decision and
//! bounds the acceptable output under a slippage tolerance.

pub mod address;
pub mod amount;
pub mod bound;
pub mod decode;
pub mod directory;
pub mod pair;
pub mod query;
pub mod schema;
pub mod swap;
