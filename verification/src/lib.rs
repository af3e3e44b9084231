//! End-to-end encrypted messaging with traceable message sources: message
//! identifiers issued by an exchange server, shuffled identifier shares and
//! the byte arithmetic behind them.

pub mod bignum;

pub mod crypto;
pub mod proto;
pub mod utils;
pub mod msp;
pub mod bytes;
pub mod rng;
pub mod db;
pub mod eems;
pub mod user;
