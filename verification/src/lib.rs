//! Verified core of a token-settled sports betting program: account
//! records, the checks each instruction makes, and the state each
//! instruction leaves behind.

pub mod pubkey;
pub mod consts;
pub mod error;
pub mod state;
pub mod token;
pub mod contexts;
pub mod sportsbook;
pub mod laws;
