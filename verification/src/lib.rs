//! A collateralized-debt engine for an issued stablecoin.

pub mod accounts;
pub mod errors;
pub mod instructions;
pub mod laws;
pub mod pubkey;
pub mod state;
