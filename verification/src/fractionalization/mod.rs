//! The plain data and the rules of the escrow that fractionalizes an asset.

pub mod constants;
pub mod errors;
pub mod instructions;
pub mod state;
pub mod types;
pub mod bubblegum;
pub mod token_metadata;
pub mod hashing;
pub mod cpi;
pub mod validation;
