//! A gated ring buffer of price samples with time-weighted and volume-weighted
//! averages, the discounted buyback price derived from them, and the plain data
//! of the escrow that fractionalizes an asset.

pub mod pubkey;
pub mod fractionalization;
pub mod twap;
