//! The price engine: its policy, its store and the operations on them.

pub mod error;
pub mod state;
pub mod policy;
pub mod store;
pub mod aggregate;
pub mod stats;
pub mod engine;
pub mod swap_source;
pub mod instructions;
pub mod laws;
