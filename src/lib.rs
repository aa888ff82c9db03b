//! A collateralized-lending ledger: vaults, per-user positions, and the
//! deposit / borrow / repay / withdraw / liquidate operations on them.
//!
//! The engine never moves assets itself. Each operation is planned into a
//! [`types::Transfer`] for an outside value-transfer port, and committed only
//! with the port's result in hand.

pub mod engine;
pub mod error;
pub mod health;
pub mod laws;
pub mod state;
pub mod types;
