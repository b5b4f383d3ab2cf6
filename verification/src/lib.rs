//! Core of a collateralized lending engine with a governance-controlled
//! upgrade authority: interest-accruing reserves, per-loan obligations,
//! fixed-point decimal arithmetic, order-book price derivation, and the
//! governance proposal state machine.

pub mod u256;
pub mod decimal;
pub mod keys;
pub mod error;
pub mod instruction;
pub mod state;
pub mod codec;
pub mod dex;
pub mod authority;
pub mod processor;
pub mod governance;
pub mod timelock;
pub mod laws;
