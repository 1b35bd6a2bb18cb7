//! Supply adjustment engine for a ledger-native token whose circulating
//! supply tracks a daily sea-ice-extent reading.
//!
//! The engine compares each reading against a fixed per-day baseline,
//! applies a deadband, and decides whether to mint, burn, or do nothing.
//! A small lifecycle state machine (initialize / reset / upgrade) gates
//! when the engine may run. The host ledger's storage, authorization and
//! token-transfer primitives are external collaborators: this crate models
//! state as an explicit value, authorization as an explicit set of granted
//! principals, and the token movement as a returned instruction.

pub mod auth;
pub mod baseline;
pub mod contract;
pub mod engine;
pub mod errors;
pub mod laws;
