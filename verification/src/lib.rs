//! Deterministic smart-contract execution core: gas-metered execution
//! results with a fail-and-charge discipline, a per-deploy, per-phase
//! deterministic reference generator, and the built-in mint system
//! contract (purses and balances) built on top of both.

pub mod effect;
pub mod error;
pub mod gas;
pub mod key;
pub mod mint;
pub mod result;
pub mod rng;
pub mod session;
pub mod value;
