//! Authorization gate for zero-gas-price ("service") transactions.
//!
//! A service transaction is admitted only when the certifier contract
//! certifies its sender and, where a destination whitelist contract is
//! deployed and active, that contract lists the destination.
//! Certifier failures are fatal (fail-closed); whitelist failures are
//! treated as permission (fail-open).
pub mod transaction;
pub mod abi;
pub mod error;
pub mod session;
pub mod checker;
pub mod laws;
