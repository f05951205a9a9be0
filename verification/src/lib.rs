//! A royalty-enforced asset-trading protocol: per-seller escrow accounts
//! that list and sell unique assets, a per-collection royalty policy engine
//! that takes its configured cut of every sale, and a fee-taking marketplace
//! that forwards purchases. Authorization is capability-based: every
//! restricted operation demands an unforgeable token checked against a known
//! issuer, never ambient trust.

pub mod fees;
pub mod hub;
pub mod ids;
pub mod marketplace;
pub mod policy;
pub mod store;
pub mod trader;
