//! Tiered ticket sales: demand-curve pricing with an external price-feed
//! adjustment, and a hash-based commit-reveal scheme for fair randomness.

pub mod commitment;
pub mod digest;
pub mod error;
pub mod factory;
pub mod keys;
pub mod oracle;
pub mod pricing;
pub mod ticket;
pub mod tier;
