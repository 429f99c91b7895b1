//! Verified core of a two-venue price-discrepancy monitor.
//!
//! The library models decimal quantities as fixed-point integers, converts a
//! venue's raw integer quote into a comparable rate, and evaluates whether the
//! spread between two venues clears a configured profit threshold after a
//! simulated transaction cost. The surrounding process (configuration loading,
//! the network calls that fetch quotes, and console reporting) hands the
//! library plain values and receives plain values back.

pub mod decimal;
pub mod evaluator;
pub mod model;
pub mod tick;
