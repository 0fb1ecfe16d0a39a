//! Validation, dispatch policy and work partitioning for a numerical
//! integration engine that sums a fixed integrand over an interval, either in
//! one pass or split across a fixed number of workers.
//!
//! The arithmetic on interval endpoints is left to the caller; this crate
//! decides whether a request is accepted, which path serves it, and how the
//! interval is divided among workers.

pub mod dispatch;
pub mod error;
pub mod partition;
