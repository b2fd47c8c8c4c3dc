//! A single-owner pet ledger with a verified command dispatcher and a
//! client-side confirmation watcher.
//!
//! The ledger maps each account to at most one pet record and tracks two
//! timestamped activities per pet against a monotonic logical clock. The
//! client half packages commands into signed envelopes and classifies the
//! status stream of a submitted command into a terminal outcome.

pub mod client;
pub mod ledger;
pub mod store;
