//! A minimal payment ledger: records payments under consecutive ids starting
//! at 1, answers point lookups (with a "not found" marker for unknown ids) and
//! reports how many payments exist.
pub mod payment;
pub mod ledger;
pub mod laws;
