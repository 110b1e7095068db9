//! Recurring reminder evaluation: deciding which schedules are due at a given
//! instant, and the cache that holds the schedules between store reads.
pub mod calendar;
pub mod errors;
pub mod notify;
pub mod query;
pub mod schedule;
pub mod state;
