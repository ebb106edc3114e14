//! Backfill: replaying a range of historical blocks.
//!
//! A [`job::BackfillJob`] executes its range in batches and hands out one
//! chain segment for each batch; a [`job::SingleBlockBackfillJob`] hands out
//! one block at a time. [`model`] says what a batch is in terms of the
//! provider and the executor, and [`laws`] holds what follows from that.
pub mod model;
pub mod job;
pub mod factory;
pub mod stream;
pub mod laws;

