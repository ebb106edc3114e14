//! Limits that end a batch of executed blocks.
use crate::clock::{as_nanos, from_secs, nanos};
use std::time::Duration;
use vstd::prelude::*;

verus! {

/// The limits of one batch. A batch ends after the block with which any set
/// limit is reached; a limit that is not set never ends a batch.
///
/// Limits are looked at after a block has been executed, so every batch
/// holds at least one block, whatever the limits are.
#[derive(Debug, Clone, Copy, PartialEq, Eq)]
pub struct ExecutionStageThresholds {
    /// The most blocks in one batch.
    pub max_blocks: Option<u64>,
    /// The most state changes that the executor may hold in memory.
    pub max_changes: Option<u64>,
    /// The most gas that the blocks of one batch may have used together.
    pub max_cumulative_gas: Option<u64>,
    /// The longest time that one batch may take.
    pub max_duration: Option<Duration>,
}

/// Whether a counter has reached its limit, if one is set.
pub open spec fn reached(value: u64, limit: Option<u64>) -> bool {
    match limit {
        Some(max) => value >= max,
        None => false,
    }
}

impl ExecutionStageThresholds {
    /// Whether the limits on blocks, changes or gas end the batch. These are
    /// the limits that do not depend on the clock.
    pub open spec fn counters_reached(&self, blocks: u64, changes: u64, gas: u64) -> bool {
        reached(blocks, self.max_blocks) || reached(changes, self.max_changes) || reached(
            gas,
            self.max_cumulative_gas,
        )
    }

    /// Whether the time limit ends the batch, given the elapsed nanoseconds.
    pub open spec fn duration_reached(&self, elapsed_nanos: u128) -> bool {
        match self.max_duration {
            Some(max) => elapsed_nanos >= nanos(max),
            None => false,
        }
    }

    /// Whether a batch ends, given what it has processed so far.
    pub open spec fn ends_batch(
        &self,
        blocks: u64,
        changes: u64,
        gas: u64,
        elapsed_nanos: u128,
    ) -> bool {
        self.counters_reached(blocks, changes, gas) || self.duration_reached(elapsed_nanos)
    }

    /// Whether every limit that is set is at least one: a limit of nothing
    /// is degenerate.
    pub open spec fn non_degenerate(&self) -> bool {
        &&& self.max_blocks != Some(0u64)
        &&& self.max_changes != Some(0u64)
        &&& self.max_cumulative_gas != Some(0u64)
        &&& self.max_duration matches Some(max) ==> nanos(max) != 0
    }

    /// No limit at all: a batch ends only with its range.
    pub fn unbounded() -> (thresholds: Self)
        ensures
            thresholds.max_blocks is None,
            thresholds.max_changes is None,
            thresholds.max_cumulative_gas is None,
            thresholds.max_duration is None,
    {
        ExecutionStageThresholds {
            max_blocks: None,
            max_changes: None,
            max_cumulative_gas: None,
            max_duration: None,
        }
    }

    /// Whether every limit that is set is at least one.
    pub fn is_non_degenerate(&self) -> (ok: bool)
        ensures
            ok == self.non_degenerate(),
    {
        let blocks = match self.max_blocks {
            Some(max) => max != 0,
            None => true,
        };
        let changes = match self.max_changes {
            Some(max) => max != 0,
            None => true,
        };
        let gas = match self.max_cumulative_gas {
            Some(max) => max != 0,
            None => true,
        };
        let time = match &self.max_duration {
            Some(max) => as_nanos(max) != 0,
            None => true,
        };
        blocks && changes && gas && time
    }

    /// Whether the batch ends now that `blocks_processed` blocks have been
    /// executed, the executor holds `changes_processed` changes, the blocks
    /// used `cumulative_gas_used` gas together and `elapsed` has passed since
    /// the batch began.
    pub fn is_end_of_batch(
        &self,
        blocks_processed: u64,
        changes_processed: u64,
        cumulative_gas_used: u64,
        elapsed: Duration,
    ) -> (end: bool)
        ensures
            end == self.ends_batch(
                blocks_processed,
                changes_processed,
                cumulative_gas_used,
                nanos(elapsed),
            ),
    {
        let blocks = match self.max_blocks {
            Some(max) => blocks_processed >= max,
            None => false,
        };
        let changes = match self.max_changes {
            Some(max) => changes_processed >= max,
            None => false,
        };
        let gas = match self.max_cumulative_gas {
            Some(max) => cumulative_gas_used >= max,
            None => false,
        };
        let time = match &self.max_duration {
            Some(max) => as_nanos(&elapsed) >= as_nanos(max),
            None => false,
        };
        blocks || changes || gas || time
    }
}

/// The most blocks in one batch, unless told otherwise.
pub const DEFAULT_MAX_BLOCKS: u64 = 500_000;

/// The most changes in one batch, unless told otherwise.
pub const DEFAULT_MAX_CHANGES: u64 = 5_000_000;

/// The most gas in one batch, unless told otherwise: fifty thousand blocks
/// of thirty million gas each.
pub const DEFAULT_MAX_CUMULATIVE_GAS: u64 = 1_500_000_000_000;

/// The longest time for one batch in seconds, unless told otherwise: ten
/// minutes.
pub const DEFAULT_MAX_DURATION_SECS: u64 = 600;

impl Default for ExecutionStageThresholds {
    fn default() -> (thresholds: Self)
        ensures
            thresholds.max_blocks == Some(DEFAULT_MAX_BLOCKS),
            thresholds.max_changes == Some(DEFAULT_MAX_CHANGES),
            thresholds.max_cumulative_gas == Some(DEFAULT_MAX_CUMULATIVE_GAS),
            thresholds.max_duration matches Some(max) && nanos(max) == DEFAULT_MAX_DURATION_SECS
                * 1_000_000_000,
            thresholds.non_degenerate(),
    {
        ExecutionStageThresholds {
            max_blocks: Some(DEFAULT_MAX_BLOCKS),
            max_changes: Some(DEFAULT_MAX_CHANGES),
            max_cumulative_gas: Some(DEFAULT_MAX_CUMULATIVE_GAS),
            max_duration: Some(from_secs(DEFAULT_MAX_DURATION_SECS)),
        }
    }
}

} // verus!
