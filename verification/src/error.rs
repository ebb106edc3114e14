//! What can go wrong while blocks are looked up and executed.
use vstd::prelude::*;

verus! {

/// A failed lookup of state or of a block. Such a failure is a fault of the
/// environment; nothing here tries the lookup again.
#[derive(Debug, Clone, PartialEq, Eq)]
pub enum ProviderError {
    /// No block with this number is stored. Ranges are contiguous, so a
    /// missing block is an error and is never skipped.
    HeaderNotFound(u64),
    /// The lookup of block `requested` brought a block whose header carries
    /// the number `found`. Blocks are applied in the order of their numbers,
    /// so such a block is never executed.
    UnexpectedBlock { requested: u64, found: u64 },
    /// The state as of this block is not stored.
    StateForNumberNotFound(u64),
    /// The state as of this block was stored once and has been pruned.
    StateAtBlockPruned(u64),
    /// The storage engine failed; the text is its own report.
    Database(String),
}

/// A failed execution of a block, or a failed lookup on the way to it.
#[derive(Debug, Clone, PartialEq, Eq)]
pub enum BlockExecutionError {
    /// The block broke a rule of execution; the text says which.
    Validation(String),
    /// A lookup that the execution needed has failed.
    Provider(ProviderError),
    /// The executor itself failed; the text is its own report.
    Internal(String),
}

impl BlockExecutionError {
    /// The execution error that stands for a failed lookup.
    pub fn other(error: ProviderError) -> (wrapped: Self)
        ensures
            wrapped == BlockExecutionError::Provider(error),
    {
        BlockExecutionError::Provider(error)
    }
}

/// The report of a failed batch: what failed, at which block, and how far
/// the batch had come.
#[derive(Debug, Clone, PartialEq, Eq)]
pub struct BackfillError {
    /// What failed.
    pub error: BlockExecutionError,
    /// The number of the block at which the batch failed. Where the state
    /// that the batch starts from could not be had, this is the first block
    /// of the batch.
    pub block_number: u64,
    /// How many blocks of the batch had been handed to the executor, the
    /// failing one included.
    pub blocks_attempted: u64,
    /// The gas used by the blocks of the batch that had been fetched, the
    /// failing one included, capped at `u64::MAX`.
    pub cumulative_gas: u64,
}

/// The refusal of limits of which one is set to nothing.
#[derive(Debug, Clone, Copy, PartialEq, Eq, Structural)]
pub struct DegenerateThresholds {}

/// What a backfill job hands out.
pub type BackfillJobResult<T> = Result<T, BackfillError>;

} // verus!
