//! Where blocks and historical state come from.
//!
//! Both capabilities answer from a fixed view of the chain: asking twice
//! for the same number gives the same answer. Each trait states this by
//! naming the answer (`spec_block`, `spec_history`) and promising that the
//! lookup returns it. An implementation that is not verified has to keep
//! that promise by itself, by answering from a snapshot.
use crate::block::{RecoveredBlock, TransactionVariant};
use crate::error::ProviderError;
use crate::transaction::Transaction;
use vstd::prelude::*;

verus! {

/// A source of sealed blocks with recovered senders, by number.
pub trait BlockReader {
    /// The transactions that the blocks hold.
    type Transaction: Transaction;

    /// What a lookup of block `number` gives: the block, `None` where no
    /// such block is stored, or the failure of the lookup.
    spec fn spec_block(&self, number: u64) -> Result<
        Option<RecoveredBlock<Self::Transaction>>,
        ProviderError,
    >;

    /// Looks up the sealed block `number` with its senders.
    fn sealed_block_with_senders(&self, number: u64, variant: TransactionVariant) -> (found: Result<
        Option<RecoveredBlock<Self::Transaction>>,
        ProviderError,
    >)
        ensures
            found == self.spec_block(number),
    ;

    /// Looks up block `number` with its senders.
    fn recovered_block(&self, number: u64, variant: TransactionVariant) -> (found: Result<
        Option<RecoveredBlock<Self::Transaction>>,
        ProviderError,
    >)
        ensures
            found == self.spec_block(number),
    ;
}

/// A source of read-only state as of a block.
pub trait StateProviderFactory {
    /// The state as of one block, as an executor reads it.
    type Snapshot;

    /// What a lookup of the state after block `number` gives: the snapshot,
    /// or the failure of the lookup.
    spec fn spec_history(&self, number: u64) -> Result<Self::Snapshot, ProviderError>;

    /// Looks up the state as it was after block `number` had been executed.
    fn history_by_block_number(&self, number: u64) -> (state: Result<
        Self::Snapshot,
        ProviderError,
    >)
        ensures
            state == self.spec_history(number),
    ;
}

} // verus!
