//! What a batch is.
//!
//! A batch that starts at block `start` takes the state as of the parent of
//! `start`, makes an executor over it, and executes the blocks `start`,
//! `start + 1`, ... on that one executor. Everything below is a function of
//! the provider, the executor maker and `start`; positions in a batch count
//! from zero.
use crate::block::RecoveredBlock;
use crate::error::{BackfillError, BlockExecutionError, ProviderError};
use crate::evm::{BlockExecutionResult, ConfigureEvm, Executor};
use crate::provider::{BlockReader, StateProviderFactory};
use crate::thresholds::ExecutionStageThresholds;
use vstd::prelude::*;

verus! {

/// The receipts that the executors of `E` write for the blocks of `P`.
pub type ReceiptOf<E, P> = <<E as ConfigureEvm<
    <P as StateProviderFactory>::Snapshot,
    <P as BlockReader>::Transaction,
>>::Executor as Executor<<P as BlockReader>::Transaction>>::Receipt;

/// The bundles of changes that the executors of `E` hold.
pub type BundleOf<E, P> = <<E as ConfigureEvm<
    <P as StateProviderFactory>::Snapshot,
    <P as BlockReader>::Transaction,
>>::Executor as Executor<<P as BlockReader>::Transaction>>::Bundle;

/// The block whose state a batch from `start` begins with: the parent of
/// `start`, and block 0 itself for a batch that begins at block 0.
pub open spec fn parent_of(start: u64) -> u64 {
    if start == 0 {
        0
    } else {
        (start - 1) as u64
    }
}

/// What fetching block `number` gives: the block, where the provider has
/// one and its header carries that number; else the error that ends the
/// batch.
pub open spec fn fetch<P: BlockReader>(provider: &P, number: u64) -> Result<
    RecoveredBlock<P::Transaction>,
    BlockExecutionError,
> {
    match provider.spec_block(number) {
        Err(error) => Err(BlockExecutionError::Provider(error)),
        Ok(None) => Err(BlockExecutionError::Provider(ProviderError::HeaderNotFound(number))),
        Ok(Some(block)) => if block.spec_header().number == number {
            Ok(block)
        } else {
            Err(
                BlockExecutionError::Provider(
                    ProviderError::UnexpectedBlock {
                        requested: number,
                        found: block.spec_header().number,
                    },
                ),
            )
        },
    }
}

/// The block at position `k` of a batch from `start`.
pub open spec fn block_at<P: BlockReader>(provider: &P, start: u64, k: int) -> RecoveredBlock<
    P::Transaction,
> {
    fetch(provider, (start + k) as u64)->Ok_0
}

/// What making the executor of a batch from `start` gives: the executor
/// over the state as of the parent of `start`, or the error of the lookup.
pub open spec fn fresh_executor<E, P>(evm: &E, provider: &P, start: u64) -> Result<
    E::Executor,
    BlockExecutionError,
> where
    P: BlockReader + StateProviderFactory,
    E: ConfigureEvm<P::Snapshot, <P as BlockReader>::Transaction>,
 {
    match provider.spec_history(parent_of(start)) {
        Ok(db) => Ok(evm.spec_batch_executor(db)),
        Err(error) => Err(BlockExecutionError::Provider(error)),
    }
}

/// The executor of a batch from `start` after its first `k` blocks.
pub open spec fn executor_after<E, P>(evm: &E, provider: &P, start: u64, k: nat) -> E::Executor where
    P: BlockReader + StateProviderFactory,
    E: ConfigureEvm<P::Snapshot, <P as BlockReader>::Transaction>,

    decreases k,
{
    if k == 0 {
        fresh_executor(evm, provider, start)->Ok_0
    } else {
        executor_after(evm, provider, start, (k - 1) as nat).spec_after(
            &block_at(provider, start, k - 1),
        )
    }
}

/// What executing the block at position `k` of a batch from `start` gives.
pub open spec fn result_at<E, P>(evm: &E, provider: &P, start: u64, k: nat) -> Result<
    BlockExecutionResult<<E::Executor as Executor<<P as BlockReader>::Transaction>>::Receipt>,
    BlockExecutionError,
> where
    P: BlockReader + StateProviderFactory,
    E: ConfigureEvm<P::Snapshot, <P as BlockReader>::Transaction>,
 {
    executor_after(evm, provider, start, k).spec_execute_one(&block_at(provider, start, k as int))
}

/// Whether the block at position `k` is there and executes.
pub open spec fn step_ok<E, P>(evm: &E, provider: &P, start: u64, k: nat) -> bool where
    P: BlockReader + StateProviderFactory,
    E: ConfigureEvm<P::Snapshot, <P as BlockReader>::Transaction>,
 {
    &&& fetch(provider, (start + k) as u64) is Ok
    &&& result_at(evm, provider, start, k) is Ok
}

/// Whether a batch from `start` gets through its first `n` blocks: the
/// state of the parent is there, and each of the blocks is there and
/// executes.
pub open spec fn prefix_ok<E, P>(evm: &E, provider: &P, start: u64, n: nat) -> bool where
    P: BlockReader + StateProviderFactory,
    E: ConfigureEvm<P::Snapshot, <P as BlockReader>::Transaction>,
 {
    &&& fresh_executor(evm, provider, start) is Ok
    &&& forall|k: nat| k < n ==> #[trigger] step_ok(evm, provider, start, k)
}

/// The number `n`, capped at `u64::MAX`.
pub open spec fn capped(n: int) -> u64 {
    if n > u64::MAX {
        u64::MAX
    } else if n < 0 {
        0
    } else {
        n as u64
    }
}

/// The gas that the first `k` blocks of a batch from `start` used together,
/// capped at `u64::MAX`.
pub open spec fn gas_after<P: BlockReader>(provider: &P, start: u64, k: nat) -> u64
    decreases k,
{
    if k == 0 {
        0
    } else {
        capped(
            gas_after(provider, start, (k - 1) as nat) + block_at(
                provider,
                start,
                k - 1,
            ).spec_gas_used(),
        )
    }
}

/// Whether a limit on blocks, changes or gas ends a batch from `start`
/// after its first `k` blocks.
pub open spec fn counters_end<E, P>(
    thresholds: &ExecutionStageThresholds,
    evm: &E,
    provider: &P,
    start: u64,
    k: nat,
) -> bool where
    P: BlockReader + StateProviderFactory,
    E: ConfigureEvm<P::Snapshot, <P as BlockReader>::Transaction>,
 {
    thresholds.counters_reached(
        k as u64,
        executor_after(evm, provider, start, k).spec_size_hint() as u64,
        gas_after(provider, start, k),
    )
}

/// Whether no limit on blocks, changes or gas ends a batch from `start`
/// before it has done `n` blocks.
pub open spec fn no_end_before<E, P>(
    thresholds: &ExecutionStageThresholds,
    evm: &E,
    provider: &P,
    start: u64,
    n: nat,
) -> bool where
    P: BlockReader + StateProviderFactory,
    E: ConfigureEvm<P::Snapshot, <P as BlockReader>::Transaction>,
 {
    forall|k: nat| 1 <= k < n ==> !#[trigger] counters_end(thresholds, evm, provider, start, k)
}

/// The first `n` blocks of a batch from `start`.
pub open spec fn blocks_of<P: BlockReader>(provider: &P, start: u64, n: nat) -> Seq<
    RecoveredBlock<P::Transaction>,
> {
    Seq::new(n, |k: int| block_at(provider, start, k))
}

/// The results of the first `n` blocks of a batch from `start`.
pub open spec fn results_of<E, P>(evm: &E, provider: &P, start: u64, n: nat) -> Seq<
    BlockExecutionResult<<E::Executor as Executor<<P as BlockReader>::Transaction>>::Receipt>,
> where
    P: BlockReader + StateProviderFactory,
    E: ConfigureEvm<P::Snapshot, <P as BlockReader>::Transaction>,
 {
    Seq::new(n, |k: int| result_at(evm, provider, start, k as nat)->Ok_0)
}

/// The changes to state that the first `n` blocks of a batch from `start`
/// make together.
pub open spec fn bundle_of<E, P>(evm: &E, provider: &P, start: u64, n: nat) -> <E::Executor as Executor<
    <P as BlockReader>::Transaction,
>>::Bundle where
    P: BlockReader + StateProviderFactory,
    E: ConfigureEvm<P::Snapshot, <P as BlockReader>::Transaction>,
 {
    executor_after(evm, provider, start, n).spec_into_state()
}

/// The report of a batch from `start` that fails at position `k`: in the
/// lookup of the block, or else in its execution.
pub open spec fn failure_at<E, P>(evm: &E, provider: &P, start: u64, k: nat) -> BackfillError where
    P: BlockReader + StateProviderFactory,
    E: ConfigureEvm<P::Snapshot, <P as BlockReader>::Transaction>,
 {
    match fetch(provider, (start + k) as u64) {
        Err(error) => BackfillError {
            error,
            block_number: (start + k) as u64,
            blocks_attempted: k as u64,
            cumulative_gas: gas_after(provider, start, k),
        },
        Ok(_) => BackfillError {
            error: result_at(evm, provider, start, k)->Err_0,
            block_number: (start + k) as u64,
            blocks_attempted: capped(k as int + 1),
            cumulative_gas: gas_after(provider, start, k + 1),
        },
    }
}

/// The report of a batch from `start` for which the state of the parent
/// cannot be had.
pub open spec fn failure_at_start<E, P>(evm: &E, provider: &P, start: u64) -> BackfillError where
    P: BlockReader + StateProviderFactory,
    E: ConfigureEvm<P::Snapshot, <P as BlockReader>::Transaction>,
 {
    BackfillError {
        error: fresh_executor(evm, provider, start)->Err_0,
        block_number: start,
        blocks_attempted: 0,
        cumulative_gas: 0,
    }
}

} // verus!
