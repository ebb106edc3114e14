//! Executing blocks.
//!
//! An executor is made over a snapshot of state and executes blocks one
//! after the other; what earlier blocks changed, later blocks see. It never
//! writes to the snapshot: the changes pile up inside the executor until
//! they are taken out as one bundle.
//!
//! Execution is a function of the executor and the block. The trait states
//! this by naming the result (`spec_execute_one`) and the executor that is
//! left (`spec_after`).
use crate::block::RecoveredBlock;
use crate::error::BlockExecutionError;
use vstd::prelude::*;

verus! {

/// What executing one block gave.
#[derive(Debug, Clone, PartialEq, Eq)]
pub struct BlockExecutionResult<R> {
    /// One receipt for each transaction of the block, in order.
    pub receipts: Vec<R>,
    /// The gas that the transactions used together.
    pub gas_used: u64,
}

/// What executing one block on a fresh executor gave, with the changes to
/// state that it made.
#[derive(Debug, Clone, PartialEq, Eq)]
pub struct BlockExecutionOutput<R, S> {
    /// The receipts and the gas.
    pub result: BlockExecutionResult<R>,
    /// The changes to state.
    pub state: S,
}

/// An executor of blocks whose transactions are of type `T`.
pub trait Executor<T>: Sized {
    /// The receipt of one transaction.
    type Receipt;

    /// The changes to state that executed blocks have made together.
    type Bundle;

    /// What executing `block` on this executor gives.
    spec fn spec_execute_one(&self, block: &RecoveredBlock<T>) -> Result<
        BlockExecutionResult<Self::Receipt>,
        BlockExecutionError,
    >;

    /// The executor as it is after `block` has been executed with success.
    spec fn spec_after(&self, block: &RecoveredBlock<T>) -> Self;

    /// The size of the changes that the executor holds.
    spec fn spec_size_hint(&self) -> usize;

    /// The changes that the executor holds.
    spec fn spec_into_state(&self) -> Self::Bundle;

    /// Executes `block` on top of the blocks executed before. After a
    /// failure the executor is good for nothing but to be dropped.
    fn execute_one(&mut self, block: &RecoveredBlock<T>) -> (result: Result<
        BlockExecutionResult<Self::Receipt>,
        BlockExecutionError,
    >)
        ensures
            result == old(self).spec_execute_one(block),
            result is Ok ==> *final(self) == old(self).spec_after(block),
    ;

    /// An estimate of the memory that the changes held so far take up.
    fn size_hint(&self) -> (size: usize)
        ensures
            size == self.spec_size_hint(),
    ;

    /// Gives up the executor for the changes it holds.
    fn into_state(self) -> (bundle: Self::Bundle)
        ensures
            bundle == self.spec_into_state(),
    ;
}

/// What executing `block` alone on `executor` gives: the result of the
/// block and the changes that it made.
pub open spec fn spec_execute<T, X: Executor<T>>(executor: X, block: &RecoveredBlock<T>) -> Result<
    BlockExecutionOutput<X::Receipt, X::Bundle>,
    BlockExecutionError,
> {
    match executor.spec_execute_one(block) {
        Ok(result) => Ok(
            BlockExecutionOutput { result, state: executor.spec_after(block).spec_into_state() },
        ),
        Err(error) => Err(error),
    }
}

/// Executes one block and gives up the executor: the result of the block
/// together with the changes that it made.
pub fn execute<T, X: Executor<T>>(executor: X, block: &RecoveredBlock<T>) -> (output: Result<
    BlockExecutionOutput<X::Receipt, X::Bundle>,
    BlockExecutionError,
>)
    ensures
        output == spec_execute(executor, block),
{
    let mut executor = executor;
    match executor.execute_one(block) {
        Ok(result) => {
            let state = executor.into_state();
            Ok(BlockExecutionOutput { result, state })
        },
        Err(error) => Err(error),
    }
}

/// A maker of executors over snapshots of type `DB`, for blocks whose
/// transactions are of type `T`.
pub trait ConfigureEvm<DB, T> {
    /// The executors that it makes.
    type Executor: Executor<T>;

    /// The executor that is made over `db`.
    spec fn spec_batch_executor(&self, db: DB) -> Self::Executor;

    /// Makes an executor that reads state from `db` and holds no changes.
    fn batch_executor(&self, db: DB) -> (executor: Self::Executor)
        ensures
            executor == self.spec_batch_executor(db),
    ;
}

} // verus!
