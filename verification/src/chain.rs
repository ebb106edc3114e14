//! Chain segments: what a batch commits.
use crate::block::RecoveredBlock;
use crate::evm::BlockExecutionResult;
use vstd::prelude::*;

verus! {

/// What the execution of some consecutive blocks gave: the changes to state
/// that they made together, and the result of each block, in order.
#[derive(Debug, Clone, PartialEq, Eq)]
pub struct ExecutionOutcome<R, S> {
    /// The changes to state that the blocks made together.
    pub bundle: S,
    /// The result of each block; the first entry belongs to `first_block`.
    pub results: Vec<BlockExecutionResult<R>>,
    /// The number of the first block.
    pub first_block: u64,
}

impl<R, S> ExecutionOutcome<R, S> {
    /// Puts the outcome of a batch together from the changes it made and the
    /// results of its blocks.
    pub fn from_blocks(first_block: u64, bundle: S, results: Vec<BlockExecutionResult<R>>) -> (outcome:
        Self)
        ensures
            outcome.first_block == first_block,
            outcome.bundle == bundle,
            outcome.results == results,
    {
        ExecutionOutcome { bundle, results, first_block }
    }

    /// How many blocks the outcome covers.
    pub fn len(&self) -> (count: usize)
        ensures
            count == self.results@.len(),
    {
        self.results.len()
    }

    /// Whether the outcome covers no block.
    pub fn is_empty(&self) -> (empty: bool)
        ensures
            empty == (self.results@.len() == 0),
    {
        self.results.len() == 0
    }

    /// The result of block `number`, where the outcome covers it.
    pub fn result_of(&self, number: u64) -> (result: Option<&BlockExecutionResult<R>>)
        ensures
            match result {
                Some(found) => self.first_block <= number && number - self.first_block
                    < self.results@.len() && *found == self.results@[number - self.first_block],
                None => number < self.first_block || number - self.first_block
                    >= self.results@.len(),
            },
    {
        if number < self.first_block {
            return None;
        }
        let offset: u64 = number - self.first_block;
        if offset >= self.results.len() as u64 {
            return None;
        }
        Some(&self.results[offset as usize])
    }
}

/// A chain segment: one or more consecutive blocks and what their execution
/// gave. A segment always holds at least one block, as many results as
/// blocks, and blocks whose numbers count up by one from the first.
#[derive(Debug, Clone, PartialEq, Eq)]
pub struct Chain<T, R, S> {
    blocks: Vec<RecoveredBlock<T>>,
    execution_outcome: ExecutionOutcome<R, S>,
}

/// Whether `blocks` and `outcome` make a chain segment.
pub open spec fn is_segment<T, R, S>(
    blocks: Seq<RecoveredBlock<T>>,
    outcome: ExecutionOutcome<R, S>,
) -> bool {
    &&& blocks.len() >= 1
    &&& blocks.len() == outcome.results@.len()
    &&& forall|i: int|
        0 <= i < blocks.len() ==> (#[trigger] blocks[i]).spec_header().number
            == outcome.first_block + i
}

impl<T, R, S> Chain<T, R, S> {
    /// The blocks of the segment, in ascending order.
    pub closed spec fn spec_blocks(&self) -> Seq<RecoveredBlock<T>> {
        self.blocks@
    }

    /// What the execution of the blocks gave.
    pub closed spec fn spec_execution_outcome(&self) -> ExecutionOutcome<R, S> {
        self.execution_outcome
    }

    /// Whether the value is a chain segment. Every segment that this crate
    /// hands out is one.
    pub open spec fn wf(&self) -> bool {
        is_segment(self.spec_blocks(), self.spec_execution_outcome())
    }

    /// Makes a segment of `blocks` and the outcome of their execution.
    pub fn new(blocks: Vec<RecoveredBlock<T>>, execution_outcome: ExecutionOutcome<R, S>) -> (chain:
        Self)
        requires
            is_segment(blocks@, execution_outcome),
        ensures
            chain.wf(),
            chain.spec_blocks() == blocks@,
            chain.spec_execution_outcome() == execution_outcome,
    {
        Chain { blocks, execution_outcome }
    }

    /// Makes a segment of `blocks` and the outcome of their execution, if
    /// they make one: at least one block, as many results as blocks, and
    /// blocks whose numbers count up by one from the first block of the
    /// outcome.
    pub fn try_new(
        blocks: Vec<RecoveredBlock<T>>,
        execution_outcome: ExecutionOutcome<R, S>,
    ) -> (chain: Option<Self>)
        ensures
            chain is Some <==> is_segment(blocks@, execution_outcome),
            chain matches Some(made) ==> made.wf() && made.spec_blocks() == blocks@
                && made.spec_execution_outcome() == execution_outcome,
    {
        if blocks.len() == 0 || blocks.len() != execution_outcome.results.len() {
            return None;
        }
        let first = execution_outcome.first_block;
        let mut i: usize = 0;
        while i < blocks.len()
            invariant
                i <= blocks@.len(),
                first == execution_outcome.first_block,
                forall|j: int|
                    0 <= j < i ==> (#[trigger] blocks@[j]).spec_header().number == first + j,
            decreases blocks.len() - i,
        {
            let number = blocks[i].number();
            if number < first || number - first != i as u64 {
                assert(blocks@[i as int].spec_header().number != first + i);
                return None;
            }
            i = i + 1;
        }
        Some(Chain { blocks, execution_outcome })
    }

    /// The blocks of the segment, in ascending order.
    pub fn blocks(&self) -> (blocks: &Vec<RecoveredBlock<T>>)
        ensures
            blocks@ == self.spec_blocks(),
    {
        &self.blocks
    }

    /// What the execution of the blocks gave.
    pub fn execution_outcome(&self) -> (outcome: &ExecutionOutcome<R, S>)
        ensures
            *outcome == self.spec_execution_outcome(),
    {
        &self.execution_outcome
    }

    /// How many blocks the segment holds: at least one.
    pub fn len(&self) -> (count: usize)
        ensures
            count == self.spec_blocks().len(),
            self.wf() ==> count >= 1,
    {
        self.blocks.len()
    }

    /// The first block of the segment.
    pub fn first(&self) -> (block: &RecoveredBlock<T>)
        requires
            self.wf(),
        ensures
            *block == self.spec_blocks()[0],
            block.spec_header().number == self.spec_execution_outcome().first_block,
    {
        &self.blocks[0]
    }

    /// The last block of the segment.
    pub fn tip(&self) -> (block: &RecoveredBlock<T>)
        requires
            self.wf(),
        ensures
            *block == self.spec_blocks().last(),
            block.spec_header().number == self.spec_execution_outcome().first_block
                + self.spec_blocks().len() - 1,
    {
        &self.blocks[self.blocks.len() - 1]
    }

    /// The block with the given number, where the segment holds it.
    pub fn block(&self, number: u64) -> (block: Option<&RecoveredBlock<T>>)
        ensures
            match block {
                Some(found) => {
                    let first = self.spec_execution_outcome().first_block;
                    &&& first <= number < first + self.spec_blocks().len()
                    &&& *found == self.spec_blocks()[number - first]
                    &&& self.wf() ==> found.spec_header().number == number
                },
                None => {
                    let first = self.spec_execution_outcome().first_block;
                    number < first || number >= first + self.spec_blocks().len()
                },
            },
    {
        let first = self.execution_outcome.first_block;
        if number < first {
            return None;
        }
        let offset: u64 = number - first;
        if offset >= self.blocks.len() as u64 {
            return None;
        }
        Some(&self.blocks[offset as usize])
    }

    /// Takes the segment apart into its blocks and their outcome.
    pub fn into_inner(self) -> (parts: (Vec<RecoveredBlock<T>>, ExecutionOutcome<R, S>))
        ensures
            parts.0@ == self.spec_blocks(),
            parts.1 == self.spec_execution_outcome(),
    {
        (self.blocks, self.execution_outcome)
    }
}

} // verus!
