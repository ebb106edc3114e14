//! What holds of every backfill job.
//!
//! The laws speak of the model of a batch in [`super::model`], which the
//! contracts of the jobs are written in. Those that compare a range
//! replayed in one batch with the same range replayed in pieces need two
//! things of the environment, and take both as hypotheses:
//!
//! * executors can be compared by what they let a block see: a relation
//!   `same` that execution respects ([`respects_execution`]);
//! * the provider's state is the state that execution leaves: the state as
//!   of block `b` is there, and an executor made over it is `same` as one
//!   made over the state as of `b - 1` that has executed block `b`
//!   ([`consistent`]).
use crate::backfill::job::{
    batch_at, batches, blocks_before, ends_at, failure_of, replay_of, segment_of, single_block,
    timed_failure_of, timed_segment_of,
};
use crate::backfill::model::{
    block_at, blocks_of, bundle_of, counters_end, executor_after, fetch, fresh_executor, prefix_ok,
    result_at, results_of, step_ok, BundleOf, ReceiptOf,
};
use crate::block::RecoveredBlock;
use crate::chain::Chain;
use crate::error::BackfillError;
use crate::evm::{BlockExecutionOutput, BlockExecutionResult, ConfigureEvm, Executor};
use crate::provider::{BlockReader, StateProviderFactory};
use crate::range;
use crate::thresholds::ExecutionStageThresholds;
use vstd::prelude::*;

verus! {

/// Whether `same` is an equivalence of executors that execution respects:
/// executors that are the same give the same result for every block, and
/// are the same again after it.
pub open spec fn respects_execution<T, X: Executor<T>>(same: spec_fn(X, X) -> bool) -> bool {
    &&& forall|x: X| #[trigger] same(x, x)
    &&& forall|x: X, y: X, z: X| #[trigger] same(x, y) && #[trigger] same(y, z) ==> same(x, z)
    &&& forall|x: X, y: X, block: RecoveredBlock<T>|
        #[trigger] same(x, y) ==> #[trigger] x.spec_execute_one(&block) == y.spec_execute_one(
            &block,
        )
    &&& forall|x: X, y: X, block: RecoveredBlock<T>|
        same(x, y) && x.spec_execute_one(&block) is Ok ==> #[trigger] same(
            x.spec_after(&block),
            y.spec_after(&block),
        )
}

/// Whether the provider's state over the `n` blocks from `start` is the
/// state that execution leaves: the state that each of the blocks starts
/// from is there, and where a block executes over it, what is left is the
/// same as the state that the next block starts from.
pub open spec fn consistent<E, P>(
    evm: &E,
    provider: &P,
    same: spec_fn(E::Executor, E::Executor) -> bool,
    start: u64,
    n: nat,
) -> bool where
    P: BlockReader + StateProviderFactory,
    E: ConfigureEvm<P::Snapshot, <P as BlockReader>::Transaction>,
 {
    forall|j: nat|
        j < n ==> {
            &&& #[trigger] fresh_executor(evm, provider, (start + j) as u64) is Ok
            &&& j + 1 < n && step_ok(evm, provider, (start + j) as u64, 0) ==> same(
                executor_after(evm, provider, (start + j) as u64, 1),
                executor_after(evm, provider, (start + j + 1) as u64, 0),
            )
        }
}

/// A batch that got through `n` blocks got through every shorter prefix.
pub proof fn lemma_prefix_shorter<E, P>(evm: &E, provider: &P, start: u64, n: nat, m: nat) where
    P: BlockReader + StateProviderFactory,
    E: ConfigureEvm<P::Snapshot, <P as BlockReader>::Transaction>,

    requires
        prefix_ok(evm, provider, start, n),
        m <= n,
    ensures
        prefix_ok(evm, provider, start, m),
{
    assert forall|k: nat| k < m implies #[trigger] step_ok(evm, provider, start, k) by {
        assert(step_ok(evm, provider, start, k));
    }
}

/// The block at a position of a batch does not depend on where the batch
/// began, only on the number of the block.
pub proof fn lemma_same_block<P: BlockReader>(provider: &P, start: u64, m: nat, i: nat)
    requires
        start + m + i <= u64::MAX,
    ensures
        block_at(provider, (start + m) as u64, i as int) == block_at(provider, start, (m + i) as int),
{
}

/// After its first `m` blocks, the executor of a batch is the same as a
/// fresh one made for the block that comes next.
pub proof fn lemma_reaches<E, P>(
    evm: &E,
    provider: &P,
    same: spec_fn(E::Executor, E::Executor) -> bool,
    start: u64,
    n: nat,
    m: nat,
) where
    P: BlockReader + StateProviderFactory,
    E: ConfigureEvm<P::Snapshot, <P as BlockReader>::Transaction>,

    requires
        respects_execution::<<P as BlockReader>::Transaction, E::Executor>(same),
        start + n <= u64::MAX + 1,
        m < n,
        consistent(evm, provider, same, start, n),
        prefix_ok(evm, provider, start, m),
    ensures
        same(
            executor_after(evm, provider, start, m),
            executor_after(evm, provider, (start + m) as u64, 0),
        ),
    decreases m,
{
    if m == 0 {
        assert(same(
            executor_after(evm, provider, start, 0),
            executor_after(evm, provider, start, 0),
        ));
    } else {
        let j = (m - 1) as nat;
        let at = (start + j) as u64;
        lemma_prefix_shorter(evm, provider, start, m, j);
        lemma_reaches(evm, provider, same, start, n, j);
        let long = executor_after(evm, provider, start, j);
        let short = executor_after(evm, provider, at, 0);
        let block = block_at(provider, start, j as int);
        lemma_same_block(provider, start, j, 0);
        assert(block == block_at(provider, at, 0));
        assert(step_ok(evm, provider, start, j));
        assert(same(long, short));
        assert(long.spec_execute_one(&block) == short.spec_execute_one(&block));
        assert(step_ok(evm, provider, at, 0));
        assert(same(long.spec_after(&block), short.spec_after(&block)));
        assert(long.spec_after(&block) == executor_after(evm, provider, start, m));
        assert(short.spec_after(&block) == executor_after(evm, provider, at, 1));
        assert(fresh_executor(evm, provider, (start + j) as u64) is Ok);
        assert(same(
            executor_after(evm, provider, at, 1),
            executor_after(evm, provider, (start + j + 1) as u64, 0),
        ));
    }
}

/// A batch that starts in the middle of another sees what the other sees.
///
/// Let a batch from `start` get through `m` blocks of a range of `n`. Then
/// it gets through `k` blocks more if and only if a batch from `start + m`
/// gets through `k` blocks; each of these blocks has the same result in
/// both, and after them the two executors are the same.
pub proof fn lemma_aligned<E, P>(
    evm: &E,
    provider: &P,
    same: spec_fn(E::Executor, E::Executor) -> bool,
    start: u64,
    n: nat,
    m: nat,
    k: nat,
) where
    P: BlockReader + StateProviderFactory,
    E: ConfigureEvm<P::Snapshot, <P as BlockReader>::Transaction>,

    requires
        respects_execution::<<P as BlockReader>::Transaction, E::Executor>(same),
        start + n <= u64::MAX + 1,
        m < n,
        m + k <= n,
        consistent(evm, provider, same, start, n),
        prefix_ok(evm, provider, start, m),
        prefix_ok(evm, provider, start, m + k) || prefix_ok(evm, provider, (start + m) as u64, k),
    ensures
        prefix_ok(evm, provider, start, m + k),
        prefix_ok(evm, provider, (start + m) as u64, k),
        same(
            executor_after(evm, provider, start, m + k),
            executor_after(evm, provider, (start + m) as u64, k),
        ),
        forall|i: nat|
            i < k ==> #[trigger] result_at(evm, provider, (start + m) as u64, i) == result_at(
                evm,
                provider,
                start,
                m + i,
            ),
    decreases k,
{
    let mid = (start + m) as u64;
    assert(fresh_executor(evm, provider, (start + m) as u64) is Ok);
    if k == 0 {
        lemma_reaches(evm, provider, same, start, n, m);
    } else {
        let j = (k - 1) as nat;
        if prefix_ok(evm, provider, start, m + k) {
            lemma_prefix_shorter(evm, provider, start, m + k, m + j);
        } else {
            lemma_prefix_shorter(evm, provider, mid, k, j);
        }
        lemma_aligned(evm, provider, same, start, n, m, j);
        let long = executor_after(evm, provider, start, m + j);
        let short = executor_after(evm, provider, mid, j);
        let block = block_at(provider, start, (m + j) as int);
        lemma_same_block(provider, start, m, j);
        assert(block == block_at(provider, mid, j as int));
        assert(same(long, short));
        assert(long.spec_execute_one(&block) == short.spec_execute_one(&block));
        assert(result_at(evm, provider, mid, j) == result_at(evm, provider, start, m + j));
        assert(step_ok(evm, provider, start, m + j) || step_ok(evm, provider, mid, j));
        assert(step_ok(evm, provider, start, m + j));
        assert(step_ok(evm, provider, mid, j));
        assert(same(long.spec_after(&block), short.spec_after(&block)));
        assert(long.spec_after(&block) == executor_after(evm, provider, start, m + k));
        assert(short.spec_after(&block) == executor_after(evm, provider, mid, k));
        assert forall|i: nat| i < k implies #[trigger] step_ok(evm, provider, mid, i) by {
            if i < j {
                assert(step_ok(evm, provider, mid, i));
            }
        }
        assert forall|i: nat| i < m + k implies #[trigger] step_ok(evm, provider, start, i) by {
            if i < m + j {
                assert(step_ok(evm, provider, start, i));
            }
        }
        assert forall|i: nat| i < k implies #[trigger] result_at(evm, provider, mid, i)
            == result_at(evm, provider, start, m + i) by {
            if i < j {
                assert(result_at(evm, provider, mid, i) == result_at(evm, provider, start, m + i));
            }
        }
    }
}

/// The blocks of the first `i` of `chains`, one segment after the other.
pub open spec fn blocks_through<T, R, S>(chains: Seq<Chain<T, R, S>>, i: nat) -> Seq<
    RecoveredBlock<T>,
>
    decreases i,
{
    if i == 0 {
        Seq::empty()
    } else {
        blocks_through(chains, (i - 1) as nat) + chains[i - 1].spec_blocks()
    }
}

/// The results of the blocks of the first `i` of `chains`, one segment
/// after the other.
pub open spec fn results_through<T, R, S>(chains: Seq<Chain<T, R, S>>, i: nat) -> Seq<
    BlockExecutionResult<R>,
>
    decreases i,
{
    if i == 0 {
        Seq::empty()
    } else {
        results_through(chains, (i - 1) as nat) + chains[i - 1].spec_execution_outcome().results@
    }
}

/// Whether the segment at place `i` of `chains` replays the blocks that
/// follow those of the segments before it, within the `len` blocks from
/// `start`.
pub open spec fn piece_at<E, P>(
    evm: &E,
    provider: &P,
    start: u64,
    len: nat,
    chains: Seq<Chain<P::Transaction, ReceiptOf<E, P>, BundleOf<E, P>>>,
    i: nat,
) -> bool where
    P: BlockReader + StateProviderFactory,
    E: ConfigureEvm<P::Snapshot, <P as BlockReader>::Transaction>,
 {
    &&& blocks_before(chains, i) + chains[i as int].spec_blocks().len() <= len
    &&& start + blocks_before(chains, i) <= u64::MAX
    &&& replay_of(evm, provider, (start + blocks_before(chains, i)) as u64, chains[i as int])
}

/// Whether `chains` replay the `len` blocks from `start` in pieces: each
/// segment replays, in a batch of its own, the blocks that follow those of
/// the segment before. What ended each piece does not matter: a limit, the
/// clock, or the end of a range that covered a part of the blocks only.
pub open spec fn pieces<E, P>(
    evm: &E,
    provider: &P,
    start: u64,
    len: nat,
    chains: Seq<Chain<P::Transaction, ReceiptOf<E, P>, BundleOf<E, P>>>,
) -> bool where
    P: BlockReader + StateProviderFactory,
    E: ConfigureEvm<P::Snapshot, <P as BlockReader>::Transaction>,
 {
    forall|i: nat| i < chains.len() ==> #[trigger] piece_at(evm, provider, start, len, chains, i)
}

/// The segments of the batches of one job replay its range in pieces.
pub proof fn lemma_batches_are_pieces<E, P>(
    thresholds: &ExecutionStageThresholds,
    evm: &E,
    provider: &P,
    start: u64,
    len: nat,
    chains: Seq<Chain<P::Transaction, ReceiptOf<E, P>, BundleOf<E, P>>>,
) where
    P: BlockReader + StateProviderFactory,
    E: ConfigureEvm<P::Snapshot, <P as BlockReader>::Transaction>,

    requires
        batches(thresholds, evm, provider, start, len, chains),
    ensures
        pieces(evm, provider, start, len, chains),
{
    assert forall|i: nat| i < chains.len() implies #[trigger] piece_at(
        evm,
        provider,
        start,
        len,
        chains,
        i,
    ) by {
        assert(batch_at(thresholds, evm, provider, start, len, chains, i));
    }
}

/// The first `i` pieces of a replay hold what one batch over the same
/// blocks holds.
pub proof fn lemma_through<E, P>(
    evm: &E,
    provider: &P,
    same: spec_fn(E::Executor, E::Executor) -> bool,
    start: u64,
    len: nat,
    chains: Seq<Chain<P::Transaction, ReceiptOf<E, P>, BundleOf<E, P>>>,
    i: nat,
) where
    P: BlockReader + StateProviderFactory,
    E: ConfigureEvm<P::Snapshot, <P as BlockReader>::Transaction>,

    requires
        respects_execution::<<P as BlockReader>::Transaction, E::Executor>(same),
        start + len <= u64::MAX + 1,
        len >= 1,
        consistent(evm, provider, same, start, len),
        pieces(evm, provider, start, len, chains),
        i <= chains.len(),
    ensures
        blocks_before(chains, i) <= len,
        prefix_ok(evm, provider, start, blocks_before(chains, i)),
        blocks_through(chains, i) == blocks_of(provider, start, blocks_before(chains, i)),
        results_through(chains, i) == results_of(evm, provider, start, blocks_before(chains, i)),
        i >= 1 ==> same(
            executor_after(evm, provider, start, blocks_before(chains, i)),
            executor_after(
                evm,
                provider,
                (start + blocks_before(chains, (i - 1) as nat)) as u64,
                chains[i - 1].spec_blocks().len(),
            ),
        ),
    decreases i,
{
    if i == 0 {
        assert(fresh_executor(evm, provider, (start + 0) as u64) is Ok);
        assert(blocks_through(chains, 0) =~= blocks_of(provider, start, 0));
        assert(results_through(chains, 0) =~= results_of(evm, provider, start, 0));
    } else {
        let j = (i - 1) as nat;
        lemma_through(evm, provider, same, start, len, chains, j);
        let m = blocks_before(chains, j);
        let chain = chains[j as int];
        let k = chain.spec_blocks().len();
        let mid = (start + m) as u64;
        assert(piece_at(evm, provider, start, len, chains, j));
        assert(replay_of(evm, provider, mid, chain));
        assert(k >= 1);
        lemma_aligned(evm, provider, same, start, len, m, k);
        assert(blocks_before(chains, i) == m + k);
        assert forall|p: int| 0 <= p < k implies block_at(provider, mid, p) == block_at(
            provider,
            start,
            m + p,
        ) by {
            lemma_same_block(provider, start, m, p as nat);
        }
        assert(blocks_through(chains, i) =~= blocks_of(provider, start, m + k));
        assert forall|p: int| 0 <= p < k implies results_of(evm, provider, mid, k)[p]
            == results_of(evm, provider, start, m + k)[m + p] by {
            assert(result_at(evm, provider, mid, p as nat) == result_at(
                evm,
                provider,
                start,
                m + p as nat,
            ));
        }
        assert(results_through(chains, i) =~= results_of(evm, provider, start, m + k));
    }
}

/// Batching changes the grouping of the blocks and nothing else.
///
/// Let the `len` blocks from `start` be replayed in pieces, however they
/// were cut: by the limits of one job, whatever they were, or by jobs over
/// parts of the range. Let the state of the environment be consistent with
/// execution. Then one batch without limits gets through all of the blocks
/// as well; the blocks of the segments, put one after the other, are the
/// blocks of that one batch; so are the results; and the executor that the
/// last piece leaves is the same as the one that the one batch leaves, so
/// both leave the same state behind.
pub proof fn law_batching_keeps_results<E, P>(
    evm: &E,
    provider: &P,
    same: spec_fn(E::Executor, E::Executor) -> bool,
    start: u64,
    len: nat,
    chains: Seq<Chain<P::Transaction, ReceiptOf<E, P>, BundleOf<E, P>>>,
) where
    P: BlockReader + StateProviderFactory,
    E: ConfigureEvm<P::Snapshot, <P as BlockReader>::Transaction>,

    requires
        respects_execution::<<P as BlockReader>::Transaction, E::Executor>(same),
        len >= 1,
        consistent(evm, provider, same, start, len),
        pieces(evm, provider, start, len, chains),
        blocks_before(chains, chains.len()) == len,
    ensures
        chains.len() >= 1,
        prefix_ok(evm, provider, start, len),
        blocks_through(chains, chains.len()) == blocks_of(provider, start, len),
        results_through(chains, chains.len()) == results_of(evm, provider, start, len),
        same(
            executor_after(evm, provider, start, len),
            executor_after(
                evm,
                provider,
                (start + blocks_before(chains, (chains.len() - 1) as nat)) as u64,
                chains.last().spec_blocks().len(),
            ),
        ),
        chains.last().spec_execution_outcome().bundle == bundle_of(
            evm,
            provider,
            (start + blocks_before(chains, (chains.len() - 1) as nat)) as u64,
            chains.last().spec_blocks().len(),
        ),
{
    law_pieces_hold_the_blocks(evm, provider, start, len, chains, chains.len());
    lemma_through(evm, provider, same, start, len, chains, chains.len());
    let last = (chains.len() - 1) as nat;
    assert(piece_at(evm, provider, start, len, chains, last));
}

/// A block executed by itself gives what it gives inside a batch.
///
/// Let one batch get through the `len` blocks from `start`, in an
/// environment whose state is consistent with execution. Then each of the
/// blocks, executed by itself over the state as of its parent, goes through
/// as well, is the same block, and has the same result; the changes that
/// come with it are those of a batch of that one block.
pub proof fn law_single_block_agrees<E, P>(
    evm: &E,
    provider: &P,
    same: spec_fn(E::Executor, E::Executor) -> bool,
    start: u64,
    len: nat,
    i: nat,
) where
    P: BlockReader + StateProviderFactory,
    E: ConfigureEvm<P::Snapshot, <P as BlockReader>::Transaction>,

    requires
        respects_execution::<<P as BlockReader>::Transaction, E::Executor>(same),
        start + len <= u64::MAX + 1,
        consistent(evm, provider, same, start, len),
        prefix_ok(evm, provider, start, len),
        i < len,
    ensures
        single_block(evm, provider, (start + i) as u64) == Ok::<_, BackfillError>(
            (
                block_at(provider, start, i as int),
                BlockExecutionOutput {
                    result: result_at(evm, provider, start, i)->Ok_0,
                    state: bundle_of(evm, provider, (start + i) as u64, 1),
                },
            ),
        ),
{
    let at = (start + i) as u64;
    lemma_prefix_shorter(evm, provider, start, len, i + 1);
    lemma_prefix_shorter(evm, provider, start, len, i);
    lemma_aligned(evm, provider, same, start, len, i, 1);
    lemma_same_block(provider, start, i, 0);
    assert(step_ok(evm, provider, at, 0));
    assert(step_ok(evm, provider, start, i));
    assert(result_at(evm, provider, at, 0) == result_at(evm, provider, start, i));
    let block = block_at(provider, at, 0);
    let executor = executor_after(evm, provider, at, 0);
    assert(executor_after(evm, provider, at, 1) == executor.spec_after(&block));
}

/// The single-block job and the batching job agree block by block.
///
/// Let a range be replayed in batches, whatever the limits, in an
/// environment whose state is consistent with execution. Then the block at
/// each place of the range, executed by itself, is the block that the
/// segments hold at that place, with the result that they hold for it.
pub proof fn law_single_and_batched_agree<E, P>(
    thresholds: &ExecutionStageThresholds,
    evm: &E,
    provider: &P,
    same: spec_fn(E::Executor, E::Executor) -> bool,
    start: u64,
    len: nat,
    chains: Seq<Chain<P::Transaction, ReceiptOf<E, P>, BundleOf<E, P>>>,
    i: nat,
) where
    P: BlockReader + StateProviderFactory,
    E: ConfigureEvm<P::Snapshot, <P as BlockReader>::Transaction>,

    requires
        respects_execution::<<P as BlockReader>::Transaction, E::Executor>(same),
        consistent(evm, provider, same, start, len),
        batches(thresholds, evm, provider, start, len, chains),
        blocks_before(chains, chains.len()) == len,
        i < len,
    ensures
        blocks_through(chains, chains.len()).len() == len,
        results_through(chains, chains.len()).len() == len,
        single_block(evm, provider, (start + i) as u64) matches Ok(item) && item.0
            == blocks_through(chains, chains.len())[i as int] && item.1.result == results_through(
            chains,
            chains.len(),
        )[i as int],
{
    lemma_batches_are_pieces(thresholds, evm, provider, start, len, chains);
    law_pieces_hold_the_blocks(evm, provider, start, len, chains, chains.len());
    law_batching_keeps_results(evm, provider, same, start, len, chains);
    law_single_block_agrees(evm, provider, same, start, len, i);
    assert(step_ok(evm, provider, start, i));
}

/// A limit on blocks is kept: with at most `max` blocks to a batch, no
/// segment holds more than `max` blocks, or more than one where `max` is
/// nothing.
pub proof fn law_block_limit_is_kept<E, P>(
    thresholds: &ExecutionStageThresholds,
    evm: &E,
    provider: &P,
    start: u64,
    len: nat,
    chain: Chain<P::Transaction, ReceiptOf<E, P>, BundleOf<E, P>>,
    max: u64,
) where
    P: BlockReader + StateProviderFactory,
    E: ConfigureEvm<P::Snapshot, <P as BlockReader>::Transaction>,

    requires
        segment_of(thresholds, evm, provider, start, len, chain),
        thresholds.max_blocks == Some(max),
    ensures
        chain.spec_blocks().len() >= 1,
        chain.spec_blocks().len() <= max || chain.spec_blocks().len() == 1,
{
    let n = chain.spec_blocks().len();
    if n > max && n > 1 {
        let k: nat = if max == 0 {
            1
        } else {
            max as nat
        };
        assert(counters_end(thresholds, evm, provider, start, k));
    }
}

/// With at most one block to a batch, a run of batches has one segment for
/// each block of the range, each of them holding that one block.
pub proof fn law_one_block_batches<E, P>(
    thresholds: &ExecutionStageThresholds,
    evm: &E,
    provider: &P,
    start: u64,
    len: nat,
    chains: Seq<Chain<P::Transaction, ReceiptOf<E, P>, BundleOf<E, P>>>,
    i: nat,
) where
    P: BlockReader + StateProviderFactory,
    E: ConfigureEvm<P::Snapshot, <P as BlockReader>::Transaction>,

    requires
        batches(thresholds, evm, provider, start, len, chains),
        thresholds.max_blocks == Some(1u64),
        i <= chains.len(),
    ensures
        blocks_before(chains, i) == i,
        i < chains.len() ==> chains[i as int].spec_blocks() == blocks_of(
            provider,
            (start + i) as u64,
            1,
        ),
    decreases i,
{
    if i > 0 {
        let j = (i - 1) as nat;
        law_one_block_batches(thresholds, evm, provider, start, len, chains, j);
        assert(batch_at(thresholds, evm, provider, start, len, chains, j));
        law_block_limit_is_kept(
            thresholds,
            evm,
            provider,
            (start + j) as u64,
            (len - j) as nat,
            chains[j as int],
            1,
        );
    }
    if i < chains.len() {
        assert(batch_at(thresholds, evm, provider, start, len, chains, i));
        law_block_limit_is_kept(
            thresholds,
            evm,
            provider,
            (start + i) as u64,
            (len - i) as nat,
            chains[i as int],
            1,
        );
    }
}

/// Without a time limit, where a batch ends is a function of the limits
/// and of what the blocks are: two segments that a batch may give hold the
/// same blocks, results and changes.
pub proof fn law_batch_is_determined<E, P>(
    thresholds: &ExecutionStageThresholds,
    evm: &E,
    provider: &P,
    start: u64,
    len: nat,
    one: Chain<P::Transaction, ReceiptOf<E, P>, BundleOf<E, P>>,
    other: Chain<P::Transaction, ReceiptOf<E, P>, BundleOf<E, P>>,
) where
    P: BlockReader + StateProviderFactory,
    E: ConfigureEvm<P::Snapshot, <P as BlockReader>::Transaction>,

    requires
        thresholds.max_duration is None,
        segment_of(thresholds, evm, provider, start, len, one),
        segment_of(thresholds, evm, provider, start, len, other),
    ensures
        one.spec_blocks() == other.spec_blocks(),
        one.spec_execution_outcome().first_block == other.spec_execution_outcome().first_block,
        one.spec_execution_outcome().results@ == other.spec_execution_outcome().results@,
        one.spec_execution_outcome().bundle == other.spec_execution_outcome().bundle,
{
    let n = one.spec_blocks().len();
    let m = other.spec_blocks().len();
    if n < m {
        assert(!counters_end(thresholds, evm, provider, start, n));
    }
    if m < n {
        assert(!counters_end(thresholds, evm, provider, start, m));
    }
}

/// Without a time limit, a batch that may give a segment cannot fail, and
/// one that may fail cannot give a segment; and it can fail in one way
/// only.
pub proof fn law_failure_is_determined<E, P>(
    thresholds: &ExecutionStageThresholds,
    evm: &E,
    provider: &P,
    start: u64,
    len: nat,
    chain: Chain<P::Transaction, ReceiptOf<E, P>, BundleOf<E, P>>,
    report: BackfillError,
    other: BackfillError,
) where
    P: BlockReader + StateProviderFactory,
    E: ConfigureEvm<P::Snapshot, <P as BlockReader>::Transaction>,

    requires
        thresholds.max_duration is None,
        failure_of(thresholds, evm, provider, start, len, report),
    ensures
        !segment_of(thresholds, evm, provider, start, len, chain),
        failure_of(thresholds, evm, provider, start, len, other) ==> other == report,
{
    if fresh_executor(evm, provider, start) is Ok {
        let k = (report.block_number - start) as nat;
        if segment_of(thresholds, evm, provider, start, len, chain) {
            let n = chain.spec_blocks().len();
            if k < n {
                assert(step_ok(evm, provider, start, k));
            }
            assert(!counters_end(thresholds, evm, provider, start, n));
        }
        if failure_of(thresholds, evm, provider, start, len, other) {
            let j = (other.block_number - start) as nat;
            if j < k {
                assert(step_ok(evm, provider, start, j));
            }
            if k < j {
                assert(step_ok(evm, provider, start, k));
            }
        }
    }
}

/// Whether two runs of readings of the clock agree as far as both go.
pub open spec fn readings_agree(one: Seq<u128>, other: Seq<u128>) -> bool {
    forall|i: int| 0 <= i < one.len() && i < other.len() ==> one[i] == other[i]
}

/// Where a batch ends is a function of the limits, of what the blocks are,
/// and of what the clock reads.
///
/// Let a batch give a segment under some readings of the clock. Under
/// readings that agree with them as far as both go, it gives a segment of
/// the same blocks, results and changes, and it cannot fail.
pub proof fn law_readings_decide_the_batch<E, P>(
    thresholds: &ExecutionStageThresholds,
    evm: &E,
    provider: &P,
    start: u64,
    len: nat,
    one: Chain<P::Transaction, ReceiptOf<E, P>, BundleOf<E, P>>,
    readings: Seq<u128>,
    other: Chain<P::Transaction, ReceiptOf<E, P>, BundleOf<E, P>>,
    report: BackfillError,
    others: Seq<u128>,
) where
    P: BlockReader + StateProviderFactory,
    E: ConfigureEvm<P::Snapshot, <P as BlockReader>::Transaction>,

    requires
        timed_segment_of(thresholds, evm, provider, start, len, one, readings),
        readings_agree(readings, others),
    ensures
        !timed_failure_of(thresholds, evm, provider, start, len, report, others),
        timed_segment_of(thresholds, evm, provider, start, len, other, others) ==> {
            &&& one.spec_blocks() == other.spec_blocks()
            &&& one.spec_execution_outcome().first_block
                == other.spec_execution_outcome().first_block
            &&& one.spec_execution_outcome().results@ == other.spec_execution_outcome().results@
            &&& one.spec_execution_outcome().bundle == other.spec_execution_outcome().bundle
            &&& readings == others
        },
{
    let n = one.spec_blocks().len();
    if timed_failure_of(thresholds, evm, provider, start, len, report, others) {
        let k = (report.block_number - start) as nat;
        if k < n {
            assert(step_ok(evm, provider, start, k));
        }
        assert(!ends_at(thresholds, evm, provider, start, n, others[n - 1]));
        assert(readings[n - 1] == others[n - 1]);
    }
    if timed_segment_of(thresholds, evm, provider, start, len, other, others) {
        let m = other.spec_blocks().len();
        if n < m {
            assert(!ends_at(thresholds, evm, provider, start, n, others[n - 1]));
            assert(readings[n - 1] == others[n - 1]);
        }
        if m < n {
            assert(!ends_at(thresholds, evm, provider, start, m, readings[m - 1]));
            assert(readings[m - 1] == others[m - 1]);
        }
        assert(readings =~= others);
    }
}

/// The segments of a replay hold the blocks of the range, each once and in
/// ascending order, however the range was cut into pieces. This needs
/// nothing of the environment: the blocks are what the provider has.
pub proof fn law_pieces_hold_the_blocks<E, P>(
    evm: &E,
    provider: &P,
    start: u64,
    len: nat,
    chains: Seq<Chain<P::Transaction, ReceiptOf<E, P>, BundleOf<E, P>>>,
    i: nat,
) where
    P: BlockReader + StateProviderFactory,
    E: ConfigureEvm<P::Snapshot, <P as BlockReader>::Transaction>,

    requires
        pieces(evm, provider, start, len, chains),
        i <= chains.len(),
    ensures
        blocks_before(chains, i) <= len,
        start + blocks_before(chains, i) <= u64::MAX + 1,
        blocks_through(chains, i) == blocks_of(provider, start, blocks_before(chains, i)),
        forall|p: int|
            0 <= p < blocks_before(chains, i) ==> (#[trigger] blocks_through(
                chains,
                i,
            )[p]).spec_header().number == start + p,
    decreases i,
{
    if i == 0 {
        assert(blocks_through(chains, 0) =~= blocks_of(provider, start, 0));
    } else {
        let j = (i - 1) as nat;
        law_pieces_hold_the_blocks(evm, provider, start, len, chains, j);
        let m = blocks_before(chains, j);
        let chain = chains[j as int];
        let k = chain.spec_blocks().len();
        let mid = (start + m) as u64;
        assert(piece_at(evm, provider, start, len, chains, j));
        // The last block of the piece has a number, so the piece ends
        // within the block numbers that there are.
        assert(chain.spec_blocks()[k - 1].spec_header().number == mid + k - 1);
        assert forall|p: int| 0 <= p < k implies block_at(provider, mid, p) == block_at(
            provider,
            start,
            m + p,
        ) by {
            lemma_same_block(provider, start, m, p as nat);
        }
        assert(blocks_through(chains, i) =~= blocks_of(provider, start, m + k));
        assert(blocks_through(chains, i).len() == m + k);
        assert forall|p: int| 0 <= p < m + k implies (#[trigger] blocks_through(
            chains,
            i,
        )[p]).spec_header().number == start + p by {
            if p >= m {
                assert(blocks_through(chains, i)[p] == chain.spec_blocks()[p - m]);
            } else {
                assert(blocks_through(chains, i)[p] == blocks_through(chains, j)[p]);
            }
        }
    }
}

/// Two replays of the same blocks hold the same blocks, whatever the
/// limits of either were and however either was cut into pieces: only the
/// grouping differs. This needs nothing of the environment.
pub proof fn law_grouping_keeps_blocks<E, P>(
    evm: &E,
    provider: &P,
    start: u64,
    len: nat,
    one: Seq<Chain<P::Transaction, ReceiptOf<E, P>, BundleOf<E, P>>>,
    other: Seq<Chain<P::Transaction, ReceiptOf<E, P>, BundleOf<E, P>>>,
) where
    P: BlockReader + StateProviderFactory,
    E: ConfigureEvm<P::Snapshot, <P as BlockReader>::Transaction>,

    requires
        pieces(evm, provider, start, len, one),
        blocks_before(one, one.len()) == len,
        pieces(evm, provider, start, len, other),
        blocks_before(other, other.len()) == len,
    ensures
        blocks_through(one, one.len()) == blocks_through(other, other.len()),
        blocks_through(one, one.len()) == blocks_of(provider, start, len),
{
    law_pieces_hold_the_blocks(evm, provider, start, len, one, one.len());
    law_pieces_hold_the_blocks(evm, provider, start, len, other, other.len());
}

/// A block that goes through by itself is the block that the segments of
/// a replay hold at its place. This needs nothing of the environment.
pub proof fn law_single_and_batched_blocks_agree<E, P>(
    evm: &E,
    provider: &P,
    start: u64,
    len: nat,
    chains: Seq<Chain<P::Transaction, ReceiptOf<E, P>, BundleOf<E, P>>>,
    i: nat,
) where
    P: BlockReader + StateProviderFactory,
    E: ConfigureEvm<P::Snapshot, <P as BlockReader>::Transaction>,

    requires
        pieces(evm, provider, start, len, chains),
        blocks_before(chains, chains.len()) == len,
        i < len,
    ensures
        fetch(provider, (start + i) as u64) is Ok,
        single_block(evm, provider, (start + i) as u64) matches Ok(item) ==> item.0
            == blocks_through(chains, chains.len())[i as int],
        single_block(evm, provider, (start + i) as u64) is Ok <==> fresh_executor(
            evm,
            provider,
            (start + i) as u64,
        ) is Ok && result_at(evm, provider, (start + i) as u64, 0) is Ok,
{
    law_pieces_hold_the_blocks(evm, provider, start, len, chains, chains.len());
    lemma_covered(evm, provider, start, len, chains, chains.len(), i);
    lemma_same_block(provider, start, i, 0);
}

/// Every block that the first `i` pieces of a replay cover is there to be
/// fetched.
pub proof fn lemma_covered<E, P>(
    evm: &E,
    provider: &P,
    start: u64,
    len: nat,
    chains: Seq<Chain<P::Transaction, ReceiptOf<E, P>, BundleOf<E, P>>>,
    i: nat,
    p: nat,
) where
    P: BlockReader + StateProviderFactory,
    E: ConfigureEvm<P::Snapshot, <P as BlockReader>::Transaction>,

    requires
        pieces(evm, provider, start, len, chains),
        i <= chains.len(),
        p < blocks_before(chains, i),
    ensures
        fetch(provider, (start + p) as u64) is Ok,
    decreases i,
{
    let j = (i - 1) as nat;
    let m = blocks_before(chains, j);
    if p < m {
        lemma_covered(evm, provider, start, len, chains, j, p);
    } else {
        assert(piece_at(evm, provider, start, len, chains, j));
        let mid = (start + m) as u64;
        assert(step_ok(evm, provider, mid, (p - m) as nat));
    }
}

} // verus!
