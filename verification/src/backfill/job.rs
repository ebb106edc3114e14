//! Backfill jobs: a range of blocks, replayed from the left.
use crate::backfill::model::{
    block_at, blocks_of, bundle_of, counters_end, executor_after, failure_at, failure_at_start,
    fetch, fresh_executor, gas_after, no_end_before, prefix_ok, result_at, results_of, step_ok,
    BundleOf, ReceiptOf,
};
use crate::backfill::stream::{StreamBackfillJob, Window};
use crate::block::{RecoveredBlock, SealedBlock, TransactionVariant};
use crate::chain::{Chain, ExecutionOutcome};
use crate::clock::{elapsed, nanos, now};
use crate::error::{BackfillError, BackfillJobResult, BlockExecutionError, ProviderError};
use crate::evm::{
    execute, spec_execute, BlockExecutionOutput, BlockExecutionResult, ConfigureEvm, Executor,
};
use crate::provider::{BlockReader, StateProviderFactory};
use crate::prune::PruneModes;
use crate::range;
use crate::range::{end_of, is_empty_range, start_of, BlockNumber};
use crate::thresholds::ExecutionStageThresholds;
use core::ops::RangeInclusive;
use vstd::prelude::*;

verus! {

/// A backfill job over a range of blocks.
///
/// Each call of [`BackfillJob::next`] executes one batch, as long as the
/// limits let it be, and hands out the chain segment of that batch. The job
/// remembers nothing but the range that is left.
#[derive(Debug)]
pub struct BackfillJob<E, P> {
    pub(crate) evm_config: E,
    pub(crate) provider: P,
    pub(crate) prune_modes: PruneModes,
    pub(crate) thresholds: ExecutionStageThresholds,
    pub(crate) range: RangeInclusive<BlockNumber>,
    pub(crate) stream_parallelism: usize,
}

/// Whether `chain` holds what a batch from `start` gives that gets through
/// as many blocks as the chain holds: those blocks, their results, and the
/// changes that they made together.
pub open spec fn replay_of<E, P>(
    evm: &E,
    provider: &P,
    start: u64,
    chain: Chain<P::Transaction, ReceiptOf<E, P>, BundleOf<E, P>>,
) -> bool where
    P: BlockReader + StateProviderFactory,
    E: ConfigureEvm<P::Snapshot, <P as BlockReader>::Transaction>,
 {
    let n = chain.spec_blocks().len();
    &&& chain.wf()
    &&& prefix_ok(evm, provider, start, n)
    &&& chain.spec_blocks() == blocks_of(provider, start, n)
    &&& chain.spec_execution_outcome().first_block == start
    &&& chain.spec_execution_outcome().results@ == results_of(evm, provider, start, n)
    &&& chain.spec_execution_outcome().bundle == bundle_of(evm, provider, start, n)
}

/// Whether `chain` is the segment that a batch from `start` may give when
/// `len` blocks are left.
///
/// A segment of `n` blocks says that the batch got through its first `n`
/// blocks, that no limit on blocks, changes or gas ended it earlier, and
/// that it ended where it did for a reason: the range was done, such a limit
/// was reached, or a time limit is set.
pub open spec fn segment_of<E, P>(
    thresholds: &ExecutionStageThresholds,
    evm: &E,
    provider: &P,
    start: u64,
    len: nat,
    chain: Chain<P::Transaction, ReceiptOf<E, P>, BundleOf<E, P>>,
) -> bool where
    P: BlockReader + StateProviderFactory,
    E: ConfigureEvm<P::Snapshot, <P as BlockReader>::Transaction>,
 {
    let n = chain.spec_blocks().len();
    &&& 1 <= n <= len
    &&& replay_of(evm, provider, start, chain)
    &&& no_end_before(thresholds, evm, provider, start, n)
    &&& (n == len || counters_end(thresholds, evm, provider, start, n)
        || thresholds.max_duration is Some)
}

/// Whether `report` is the failure that a batch from `start` may end in
/// when `len` blocks are left.
///
/// Either the state that the batch starts from cannot be had; or the batch
/// got through every block before the one that the report names, no limit
/// on blocks, changes or gas ended it on the way, and that block could not
/// be fetched or did not execute.
pub open spec fn failure_of<E, P>(
    thresholds: &ExecutionStageThresholds,
    evm: &E,
    provider: &P,
    start: u64,
    len: nat,
    report: BackfillError,
) -> bool where
    P: BlockReader + StateProviderFactory,
    E: ConfigureEvm<P::Snapshot, <P as BlockReader>::Transaction>,
 {
    if fresh_executor(evm, provider, start) is Err {
        report == failure_at_start(evm, provider, start)
    } else {
        let k = (report.block_number - start) as nat;
        &&& start <= report.block_number
        &&& k < len
        &&& prefix_ok(evm, provider, start, k)
        &&& no_end_before(thresholds, evm, provider, start, k + 1)
        &&& !step_ok(evm, provider, start, k)
        &&& report == failure_at(evm, provider, start, k)
    }
}

/// Whether `result` is what one batch over `range` may give.
pub open spec fn batch_result<E, P>(
    thresholds: &ExecutionStageThresholds,
    evm: &E,
    provider: &P,
    range: RangeInclusive<u64>,
    result: BackfillJobResult<Chain<P::Transaction, ReceiptOf<E, P>, BundleOf<E, P>>>,
) -> bool where
    P: BlockReader + StateProviderFactory,
    E: ConfigureEvm<P::Snapshot, <P as BlockReader>::Transaction>,
 {
    match result {
        Ok(chain) => segment_of(thresholds, evm, provider, range@.start, range::len(range), chain),
        Err(report) => failure_of(
            thresholds,
            evm,
            provider,
            range@.start,
            range::len(range),
            report,
        ),
    }
}

/// Whether the limits end a batch from `start` after its first `k` blocks,
/// when the clock reads `reading` nanoseconds since the batch began.
pub open spec fn ends_at<E, P>(
    thresholds: &ExecutionStageThresholds,
    evm: &E,
    provider: &P,
    start: u64,
    k: nat,
    reading: u128,
) -> bool where
    P: BlockReader + StateProviderFactory,
    E: ConfigureEvm<P::Snapshot, <P as BlockReader>::Transaction>,
 {
    counters_end(thresholds, evm, provider, start, k) || thresholds.duration_reached(reading)
}

/// Whether the limits let a batch from `start` go on after each of its
/// first `n` blocks, when `readings` are the readings of the clock after
/// each of them.
pub open spec fn goes_on_through<E, P>(
    thresholds: &ExecutionStageThresholds,
    evm: &E,
    provider: &P,
    start: u64,
    n: nat,
    readings: Seq<u128>,
) -> bool where
    P: BlockReader + StateProviderFactory,
    E: ConfigureEvm<P::Snapshot, <P as BlockReader>::Transaction>,
 {
    forall|k: nat|
        1 <= k <= n ==> !#[trigger] ends_at(thresholds, evm, provider, start, k, readings[k - 1])
}

/// Whether `chain` is the segment that a batch from `start` gives when
/// `len` blocks are left and the clock is read as `readings` say.
///
/// The clock is read once after each block. The batch ends with the first
/// block after which a limit is reached, by the counters or by that reading
/// of the clock, and with the last block of the range if none is.
pub open spec fn timed_segment_of<E, P>(
    thresholds: &ExecutionStageThresholds,
    evm: &E,
    provider: &P,
    start: u64,
    len: nat,
    chain: Chain<P::Transaction, ReceiptOf<E, P>, BundleOf<E, P>>,
    readings: Seq<u128>,
) -> bool where
    P: BlockReader + StateProviderFactory,
    E: ConfigureEvm<P::Snapshot, <P as BlockReader>::Transaction>,
 {
    let n = chain.spec_blocks().len();
    &&& 1 <= n <= len
    &&& replay_of(evm, provider, start, chain)
    &&& readings.len() == n
    &&& goes_on_through(thresholds, evm, provider, start, (n - 1) as nat, readings)
    &&& (n == len || ends_at(thresholds, evm, provider, start, n, readings[n - 1]))
}

/// Whether `report` is the failure that a batch from `start` ends in when
/// `len` blocks are left and the clock is read as `readings` say.
///
/// Either the state that the batch starts from cannot be had, and the clock
/// is not read; or the batch got through every block before the one that
/// the report names, the clock was read after each of them, no limit was
/// reached on the way, and that block could not be fetched or did not
/// execute.
pub open spec fn timed_failure_of<E, P>(
    thresholds: &ExecutionStageThresholds,
    evm: &E,
    provider: &P,
    start: u64,
    len: nat,
    report: BackfillError,
    readings: Seq<u128>,
) -> bool where
    P: BlockReader + StateProviderFactory,
    E: ConfigureEvm<P::Snapshot, <P as BlockReader>::Transaction>,
 {
    if fresh_executor(evm, provider, start) is Err {
        report == failure_at_start(evm, provider, start) && readings.len() == 0
    } else {
        let k = (report.block_number - start) as nat;
        &&& start <= report.block_number
        &&& k < len
        &&& readings.len() == k
        &&& prefix_ok(evm, provider, start, k)
        &&& goes_on_through(thresholds, evm, provider, start, k, readings)
        &&& !step_ok(evm, provider, start, k)
        &&& report == failure_at(evm, provider, start, k)
    }
}

/// Whether `result` is what one batch over `range` gives when the clock is
/// read as `readings` say.
pub open spec fn timed_batch_result<E, P>(
    thresholds: &ExecutionStageThresholds,
    evm: &E,
    provider: &P,
    range: RangeInclusive<u64>,
    result: BackfillJobResult<Chain<P::Transaction, ReceiptOf<E, P>, BundleOf<E, P>>>,
    readings: Seq<u128>,
) -> bool where
    P: BlockReader + StateProviderFactory,
    E: ConfigureEvm<P::Snapshot, <P as BlockReader>::Transaction>,
 {
    match result {
        Ok(chain) => timed_segment_of(
            thresholds,
            evm,
            provider,
            range@.start,
            range::len(range),
            chain,
            readings,
        ),
        Err(report) => timed_failure_of(
            thresholds,
            evm,
            provider,
            range@.start,
            range::len(range),
            report,
            readings,
        ),
    }
}

/// What a batch gives under some readings of the clock is something that
/// the batch may give: the readings can be left out of the account.
pub proof fn lemma_timed_is_batch_result<E, P>(
    thresholds: &ExecutionStageThresholds,
    evm: &E,
    provider: &P,
    range: RangeInclusive<u64>,
    result: BackfillJobResult<Chain<P::Transaction, ReceiptOf<E, P>, BundleOf<E, P>>>,
    readings: Seq<u128>,
) where
    P: BlockReader + StateProviderFactory,
    E: ConfigureEvm<P::Snapshot, <P as BlockReader>::Transaction>,

    requires
        timed_batch_result(thresholds, evm, provider, range, result, readings),
    ensures
        batch_result(thresholds, evm, provider, range, result),
{
    let start = range@.start;
    match result {
        Ok(chain) => {
            let n = chain.spec_blocks().len();
            assert forall|k: nat| 1 <= k < n implies !#[trigger] counters_end(
                thresholds,
                evm,
                provider,
                start,
                k,
            ) by {
                assert(!ends_at(thresholds, evm, provider, start, k, readings[k - 1]));
            }
        },
        Err(report) => {
            if fresh_executor(evm, provider, start) is Ok {
                let k = (report.block_number - start) as nat;
                assert forall|j: nat| 1 <= j < k + 1 implies !#[trigger] counters_end(
                    thresholds,
                    evm,
                    provider,
                    start,
                    j,
                ) by {
                    assert(!ends_at(thresholds, evm, provider, start, j, readings[j - 1]));
                }
            }
        },
    }
}

/// How many blocks the first `i` of `chains` hold together.
pub open spec fn blocks_before<T, R, S>(chains: Seq<Chain<T, R, S>>, i: nat) -> nat
    decreases i,
{
    if i == 0 {
        0
    } else {
        blocks_before(chains, (i - 1) as nat) + chains[i - 1].spec_blocks().len()
    }
}

/// Whether the segment at place `i` of `chains` is what a batch gives that
/// starts where the segments before it ended, when `len` blocks were to be
/// done from `start`.
pub open spec fn batch_at<E, P>(
    thresholds: &ExecutionStageThresholds,
    evm: &E,
    provider: &P,
    start: u64,
    len: nat,
    chains: Seq<Chain<P::Transaction, ReceiptOf<E, P>, BundleOf<E, P>>>,
    i: nat,
) -> bool where
    P: BlockReader + StateProviderFactory,
    E: ConfigureEvm<P::Snapshot, <P as BlockReader>::Transaction>,
 {
    &&& start + blocks_before(chains, i) <= u64::MAX
    &&& blocks_before(chains, i) < len
    &&& segment_of(
        thresholds,
        evm,
        provider,
        (start + blocks_before(chains, i)) as u64,
        (len - blocks_before(chains, i)) as nat,
        chains[i as int],
    )
}

/// Whether `chains` are the segments of batches that follow one another
/// from `start`, when `len` blocks are to be done: each batch starts where
/// the one before ended.
pub open spec fn batches<E, P>(
    thresholds: &ExecutionStageThresholds,
    evm: &E,
    provider: &P,
    start: u64,
    len: nat,
    chains: Seq<Chain<P::Transaction, ReceiptOf<E, P>, BundleOf<E, P>>>,
) -> bool where
    P: BlockReader + StateProviderFactory,
    E: ConfigureEvm<P::Snapshot, <P as BlockReader>::Transaction>,
 {
    forall|i: nat|
        i < chains.len() ==> #[trigger] batch_at(thresholds, evm, provider, start, len, chains, i)
}

/// Batches that follow one another, and one more that starts where the
/// last of them ended, are batches that follow one another.
pub proof fn lemma_batches_push<E, P>(
    thresholds: &ExecutionStageThresholds,
    evm: &E,
    provider: &P,
    start: u64,
    len: nat,
    done: Seq<Chain<P::Transaction, ReceiptOf<E, P>, BundleOf<E, P>>>,
    chain: Chain<P::Transaction, ReceiptOf<E, P>, BundleOf<E, P>>,
) where
    P: BlockReader + StateProviderFactory,
    E: ConfigureEvm<P::Snapshot, <P as BlockReader>::Transaction>,

    requires
        batches(thresholds, evm, provider, start, len, done),
        blocks_before(done, done.len()) < len,
        start + blocks_before(done, done.len()) <= u64::MAX,
        segment_of(
            thresholds,
            evm,
            provider,
            (start + blocks_before(done, done.len())) as u64,
            (len - blocks_before(done, done.len())) as nat,
            chain,
        ),
    ensures
        batches(thresholds, evm, provider, start, len, done.push(chain)),
        blocks_before(done.push(chain), done.len() + 1) == blocks_before(done, done.len())
            + chain.spec_blocks().len(),
{
    let grown = done.push(chain);
    assert forall|i: nat| i <= done.len() implies blocks_before(grown, i) == blocks_before(
        done,
        i,
    ) by {
        lemma_blocks_before_push(done, chain, i);
    }
    assert(grown[done.len() as int] == chain);
    assert forall|i: nat| i < grown.len() implies #[trigger] batch_at(
        thresholds,
        evm,
        provider,
        start,
        len,
        grown,
        i,
    ) by {
        if i < done.len() {
            assert(grown[i as int] == done[i as int]);
            assert(batch_at(thresholds, evm, provider, start, len, done, i));
        }
    }
}

/// What was counted before a segment was added is counted the same after.
pub proof fn lemma_blocks_before_push<T, R, S>(
    chains: Seq<Chain<T, R, S>>,
    chain: Chain<T, R, S>,
    i: nat,
)
    requires
        i <= chains.len(),
    ensures
        blocks_before(chains.push(chain), i) == blocks_before(chains, i),
    decreases i,
{
    if i > 0 {
        lemma_blocks_before_push(chains, chain, (i - 1) as nat);
    }
}

impl<E, P> BackfillJob<E, P> {
    /// The maker of executors.
    pub closed spec fn spec_evm_config(&self) -> E {
        self.evm_config
    }

    /// The provider of blocks and state.
    pub closed spec fn spec_provider(&self) -> P {
        self.provider
    }

    /// The pruning rules that the job was made with.
    pub closed spec fn spec_prune_modes(&self) -> PruneModes {
        self.prune_modes
    }

    /// The limits of a batch.
    pub closed spec fn spec_thresholds(&self) -> ExecutionStageThresholds {
        self.thresholds
    }

    /// The range that is left.
    pub closed spec fn spec_range(&self) -> RangeInclusive<u64> {
        self.range
    }

    /// How many lookups a stream made of this job may have in flight.
    pub closed spec fn spec_stream_parallelism(&self) -> usize {
        self.stream_parallelism
    }
}

impl<E, P> BackfillJob<E, P> where
    P: BlockReader + StateProviderFactory,
    E: ConfigureEvm<P::Snapshot, <P as BlockReader>::Transaction>,
 {
    /// A job over `range` with the given parts.
    pub(crate) fn new(
        evm_config: E,
        provider: P,
        prune_modes: PruneModes,
        thresholds: ExecutionStageThresholds,
        range: RangeInclusive<BlockNumber>,
        stream_parallelism: usize,
    ) -> (job: Self)
        ensures
            job.spec_evm_config() == evm_config,
            job.spec_provider() == provider,
            job.spec_prune_modes() == prune_modes,
            job.spec_thresholds() == thresholds,
            job.spec_range() == range,
            job.spec_stream_parallelism() == stream_parallelism,
    {
        BackfillJob { evm_config, provider, prune_modes, thresholds, range, stream_parallelism }
    }

    /// The range that is left.
    pub fn range(&self) -> (range: &RangeInclusive<BlockNumber>)
        ensures
            *range == self.spec_range(),
    {
        &self.range
    }

    /// The limits of a batch.
    pub fn thresholds(&self) -> (thresholds: ExecutionStageThresholds)
        ensures
            thresholds == self.spec_thresholds(),
    {
        self.thresholds
    }

    /// The pruning rules that the job was made with.
    pub fn prune_modes(&self) -> (prune_modes: PruneModes)
        ensures
            prune_modes == self.spec_prune_modes(),
    {
        self.prune_modes
    }

    /// How many lookups a stream made of this job may have in flight.
    pub fn stream_parallelism(&self) -> (parallelism: usize)
        ensures
            parallelism == self.spec_stream_parallelism(),
    {
        self.stream_parallelism
    }

    /// Executes the next batch.
    ///
    /// Returns `None` when the range is used up. A segment of `n` blocks
    /// takes the first `n` numbers off the range. After a failure the job is
    /// as it was, so the same batch can be tried again.
    pub fn next(&mut self) -> (item: Option<
        BackfillJobResult<Chain<P::Transaction, ReceiptOf<E, P>, BundleOf<E, P>>>,
    >)
        ensures
            item is None <==> range::is_empty(old(self).spec_range()),
            item is None ==> *final(self) == *old(self),
            item matches Some(result) ==> {
                &&& batch_result(
                    &old(self).spec_thresholds(),
                    &old(self).spec_evm_config(),
                    &old(self).spec_provider(),
                    old(self).spec_range(),
                    result,
                )
                &&& final(self).advanced_by(old(self), result)
            },
    {
        let (item, _) = self.next_timed();
        item
    }

    /// Executes the next batch, as [`BackfillJob::next`] does, and says
    /// what the clock read after each block of the batch, in nanoseconds
    /// since the batch began.
    ///
    /// The readings are what ends a batch under a time limit: the batch ends
    /// with the first block after which a limit on blocks, changes or gas is
    /// reached or the reading of the clock has reached the time limit.
    pub fn next_timed(&mut self) -> (timed: (
        Option<BackfillJobResult<Chain<P::Transaction, ReceiptOf<E, P>, BundleOf<E, P>>>>,
        Ghost<Seq<u128>>,
    ))
        ensures
            timed.0 is None <==> range::is_empty(old(self).spec_range()),
            timed.0 is None ==> *final(self) == *old(self) && timed.1@.len() == 0,
            timed.0 matches Some(result) ==> {
                &&& timed_batch_result(
                    &old(self).spec_thresholds(),
                    &old(self).spec_evm_config(),
                    &old(self).spec_provider(),
                    old(self).spec_range(),
                    result,
                    timed.1@,
                )
                &&& batch_result(
                    &old(self).spec_thresholds(),
                    &old(self).spec_evm_config(),
                    &old(self).spec_provider(),
                    old(self).spec_range(),
                    result,
                )
                &&& final(self).advanced_by(old(self), result)
            },
    {
        if is_empty_range(&self.range) {
            return (None, Ghost(Seq::empty()));
        }
        let (result, readings) = self.execute_range();
        (Some(result), readings)
    }

    /// Runs the job to its end and gathers the segments.
    ///
    /// The segments come in the order of their blocks, and together they
    /// hold every block of the range. The first batch that fails ends the
    /// run, and its report is all that is returned.
    pub fn collect(self) -> (result: Result<
        Vec<Chain<P::Transaction, ReceiptOf<E, P>, BundleOf<E, P>>>,
        BackfillError,
    >)
        ensures
            match result {
                Ok(chains) => {
                    &&& batches(
                        &self.spec_thresholds(),
                        &self.spec_evm_config(),
                        &self.spec_provider(),
                        self.spec_range()@.start,
                        range::len(self.spec_range()),
                        chains@,
                    )
                    &&& blocks_before(chains@, chains@.len()) == range::len(self.spec_range())
                },
                Err(report) => exists|done: Seq<
                    Chain<P::Transaction, ReceiptOf<E, P>, BundleOf<E, P>>,
                >|
                    {
                        let used = blocks_before(done, done.len());
                        &&& #[trigger] batches(
                            &self.spec_thresholds(),
                            &self.spec_evm_config(),
                            &self.spec_provider(),
                            self.spec_range()@.start,
                            range::len(self.spec_range()),
                            done,
                        )
                        &&& used < range::len(self.spec_range())
                        &&& failure_of(
                            &self.spec_thresholds(),
                            &self.spec_evm_config(),
                            &self.spec_provider(),
                            (self.spec_range()@.start + used) as u64,
                            (range::len(self.spec_range()) - used) as nat,
                            report,
                        )
                    },
            },
    {
        let ghost start = self.range@.start;
        let ghost len = range::len(self.range);
        let ghost evm = self.evm_config;
        let ghost provider = self.provider;
        let ghost thresholds = self.thresholds;
        let mut job = self;
        let mut chains: Vec<Chain<P::Transaction, ReceiptOf<E, P>, BundleOf<E, P>>> = Vec::new();
        loop
            invariant
                start == self.spec_range()@.start,
                len == range::len(self.spec_range()),
                evm == self.spec_evm_config(),
                provider == self.spec_provider(),
                thresholds == self.spec_thresholds(),
                job.evm_config == evm,
                job.provider == provider,
                job.thresholds == thresholds,
                blocks_before(chains@, chains@.len()) <= len,
                range::len(job.range) == len - blocks_before(chains@, chains@.len()),
                range::len(job.range) > 0 ==> job.range@.start == start + blocks_before(
                    chains@,
                    chains@.len(),
                ),
                batches(&thresholds, &evm, &provider, start, len, chains@),
            decreases range::len(job.range),
        {
            let ghost before = job;
            let ghost done = chains@;
            let ghost used = blocks_before(done, done.len());
            match job.next() {
                None => {
                    return Ok(chains);
                },
                Some(Err(report)) => {
                    proof {
                        assert(batches(&thresholds, &evm, &provider, start, len, done));
                    }
                    return Err(report);
                },
                Some(Ok(chain)) => {
                    proof {
                        range::lemma_taken(before.range, job.range, chain.spec_blocks().len());
                        lemma_batches_push(&thresholds, &evm, &provider, start, len, done, chain);
                    }
                    chains.push(chain);
                },
            }
        }
    }

    /// How the job is left by a batch that gave `result`: a segment of `n`
    /// blocks takes the first `n` numbers off the range and leaves the rest
    /// of the job alone; a failure leaves all of it alone.
    pub open spec fn advanced_by(
        &self,
        before: &Self,
        result: BackfillJobResult<Chain<P::Transaction, ReceiptOf<E, P>, BundleOf<E, P>>>,
    ) -> bool {
        match result {
            Ok(chain) => {
                let n = chain.spec_blocks().len();
                &&& range::numbers(self.spec_range()) == range::numbers(before.spec_range()).skip(
                    n as int,
                )
                &&& before.spec_range()@.start + n <= u64::MAX ==> self.spec_range()@.start
                    == before.spec_range()@.start + n && self.spec_range()@.end
                    == before.spec_range()@.end
                &&& self.spec_evm_config() == before.spec_evm_config()
                &&& self.spec_provider() == before.spec_provider()
                &&& self.spec_prune_modes() == before.spec_prune_modes()
                &&& self.spec_thresholds() == before.spec_thresholds()
                &&& self.spec_stream_parallelism() == before.spec_stream_parallelism()
            },
            Err(_) => *self == *before,
        }
    }

    /// Executes one batch from the start of the range, and says what the
    /// clock read after each block, in nanoseconds since the batch began.
    ///
    /// The state as of the parent of the first block is fetched once. Then
    /// each block in turn is fetched and executed on the one executor, and
    /// after each block the clock is read and the limits are looked at: the
    /// block that reaches a limit is the last of its batch.
    pub fn execute_range(&mut self) -> (outcome: (
        BackfillJobResult<Chain<P::Transaction, ReceiptOf<E, P>, BundleOf<E, P>>>,
        Ghost<Seq<u128>>,
    ))
        requires
            !range::is_empty(old(self).spec_range()),
        ensures
            timed_batch_result(
                &old(self).spec_thresholds(),
                &old(self).spec_evm_config(),
                &old(self).spec_provider(),
                old(self).spec_range(),
                outcome.0,
                outcome.1@,
            ),
            batch_result(
                &old(self).spec_thresholds(),
                &old(self).spec_evm_config(),
                &old(self).spec_provider(),
                old(self).spec_range(),
                outcome.0,
            ),
            final(self).advanced_by(old(self), outcome.0),
    {
        let start = start_of(&self.range);
        let end = end_of(&self.range);
        let ghost evm = self.evm_config;
        let ghost provider = self.provider;
        let ghost thresholds = self.thresholds;

        let db = match self.provider.history_by_block_number(start.saturating_sub(1)) {
            Ok(db) => db,
            Err(error) => {
                let report = BackfillError {
                    error: BlockExecutionError::other(error),
                    block_number: start,
                    blocks_attempted: 0,
                    cumulative_gas: 0,
                };
                return (Err(report), Ghost(Seq::empty()));
            },
        };
        let mut executor = self.evm_config.batch_executor(db);

        let mut cumulative_gas: u64 = 0;
        let batch_start = now();
        let mut readings: Ghost<Seq<u128>> = Ghost(Seq::empty());

        let mut blocks: Vec<RecoveredBlock<P::Transaction>> = Vec::new();
        let mut results: Vec<BlockExecutionResult<ReceiptOf<E, P>>> = Vec::new();
        let mut block_number: u64 = start;
        loop
            invariant_except_break
                blocks@.len() == block_number - start,
                goes_on_through(&thresholds, &evm, &provider, start, blocks@.len(), readings@),
            invariant
                *self == *old(self),
                evm == self.evm_config,
                provider == self.provider,
                thresholds == self.thresholds,
                start == self.range@.start,
                end == self.range@.end,
                !self.range@.exhausted,
                start <= block_number <= end,
                fresh_executor(&evm, &provider, start) is Ok,
                blocks@.len() <= block_number - start + 1,
                blocks@ == blocks_of(&provider, start, blocks@.len()),
                results@ == results_of(&evm, &provider, start, blocks@.len()),
                executor == executor_after(&evm, &provider, start, blocks@.len()),
                cumulative_gas == gas_after(&provider, start, blocks@.len()),
                prefix_ok(&evm, &provider, start, blocks@.len()),
                readings@.len() == blocks@.len(),
                forall|i: int|
                    0 <= i < blocks@.len() ==> (#[trigger] blocks@[i]).spec_header().number == start
                        + i,
            ensures
                blocks@.len() == block_number - start + 1,
                goes_on_through(
                    &thresholds,
                    &evm,
                    &provider,
                    start,
                    (blocks@.len() - 1) as nat,
                    readings@,
                ),
                block_number == end || ends_at(
                    &thresholds,
                    &evm,
                    &provider,
                    start,
                    blocks@.len(),
                    readings@[blocks@.len() - 1],
                ),
            decreases end - block_number,
        {
            let ghost k = blocks@.len();
            // The transactions are needed together with their hashes.
            let block = match self.provider.sealed_block_with_senders(
                block_number,
                TransactionVariant::WithHash,
            ) {
                Ok(Some(block)) => block,
                Ok(None) => {
                    let report = BackfillError {
                        error: BlockExecutionError::other(
                            ProviderError::HeaderNotFound(block_number),
                        ),
                        block_number,
                        blocks_attempted: blocks.len() as u64,
                        cumulative_gas,
                    };
                    proof {
                        lemma_timed_is_batch_result(
                            &thresholds,
                            &evm,
                            &provider,
                            old(self).range,
                            Err::<Chain<P::Transaction, ReceiptOf<E, P>, BundleOf<E, P>>, _>(report),
                            readings@,
                        );
                    }
                    return (Err(report), readings);
                },
                Err(error) => {
                    let report = BackfillError {
                        error: BlockExecutionError::other(error),
                        block_number,
                        blocks_attempted: blocks.len() as u64,
                        cumulative_gas,
                    };
                    proof {
                        lemma_timed_is_batch_result(
                            &thresholds,
                            &evm,
                            &provider,
                            old(self).range,
                            Err::<Chain<P::Transaction, ReceiptOf<E, P>, BundleOf<E, P>>, _>(report),
                            readings@,
                        );
                    }
                    return (Err(report), readings);
                },
            };
            let found = block.number();
            if found != block_number {
                let report = BackfillError {
                    error: BlockExecutionError::other(
                        ProviderError::UnexpectedBlock { requested: block_number, found },
                    ),
                    block_number,
                    blocks_attempted: blocks.len() as u64,
                    cumulative_gas,
                };
                proof {
                    lemma_timed_is_batch_result(
                        &thresholds,
                        &evm,
                        &provider,
                        old(self).range,
                        Err::<Chain<P::Transaction, ReceiptOf<E, P>, BundleOf<E, P>>, _>(report),
                        readings@,
                    );
                }
                return (Err(report), readings);
            }
            assert(fetch(&provider, block_number) == Ok::<_, BlockExecutionError>(block));
            assert(block == block_at(&provider, start, k as int));

            cumulative_gas = cumulative_gas.saturating_add(block.gas_used());
            assert(cumulative_gas == gas_after(&provider, start, k + 1));

            // The block is taken apart for execution and sealed again.
            let ghost fetched = block;
            let (sealed, senders) = block.split_sealed();
            let (header, body) = sealed.split_sealed_header_body();
            let sealed = SealedBlock::new_sealed(header, body);
            proof {
                sealed.lemma_same_parts(fetched.spec_sealed_block());
            }
            let block = sealed.with_senders(senders);
            proof {
                block.lemma_same_parts(fetched);
            }

            let ghost before = executor;
            match executor.execute_one(&block) {
                Ok(result) => {
                    results.push(result);
                },
                Err(error) => {
                    assert(result_at(&evm, &provider, start, k) == Err::<
                        BlockExecutionResult<ReceiptOf<E, P>>,
                        _,
                    >(error));
                    let report = BackfillError {
                        error,
                        block_number,
                        blocks_attempted: (block_number - start).saturating_add(1),
                        cumulative_gas,
                    };
                    proof {
                        lemma_timed_is_batch_result(
                            &thresholds,
                            &evm,
                            &provider,
                            old(self).range,
                            Err::<Chain<P::Transaction, ReceiptOf<E, P>, BundleOf<E, P>>, _>(report),
                            readings@,
                        );
                    }
                    return (Err(report), readings);
                },
            }
            blocks.push(block);

            proof {
                assert(step_ok(&evm, &provider, start, k));
                assert(executor == executor_after(&evm, &provider, start, k + 1));
                assert(blocks@ =~= blocks_of(&provider, start, k + 1));
                assert(results@ =~= results_of(&evm, &provider, start, k + 1));
            }

            // The clock is read and the limits are looked at after the block:
            // the block stays in the batch.
            let time = elapsed(&batch_start);
            let ghost earlier = readings@;
            proof {
                readings@ = earlier.push(nanos(time));
                assert forall|j: nat| 1 <= j <= k implies !#[trigger] ends_at(
                    &thresholds,
                    &evm,
                    &provider,
                    start,
                    j,
                    readings@[j - 1],
                ) by {
                    assert(readings@[j - 1] == earlier[j - 1]);
                    assert(!ends_at(&thresholds, &evm, &provider, start, j, earlier[j - 1]));
                }
            }
            let ends = self.thresholds.is_end_of_batch(
                blocks.len() as u64,
                executor.size_hint() as u64,
                cumulative_gas,
                time,
            );
            assert(ends == ends_at(&thresholds, &evm, &provider, start, k + 1, readings@[k as int]));
            if ends || block_number == end {
                break ;
            }
            block_number = block_number + 1;
        }

        let ghost n = blocks@.len();
        self.range = range::after(block_number, end);
        proof {
            range::lemma_numbers_after(old(self).range, n, self.range);
        }

        let outcome = ExecutionOutcome::from_blocks(start, executor.into_state(), results);
        let chain = Chain::new(blocks, outcome);
        proof {
            lemma_timed_is_batch_result(
                &thresholds,
                &evm,
                &provider,
                old(self).range,
                Ok::<_, BackfillError>(chain),
                readings@,
            );
        }
        (Ok(chain), readings)
    }
}

/// A backfill job that hands out one block at a time.
///
/// Each block is executed by itself, over the state as of its parent: no
/// block sees what an executor holds from the block before. The limits of a
/// batch have no say here.
#[derive(Debug, Clone)]
pub struct SingleBlockBackfillJob<E, P> {
    pub(crate) evm_config: E,
    pub(crate) provider: P,
    pub(crate) range: RangeInclusive<BlockNumber>,
    pub(crate) stream_parallelism: usize,
}

/// What executing block `number` by itself gives: the block and the output
/// of its execution over the state as of its parent. The block is fetched
/// first, then the state.
pub open spec fn single_block<E, P>(evm: &E, provider: &P, number: u64) -> BackfillJobResult<
    (RecoveredBlock<P::Transaction>, BlockExecutionOutput<ReceiptOf<E, P>, BundleOf<E, P>>),
> where
    P: BlockReader + StateProviderFactory,
    E: ConfigureEvm<P::Snapshot, <P as BlockReader>::Transaction>,
 {
    match fetch(provider, number) {
        Err(error) => Err(
            BackfillError { error, block_number: number, blocks_attempted: 0, cumulative_gas: 0 },
        ),
        Ok(block) => match fresh_executor(evm, provider, number) {
            Err(error) => Err(
                BackfillError {
                    error,
                    block_number: number,
                    blocks_attempted: 0,
                    cumulative_gas: block.spec_gas_used(),
                },
            ),
            Ok(executor) => match spec_execute(executor, &block) {
                Err(error) => Err(
                    BackfillError {
                        error,
                        block_number: number,
                        blocks_attempted: 1,
                        cumulative_gas: block.spec_gas_used(),
                    },
                ),
                Ok(output) => Ok((block, output)),
            },
        },
    }
}

impl<E, P> SingleBlockBackfillJob<E, P> {
    /// The maker of executors.
    pub closed spec fn spec_evm_config(&self) -> E {
        self.evm_config
    }

    /// The provider of blocks and state.
    pub closed spec fn spec_provider(&self) -> P {
        self.provider
    }

    /// The range that is left.
    pub closed spec fn spec_range(&self) -> RangeInclusive<u64> {
        self.range
    }

    /// How many lookups a stream made of this job may have in flight.
    pub closed spec fn spec_stream_parallelism(&self) -> usize {
        self.stream_parallelism
    }
}

impl<E, P> SingleBlockBackfillJob<E, P> where
    P: BlockReader + StateProviderFactory,
    E: ConfigureEvm<P::Snapshot, <P as BlockReader>::Transaction>,
 {
    /// The range that is left.
    pub fn range(&self) -> (range: &RangeInclusive<BlockNumber>)
        ensures
            *range == self.spec_range(),
    {
        &self.range
    }

    /// How the job is left by a block that went `through` or did not: a
    /// block that went through is taken off the range, and the rest of the
    /// job is left alone; a failure leaves all of it alone.
    pub open spec fn advanced_by(&self, before: &Self, through: bool) -> bool {
        if through {
            &&& range::numbers(self.spec_range()) == range::numbers(before.spec_range()).skip(1)
            &&& before.spec_range()@.start < u64::MAX ==> self.spec_range()@.start
                == before.spec_range()@.start + 1 && self.spec_range()@.end
                == before.spec_range()@.end
            &&& self.spec_evm_config() == before.spec_evm_config()
            &&& self.spec_provider() == before.spec_provider()
            &&& self.spec_stream_parallelism() == before.spec_stream_parallelism()
        } else {
            *self == *before
        }
    }

    /// Turns the job into a stream with lookups ahead of execution, as
    /// many in flight as the job was made for.
    pub fn into_stream(self) -> (stream: StreamBackfillJob<SingleBlockBackfillJob<E, P>>)
        ensures
            stream.spec_job() == self,
            stream.spec_window() == (Window {
                parallelism: self.spec_stream_parallelism(),
                in_flight: 0,
                cursor: 0,
                at_end: false,
            }),
    {
        let parallelism = self.stream_parallelism;
        StreamBackfillJob::new(self, parallelism)
    }

    /// Executes the first block of the range.
    ///
    /// Returns `None` when the range is used up. A block that went through
    /// is taken off the range. After a failure the job is as it was, so the
    /// same block can be tried again.
    pub fn next(&mut self) -> (item: Option<
        BackfillJobResult<
            (RecoveredBlock<P::Transaction>, BlockExecutionOutput<ReceiptOf<E, P>, BundleOf<E, P>>),
        >,
    >)
        ensures
            item is None <==> range::is_empty(old(self).spec_range()),
            item is None ==> *final(self) == *old(self),
            item matches Some(result) ==> {
                &&& result == single_block(
                    &old(self).spec_evm_config(),
                    &old(self).spec_provider(),
                    old(self).spec_range()@.start,
                )
                &&& final(self).advanced_by(old(self), result is Ok)
            },
    {
        if is_empty_range(&self.range) {
            return None;
        }
        let block_number = start_of(&self.range);
        let end = end_of(&self.range);
        let result = self.execute_block(block_number);
        if result.is_ok() {
            self.range = range::after(block_number, end);
            proof {
                range::lemma_numbers_after(old(self).range, 1, self.range);
            }
        }
        Some(result)
    }

    /// Runs the job to its end and gathers the blocks with their outputs,
    /// one for each number of the range, in ascending order. The first block
    /// that fails ends the run, and its report is all that is returned.
    pub fn collect(self) -> (result: Result<
        Vec<
            (RecoveredBlock<P::Transaction>, BlockExecutionOutput<ReceiptOf<E, P>, BundleOf<E, P>>),
        >,
        BackfillError,
    >)
        ensures
            match result {
                Ok(items) => {
                    &&& items@.len() == range::len(self.spec_range())
                    &&& forall|i: int|
                        0 <= i < items@.len() ==> single_block(
                            &self.spec_evm_config(),
                            &self.spec_provider(),
                            (self.spec_range()@.start + i) as u64,
                        ) == Ok::<_, BackfillError>(#[trigger] items@[i])
                },
                Err(report) => {
                    let failed = report.block_number - self.spec_range()@.start;
                    &&& 0 <= failed < range::len(self.spec_range())
                    &&& forall|i: int|
                        0 <= i < failed ==> (#[trigger] single_block(
                            &self.spec_evm_config(),
                            &self.spec_provider(),
                            (self.spec_range()@.start + i) as u64,
                        )) is Ok
                    &&& single_block(
                        &self.spec_evm_config(),
                        &self.spec_provider(),
                        report.block_number,
                    ) == Err::<
                        (
                            RecoveredBlock<P::Transaction>,
                            BlockExecutionOutput<ReceiptOf<E, P>, BundleOf<E, P>>,
                        ),
                        _,
                    >(report)
                },
            },
    {
        let ghost start = self.range@.start;
        let ghost len = range::len(self.range);
        let ghost evm = self.evm_config;
        let ghost provider = self.provider;
        let mut job = self;
        let mut items: Vec<
            (RecoveredBlock<P::Transaction>, BlockExecutionOutput<ReceiptOf<E, P>, BundleOf<E, P>>),
        > = Vec::new();
        loop
            invariant
                start == self.spec_range()@.start,
                len == range::len(self.spec_range()),
                evm == self.spec_evm_config(),
                provider == self.spec_provider(),
                job.evm_config == evm,
                job.provider == provider,
                items@.len() <= len,
                range::len(job.range) == len - items@.len(),
                range::len(job.range) > 0 ==> job.range@.start == start + items@.len(),
                forall|i: int|
                    0 <= i < items@.len() ==> single_block(&evm, &provider, (start + i) as u64)
                        == Ok::<_, BackfillError>(#[trigger] items@[i]),
            decreases range::len(job.range),
        {
            let ghost before = job;
            match job.next() {
                None => {
                    return Ok(items);
                },
                Some(Err(report)) => {
                    proof {
                        let at = before.range@.start;
                        assert(single_block(&evm, &provider, at) == Err::<
                            (
                                RecoveredBlock<P::Transaction>,
                                BlockExecutionOutput<ReceiptOf<E, P>, BundleOf<E, P>>,
                            ),
                            _,
                        >(report));
                        assert(report.block_number == at);
                        assert forall|i: int| 0 <= i < items@.len() implies (#[trigger] single_block(
                            &evm,
                            &provider,
                            (start + i) as u64,
                        )) is Ok by {
                            assert(single_block(&evm, &provider, (start + i) as u64) == Ok::<
                                _,
                                BackfillError,
                            >(items@[i]));
                        }
                    }
                    return Err(report);
                },
                Some(Ok(item)) => {
                    proof {
                        range::lemma_taken(before.range, job.range, 1);
                    }
                    items.push(item);
                },
            }
        }
    }

    /// Executes block `block_number` by itself, over the state as of its
    /// parent.
    pub fn execute_block(&self, block_number: u64) -> (result: BackfillJobResult<
        (RecoveredBlock<P::Transaction>, BlockExecutionOutput<ReceiptOf<E, P>, BundleOf<E, P>>),
    >)
        ensures
            result == single_block(&self.spec_evm_config(), &self.spec_provider(), block_number),
    {
        // The block is fetched with its senders, for execution.
        let block_with_senders = match self.provider.recovered_block(
            block_number,
            TransactionVariant::WithHash,
        ) {
            Ok(Some(block)) => block,
            Ok(None) => {
                return Err(
                    BackfillError {
                        error: BlockExecutionError::other(
                            ProviderError::HeaderNotFound(block_number),
                        ),
                        block_number,
                        blocks_attempted: 0,
                        cumulative_gas: 0,
                    },
                );
            },
            Err(error) => {
                return Err(
                    BackfillError {
                        error: BlockExecutionError::other(error),
                        block_number,
                        blocks_attempted: 0,
                        cumulative_gas: 0,
                    },
                );
            },
        };
        let found = block_with_senders.number();
        if found != block_number {
            return Err(
                BackfillError {
                    error: BlockExecutionError::other(
                        ProviderError::UnexpectedBlock { requested: block_number, found },
                    ),
                    block_number,
                    blocks_attempted: 0,
                    cumulative_gas: 0,
                },
            );
        }
        let gas = block_with_senders.gas_used();

        // The executor reads the state that the block before left.
        let db = match self.provider.history_by_block_number(block_number.saturating_sub(1)) {
            Ok(db) => db,
            Err(error) => {
                return Err(
                    BackfillError {
                        error: BlockExecutionError::other(error),
                        block_number,
                        blocks_attempted: 0,
                        cumulative_gas: gas,
                    },
                );
            },
        };
        let executor = self.evm_config.batch_executor(db);

        match execute(executor, &block_with_senders) {
            Ok(block_execution_output) => Ok((block_with_senders, block_execution_output)),
            Err(error) => Err(
                BackfillError {
                    error,
                    block_number,
                    blocks_attempted: 1,
                    cumulative_gas: gas,
                },
            ),
        }
    }
}

impl<E, P> BackfillJob<E, P> where
    P: BlockReader + StateProviderFactory,
    E: ConfigureEvm<P::Snapshot, <P as BlockReader>::Transaction>,
 {
    /// Turns the job into a stream with lookups ahead of execution, as
    /// many in flight as the job was made for.
    pub fn into_stream(self) -> (stream: StreamBackfillJob<BackfillJob<E, P>>)
        ensures
            stream.spec_job() == self,
            stream.spec_window() == (Window {
                parallelism: self.spec_stream_parallelism(),
                in_flight: 0,
                cursor: 0,
                at_end: false,
            }),
    {
        let parallelism = self.stream_parallelism;
        StreamBackfillJob::new(self, parallelism)
    }

    /// Turns the job into one that hands out single blocks. The range that
    /// is left, the provider and the maker of executors go over as they
    /// are; blocks that were handed out before are not handed out again.
    pub fn into_single_blocks(self) -> (single: SingleBlockBackfillJob<E, P>)
        ensures
            single.spec_evm_config() == self.spec_evm_config(),
            single.spec_provider() == self.spec_provider(),
            single.spec_range() == self.spec_range(),
            single.spec_stream_parallelism() == self.spec_stream_parallelism(),
    {
        SingleBlockBackfillJob::from(self)
    }
}

impl<E, P> From<BackfillJob<E, P>> for SingleBlockBackfillJob<E, P> {
    /// The job that hands out single blocks over what `job` has left: the
    /// range, the provider, the maker of executors and the stream
    /// parallelism go over as they are; the limits and the pruning rules
    /// are dropped.
    fn from(job: BackfillJob<E, P>) -> (single: Self)
        ensures
            single.spec_evm_config() == job.spec_evm_config(),
            single.spec_provider() == job.spec_provider(),
            single.spec_range() == job.spec_range(),
            single.spec_stream_parallelism() == job.spec_stream_parallelism(),
    {
        SingleBlockBackfillJob {
            evm_config: job.evm_config,
            provider: job.provider,
            range: job.range,
            stream_parallelism: job.stream_parallelism,
        }
    }
}

impl<E, P> vstd::std_specs::convert::FromSpecImpl<BackfillJob<E, P>> for SingleBlockBackfillJob<E, P> {
    open spec fn obeys_from_spec() -> bool {
        true
    }

    closed spec fn from_spec(job: BackfillJob<E, P>) -> Self {
        SingleBlockBackfillJob {
            evm_config: job.evm_config,
            provider: job.provider,
            range: job.range,
            stream_parallelism: job.stream_parallelism,
        }
    }
}

} // verus!
