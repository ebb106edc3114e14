//! The maker of backfill jobs.
use crate::backfill::job::BackfillJob;
use crate::clock::{from_secs, nanos};
use crate::error::DegenerateThresholds;
use crate::evm::ConfigureEvm;
use crate::provider::{BlockReader, StateProviderFactory};
use crate::prune::PruneModes;
use crate::range::BlockNumber;
use crate::thresholds::{
    ExecutionStageThresholds, DEFAULT_MAX_BLOCKS, DEFAULT_MAX_CHANGES, DEFAULT_MAX_CUMULATIVE_GAS,
};
use core::ops::RangeInclusive;
use vstd::pervasive::cloned;
use vstd::prelude::*;

verus! {

/// How many lookups a stream has in flight, unless told otherwise.
pub const DEFAULT_PARALLELISM: usize = 4;

/// The longest time for one batch of a backfill job in seconds, unless told
/// otherwise. It is half of what a read of the database may take before it
/// counts as long-lived.
pub const DEFAULT_BACKFILL_DURATION_SECS: u64 = 30;

/// Makes backfill jobs that share one maker of executors, one provider,
/// and one set of pruning rules, limits and stream parallelism.
///
/// Configuring a factory gives a new factory; making a job leaves the
/// factory as it is.
#[derive(Debug, Clone)]
pub struct BackfillJobFactory<E, P> {
    evm_config: E,
    provider: P,
    prune_modes: PruneModes,
    thresholds: ExecutionStageThresholds,
    stream_parallelism: usize,
}

impl<E, P> BackfillJobFactory<E, P> {
    /// The maker of executors.
    pub closed spec fn spec_evm_config(&self) -> E {
        self.evm_config
    }

    /// The provider of blocks and state.
    pub closed spec fn spec_provider(&self) -> P {
        self.provider
    }

    /// The pruning rules.
    pub closed spec fn spec_prune_modes(&self) -> PruneModes {
        self.prune_modes
    }

    /// The limits of a batch.
    pub closed spec fn spec_thresholds(&self) -> ExecutionStageThresholds {
        self.thresholds
    }

    /// How many lookups a stream may have in flight.
    pub closed spec fn spec_stream_parallelism(&self) -> usize {
        self.stream_parallelism
    }

    /// A factory with no pruning, the usual limits on blocks, changes and
    /// gas, thirty seconds for a batch, and the usual stream parallelism.
    pub fn new(evm_config: E, provider: P) -> (factory: Self)
        ensures
            factory.spec_evm_config() == evm_config,
            factory.spec_provider() == provider,
            factory.spec_prune_modes().is_empty(),
            factory.spec_thresholds().max_blocks == Some(DEFAULT_MAX_BLOCKS),
            factory.spec_thresholds().max_changes == Some(DEFAULT_MAX_CHANGES),
            factory.spec_thresholds().max_cumulative_gas == Some(DEFAULT_MAX_CUMULATIVE_GAS),
            factory.spec_thresholds().max_duration matches Some(max) && nanos(max)
                == DEFAULT_BACKFILL_DURATION_SECS * 1_000_000_000,
            factory.spec_thresholds().non_degenerate(),
            factory.spec_stream_parallelism() == DEFAULT_PARALLELISM,
    {
        BackfillJobFactory {
            evm_config,
            provider,
            prune_modes: PruneModes::none(),
            thresholds: ExecutionStageThresholds {
                max_blocks: Some(DEFAULT_MAX_BLOCKS),
                max_changes: Some(DEFAULT_MAX_CHANGES),
                max_cumulative_gas: Some(DEFAULT_MAX_CUMULATIVE_GAS),
                max_duration: Some(from_secs(DEFAULT_BACKFILL_DURATION_SECS)),
            },
            stream_parallelism: DEFAULT_PARALLELISM,
        }
    }

    /// The factory with other pruning rules.
    pub fn with_prune_modes(self, prune_modes: PruneModes) -> (factory: Self)
        ensures
            factory.spec_prune_modes() == prune_modes,
            factory.spec_evm_config() == self.spec_evm_config(),
            factory.spec_provider() == self.spec_provider(),
            factory.spec_thresholds() == self.spec_thresholds(),
            factory.spec_stream_parallelism() == self.spec_stream_parallelism(),
    {
        BackfillJobFactory {
            evm_config: self.evm_config,
            provider: self.provider,
            prune_modes,
            thresholds: self.thresholds,
            stream_parallelism: self.stream_parallelism,
        }
    }

    /// The factory with other limits. Limits of which one is set to nothing
    /// are refused.
    pub fn with_thresholds(self, thresholds: ExecutionStageThresholds) -> (factory: Result<
        Self,
        DegenerateThresholds,
    >)
        ensures
            factory is Ok <==> thresholds.non_degenerate(),
            factory matches Ok(made) ==> {
                &&& made.spec_thresholds() == thresholds
                &&& made.spec_evm_config() == self.spec_evm_config()
                &&& made.spec_provider() == self.spec_provider()
                &&& made.spec_prune_modes() == self.spec_prune_modes()
                &&& made.spec_stream_parallelism() == self.spec_stream_parallelism()
            },
    {
        if !thresholds.is_non_degenerate() {
            return Err(DegenerateThresholds {  });
        }
        Ok(
            BackfillJobFactory {
                evm_config: self.evm_config,
                provider: self.provider,
                prune_modes: self.prune_modes,
                thresholds,
                stream_parallelism: self.stream_parallelism,
            },
        )
    }

    /// The factory with another stream parallelism.
    pub fn with_stream_parallelism(self, stream_parallelism: usize) -> (factory: Self)
        ensures
            factory.spec_stream_parallelism() == stream_parallelism,
            factory.spec_evm_config() == self.spec_evm_config(),
            factory.spec_provider() == self.spec_provider(),
            factory.spec_prune_modes() == self.spec_prune_modes(),
            factory.spec_thresholds() == self.spec_thresholds(),
    {
        BackfillJobFactory {
            evm_config: self.evm_config,
            provider: self.provider,
            prune_modes: self.prune_modes,
            thresholds: self.thresholds,
            stream_parallelism,
        }
    }
}

impl<E: Clone, P: Clone> BackfillJobFactory<E, P> where
    P: BlockReader + StateProviderFactory,
    E: ConfigureEvm<P::Snapshot, <P as BlockReader>::Transaction>,
 {
    /// A job over `range` with the factory's configuration. The job gets its
    /// own copies of the maker of executors and of the provider.
    pub fn backfill(&self, range: RangeInclusive<BlockNumber>) -> (job: BackfillJob<E, P>)
        ensures
            job.spec_range() == range,
            cloned(self.spec_evm_config(), job.spec_evm_config()),
            cloned(self.spec_provider(), job.spec_provider()),
            job.spec_prune_modes() == self.spec_prune_modes(),
            job.spec_thresholds() == self.spec_thresholds(),
            job.spec_stream_parallelism() == self.spec_stream_parallelism(),
    {
        BackfillJob::new(
            self.evm_config.clone(),
            self.provider.clone(),
            self.prune_modes,
            self.thresholds,
            range,
            self.stream_parallelism,
        )
    }
}

} // verus!
