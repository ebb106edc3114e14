//! Backfill jobs with block lookups ahead of execution.
//!
//! A stream is a job together with a window of lookups. The driver asks the
//! window which block to look up next, warms that block on a task of its
//! own, and says when the lookup is done; at most `parallelism` lookups are
//! in flight, none of them further than `parallelism` blocks ahead of the
//! block that is executed next. Execution itself is that of the job: the
//! stream hands out what the job hands out, in the same order.
use crate::backfill::job::{batch_result, single_block, BackfillJob, SingleBlockBackfillJob};
use crate::backfill::model::{BundleOf, ReceiptOf};
use crate::block::RecoveredBlock;
use crate::chain::Chain;
use crate::error::BackfillJobResult;
use crate::evm::{BlockExecutionOutput, ConfigureEvm};
use crate::provider::{BlockReader, StateProviderFactory};
use crate::range;
use crate::range::{end_of, is_empty_range, start_of};
use core::ops::RangeInclusive;
use vstd::prelude::*;

verus! {

/// Which blocks have been handed out for lookup, and how many of the
/// lookups are still in flight.
#[derive(Debug, Clone, Copy, PartialEq, Eq, Structural)]
pub struct Window {
    /// How many lookups may be in flight, and how far ahead they may go.
    pub parallelism: usize,
    /// How many lookups are in flight.
    pub in_flight: usize,
    /// The lowest block that has not been handed out.
    pub cursor: u64,
    /// Whether the highest block number there is has been handed out.
    pub at_end: bool,
}

impl Window {
    /// The block that would be handed out next for a job whose range
    /// starts at `start`: the lowest block of the range that has not been
    /// handed out.
    pub open spec fn candidate(&self, start: u64) -> u64 {
        if self.cursor > start {
            self.cursor
        } else {
            start
        }
    }

    /// Whether a block is handed out for a job that is left with `range`:
    /// the range holds the candidate, fewer than `parallelism` lookups are
    /// in flight, and the candidate is less than `parallelism` blocks ahead
    /// of the start of the range.
    pub open spec fn has_next(&self, range: RangeInclusive<u64>) -> bool {
        &&& !self.at_end
        &&& !range::is_empty(range)
        &&& self.in_flight < self.parallelism
        &&& self.candidate(range@.start) <= range@.end
        &&& self.candidate(range@.start) - range@.start < self.parallelism
    }

    /// The window after it has handed out a block for a job that is left
    /// with `range`.
    pub open spec fn after_next(&self, range: RangeInclusive<u64>) -> Self {
        let number = self.candidate(range@.start);
        Window {
            parallelism: self.parallelism,
            in_flight: (self.in_flight + 1) as usize,
            cursor: if number < u64::MAX {
                (number + 1) as u64
            } else {
                number
            },
            at_end: number == u64::MAX,
        }
    }

    /// A window with nothing in flight and nothing handed out.
    pub fn new(parallelism: usize) -> (window: Self)
        ensures
            window == (Window { parallelism, in_flight: 0, cursor: 0, at_end: false }),
    {
        Window { parallelism, in_flight: 0, cursor: 0, at_end: false }
    }

    /// Hands out the next block to look up for a job that is left with
    /// `range`, if there is one.
    pub fn next(&mut self, range: &RangeInclusive<u64>) -> (number: Option<u64>)
        ensures
            number is Some <==> old(self).has_next(*range),
            number matches Some(n) ==> n == old(self).candidate(range@.start) && range@.start <= n
                <= range@.end && n >= old(self).cursor && *final(self) == old(self).after_next(
                *range,
            ),
            number is None ==> *final(self) == *old(self),
    {
        if self.at_end || is_empty_range(range) || self.in_flight >= self.parallelism {
            return None;
        }
        let start = start_of(range);
        let end = end_of(range);
        let number = if self.cursor > start {
            self.cursor
        } else {
            start
        };
        if number > end {
            return None;
        }
        if number - start >= self.parallelism as u64 {
            return None;
        }
        self.in_flight = self.in_flight + 1;
        if number < u64::MAX {
            self.cursor = number + 1;
        } else {
            self.cursor = number;
            self.at_end = true;
        }
        Some(number)
    }

    /// Takes the word of the driver that a lookup is done. Where none is
    /// in flight, the word is dropped.
    pub fn done(&mut self) -> (taken: bool)
        ensures
            taken == (old(self).in_flight > 0),
            taken ==> *final(self) == (Window {
                in_flight: (old(self).in_flight - 1) as usize,
                ..*old(self)
            }),
            !taken ==> *final(self) == *old(self),
    {
        if self.in_flight > 0 {
            self.in_flight = self.in_flight - 1;
            true
        } else {
            false
        }
    }
}

/// A job with a window of lookups ahead of it.
#[derive(Debug, Clone)]
pub struct StreamBackfillJob<J> {
    job: J,
    window: Window,
}

impl<J> StreamBackfillJob<J> {
    /// The job.
    pub closed spec fn spec_job(&self) -> J {
        self.job
    }

    /// The window.
    pub closed spec fn spec_window(&self) -> Window {
        self.window
    }

    /// A stream of `job` with up to `parallelism` lookups in flight.
    pub fn new(job: J, parallelism: usize) -> (stream: Self)
        ensures
            stream.spec_job() == job,
            stream.spec_window() == (Window { parallelism, in_flight: 0, cursor: 0, at_end: false }),
    {
        StreamBackfillJob { job, window: Window::new(parallelism) }
    }

    /// The stream with another number of lookups in flight.
    pub fn with_parallelism(self, parallelism: usize) -> (stream: Self)
        ensures
            stream.spec_job() == self.spec_job(),
            stream.spec_window() == (Window { parallelism, ..self.spec_window() }),
    {
        StreamBackfillJob { job: self.job, window: Window { parallelism, ..self.window } }
    }

    /// The job.
    pub fn job(&self) -> (job: &J)
        ensures
            *job == self.spec_job(),
    {
        &self.job
    }

    /// The window.
    pub fn window(&self) -> (window: Window)
        ensures
            window == self.spec_window(),
    {
        self.window
    }

    /// Takes the word of the driver that a lookup is done.
    pub fn lookup_done(&mut self) -> (taken: bool)
        ensures
            taken == (old(self).spec_window().in_flight > 0),
            taken ==> final(self).spec_window() == (Window {
                in_flight: (old(self).spec_window().in_flight - 1) as usize,
                ..old(self).spec_window()
            }),
            !taken ==> final(self).spec_window() == old(self).spec_window(),
            final(self).spec_job() == old(self).spec_job(),
    {
        self.window.done()
    }
}

impl<E, P> StreamBackfillJob<BackfillJob<E, P>> where
    P: BlockReader + StateProviderFactory,
    E: ConfigureEvm<P::Snapshot, <P as BlockReader>::Transaction>,
 {
    /// Hands out the next block to look up, if there is one. The job is
    /// left alone.
    pub fn next_lookup(&mut self) -> (number: Option<u64>)
        ensures
            final(self).spec_job() == old(self).spec_job(),
            number is Some <==> old(self).spec_window().has_next(old(self).spec_job().spec_range()),
            number matches Some(n) ==> n == old(self).spec_window().candidate(
                old(self).spec_job().spec_range()@.start,
            ) && final(self).spec_window() == old(self).spec_window().after_next(
                old(self).spec_job().spec_range(),
            ),
            number is None ==> final(self).spec_window() == old(self).spec_window(),
    {
        self.window.next(self.job.range())
    }

    /// Executes the next batch: what the job would do without the stream,
    /// with the same result. The window is left alone.
    pub fn next(&mut self) -> (item: Option<
        BackfillJobResult<Chain<P::Transaction, ReceiptOf<E, P>, BundleOf<E, P>>>,
    >)
        ensures
            final(self).spec_window() == old(self).spec_window(),
            item is None <==> range::is_empty(old(self).spec_job().spec_range()),
            item is None ==> final(self).spec_job() == old(self).spec_job(),
            item matches Some(result) ==> {
                &&& batch_result(
                    &old(self).spec_job().spec_thresholds(),
                    &old(self).spec_job().spec_evm_config(),
                    &old(self).spec_job().spec_provider(),
                    old(self).spec_job().spec_range(),
                    result,
                )
                &&& final(self).spec_job().advanced_by(&old(self).spec_job(), result)
            },
    {
        self.job.next()
    }
}

impl<E, P> StreamBackfillJob<SingleBlockBackfillJob<E, P>> where
    P: BlockReader + StateProviderFactory,
    E: ConfigureEvm<P::Snapshot, <P as BlockReader>::Transaction>,
 {
    /// Hands out the next block to look up, if there is one. The job is
    /// left alone.
    pub fn next_lookup(&mut self) -> (number: Option<u64>)
        ensures
            final(self).spec_job() == old(self).spec_job(),
            number is Some <==> old(self).spec_window().has_next(old(self).spec_job().spec_range()),
            number matches Some(n) ==> n == old(self).spec_window().candidate(
                old(self).spec_job().spec_range()@.start,
            ) && final(self).spec_window() == old(self).spec_window().after_next(
                old(self).spec_job().spec_range(),
            ),
            number is None ==> final(self).spec_window() == old(self).spec_window(),
    {
        self.window.next(self.job.range())
    }

    /// Executes the next block: what the job would do without the stream,
    /// with the same result. The window is left alone.
    pub fn next(&mut self) -> (item: Option<
        BackfillJobResult<
            (RecoveredBlock<P::Transaction>, BlockExecutionOutput<ReceiptOf<E, P>, BundleOf<E, P>>),
        >,
    >)
        ensures
            final(self).spec_window() == old(self).spec_window(),
            item is None <==> range::is_empty(old(self).spec_job().spec_range()),
            item is None ==> final(self).spec_job() == old(self).spec_job(),
            item matches Some(result) ==> {
                &&& result == single_block(
                    &old(self).spec_job().spec_evm_config(),
                    &old(self).spec_job().spec_provider(),
                    old(self).spec_job().spec_range()@.start,
                )
                &&& final(self).spec_job().advanced_by(&old(self).spec_job(), result is Ok)
            },
    {
        self.job.next()
    }
}

} // verus!
