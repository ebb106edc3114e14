//! The adapter of backfill mode.
//!
//! The pipeline itself runs elsewhere, on a task of its own. This adapter
//! keeps track of it: whether a run is wanted, whether one is under way, and
//! how the last one ended. It tells the driver when to start a run, and the
//! driver tells it when the run is over.
use crate::engine::event::{
    BackfillAction, BackfillEvent, BackfillTarget, ControlFlow, PipelineError,
};
use vstd::prelude::*;

verus! {

/// How a run of the pipeline ended, as the driver saw it.
#[derive(Debug, Clone, PartialEq, Eq)]
pub enum PipelineOutcome {
    /// The run returned.
    Returned(ControlFlow),
    /// The run failed.
    Failed(PipelineError),
    /// The task is gone without a result.
    Dropped,
}

/// The adapter of backfill mode.
#[derive(Debug, Clone, PartialEq, Eq)]
pub struct PipelineSync {
    /// The range of the run that is under way.
    pub running: Option<BackfillTarget>,
    /// The range that a run is wanted for.
    pub pending_target: Option<BackfillTarget>,
    /// How the run ended, until it is reported.
    pub outcome: Option<PipelineOutcome>,
}

/// What a poll reports, if anything.
pub open spec fn report_of(outcome: PipelineOutcome) -> BackfillEvent {
    match outcome {
        PipelineOutcome::Returned(flow) => BackfillEvent::Finished(flow),
        PipelineOutcome::Failed(error) => BackfillEvent::Failed(error),
        PipelineOutcome::Dropped => BackfillEvent::TaskDropped,
    }
}

impl PipelineSync {
    /// Whether nothing runs, nothing is wanted and nothing is left to
    /// report.
    pub open spec fn idle(&self) -> bool {
        self.running is None && self.pending_target is None && self.outcome is None
    }

    /// Whether the parts fit together: a run is wanted only while none is
    /// under way, and only a run that is under way has an end to report.
    pub open spec fn wf(&self) -> bool {
        &&& self.pending_target is Some ==> self.running is None
        &&& self.outcome is Some ==> self.running is Some
    }

    /// The adapter after a poll.
    pub open spec fn after_poll(&self) -> Self {
        if self.outcome is Some {
            PipelineSync { running: None, pending_target: self.pending_target, outcome: None }
        } else if self.running is None && self.pending_target is Some {
            PipelineSync { running: self.pending_target, pending_target: None, outcome: None }
        } else {
            *self
        }
    }

    /// What a poll reports: how the run ended, where one has ended; else
    /// that a run is to be started, where one is wanted and none is under
    /// way; else nothing.
    pub open spec fn polled(&self) -> Option<BackfillEvent> {
        match self.outcome {
            Some(outcome) => Some(report_of(outcome)),
            None => match self.pending_target {
                Some(target) if self.running is None => Some(BackfillEvent::Started(target)),
                _ => None,
            },
        }
    }

    /// Whether a poll would report something.
    pub open spec fn has_work(&self) -> bool {
        self.polled() is Some
    }

    /// An adapter with nothing to do.
    pub fn new() -> (sync: Self)
        ensures
            sync.idle(),
            sync.wf(),
    {
        PipelineSync { running: None, pending_target: None, outcome: None }
    }

    /// Whether nothing runs, nothing is wanted and nothing is left to
    /// report.
    pub fn is_idle(&self) -> (idle: bool)
        ensures
            idle == self.idle(),
    {
        self.running.is_none() && self.pending_target.is_none() && self.outcome.is_none()
    }

    /// Whether a poll would report something.
    pub fn is_ready(&self) -> (ready: bool)
        ensures
            ready == self.has_work(),
    {
        self.outcome.is_some() || (self.running.is_none() && self.pending_target.is_some())
    }

    /// Whether a run is under way.
    pub fn is_pipeline_active(&self) -> (active: bool)
        ensures
            active == self.running is Some,
    {
        self.running.is_some()
    }

    /// Whether a run is wanted and none is under way.
    pub fn is_pipeline_sync_pending(&self) -> (pending: bool)
        ensures
            pending == (self.pending_target is Some && self.running is None),
    {
        self.pending_target.is_some() && self.running.is_none()
    }

    /// Takes a request of the live adapter: a run over the range is wanted
    /// from now on. A range that was wanted before and has not been started
    /// is dropped for the new one.
    pub fn on_action(&mut self, action: BackfillAction)
        ensures
            action matches BackfillAction::Start(target) && *final(self) == (PipelineSync {
                pending_target: Some(target),
                ..*old(self)
            }),
    {
        match action {
            BackfillAction::Start(target) => {
                self.pending_target = Some(target);
            },
        }
    }

    /// Takes the word of the driver that the run is over. Where no run is
    /// under way there is nothing to end, and the word is dropped.
    pub fn on_outcome(&mut self, outcome: PipelineOutcome) -> (taken: bool)
        ensures
            taken == old(self).running is Some,
            taken ==> *final(self) == (PipelineSync { outcome: Some(outcome), ..*old(self) }),
            !taken ==> *final(self) == *old(self),
            old(self).wf() ==> final(self).wf(),
    {
        if self.running.is_some() {
            self.outcome = Some(outcome);
            true
        } else {
            false
        }
    }

    /// Advances the adapter by one step and says what has happened.
    ///
    /// `Started` tells the driver to run the pipeline over the range now.
    pub fn poll(&mut self) -> (event: Option<BackfillEvent>)
        ensures
            event == old(self).polled(),
            *final(self) == old(self).after_poll(),
            old(self).wf() ==> final(self).wf(),
    {
        if self.outcome.is_some() {
            let outcome = self.outcome.take().unwrap();
            self.running = None;
            return Some(
                match outcome {
                    PipelineOutcome::Returned(flow) => BackfillEvent::Finished(flow),
                    PipelineOutcome::Failed(error) => BackfillEvent::Failed(error),
                    PipelineOutcome::Dropped => BackfillEvent::TaskDropped,
                },
            );
        }
        if self.running.is_none() {
            if let Some(target) = self.pending_target {
                self.running = Some(target);
                self.pending_target = None;
                return Some(BackfillEvent::Started(target));
            }
        }
        None
    }
}

} // verus!
