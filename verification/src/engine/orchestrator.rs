//! The orchestrator: live processing or backfill, one at a time.
//!
//! The orchestrator owns both adapters and knows which of them is in use.
//! A poll advances that one adapter by one step and leaves the other alone.
//! It starts in live mode. It goes over to backfill when the live adapter
//! asks for it, and comes back when the pipeline reports that its run is
//! over. A failure of an adapter is passed on and changes nothing else.
use crate::engine::event::{
    Adapter, BackfillAction, BackfillEvent, ChainEvent, DriverAction, FromOrchestrator,
    HandlerEvent, Step, SyncMode,
};
use crate::engine::handler::{EngineHandler, HandlerState};
use crate::engine::pipeline::{PipelineOutcome, PipelineSync};
use vstd::prelude::*;

verus! {

/// The state of the orchestrator, as the contracts see it.
pub struct OrchestratorState {
    /// The mode that is in use.
    pub mode: SyncMode,
    /// The live adapter.
    pub handler: HandlerState,
    /// The backfill adapter.
    pub backfill: PipelineSync,
}

/// The adapter that a poll advances in each mode.
pub open spec fn adapter_of(mode: SyncMode) -> Adapter {
    match mode {
        SyncMode::Live => Adapter::EngineHandler,
        SyncMode::Backfilling => Adapter::PipelineSync,
    }
}

impl OrchestratorState {
    /// Whether the parts fit together: the backfill adapter is in order,
    /// and it has nothing to do while live mode is in use.
    pub open spec fn wf(self) -> bool {
        &&& self.backfill.wf()
        &&& self.mode == SyncMode::Live ==> self.backfill.idle()
    }

    /// Whether the stream of events is at its end, given whether the
    /// sources of requests and blocks are closed: it is when they are, and
    /// the live adapter has nothing left, and the backfill adapter has
    /// nothing to do. A live adapter has nothing left when nothing waits in
    /// it, or when it has failed and has said so.
    pub open spec fn at_end(self, sources_closed: bool) -> bool {
        sources_closed && (self.handler.drained() || self.handler.spent()) && self.backfill.idle()
    }

    /// Whether a poll would give an event or an action, or change the
    /// mode.
    pub open spec fn has_work(self) -> bool {
        match self.mode {
            SyncMode::Live => self.handler.has_work(),
            SyncMode::Backfilling => self.backfill.has_work(),
        }
    }

    /// What a poll gives in live mode, where the live adapter comes up
    /// with `event`.
    pub open spec fn live_step(event: HandlerEvent) -> Step {
        Step {
            polled: Adapter::EngineHandler,
            event: match event {
                HandlerEvent::Event(live) => Some(ChainEvent::Handler(live)),
                HandlerEvent::FatalError => Some(ChainEvent::FatalError),
                _ => None,
            },
            action: match event {
                HandlerEvent::Forward(request) => Some(DriverAction::Forward(request)),
                HandlerEvent::Download(target) => Some(DriverAction::Download(target)),
                _ => None,
            },
        }
    }

    /// What a poll gives in backfill mode, where the backfill adapter
    /// reports `event`.
    pub open spec fn backfill_step(event: Option<BackfillEvent>) -> Step {
        Step {
            polled: Adapter::PipelineSync,
            event: match event {
                Some(BackfillEvent::Started(_)) => Some(ChainEvent::BackfillSyncStarted),
                Some(BackfillEvent::Finished(_)) => Some(ChainEvent::BackfillSyncFinished),
                Some(BackfillEvent::Failed(_)) | Some(BackfillEvent::TaskDropped) => Some(
                    ChainEvent::FatalError,
                ),
                None => None,
            },
            action: match event {
                Some(BackfillEvent::Started(target)) => Some(DriverAction::RunPipeline(target)),
                _ => None,
            },
        }
    }

    /// What a poll gives.
    pub open spec fn polled(self) -> Step {
        match self.mode {
            SyncMode::Live => Self::live_step(self.handler.polled()),
            SyncMode::Backfilling => Self::backfill_step(self.backfill.polled()),
        }
    }

    /// The state after a poll.
    ///
    /// In live mode the live adapter is advanced; where it asks for
    /// backfill, the range goes to the backfill adapter and backfill mode
    /// begins. In backfill mode the backfill adapter is advanced; the live
    /// adapter is told when the run starts and when it is over, and with the
    /// end of the run live mode begins again.
    pub open spec fn after_poll(self) -> Self {
        match self.mode {
            SyncMode::Live => match self.handler.polled() {
                HandlerEvent::BackfillAction(BackfillAction::Start(target)) => OrchestratorState {
                    mode: SyncMode::Backfilling,
                    handler: self.handler.after_poll(),
                    backfill: PipelineSync { pending_target: Some(target), ..self.backfill },
                },
                _ => OrchestratorState { handler: self.handler.after_poll(), ..self },
            },
            SyncMode::Backfilling => match self.backfill.polled() {
                Some(BackfillEvent::Started(_)) => OrchestratorState {
                    handler: self.handler.after_orchestrator(
                        FromOrchestrator::BackfillSyncStarted,
                    ),
                    backfill: self.backfill.after_poll(),
                    ..self
                },
                Some(BackfillEvent::Finished(flow)) => OrchestratorState {
                    mode: SyncMode::Live,
                    handler: self.handler.after_orchestrator(
                        FromOrchestrator::BackfillSyncFinished(flow),
                    ),
                    backfill: self.backfill.after_poll(),
                },
                _ => OrchestratorState { backfill: self.backfill.after_poll(), ..self },
            },
        }
    }
}

/// The orchestrator.
#[derive(Debug, Clone, PartialEq, Eq)]
pub struct ChainOrchestrator {
    handler: EngineHandler,
    backfill_sync: PipelineSync,
    mode: SyncMode,
}

impl View for ChainOrchestrator {
    type V = OrchestratorState;

    closed spec fn view(&self) -> OrchestratorState {
        OrchestratorState { mode: self.mode, handler: self.handler@, backfill: self.backfill_sync }
    }
}

impl ChainOrchestrator {
    /// An orchestrator over the two adapters, in live mode. The backfill
    /// adapter has nothing to do yet: backfill begins only when the live
    /// adapter asks for it.
    pub fn new(handler: EngineHandler, backfill_sync: PipelineSync) -> (orchestrator: Self)
        requires
            backfill_sync.idle(),
        ensures
            orchestrator@ == (OrchestratorState {
                mode: SyncMode::Live,
                handler: handler@,
                backfill: backfill_sync,
            }),
            orchestrator@.wf(),
    {
        ChainOrchestrator { handler, backfill_sync, mode: SyncMode::Live }
    }

    /// The mode that is in use.
    pub fn mode(&self) -> (mode: SyncMode)
        ensures
            mode == self@.mode,
    {
        self.mode
    }

    /// The adapter that the next poll advances.
    pub fn active(&self) -> (adapter: Adapter)
        ensures
            adapter == adapter_of(self@.mode),
    {
        match self.mode {
            SyncMode::Live => Adapter::EngineHandler,
            SyncMode::Backfilling => Adapter::PipelineSync,
        }
    }

    /// The live adapter.
    pub fn handler(&self) -> (handler: &EngineHandler)
        ensures
            handler@ == self@.handler,
    {
        &self.handler
    }

    /// The live adapter, to hand it what has arrived for it. Mode and
    /// backfill adapter stay as they are.
    pub fn handler_mut(&mut self) -> (handler: &mut EngineHandler)
        ensures
            handler@ == old(self)@.handler,
            final(self)@ == (OrchestratorState { handler: final(handler)@, ..old(self)@ }),
    {
        &mut self.handler
    }

    /// The backfill adapter.
    pub fn backfill_sync(&self) -> (sync: &PipelineSync)
        ensures
            *sync == self@.backfill,
    {
        &self.backfill_sync
    }

    /// Whether the stream of events is at its end, given whether the
    /// sources of requests and blocks are closed. While a source is open,
    /// or something waits, the stream goes on.
    pub fn is_at_end(&self, sources_closed: bool) -> (at_end: bool)
        ensures
            at_end == self@.at_end(sources_closed),
    {
        sources_closed && (self.handler.is_drained() || self.handler.is_spent())
            && self.backfill_sync.is_idle()
    }

    /// Whether a poll would give an event or an action, or change the
    /// mode. Where it would not, the driver may wait for something to
    /// arrive.
    pub fn has_work(&self) -> (work: bool)
        ensures
            work == self@.has_work(),
            !work ==> self@.polled().event is None && self@.polled().action is None
                && self@.after_poll() == self@,
    {
        match self.mode {
            SyncMode::Live => self.handler.has_work(),
            SyncMode::Backfilling => self.backfill_sync.is_ready(),
        }
    }

    /// Takes the word of the driver that the run of the pipeline is over.
    /// Where no run is under way, the word is dropped.
    pub fn on_pipeline_outcome(&mut self, outcome: PipelineOutcome) -> (taken: bool)
        ensures
            taken == old(self)@.backfill.running is Some,
            taken ==> final(self)@ == (OrchestratorState {
                backfill: PipelineSync { outcome: Some(outcome), ..old(self)@.backfill },
                ..old(self)@
            }),
            !taken ==> final(self)@ == old(self)@,
            old(self)@.wf() ==> final(self)@.wf(),
    {
        self.backfill_sync.on_outcome(outcome)
    }

    /// Advances the adapter of the mode in use by one step, and that
    /// adapter only.
    pub fn poll(&mut self) -> (step: Step)
        ensures
            step == old(self)@.polled(),
            final(self)@ == old(self)@.after_poll(),
            step.polled == adapter_of(old(self)@.mode),
            old(self)@.wf() ==> final(self)@.wf(),
    {
        match self.mode {
            SyncMode::Live => {
                let event = self.handler.poll();
                match event {
                    HandlerEvent::Pending => Step {
                        polled: Adapter::EngineHandler,
                        event: None,
                        action: None,
                    },
                    HandlerEvent::Event(live) => Step {
                        polled: Adapter::EngineHandler,
                        event: Some(ChainEvent::Handler(live)),
                        action: None,
                    },
                    HandlerEvent::Forward(request) => Step {
                        polled: Adapter::EngineHandler,
                        event: None,
                        action: Some(DriverAction::Forward(request)),
                    },
                    HandlerEvent::Download(target) => Step {
                        polled: Adapter::EngineHandler,
                        event: None,
                        action: Some(DriverAction::Download(target)),
                    },
                    HandlerEvent::BackfillAction(action) => {
                        // The range goes to the backfill adapter, which is
                        // polled from now on.
                        self.backfill_sync.on_action(action);
                        self.mode = SyncMode::Backfilling;
                        Step { polled: Adapter::EngineHandler, event: None, action: None }
                    },
                    HandlerEvent::FatalError => Step {
                        polled: Adapter::EngineHandler,
                        event: Some(ChainEvent::FatalError),
                        action: None,
                    },
                }
            },
            SyncMode::Backfilling => {
                match self.backfill_sync.poll() {
                    None => Step { polled: Adapter::PipelineSync, event: None, action: None },
                    Some(BackfillEvent::Started(target)) => {
                        self.handler.on_event(FromOrchestrator::BackfillSyncStarted);
                        Step {
                            polled: Adapter::PipelineSync,
                            event: Some(ChainEvent::BackfillSyncStarted),
                            action: Some(DriverAction::RunPipeline(target)),
                        }
                    },
                    Some(BackfillEvent::Finished(flow)) => {
                        self.handler.on_event(FromOrchestrator::BackfillSyncFinished(flow));
                        self.mode = SyncMode::Live;
                        Step {
                            polled: Adapter::PipelineSync,
                            event: Some(ChainEvent::BackfillSyncFinished),
                            action: None,
                        }
                    },
                    Some(BackfillEvent::Failed(_)) => Step {
                        polled: Adapter::PipelineSync,
                        event: Some(ChainEvent::FatalError),
                        action: None,
                    },
                    Some(BackfillEvent::TaskDropped) => Step {
                        polled: Adapter::PipelineSync,
                        event: Some(ChainEvent::FatalError),
                        action: None,
                    },
                }
            },
        }
    }
}

} // verus!
