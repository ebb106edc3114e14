//! The engine service: the orchestrator as a node runs it.
//!
//! The service owns the orchestrator and knows which kind of chain it
//! serves. Everything that touches the network, the database or a task is
//! done by the driver around it; the service decides.
use crate::engine::event::{Step, SyncMode};
use crate::engine::handler::{EngineHandler, HandlerState};
use crate::engine::orchestrator::{ChainOrchestrator, OrchestratorState};
use crate::engine::pipeline::PipelineSync;
use vstd::prelude::*;

verus! {

/// The kind of chain that the engine serves: the kinds differ in how the
/// tree treats some requests.
#[derive(Debug, Clone, Copy, PartialEq, Eq, Structural)]
pub enum EngineApiKind {
    /// Ethereum.
    Ethereum,
    /// A chain of the OP stack.
    OpStack,
}

/// The kind of chain, given whether the chain is one of the OP stack.
pub open spec fn kind_of(is_optimism: bool) -> EngineApiKind {
    if is_optimism {
        EngineApiKind::OpStack
    } else {
        EngineApiKind::Ethereum
    }
}

/// What drives the chain forward and reports how it goes.
#[derive(Debug, Clone, PartialEq, Eq)]
pub struct EngineService {
    orchestrator: ChainOrchestrator,
    engine_kind: EngineApiKind,
}

impl EngineService {
    /// The state of the orchestrator.
    pub closed spec fn spec_orchestrator(&self) -> OrchestratorState {
        self.orchestrator@
    }

    /// The kind of chain that is served.
    pub closed spec fn spec_engine_kind(&self) -> EngineApiKind {
        self.engine_kind
    }

    /// A service for a chain whose tree holds blocks up to `tip`. Up to
    /// `live_gap_threshold` missing ancestors are downloaded one by one;
    /// a wider gap is backfilled. The service starts in live mode with
    /// nothing to do.
    pub fn new(is_optimism: bool, tip: u64, live_gap_threshold: u64) -> (service: Self)
        ensures
            service.spec_engine_kind() == kind_of(is_optimism),
            service.spec_orchestrator().wf(),
            service.spec_orchestrator().mode == SyncMode::Live,
            service.spec_orchestrator().backfill.idle(),
            service.spec_orchestrator().handler == (HandlerState {
                tip,
                threshold: live_gap_threshold,
                requests: Seq::empty(),
                events: Seq::empty(),
                downloading: None,
                backfilling: false,
                fatal: false,
                reported: false,
            }),
    {
        let engine_kind = if is_optimism {
            EngineApiKind::OpStack
        } else {
            EngineApiKind::Ethereum
        };

        let handler = EngineHandler::new(tip, live_gap_threshold);
        let backfill_sync = PipelineSync::new();

        EngineService { orchestrator: ChainOrchestrator::new(handler, backfill_sync), engine_kind }
    }

    /// The kind of chain that is served.
    pub fn engine_kind(&self) -> (kind: EngineApiKind)
        ensures
            kind == self.spec_engine_kind(),
    {
        self.engine_kind
    }

    /// The orchestrator.
    pub fn orchestrator(&self) -> (orchestrator: &ChainOrchestrator)
        ensures
            orchestrator@ == self.spec_orchestrator(),
    {
        &self.orchestrator
    }

    /// The orchestrator, to hand it what has arrived.
    pub fn orchestrator_mut(&mut self) -> (orchestrator: &mut ChainOrchestrator)
        ensures
            orchestrator@ == old(self).spec_orchestrator(),
            final(self).spec_orchestrator() == final(orchestrator)@,
            final(self).spec_engine_kind() == old(self).spec_engine_kind(),
    {
        &mut self.orchestrator
    }

    /// Advances the orchestrator by one step.
    pub fn poll_next(&mut self) -> (step: Step)
        ensures
            step == old(self).spec_orchestrator().polled(),
            final(self).spec_orchestrator() == old(self).spec_orchestrator().after_poll(),
            final(self).spec_engine_kind() == old(self).spec_engine_kind(),
            old(self).spec_orchestrator().wf() ==> final(self).spec_orchestrator().wf(),
    {
        self.orchestrator.poll()
    }
}

/// An error of the engine service.
#[derive(Debug, Clone, Copy, PartialEq, Eq, Structural)]
pub struct EngineServiceError {}

impl EngineServiceError {
    /// The text of the error.
    pub fn message(&self) -> (text: &'static str)
        ensures
            text@ == "Engine service error."@,
    {
        "Engine service error."
    }
}

} // verus!
