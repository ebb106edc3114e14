//! What the parts of the engine tell one another.
use vstd::prelude::*;

verus! {

/// The two ways to keep up with the chain. Exactly one of them is in use at
/// any time.
#[derive(Debug, Clone, Copy, PartialEq, Eq, Structural)]
pub enum SyncMode {
    /// Blocks are taken one by one as they arrive, at or near the tip.
    Live,
    /// A range of missing blocks is being replayed in bulk.
    Backfilling,
}

/// The two adapters that the orchestrator drives.
#[derive(Debug, Clone, Copy, PartialEq, Eq, Structural)]
pub enum Adapter {
    /// The adapter of live mode.
    EngineHandler,
    /// The adapter of backfill mode.
    PipelineSync,
}

/// A range of missing blocks, from `first` to `last`, both included.
#[derive(Debug, Clone, Copy, PartialEq, Eq, Structural)]
pub struct BackfillTarget {
    /// The first missing block.
    pub first: u64,
    /// The last missing block.
    pub last: u64,
}

/// What the live adapter asks of the backfill adapter.
#[derive(Debug, Clone, Copy, PartialEq, Eq, Structural)]
pub enum BackfillAction {
    /// Replay this range.
    Start(BackfillTarget),
}

/// How a run of the pipeline ended.
#[derive(Debug, Clone, Copy, PartialEq, Eq, Structural)]
pub enum ControlFlow {
    /// A bad block was met; the chain has to be unwound to `target`.
    Unwind { target: u64, bad_block: u64 },
    /// The run got as far as `block_number`.
    Continue { block_number: u64 },
    /// The run changed nothing; the tip, if known, is `block_number`.
    NoProgress { block_number: Option<u64> },
}

/// The failure of a run of the pipeline; the text is the pipeline's own.
#[derive(Debug, Clone, PartialEq, Eq)]
pub struct PipelineError {
    /// What the pipeline reported.
    pub message: String,
}

/// What the backfill adapter reports.
#[derive(Debug, Clone, PartialEq, Eq)]
pub enum BackfillEvent {
    /// A run over this range is to be started now.
    Started(BackfillTarget),
    /// The run is over.
    Finished(ControlFlow),
    /// The run has failed.
    Failed(PipelineError),
    /// The task that ran the pipeline is gone without a result.
    TaskDropped,
}

/// What the orchestrator tells the live adapter.
#[derive(Debug, Clone, Copy, PartialEq, Eq, Structural)]
pub enum FromOrchestrator {
    /// Backfill is over, and this is how it ended.
    BackfillSyncFinished(ControlFlow),
    /// Backfill has started.
    BackfillSyncStarted,
}

/// A request of the consensus layer.
#[derive(Debug, Clone, Copy, PartialEq, Eq, Structural)]
pub enum RequestKind {
    /// A new payload to be validated and inserted.
    NewPayload,
    /// A new choice of the canonical head.
    ForkchoiceUpdated,
    /// A payload to be built on top of a block.
    BuildPayload,
}

/// A request of the consensus layer, as far as the ordering of requests
/// goes: what kind it is and which block it is about.
#[derive(Debug, Clone, Copy, PartialEq, Eq, Structural)]
pub struct EngineRequest {
    /// The kind of the request.
    pub kind: RequestKind,
    /// The number of the block that the request is about.
    pub block_number: u64,
}

/// What the tree of blocks reports back.
#[derive(Debug, Clone, Copy, PartialEq, Eq, Structural)]
pub enum TreeEvent {
    /// The canonical head is now the block with this number.
    CanonicalHead(u64),
    /// The block with this number was refused.
    InvalidBlock(u64),
    /// The tree cannot go on.
    FatalError,
}

/// An event of live processing.
#[derive(Debug, Clone, Copy, PartialEq, Eq, Structural)]
pub enum LiveEvent {
    /// The canonical head is now the block with this number.
    CanonicalHeadUpdated(u64),
    /// The block with this number was refused. Live processing goes on.
    InvalidBlock(u64),
}

/// What the live adapter comes up with when it is polled.
#[derive(Debug, Clone, Copy, PartialEq, Eq, Structural)]
pub enum HandlerEvent {
    /// Nothing until something new arrives.
    Pending,
    /// An event of live processing, to be passed on.
    Event(LiveEvent),
    /// The request is to be handed to the tree now.
    Forward(EngineRequest),
    /// These blocks are to be downloaded and inserted.
    Download(BackfillTarget),
    /// The gap is too wide for downloads: backfill is needed.
    BackfillAction(BackfillAction),
    /// Live processing cannot go on.
    FatalError,
}

/// What the orchestrator hands to its caller.
#[derive(Debug, Clone, Copy, PartialEq, Eq, Structural)]
pub enum ChainEvent {
    /// Backfill has started.
    BackfillSyncStarted,
    /// Backfill is over.
    BackfillSyncFinished,
    /// An adapter has failed for good.
    FatalError,
    /// An event of live processing.
    Handler(LiveEvent),
}

/// What the driver has to do for the orchestrator before it polls again.
#[derive(Debug, Clone, Copy, PartialEq, Eq, Structural)]
pub enum DriverAction {
    /// Hand the request to the tree.
    Forward(EngineRequest),
    /// Download these blocks and hand them to the tree.
    Download(BackfillTarget),
    /// Run the pipeline over this range.
    RunPipeline(BackfillTarget),
}

/// What one poll of the orchestrator gave.
#[derive(Debug, Clone, Copy, PartialEq, Eq, Structural)]
pub struct Step {
    /// Which adapter was polled.
    pub polled: Adapter,
    /// The event for the caller, if there is one.
    pub event: Option<ChainEvent>,
    /// What the driver has to do, if anything.
    pub action: Option<DriverAction>,
}

} // verus!
