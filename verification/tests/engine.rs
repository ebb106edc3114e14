use chain_sync::engine::event::{
    Adapter, BackfillAction, BackfillEvent, BackfillTarget, ChainEvent, ControlFlow, DriverAction,
    EngineRequest, FromOrchestrator, HandlerEvent, LiveEvent, PipelineError, RequestKind, Step,
    SyncMode, TreeEvent,
};
use chain_sync::engine::handler::{decide, EngineHandler, GapDecision};
use chain_sync::engine::orchestrator::ChainOrchestrator;
use chain_sync::engine::pipeline::{PipelineOutcome, PipelineSync};
use chain_sync::engine::service::{EngineApiKind, EngineService, EngineServiceError};

fn payload(block_number: u64) -> EngineRequest {
    EngineRequest { kind: RequestKind::NewPayload, block_number }
}

fn forkchoice(block_number: u64) -> EngineRequest {
    EngineRequest { kind: RequestKind::ForkchoiceUpdated, block_number }
}

fn live(event: Option<ChainEvent>, action: Option<DriverAction>) -> Step {
    Step { polled: Adapter::EngineHandler, event, action }
}

fn backfill(event: Option<ChainEvent>, action: Option<DriverAction>) -> Step {
    Step { polled: Adapter::PipelineSync, event, action }
}

#[test]
fn eth_chain_orchestrator_build() {
    let service = EngineService::new(false, 0, 32);
    assert_eq!(service.engine_kind(), EngineApiKind::Ethereum);
    assert_eq!(service.orchestrator().mode(), SyncMode::Live);
    assert_eq!(service.orchestrator().active(), Adapter::EngineHandler);
    assert!(service.orchestrator().backfill_sync().is_idle());
    assert_eq!(service.orchestrator().handler().tip(), 0);
    assert_eq!(service.orchestrator().handler().pending_requests(), 0);

    assert_eq!(EngineService::new(true, 7, 32).engine_kind(), EngineApiKind::OpStack);
}

#[test]
fn engine_service_error_text() {
    assert_eq!(EngineServiceError {}.message(), "Engine service error.");
}

#[test]
fn gap_decision_by_missing_ancestors() {
    // The parent is held: nothing is missing.
    assert_eq!(decide(10, 11, 32), GapDecision::Ready);
    assert_eq!(decide(10, 10, 32), GapDecision::Ready);
    assert_eq!(decide(10, 3, 32), GapDecision::Ready);
    assert_eq!(decide(u64::MAX, u64::MAX, 0), GapDecision::Ready);
    // One ancestor is missing.
    assert_eq!(decide(10, 12, 32), GapDecision::Download(BackfillTarget { first: 11, last: 11 }));
    // Exactly as many as the threshold are downloaded.
    assert_eq!(decide(10, 43, 32), GapDecision::Download(BackfillTarget { first: 11, last: 42 }));
    // One more is backfilled.
    assert_eq!(decide(10, 44, 32), GapDecision::Backfill(BackfillTarget { first: 11, last: 43 }));
    assert_eq!(decide(10, 12, 0), GapDecision::Backfill(BackfillTarget { first: 11, last: 11 }));
    assert_eq!(
        decide(0, u64::MAX, u64::MAX - 1),
        GapDecision::Download(BackfillTarget { first: 1, last: u64::MAX - 1 })
    );
    assert_eq!(
        decide(0, u64::MAX, u64::MAX - 2),
        GapDecision::Backfill(BackfillTarget { first: 1, last: u64::MAX - 1 })
    );
}

#[test]
fn handler_forwards_in_arrival_order() {
    let mut handler = EngineHandler::new(10, 32);
    assert_eq!(handler.poll(), HandlerEvent::Pending);
    handler.on_request(payload(11));
    handler.on_request(forkchoice(11));
    handler.on_request(payload(9));
    assert_eq!(handler.pending_requests(), 3);
    assert_eq!(handler.poll(), HandlerEvent::Forward(payload(11)));
    assert_eq!(handler.poll(), HandlerEvent::Forward(forkchoice(11)));
    assert_eq!(handler.poll(), HandlerEvent::Forward(payload(9)));
    assert_eq!(handler.poll(), HandlerEvent::Pending);
}

#[test]
fn handler_downloads_before_it_forwards() {
    let mut handler = EngineHandler::new(10, 32);
    handler.on_request(payload(13));
    handler.on_request(payload(11));
    let range = BackfillTarget { first: 11, last: 12 };
    assert_eq!(handler.poll(), HandlerEvent::Download(range));
    // Nothing is forwarded while the download is under way, not even a
    // request that would be ready: it came later.
    assert_eq!(handler.poll(), HandlerEvent::Pending);
    assert_eq!(handler.pending_requests(), 2);
    // Word of another download is dropped.
    assert!(!handler.on_downloaded(BackfillTarget { first: 11, last: 13 }));
    assert_eq!(handler.poll(), HandlerEvent::Pending);
    assert!(handler.on_downloaded(range));
    assert_eq!(handler.tip(), 12);
    assert!(!handler.on_downloaded(range));
    assert_eq!(handler.poll(), HandlerEvent::Forward(payload(13)));
    assert_eq!(handler.poll(), HandlerEvent::Forward(payload(11)));
}

#[test]
fn handler_passes_tree_events_on_first() {
    let mut handler = EngineHandler::new(10, 32);
    handler.on_request(payload(11));
    handler.on_tree_event(TreeEvent::InvalidBlock(11));
    handler.on_tree_event(TreeEvent::CanonicalHead(12));
    handler.on_tree_event(TreeEvent::CanonicalHead(5));
    assert_eq!(handler.tip(), 12);
    assert_eq!(handler.poll(), HandlerEvent::Event(LiveEvent::InvalidBlock(11)));
    assert_eq!(handler.poll(), HandlerEvent::Event(LiveEvent::CanonicalHeadUpdated(12)));
    assert_eq!(handler.poll(), HandlerEvent::Event(LiveEvent::CanonicalHeadUpdated(5)));
    assert_eq!(handler.poll(), HandlerEvent::Forward(payload(11)));
    // An invalid block does not stop live processing; a failure of the tree
    // does.
    handler.on_request(payload(12));
    assert!(handler.has_work());
    handler.on_tree_event(TreeEvent::InvalidBlock(12));
    handler.on_tree_event(TreeEvent::FatalError);
    assert!(!handler.is_spent());
    // The failure is handed out once, before what waits; then nothing.
    assert_eq!(handler.poll(), HandlerEvent::FatalError);
    assert!(handler.is_spent());
    assert!(!handler.has_work());
    assert_eq!(handler.poll(), HandlerEvent::Pending);
    handler.on_request(payload(13));
    handler.on_tree_event(TreeEvent::CanonicalHead(13));
    assert_eq!(handler.poll(), HandlerEvent::Pending);
    assert_eq!(handler.pending_requests(), 2);
    assert!(!handler.is_drained());
}

#[test]
fn handler_waits_while_backfill_runs() {
    let mut handler = EngineHandler::new(10, 2);
    handler.on_request(forkchoice(100));
    let range = BackfillTarget { first: 11, last: 99 };
    assert_eq!(handler.poll(), HandlerEvent::BackfillAction(BackfillAction::Start(range)));
    assert!(handler.is_backfilling());
    assert_eq!(handler.poll(), HandlerEvent::Pending);
    handler.on_event(FromOrchestrator::BackfillSyncStarted);
    assert_eq!(handler.poll(), HandlerEvent::Pending);
    handler.on_event(FromOrchestrator::BackfillSyncFinished(ControlFlow::Continue { block_number: 99 }));
    assert!(!handler.is_backfilling());
    assert_eq!(handler.tip(), 99);
    assert_eq!(handler.poll(), HandlerEvent::Forward(forkchoice(100)));

    // An unwind lowers the tip; no progress leaves it.
    handler.on_event(FromOrchestrator::BackfillSyncFinished(ControlFlow::Unwind { target: 50, bad_block: 51 }));
    assert_eq!(handler.tip(), 50);
    handler.on_event(FromOrchestrator::BackfillSyncFinished(ControlFlow::NoProgress { block_number: Some(70) }));
    assert_eq!(handler.tip(), 50);
    handler.on_event(FromOrchestrator::BackfillSyncFinished(ControlFlow::Continue { block_number: 40 }));
    assert_eq!(handler.tip(), 50);
}

#[test]
fn pipeline_sync_runs_one_range_at_a_time() {
    let mut sync = PipelineSync::new();
    assert!(sync.is_idle());
    assert_eq!(sync.poll(), None);
    assert!(!sync.on_outcome(PipelineOutcome::Dropped));

    let range = BackfillTarget { first: 11, last: 99 };
    sync.on_action(BackfillAction::Start(range));
    assert!(sync.is_pipeline_sync_pending());
    assert!(!sync.is_pipeline_active());
    assert_eq!(sync.poll(), Some(BackfillEvent::Started(range)));
    assert!(sync.is_pipeline_active());
    assert_eq!(sync.poll(), None);

    // A range that is asked for during the run waits for its end.
    let next = BackfillTarget { first: 100, last: 200 };
    sync.on_action(BackfillAction::Start(next));
    assert!(!sync.is_pipeline_sync_pending());
    assert_eq!(sync.poll(), None);

    let flow = ControlFlow::Continue { block_number: 99 };
    assert!(sync.on_outcome(PipelineOutcome::Returned(flow)));
    assert_eq!(sync.poll(), Some(BackfillEvent::Finished(flow)));
    assert_eq!(sync.poll(), Some(BackfillEvent::Started(next)));
    assert!(sync.on_outcome(PipelineOutcome::Failed(PipelineError { message: "stage failed".to_string() })));
    assert_eq!(sync.poll(), Some(BackfillEvent::Failed(PipelineError { message: "stage failed".to_string() })));
    assert!(sync.is_idle());

    sync.on_action(BackfillAction::Start(range));
    assert_eq!(sync.poll(), Some(BackfillEvent::Started(range)));
    assert!(sync.on_outcome(PipelineOutcome::Dropped));
    assert_eq!(sync.poll(), Some(BackfillEvent::TaskDropped));
    assert!(sync.is_idle());
}

#[test]
fn orchestrator_goes_to_backfill_and_back_once() {
    let mut service = EngineService::new(false, 10, 4);
    let orchestrator = service.orchestrator_mut();

    // Live events before the gap.
    orchestrator.handler_mut().on_request(payload(11));
    orchestrator.handler_mut().on_tree_event(TreeEvent::CanonicalHead(11));
    let mut modes = vec![orchestrator.mode()];
    let mut events = Vec::new();
    let mut polled = Vec::new();
    let mut poll = |orchestrator: &mut ChainOrchestrator, modes: &mut Vec<SyncMode>, events: &mut Vec<ChainEvent>| -> Step {
        let active = orchestrator.active();
        let step = orchestrator.poll();
        assert_eq!(step.polled, active);
        polled.push(step.polled);
        if orchestrator.mode() != *modes.last().unwrap() {
            modes.push(orchestrator.mode());
        }
        if let Some(event) = step.event {
            events.push(event);
        }
        step
    };

    assert_eq!(
        poll(orchestrator, &mut modes, &mut events),
        live(Some(ChainEvent::Handler(LiveEvent::CanonicalHeadUpdated(11))), None)
    );
    assert_eq!(
        poll(orchestrator, &mut modes, &mut events),
        live(None, Some(DriverAction::Forward(payload(11))))
    );
    assert_eq!(poll(orchestrator, &mut modes, &mut events), live(None, None));

    // A request far ahead of the tip forces the gap.
    orchestrator.handler_mut().on_request(forkchoice(100));
    orchestrator.handler_mut().on_request(payload(100));
    assert_eq!(poll(orchestrator, &mut modes, &mut events), live(None, None));
    assert_eq!(orchestrator.mode(), SyncMode::Backfilling);
    assert_eq!(orchestrator.active(), Adapter::PipelineSync);

    // From here on the pipeline is polled, and the handler is not: its
    // requests wait, and an event of the tree waits with them.
    orchestrator.handler_mut().on_tree_event(TreeEvent::InvalidBlock(12));
    let range = BackfillTarget { first: 12, last: 99 };
    assert_eq!(
        poll(orchestrator, &mut modes, &mut events),
        backfill(Some(ChainEvent::BackfillSyncStarted), Some(DriverAction::RunPipeline(range)))
    );
    assert_eq!(poll(orchestrator, &mut modes, &mut events), backfill(None, None));
    assert_eq!(poll(orchestrator, &mut modes, &mut events), backfill(None, None));
    assert_eq!(orchestrator.handler().pending_requests(), 2);

    // The run ends.
    assert!(orchestrator.on_pipeline_outcome(PipelineOutcome::Returned(ControlFlow::Continue { block_number: 99 })));
    assert_eq!(
        poll(orchestrator, &mut modes, &mut events),
        backfill(Some(ChainEvent::BackfillSyncFinished), None)
    );
    assert_eq!(orchestrator.mode(), SyncMode::Live);
    assert!(!orchestrator.on_pipeline_outcome(PipelineOutcome::Dropped));

    // Live events are back, beginning with what has waited.
    assert_eq!(
        poll(orchestrator, &mut modes, &mut events),
        live(Some(ChainEvent::Handler(LiveEvent::InvalidBlock(12))), None)
    );
    assert_eq!(
        poll(orchestrator, &mut modes, &mut events),
        live(None, Some(DriverAction::Forward(forkchoice(100))))
    );
    assert_eq!(
        poll(orchestrator, &mut modes, &mut events),
        live(None, Some(DriverAction::Forward(payload(100))))
    );
    assert_eq!(poll(orchestrator, &mut modes, &mut events), live(None, None));

    // The stream is at its end once the sources are closed, and not before.
    assert!(orchestrator.handler().is_drained());
    assert!(!orchestrator.is_at_end(false));
    assert!(orchestrator.is_at_end(true));
    orchestrator.handler_mut().on_request(payload(100));
    assert!(!orchestrator.is_at_end(true));
    assert_eq!(
        poll(orchestrator, &mut modes, &mut events),
        live(None, Some(DriverAction::Forward(payload(100))))
    );
    assert!(orchestrator.is_at_end(true));

    // One transition to backfill, one back.
    assert_eq!(modes, vec![SyncMode::Live, SyncMode::Backfilling, SyncMode::Live]);
    assert_eq!(
        events,
        vec![
            ChainEvent::Handler(LiveEvent::CanonicalHeadUpdated(11)),
            ChainEvent::BackfillSyncStarted,
            ChainEvent::BackfillSyncFinished,
            ChainEvent::Handler(LiveEvent::InvalidBlock(12)),
        ]
    );
    assert_eq!(service.poll_next(), live(None, None));
}

#[test]
fn orchestrator_passes_failures_on() {
    // A failure of the tree is passed on; the mode stays.
    let mut orchestrator = ChainOrchestrator::new(EngineHandler::new(10, 4), PipelineSync::new());
    orchestrator.handler_mut().on_request(payload(11));
    orchestrator.handler_mut().on_tree_event(TreeEvent::FatalError);
    assert!(orchestrator.has_work());
    assert_eq!(orchestrator.poll(), live(Some(ChainEvent::FatalError), None));
    assert_eq!(orchestrator.mode(), SyncMode::Live);
    // The failure is not handed out again, and nothing is forwarded.
    assert!(!orchestrator.has_work());
    assert_eq!(orchestrator.poll(), live(None, None));
    assert_eq!(orchestrator.poll(), live(None, None));
    assert_eq!(orchestrator.handler().pending_requests(), 1);
    // The failed adapter has nothing left: the stream ends with its sources.
    assert!(!orchestrator.is_at_end(false));
    assert!(orchestrator.is_at_end(true));

    // A failure of the pipeline is passed on; backfill mode does not end.
    let mut orchestrator = ChainOrchestrator::new(EngineHandler::new(10, 4), PipelineSync::new());
    orchestrator.handler_mut().on_request(payload(100));
    assert_eq!(orchestrator.poll(), live(None, None));
    let range = BackfillTarget { first: 11, last: 99 };
    assert_eq!(
        orchestrator.poll(),
        backfill(Some(ChainEvent::BackfillSyncStarted), Some(DriverAction::RunPipeline(range)))
    );
    assert!(orchestrator.on_pipeline_outcome(PipelineOutcome::Failed(PipelineError { message: "no peers".to_string() })));
    assert_eq!(orchestrator.poll(), backfill(Some(ChainEvent::FatalError), None));
    assert_eq!(orchestrator.mode(), SyncMode::Backfilling);
    assert_eq!(orchestrator.poll(), backfill(None, None));

    let mut orchestrator = ChainOrchestrator::new(EngineHandler::new(10, 4), PipelineSync::new());
    orchestrator.handler_mut().on_request(payload(100));
    orchestrator.poll();
    orchestrator.poll();
    assert!(orchestrator.on_pipeline_outcome(PipelineOutcome::Dropped));
    assert_eq!(orchestrator.poll(), backfill(Some(ChainEvent::FatalError), None));
    assert_eq!(orchestrator.mode(), SyncMode::Backfilling);
}

#[test]
fn orchestrator_starts_in_live_mode() {
    let mut orchestrator = ChainOrchestrator::new(EngineHandler::new(0, 4), PipelineSync::new());
    assert_eq!(orchestrator.mode(), SyncMode::Live);
    assert_eq!(orchestrator.active(), Adapter::EngineHandler);
    assert!(!orchestrator.has_work());
    assert_eq!(orchestrator.poll(), live(None, None));
    // The poll that asks for backfill leaves work behind: the run is to be
    // started.
    orchestrator.handler_mut().on_request(payload(50));
    assert!(orchestrator.has_work());
    assert_eq!(orchestrator.poll(), live(None, None));
    assert_eq!(orchestrator.mode(), SyncMode::Backfilling);
    assert!(orchestrator.has_work());
    assert!(orchestrator.backfill_sync().is_ready());
    let range = BackfillTarget { first: 1, last: 49 };
    assert_eq!(
        orchestrator.poll(),
        backfill(Some(ChainEvent::BackfillSyncStarted), Some(DriverAction::RunPipeline(range)))
    );
    assert!(!orchestrator.has_work());
    assert!(orchestrator.handler().is_backfilling());
}
