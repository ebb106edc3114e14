//! What holds of every run of the orchestrator and of the live adapter.
use crate::engine::event::{
    BackfillAction, BackfillEvent, BackfillTarget, ChainEvent, DriverAction, EngineRequest,
    FromOrchestrator, HandlerEvent, SyncMode, TreeEvent,
};
use crate::engine::handler::{missing_ancestors, HandlerState};
use crate::engine::orchestrator::{adapter_of, OrchestratorState};
use crate::engine::pipeline::{PipelineOutcome, PipelineSync};
use vstd::prelude::*;

verus! {

/// A poll advances one adapter and leaves the other alone.
///
/// In live mode the backfill adapter is not advanced: its run and what it
/// has to report stay as they are, and all that can reach it is the range
/// that the live adapter wants replayed. In backfill mode the live adapter
/// is not advanced: no request is forwarded or dropped, no event is taken,
/// no download is begun. So no block is handed to the tree while the
/// pipeline may be executing it.
pub proof fn law_one_adapter_per_step(state: OrchestratorState)
    ensures
        state.polled().polled == adapter_of(state.mode),
        state.mode == SyncMode::Live ==> {
            &&& state.after_poll().handler == state.handler.after_poll()
            &&& state.after_poll().backfill.running == state.backfill.running
            &&& state.after_poll().backfill.outcome == state.backfill.outcome
        },
        state.mode == SyncMode::Backfilling ==> {
            &&& !(state.polled().action matches Some(DriverAction::Forward(_)))
            &&& !(state.polled().action matches Some(DriverAction::Download(_)))
            &&& state.after_poll().backfill == state.backfill.after_poll()
            &&& state.after_poll().handler.requests == state.handler.requests
            &&& state.after_poll().handler.events == state.handler.events
            &&& state.after_poll().handler.downloading == state.handler.downloading
            &&& state.after_poll().handler.fatal == state.handler.fatal
        },
{
}

/// The mode changes for two reasons only.
///
/// Live mode ends with the poll in which the live adapter asks for
/// backfill, and with no other. Backfill mode ends with the poll in which
/// the pipeline reports that its run is over, and with no other; that poll
/// hands out the event that backfill is over.
pub proof fn law_mode_switches(state: OrchestratorState)
    ensures
        state.mode == SyncMode::Live ==> (state.after_poll().mode == SyncMode::Backfilling
            <==> state.handler.polled() is BackfillAction),
        state.mode == SyncMode::Backfilling ==> (state.after_poll().mode == SyncMode::Live
            <==> state.backfill.polled() matches Some(BackfillEvent::Finished(_))),
        state.mode == SyncMode::Backfilling && state.after_poll().mode == SyncMode::Live
            ==> state.polled().event == Some(ChainEvent::BackfillSyncFinished),
        state.polled().event == Some(ChainEvent::BackfillSyncFinished) ==> state.mode
            == SyncMode::Backfilling && state.after_poll().mode == SyncMode::Live,
        state.polled().event == Some(ChainEvent::BackfillSyncStarted) ==> state.mode
            == SyncMode::Backfilling && state.after_poll().mode == SyncMode::Backfilling,
{
}

/// What the driver can do to the orchestrator.
pub enum Input {
    /// Poll it.
    Poll,
    /// Hand something to the live adapter; this is the state it is left in.
    Handler(HandlerState),
    /// Say that the run of the pipeline is over.
    Outcome(PipelineOutcome),
}

/// The state after the driver has done `input`.
pub open spec fn after_input(state: OrchestratorState, input: Input) -> OrchestratorState {
    match input {
        Input::Poll => state.after_poll(),
        Input::Handler(handler) => OrchestratorState { handler, ..state },
        Input::Outcome(outcome) => if state.backfill.running is Some {
            OrchestratorState {
                backfill: PipelineSync { outcome: Some(outcome), ..state.backfill },
                ..state
            }
        } else {
            state
        },
    }
}

/// The event that the caller gets when the driver does `input`.
pub open spec fn event_of(state: OrchestratorState, input: Input) -> Option<ChainEvent> {
    match input {
        Input::Poll => state.polled().event,
        _ => None,
    }
}

/// The events that the caller gets while the driver does `inputs` one
/// after the other.
pub open spec fn events_of(state: OrchestratorState, inputs: Seq<Input>) -> Seq<ChainEvent>
    decreases inputs.len(),
{
    if inputs.len() == 0 {
        Seq::empty()
    } else {
        let rest = events_of(after_input(state, inputs[0]), inputs.drop_first());
        match event_of(state, inputs[0]) {
            Some(event) => seq![event] + rest,
            None => rest,
        }
    }
}

/// Whether the start of a run has been announced and its end has not.
pub open spec fn announced(state: OrchestratorState) -> bool {
    state.mode == SyncMode::Backfilling && state.backfill.pending_target is None
}

/// Whether starts and ends of backfill take turns in `events`, beginning
/// with an end if `announced` and with a start if not.
pub open spec fn take_turns(events: Seq<ChainEvent>, announced: bool) -> bool
    decreases events.len(),
{
    if events.len() == 0 {
        true
    } else {
        match events[0] {
            ChainEvent::BackfillSyncStarted => !announced && take_turns(events.drop_first(), true),
            ChainEvent::BackfillSyncFinished => announced && take_turns(
                events.drop_first(),
                false,
            ),
            _ => take_turns(events.drop_first(), announced),
        }
    }
}

/// The orchestrator stays in order, whatever the driver does.
pub proof fn law_stays_in_order(state: OrchestratorState, input: Input)
    requires
        state.wf(),
    ensures
        after_input(state, input).wf(),
{
}

/// Starts and ends of backfill take turns.
///
/// Whatever the driver does and in whatever order, the events that the
/// caller gets never hold two starts of backfill without an end between
/// them, nor two ends without a start between them, nor an end before the
/// first start.
pub proof fn law_starts_and_ends_take_turns(state: OrchestratorState, inputs: Seq<Input>)
    requires
        state.wf(),
    ensures
        take_turns(events_of(state, inputs), announced(state)),
    decreases inputs.len(),
{
    if inputs.len() > 0 {
        let next = after_input(state, inputs[0]);
        law_stays_in_order(state, inputs[0]);
        law_starts_and_ends_take_turns(next, inputs.drop_first());
        let rest = events_of(next, inputs.drop_first());
        match event_of(state, inputs[0]) {
            Some(event) => {
                let all = seq![event] + rest;
                assert(all[0] == event);
                assert(all.drop_first() =~= rest);
            },
            None => {},
        }
    }
}

/// A request goes to the tree only when the tree is ready for it.
///
/// The request that a poll forwards is the oldest that waits, the tree
/// holds the parent of its block, and neither a download nor backfill is
/// under way. A download or backfill is asked for only for ancestors that
/// are missing, and never while another is under way.
pub proof fn law_forward_needs_parent(state: HandlerState)
    ensures
        state.polled() matches HandlerEvent::Forward(request) ==> {
            &&& state.requests.len() > 0 && request == state.requests[0]
            &&& missing_ancestors(state.tip, request.block_number) == 0
            &&& !state.backfilling
            &&& state.downloading is None
        },
        state.polled() matches HandlerEvent::Download(target) ==> {
            &&& state.requests.len() > 0
            &&& target.first == state.tip + 1
            &&& target.last == state.requests[0].block_number - 1
            &&& 1 <= missing_ancestors(state.tip, state.requests[0].block_number) <= state.threshold
            &&& !state.backfilling
            &&& state.downloading is None
        },
        state.polled() matches HandlerEvent::BackfillAction(action) ==> {
            &&& state.requests.len() > 0
            &&& action matches BackfillAction::Start(target) && target.first == state.tip + 1
                && target.last == state.requests[0].block_number - 1
            &&& missing_ancestors(state.tip, state.requests[0].block_number) > state.threshold
            &&& !state.backfilling
            &&& state.downloading is None
            &&& state.after_poll().backfilling
        },
{
}

/// A failure of the tree is handed out once.
///
/// The poll that follows the failure hands it out, whatever else waits.
/// From then on the handler has nothing left: a poll comes up with nothing
/// and changes nothing.
pub proof fn law_fatal_is_reported_once(state: HandlerState)
    requires
        state.fatal,
    ensures
        !state.reported ==> state.polled() == HandlerEvent::FatalError,
        state.after_poll().spent(),
        state.after_poll().polled() == HandlerEvent::Pending,
        state.after_poll().after_poll() == state.after_poll(),
        state.spent() ==> state.polled() == HandlerEvent::Pending && state.after_poll() == state,
{
}

/// After the live adapter has failed, the orchestrator hands out the
/// failure once and then nothing more on its account: in live mode a later
/// poll gives no event and asks for nothing.
pub proof fn law_failed_adapter_is_silent(state: OrchestratorState)
    requires
        state.mode == SyncMode::Live,
        state.handler.fatal,
    ensures
        !state.handler.reported ==> state.polled().event == Some(ChainEvent::FatalError),
        state.after_poll().mode == SyncMode::Live,
        state.after_poll().handler.spent(),
        state.after_poll().polled().event is None,
        state.after_poll().polled().action is None,
        state.after_poll().after_poll() == state.after_poll(),
        !state.after_poll().has_work(),
{
}

/// What can happen to the live adapter.
pub enum HandlerInput {
    /// It is polled.
    Poll,
    /// A request arrives.
    Request(EngineRequest),
    /// The tree reports something.
    Tree(TreeEvent),
    /// The driver says that a download is done.
    Downloaded(BackfillTarget),
    /// The orchestrator says something about backfill.
    Orchestrator(FromOrchestrator),
}

/// The state of the live adapter after `input`.
pub open spec fn handler_after(state: HandlerState, input: HandlerInput) -> HandlerState {
    match input {
        HandlerInput::Poll => state.after_poll(),
        HandlerInput::Request(request) => state.after_request(request),
        HandlerInput::Tree(event) => state.after_tree_event(event),
        HandlerInput::Downloaded(target) => state.after_downloaded(target),
        HandlerInput::Orchestrator(event) => state.after_orchestrator(event),
    }
}

/// The state of the live adapter after `inputs`, one after the other.
pub open spec fn handler_after_all(state: HandlerState, inputs: Seq<HandlerInput>) -> HandlerState
    decreases inputs.len(),
{
    if inputs.len() == 0 {
        state
    } else {
        handler_after_all(handler_after(state, inputs[0]), inputs.drop_first())
    }
}

/// The requests that arrive in `inputs`, in the order of their arrival.
pub open spec fn arrived(inputs: Seq<HandlerInput>) -> Seq<EngineRequest>
    decreases inputs.len(),
{
    if inputs.len() == 0 {
        Seq::empty()
    } else {
        match inputs[0] {
            HandlerInput::Request(request) => seq![request] + arrived(inputs.drop_first()),
            _ => arrived(inputs.drop_first()),
        }
    }
}

/// The requests that the live adapter forwards to the tree in the course
/// of `inputs`, in the order in which it forwards them.
pub open spec fn forwarded(state: HandlerState, inputs: Seq<HandlerInput>) -> Seq<EngineRequest>
    decreases inputs.len(),
{
    if inputs.len() == 0 {
        Seq::empty()
    } else {
        let rest = forwarded(handler_after(state, inputs[0]), inputs.drop_first());
        match (inputs[0], state.polled()) {
            (HandlerInput::Poll, HandlerEvent::Forward(request)) => seq![request] + rest,
            _ => rest,
        }
    }
}

/// Requests reach the tree in the order of their arrival.
///
/// Whatever happens to the live adapter and in whatever order: the
/// requests that it has forwarded, followed by those that still wait, are
/// the requests that waited at first, followed by those that arrived since.
/// So none is lost, none is forwarded twice, and none overtakes another.
pub proof fn law_requests_keep_their_order(state: HandlerState, inputs: Seq<HandlerInput>)
    ensures
        forwarded(state, inputs) + handler_after_all(state, inputs).requests == state.requests
            + arrived(inputs),
    decreases inputs.len(),
{
    if inputs.len() == 0 {
        assert(forwarded(state, inputs) + state.requests =~= state.requests + arrived(inputs));
    } else {
        let next = handler_after(state, inputs[0]);
        let rest = inputs.drop_first();
        law_requests_keep_their_order(next, rest);
        let tail = forwarded(next, rest) + handler_after_all(next, rest).requests;
        assert(tail == next.requests + arrived(rest));
        match inputs[0] {
            HandlerInput::Poll => {
                match state.polled() {
                    HandlerEvent::Forward(request) => {
                        assert(state.requests =~= seq![request] + next.requests);
                        assert(forwarded(state, inputs) + handler_after_all(state, inputs).requests
                            =~= seq![request] + tail);
                        assert(state.requests + arrived(inputs) =~= seq![request] + (next.requests
                            + arrived(rest)));
                    },
                    _ => {
                        assert(next.requests == state.requests);
                    },
                }
            },
            HandlerInput::Request(request) => {
                assert(next.requests == state.requests.push(request));
                assert(state.requests + arrived(inputs) =~= next.requests + arrived(rest));
            },
            _ => {
                assert(next.requests == state.requests);
            },
        }
    }
}

/// A handler that has failed and has said so stays silent.
///
/// Whatever happens to it afterwards, it stays failed, and it forwards no
/// request.
pub proof fn law_failed_handler_stays_silent(state: HandlerState, inputs: Seq<HandlerInput>)
    requires
        state.spent(),
    ensures
        handler_after_all(state, inputs).spent(),
        forwarded(state, inputs) == Seq::<EngineRequest>::empty(),
    decreases inputs.len(),
{
    if inputs.len() > 0 {
        law_failed_handler_stays_silent(handler_after(state, inputs[0]), inputs.drop_first());
    }
}

} // verus!
