//! The adapter of live mode.
//!
//! Requests of the consensus layer arrive in some order and are handed to
//! the tree of blocks in that order. A request about a block whose parent
//! the tree does not hold has to wait: the missing ancestors are downloaded
//! and inserted first. Where too many are missing, the handler asks for
//! backfill instead and forwards nothing until backfill is over.
use crate::engine::event::{
    BackfillAction, BackfillTarget, ControlFlow, EngineRequest, FromOrchestrator, HandlerEvent,
    LiveEvent, TreeEvent,
};
use vstd::prelude::*;

verus! {

/// What to do about a request, given what the tree holds.
#[derive(Debug, Clone, Copy, PartialEq, Eq, Structural)]
pub enum GapDecision {
    /// The tree holds the parent: the request can go to the tree.
    Ready,
    /// These ancestors are missing and few enough to be downloaded.
    Download(BackfillTarget),
    /// These ancestors are missing and too many to be downloaded.
    Backfill(BackfillTarget),
}

/// How many ancestors of block `number` are missing when `tip` is the
/// highest block that the tree holds.
pub open spec fn missing_ancestors(tip: u64, number: u64) -> nat {
    if number > tip + 1 {
        (number - tip - 1) as nat
    } else {
        0
    }
}

/// What to do about a request for block `number`: it is ready where no
/// ancestor is missing; the missing ancestors, from `tip + 1` to
/// `number - 1`, are downloaded where they are at most `threshold`, and
/// backfilled where they are more.
pub open spec fn gap_decision(tip: u64, number: u64, threshold: u64) -> GapDecision {
    if missing_ancestors(tip, number) == 0 {
        GapDecision::Ready
    } else {
        let target = BackfillTarget { first: (tip + 1) as u64, last: (number - 1) as u64 };
        if missing_ancestors(tip, number) > threshold {
            GapDecision::Backfill(target)
        } else {
            GapDecision::Download(target)
        }
    }
}

/// Decides what to do about a request for block `number`.
pub fn decide(tip: u64, number: u64, threshold: u64) -> (decision: GapDecision)
    ensures
        decision == gap_decision(tip, number, threshold),
{
    if number <= tip {
        return GapDecision::Ready;
    }
    let missing = number - tip - 1;
    if missing == 0 {
        return GapDecision::Ready;
    }
    let target = BackfillTarget { first: tip + 1, last: number - 1 };
    if missing > threshold {
        GapDecision::Backfill(target)
    } else {
        GapDecision::Download(target)
    }
}

/// The highest block that the tree holds after a run of the pipeline has
/// ended in `flow`: the block that the run got to, where that is higher;
/// the block that the chain was unwound to, where it was unwound.
pub open spec fn tip_after(tip: u64, flow: ControlFlow) -> u64 {
    match flow {
        ControlFlow::Unwind { target, bad_block } => target,
        ControlFlow::Continue { block_number } => if block_number > tip {
            block_number
        } else {
            tip
        },
        ControlFlow::NoProgress { block_number } => tip,
    }
}

/// The state of the handler, as the contracts see it.
pub struct HandlerState {
    /// The highest block that the tree holds.
    pub tip: u64,
    /// How many missing ancestors are downloaded at most; more are
    /// backfilled.
    pub threshold: u64,
    /// The requests that wait, in the order of their arrival.
    pub requests: Seq<EngineRequest>,
    /// The events that wait to be passed on, oldest first.
    pub events: Seq<LiveEvent>,
    /// The download that is under way.
    pub downloading: Option<BackfillTarget>,
    /// Whether backfill has been asked for and is not yet over.
    pub backfilling: bool,
    /// Whether the tree has failed for good.
    pub fatal: bool,
    /// Whether the failure of the tree has been handed out.
    pub reported: bool,
}

impl HandlerState {
    /// What a poll comes up with.
    ///
    /// A failure of the tree comes before all else, and is handed out once:
    /// after it the handler comes up with nothing, whatever waits. Else the
    /// events that wait come first. Requests are looked at only while no
    /// download is under way and no backfill is wanted, and then only the
    /// oldest of them.
    pub open spec fn polled(self) -> HandlerEvent {
        if self.fatal {
            if self.reported {
                HandlerEvent::Pending
            } else {
                HandlerEvent::FatalError
            }
        } else if self.events.len() > 0 {
            HandlerEvent::Event(self.events[0])
        } else if self.backfilling || self.downloading is Some || self.requests.len() == 0 {
            HandlerEvent::Pending
        } else {
            match gap_decision(self.tip, self.requests[0].block_number, self.threshold) {
                GapDecision::Ready => HandlerEvent::Forward(self.requests[0]),
                GapDecision::Download(target) => HandlerEvent::Download(target),
                GapDecision::Backfill(target) => HandlerEvent::BackfillAction(
                    BackfillAction::Start(target),
                ),
            }
        }
    }

    /// Whether nothing waits and nothing is under way: no request, no
    /// event, no download.
    pub open spec fn drained(self) -> bool {
        self.requests.len() == 0 && self.events.len() == 0 && self.downloading is None
    }

    /// Whether the handler has failed and has said so: it will come up with
    /// nothing any more.
    pub open spec fn spent(self) -> bool {
        self.fatal && self.reported
    }

    /// Whether a poll would come up with something.
    pub open spec fn has_work(self) -> bool {
        self.polled() != HandlerEvent::Pending
    }

    /// The state after a poll.
    pub open spec fn after_poll(self) -> Self {
        match self.polled() {
            HandlerEvent::Pending => self,
            HandlerEvent::FatalError => HandlerState { reported: true, ..self },
            HandlerEvent::Event(_) => HandlerState { events: self.events.drop_first(), ..self },
            HandlerEvent::Forward(_) => HandlerState {
                requests: self.requests.drop_first(),
                ..self
            },
            HandlerEvent::Download(target) => HandlerState { downloading: Some(target), ..self },
            HandlerEvent::BackfillAction(_) => HandlerState { backfilling: true, ..self },
        }
    }

    /// The state after the tree has reported `event`.
    pub open spec fn after_tree_event(self, event: TreeEvent) -> Self {
        match event {
            TreeEvent::CanonicalHead(number) => HandlerState {
                tip: if number > self.tip {
                    number
                } else {
                    self.tip
                },
                events: self.events.push(LiveEvent::CanonicalHeadUpdated(number)),
                ..self
            },
            TreeEvent::InvalidBlock(number) => HandlerState {
                events: self.events.push(LiveEvent::InvalidBlock(number)),
                ..self
            },
            TreeEvent::FatalError => HandlerState { fatal: true, ..self },
        }
    }

    /// The state after the driver has said that the blocks of `target` are
    /// downloaded and inserted: where this is the download that is under
    /// way, it is over, and the tree holds blocks up to the last of them;
    /// else nothing changes.
    pub open spec fn after_downloaded(self, target: BackfillTarget) -> Self {
        if self.downloading == Some(target) {
            HandlerState {
                downloading: None,
                tip: if target.last > self.tip {
                    target.last
                } else {
                    self.tip
                },
                ..self
            }
        } else {
            self
        }
    }

    /// The state after a request has arrived: it waits behind the requests
    /// that came before it.
    pub open spec fn after_request(self, request: EngineRequest) -> Self {
        HandlerState { requests: self.requests.push(request), ..self }
    }

    /// The state after the orchestrator has said `event`.
    pub open spec fn after_orchestrator(self, event: FromOrchestrator) -> Self {
        match event {
            FromOrchestrator::BackfillSyncStarted => HandlerState { backfilling: true, ..self },
            FromOrchestrator::BackfillSyncFinished(flow) => HandlerState {
                backfilling: false,
                tip: tip_after(self.tip, flow),
                ..self
            },
        }
    }
}

/// The adapter of live mode.
#[derive(Debug, Clone, PartialEq, Eq)]
pub struct EngineHandler {
    tip: u64,
    threshold: u64,
    requests: Vec<EngineRequest>,
    events: Vec<LiveEvent>,
    downloading: Option<BackfillTarget>,
    backfilling: bool,
    fatal: bool,
    reported: bool,
}

impl View for EngineHandler {
    type V = HandlerState;

    closed spec fn view(&self) -> HandlerState {
        HandlerState {
            tip: self.tip,
            threshold: self.threshold,
            requests: self.requests@,
            events: self.events@,
            downloading: self.downloading,
            backfilling: self.backfilling,
            fatal: self.fatal,
            reported: self.reported,
        }
    }
}

impl EngineHandler {
    /// A handler over a tree whose highest block is `tip`, that downloads
    /// up to `threshold` missing ancestors and asks for backfill beyond.
    /// Nothing waits.
    pub fn new(tip: u64, threshold: u64) -> (handler: Self)
        ensures
            handler@ == (HandlerState {
                tip,
                threshold,
                requests: Seq::empty(),
                events: Seq::empty(),
                downloading: None,
                backfilling: false,
                fatal: false,
                reported: false,
            }),
    {
        EngineHandler {
            tip,
            threshold,
            requests: Vec::new(),
            events: Vec::new(),
            downloading: None,
            backfilling: false,
            fatal: false,
            reported: false,
        }
    }

    /// The highest block that the tree holds.
    pub fn tip(&self) -> (tip: u64)
        ensures
            tip == self@.tip,
    {
        self.tip
    }

    /// Whether backfill has been asked for and is not yet over.
    pub fn is_backfilling(&self) -> (backfilling: bool)
        ensures
            backfilling == self@.backfilling,
    {
        self.backfilling
    }

    /// How many requests wait.
    pub fn pending_requests(&self) -> (count: usize)
        ensures
            count == self@.requests.len(),
    {
        self.requests.len()
    }

    /// Whether nothing waits and nothing is under way.
    pub fn is_drained(&self) -> (drained: bool)
        ensures
            drained == self@.drained(),
    {
        self.requests.len() == 0 && self.events.len() == 0 && self.downloading.is_none()
    }

    /// Whether the handler has failed and has said so.
    pub fn is_spent(&self) -> (spent: bool)
        ensures
            spent == self@.spent(),
    {
        self.fatal && self.reported
    }

    /// Whether a poll would come up with something.
    pub fn has_work(&self) -> (work: bool)
        ensures
            work == self@.has_work(),
    {
        if self.fatal {
            return !self.reported;
        }
        if self.events.len() > 0 {
            return true;
        }
        !(self.backfilling || self.downloading.is_some() || self.requests.len() == 0)
    }

    /// Takes a request of the consensus layer. It waits behind the requests
    /// that came before it.
    pub fn on_request(&mut self, request: EngineRequest)
        ensures
            final(self)@ == old(self)@.after_request(request),
    {
        self.requests.push(request);
    }

    /// Takes a report of the tree.
    pub fn on_tree_event(&mut self, event: TreeEvent)
        ensures
            final(self)@ == old(self)@.after_tree_event(event),
    {
        match event {
            TreeEvent::CanonicalHead(number) => {
                if number > self.tip {
                    self.tip = number;
                }
                self.events.push(LiveEvent::CanonicalHeadUpdated(number));
            },
            TreeEvent::InvalidBlock(number) => {
                self.events.push(LiveEvent::InvalidBlock(number));
            },
            TreeEvent::FatalError => {
                self.fatal = true;
            },
        }
    }

    /// Takes the word of the driver that the blocks of `target` have been
    /// downloaded and inserted. Where this is the download that is under
    /// way, it is over, and the tree now holds blocks up to the last of
    /// them; any other word is dropped.
    pub fn on_downloaded(&mut self, target: BackfillTarget) -> (taken: bool)
        ensures
            taken == (old(self)@.downloading == Some(target)),
            final(self)@ == old(self)@.after_downloaded(target),
    {
        let wanted = match self.downloading {
            Some(wanted) => wanted,
            None => {
                return false;
            },
        };
        if wanted.first != target.first || wanted.last != target.last {
            return false;
        }
        self.downloading = None;
        if target.last > self.tip {
            self.tip = target.last;
        }
        true
    }

    /// Takes the word of the orchestrator on backfill.
    pub fn on_event(&mut self, event: FromOrchestrator)
        ensures
            final(self)@ == old(self)@.after_orchestrator(event),
    {
        match event {
            FromOrchestrator::BackfillSyncStarted => {
                self.backfilling = true;
            },
            FromOrchestrator::BackfillSyncFinished(flow) => {
                self.backfilling = false;
                match flow {
                    ControlFlow::Unwind { target, bad_block } => {
                        self.tip = target;
                    },
                    ControlFlow::Continue { block_number } => {
                        if block_number > self.tip {
                            self.tip = block_number;
                        }
                    },
                    ControlFlow::NoProgress { block_number } => {},
                }
            },
        }
    }

    /// Advances the handler by one step and says what is to happen.
    ///
    /// A request is forwarded only when it is the oldest one that waits and
    /// the tree holds the parent of its block.
    pub fn poll(&mut self) -> (event: HandlerEvent)
        ensures
            event == old(self)@.polled(),
            final(self)@ == old(self)@.after_poll(),
    {
        if self.fatal {
            if self.reported {
                return HandlerEvent::Pending;
            }
            self.reported = true;
            return HandlerEvent::FatalError;
        }
        if self.events.len() > 0 {
            let event = self.events.remove(0);
            assert(self.events@ =~= old(self).events@.drop_first());
            return HandlerEvent::Event(event);
        }
        if self.backfilling || self.downloading.is_some() || self.requests.len() == 0 {
            return HandlerEvent::Pending;
        }
        let front = self.requests[0];
        match decide(self.tip, front.block_number, self.threshold) {
            GapDecision::Ready => {
                let request = self.requests.remove(0);
                assert(self.requests@ =~= old(self).requests@.drop_first());
                HandlerEvent::Forward(request)
            },
            GapDecision::Download(target) => {
                self.downloading = Some(target);
                HandlerEvent::Download(target)
            },
            GapDecision::Backfill(target) => {
                self.backfilling = true;
                HandlerEvent::BackfillAction(BackfillAction::Start(target))
            },
        }
    }
}

} // verus!
