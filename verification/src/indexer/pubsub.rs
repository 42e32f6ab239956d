//! The live ingestion loop: attestations pushed by the beacon node are
//! processed as they arrive, each in a task of its own, with a bound on the
//! number of tasks that run at a time.

use crate::client::model::attestation::Attestation;
use crate::error::IndexError;
use vstd::prelude::*;

verus! {

/// What happened while the loop was waiting.
#[derive(Debug)]
pub enum LiveEvent {
    /// The loop starts.
    Begin,
    /// The stream delivered an item: an attestation, or the error that took
    /// the place of one.
    Item(Result<Attestation, IndexError>),
    /// A task ended, well or with an error.
    TaskEnded(Result<(), IndexError>),
    /// The stream ended.
    Closed,
}

/// What the loop does next.
#[derive(Debug)]
pub enum LiveAction {
    /// Wait for the next item of the stream or for the end of a task.
    Listen,
    /// Wait for the end of a task, and leave the stream alone until then.
    Hold,
    /// Start a task that processes the attestation, then wait: for the end
    /// of a task only if `hold` is set, else for the stream as well.
    Spawn { attestation: Attestation, hold: bool },
    /// Stop: the stream has ended and every attestation it delivered has
    /// been processed.
    Finish,
}

/// The state of the live ingestion loop.
#[derive(Debug)]
pub struct LiveIngestion {
    /// The number of tasks that may run at a time; at least one may.
    pub limit: usize,
    /// The number of tasks that run.
    pub in_flight: usize,
    /// Attestations that arrived while `limit` tasks ran, oldest first.
    pub waiting: Vec<Attestation>,
    /// Whether the stream has ended.
    pub closed: bool,
}

/// What the live ingestion loop holds.
pub struct LiveIngestionView {
    pub limit: usize,
    pub in_flight: usize,
    pub waiting: Seq<Attestation>,
    pub closed: bool,
}

impl View for LiveIngestion {
    type V = LiveIngestionView;

    open spec fn view(&self) -> LiveIngestionView {
        LiveIngestionView {
            limit: self.limit,
            in_flight: self.in_flight,
            waiting: self.waiting@,
            closed: self.closed,
        }
    }
}

impl LiveIngestionView {
    /// A loop in which nothing runs and nothing waits, on a stream that has
    /// not ended.
    pub open spec fn fresh(limit: usize) -> LiveIngestionView {
        LiveIngestionView { limit, in_flight: 0, waiting: Seq::empty(), closed: false }
    }

    /// Whether one more task may be started.
    pub open spec fn has_room(self) -> bool {
        self.in_flight < self.limit || self.in_flight == 0
    }

    /// Whether no more tasks run than may.
    pub open spec fn within_limit(self) -> bool {
        self.in_flight <= self.limit || self.in_flight <= 1
    }

    /// Whether nothing runs and nothing waits.
    pub open spec fn is_drained(self) -> bool {
        self.in_flight == 0 && self.waiting.len() == 0
    }

    /// What to wait for when nothing is to be started: while the stream
    /// goes on, for the stream and the tasks where there is room, and for
    /// the tasks alone where there is none; once the stream has ended, for
    /// the tasks that still run, and for nothing when none does.
    pub open spec fn wait(self) -> (LiveIngestionView, LiveAction) {
        if self.closed {
            if self.in_flight == 0 {
                (self, LiveAction::Finish)
            } else {
                (self, LiveAction::Hold)
            }
        } else if self.has_room() {
            (self, LiveAction::Listen)
        } else {
            (self, LiveAction::Hold)
        }
    }

    /// Starts a task for `attestation`.
    pub open spec fn start(self, attestation: Attestation) -> (LiveIngestionView, LiveAction) {
        let after = LiveIngestionView { in_flight: (self.in_flight + 1) as usize, ..self };
        (after, LiveAction::Spawn { attestation, hold: after.closed || !after.has_room() })
    }

    /// Goes on with what is at hand: the oldest waiting attestation gets a
    /// task where there is room for one; else the loop waits.
    pub open spec fn settle(self) -> (LiveIngestionView, LiveAction) {
        if self.waiting.len() > 0 && self.has_room() {
            LiveIngestionView { waiting: self.waiting.drop_first(), ..self }.start(self.waiting[0])
        } else {
            self.wait()
        }
    }

    /// One turn of the loop.
    ///
    /// An item that is an error is passed over.  An attestation joins those
    /// that wait, and the oldest of them gets a task as soon as there is
    /// room for one: at once where nothing waits and there is room.  When a
    /// task ends, however it ends, the oldest waiting attestation gets its
    /// place.  When the stream ends, the loop goes on until every
    /// attestation that was delivered has had its task and every task has
    /// ended, and stops then.
    pub open spec fn step(self, event: LiveEvent) -> (LiveIngestionView, LiveAction) {
        match event {
            LiveEvent::Begin => self.settle(),
            LiveEvent::Item(Err(_)) => self.settle(),
            LiveEvent::Item(Ok(attestation)) => LiveIngestionView {
                waiting: self.waiting.push(attestation),
                ..self
            }.settle(),
            LiveEvent::TaskEnded(_) => LiveIngestionView {
                in_flight: if self.in_flight > 0 {
                    (self.in_flight - 1) as usize
                } else {
                    0
                },
                ..self
            }.settle(),
            LiveEvent::Closed => LiveIngestionView { closed: true, ..self }.settle(),
        }
    }
}

impl LiveIngestion {
    /// A loop that runs at most `limit` tasks at a time, and one where
    /// `limit` is zero.
    pub fn new(limit: usize) -> (state: Self)
        ensures
            state@ == LiveIngestionView::fresh(limit),
    {
        LiveIngestion { limit, in_flight: 0, waiting: Vec::new(), closed: false }
    }

    fn room(&self) -> (room: bool)
        ensures
            room == self@.has_room(),
    {
        self.in_flight < self.limit || self.in_flight == 0
    }

    fn settle(&mut self) -> (action: LiveAction)
        ensures
            (final(self)@, action) == old(self)@.settle(),
    {
        if self.waiting.len() > 0 && self.room() {
            let oldest = self.waiting.remove(0);
            assert(self.waiting@ == old(self).waiting@.drop_first());
            self.in_flight = self.in_flight + 1;
            let hold = self.closed || !self.room();
            LiveAction::Spawn { attestation: oldest, hold }
        } else if self.closed {
            if self.in_flight == 0 {
                LiveAction::Finish
            } else {
                LiveAction::Hold
            }
        } else if self.room() {
            LiveAction::Listen
        } else {
            LiveAction::Hold
        }
    }
}

/// One turn of the live ingestion loop: takes what happened and answers
/// with what to do next.
pub fn index_attestations(state: &mut LiveIngestion, event: LiveEvent) -> (action: LiveAction)
    ensures
        (final(state)@, action) == old(state)@.step(event),
{
    match event {
        LiveEvent::Begin => {},
        LiveEvent::Item(Err(_)) => {},
        LiveEvent::Item(Ok(attestation)) => {
            state.waiting.push(attestation);
        },
        LiveEvent::TaskEnded(_) => {
            if state.in_flight > 0 {
                state.in_flight = state.in_flight - 1;
            }
        },
        LiveEvent::Closed => {
            state.closed = true;
        },
    }
    state.settle()
}

/// No turn of the loop lets more tasks run than may: a loop within its limit
/// stays within it.
pub proof fn lemma_limit_is_kept(state: LiveIngestionView, event: LiveEvent)
    requires
        state.within_limit(),
    ensures
        state.step(event).0.within_limit(),
{
}

/// The end of a task has the same effect on the loop whether the task
/// succeeded or failed, and an item that is an error neither adds nor drops
/// an attestation and does not stop a loop whose stream goes on.
pub proof fn lemma_failures_are_isolated(state: LiveIngestionView, e: IndexError)
    ensures
        state.step(LiveEvent::TaskEnded(Err(e))) == state.step(LiveEvent::TaskEnded(Ok(()))),
        state.step(LiveEvent::Item(Err(e))) == state.step(LiveEvent::Begin),
        !state.closed ==> !(state.step(LiveEvent::Item(Err(e))).1 is Finish),
{
}

/// No attestation is lost: one that the stream delivers is either given a
/// task in that turn or waits behind those that waited before it, which
/// keep their order.
pub proof fn lemma_attestation_is_kept(state: LiveIngestionView, attestation: Attestation)
    ensures
        ({
            let (after, action) = state.step(LiveEvent::Item(Ok(attestation)));
            ||| action matches LiveAction::Spawn { attestation: a, .. } && a == attestation && after.waiting.len() == 0
            ||| after.waiting.len() > 0 && after.waiting.last() == attestation
        }),
        ({
            let (after, action) = state.step(LiveEvent::Item(Ok(attestation)));
            action matches LiveAction::Spawn { attestation: a, .. } ==> a == state.waiting.push(attestation)[0]
                && after.waiting == state.waiting.push(attestation).drop_first()
        }),
{
}

/// The loop stops only when the stream has ended and nothing runs and
/// nothing waits; and once the stream has ended, it waits for tasks alone,
/// starts the attestations that wait as room comes, and stops as soon as
/// nothing runs and nothing waits.
pub proof fn lemma_stream_end_drains(state: LiveIngestionView, event: LiveEvent)
    ensures
        state.step(event).1 is Finish ==> state.step(event).0.closed && state.step(event).0.is_drained(),
        state.step(event).0.closed && state.step(event).0.is_drained() ==> state.step(event).1 is Finish,
        state.step(event).0.closed ==> !(state.step(event).1 is Listen) && (state.step(event).1 matches LiveAction::Spawn {
            hold,
            ..
        } ==> hold),
        state.closed ==> state.step(event).0.closed,
{
}

} // verus!
