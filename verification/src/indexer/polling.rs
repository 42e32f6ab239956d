//! The backfill driver: epoch after epoch, from a starting epoch up to a
//! bound or, without a bound, up to the justified epoch of the chain and
//! then again and again the epoch after it.

use crate::common::committee::Committee;
use crate::error::IndexError;
use crate::indexer::{
    lemma_step_keeps_epoch, Action, ActionView, Event, Indexer, IndexerView, MAX_EPOCH, SLOTS_PER_EPOCH,
};
use vstd::prelude::*;

verus! {

/// What a run is busy with.
#[derive(Clone, Copy, Debug, PartialEq, Eq, Structural)]
pub enum RunPhase {
    /// Nothing: the run has not begun.
    Idle,
    /// Waiting for the finality checkpoints of the head state.
    Checkpoints,
    /// Waiting for the committees of the epoch before `epoch`, with which
    /// the backfill of `epoch` begins.  The backfill goes up to `last` where
    /// that is given; else `epoch` is the epoch that is polled.
    Capture { epoch: u64, last: Option<u64> },
    /// Indexing the epochs up to `last`, one after the other.
    Backfill { last: u64 },
    /// Indexing the epoch after the last of the backfill, over and over.
    Polling,
    /// Nothing: a run with a bound has reached it.
    Finished,
    /// Nothing: the run was given up.
    Failed,
}

/// A run of the backfill driver.
///
/// Epochs are indexed in increasing order from `from_epoch`.  With a bound,
/// the run ends when the epoch `max_epoch` is indexed.  Without one, the run
/// indexes up to the justified epoch that the chain reported when the run
/// began, and then indexes the epoch after it for as long as nothing fails.
/// The committee map of an epoch is handed on to the backfill of the next;
/// for the first epoch of a run that is not epoch 0, the committees of the
/// epoch before it are read from the beacon node first.
#[derive(Debug)]
pub struct PollingIndexer {
    /// The bound, if the run has one.
    pub max_epoch: Option<u64>,
    /// The epoch at which the run starts.
    pub from_epoch: u64,
    pub phase: RunPhase,
    /// The backfill of the epoch that is being indexed.
    pub pass: Indexer,
}

/// What a run holds.
pub struct PollingIndexerView {
    pub max_epoch: Option<u64>,
    pub from_epoch: u64,
    pub phase: RunPhase,
    pub pass: IndexerView,
}

impl View for PollingIndexer {
    type V = PollingIndexerView;

    open spec fn view(&self) -> PollingIndexerView {
        PollingIndexerView {
            max_epoch: self.max_epoch,
            from_epoch: self.from_epoch,
            phase: self.phase,
            pass: self.pass@,
        }
    }
}

/// The last epoch of the backfill: the bound where there is one, else the
/// justified epoch.
pub open spec fn last_epoch(max_epoch: Option<u64>, justified: u64) -> u64 {
    match max_epoch {
        Some(max) => max,
        None => justified,
    }
}

/// What the run is busy with once the backfill of its first epoch begins:
/// the backfill up to `last` where that is given, else the polling.
pub open spec fn phase_of(last: Option<u64>) -> RunPhase {
    match last {
        Some(last) => RunPhase::Backfill { last },
        None => RunPhase::Polling,
    }
}

impl PollingIndexerView {
    /// A run from epoch 0 that has not begun.
    pub open spec fn fresh(max_epoch: Option<u64>) -> PollingIndexerView {
        PollingIndexerView {
            max_epoch,
            from_epoch: 0,
            phase: RunPhase::Idle,
            pass: IndexerView::fresh(0, Seq::empty()),
        }
    }

    /// The run gives up with `e`.
    pub open spec fn fail(self, e: IndexError) -> (PollingIndexerView, ActionView) {
        (PollingIndexerView { phase: RunPhase::Failed, ..self }, ActionView::Failed(e))
    }

    /// The run goes on with what the backfill of the epoch asks for, and
    /// fails when the backfill fails.
    pub open spec fn follow(self, phase: RunPhase, pass: IndexerView, action: ActionView) -> (
        PollingIndexerView,
        ActionView,
    ) {
        match action {
            ActionView::Failed(e) => (PollingIndexerView { phase: RunPhase::Failed, pass, ..self }, action),
            _ => (PollingIndexerView { phase, pass, ..self }, action),
        }
    }

    /// Begins the backfill of `epoch` with the committee map `previous` of
    /// the epoch before it.
    pub open spec fn start_pass(self, phase: RunPhase, epoch: u64, previous: Seq<Committee>) -> (
        PollingIndexerView,
        ActionView,
    ) {
        let (pass, action) = IndexerView::fresh(epoch, previous).pass_step(Event::Begin);
        self.follow(phase, pass, action)
    }

    /// Begins the first backfill of the run, that of `epoch`: at once for
    /// epoch 0, which has no epoch before it; else by reading the committees
    /// of the epoch before `epoch`, which become the prior committee map.
    pub open spec fn begin_at(self, epoch: u64, last: Option<u64>) -> (PollingIndexerView, ActionView) {
        if epoch == 0 {
            self.start_pass(phase_of(last), 0, Seq::empty())
        } else if epoch - 1 > MAX_EPOCH {
            self.fail(IndexError::EpochOutOfRange)
        } else {
            (
                PollingIndexerView { phase: RunPhase::Capture { epoch, last }, ..self },
                ActionView::FetchCommittees {
                    state_slot: ((epoch - 1) * SLOTS_PER_EPOCH) as u64,
                    epoch_filter: Some((epoch - 1) as u64),
                    index_filter: None,
                    slot_filter: None,
                },
            )
        }
    }

    /// What follows the backfill up to `last` where no epoch was indexed:
    /// the end of a run with a bound, else the polling of the epoch after
    /// `last`.
    pub open spec fn without_pass(self, last: u64) -> (PollingIndexerView, ActionView) {
        if self.max_epoch is Some {
            (PollingIndexerView { phase: RunPhase::Finished, ..self }, ActionView::Finished)
        } else if last == u64::MAX {
            self.fail(IndexError::EpochOutOfRange)
        } else {
            self.begin_at((last + 1) as u64, None)
        }
    }

    /// What follows the backfill of `last`, the last epoch: the end of a run
    /// with a bound, else the polling of the epoch after `last`, whose
    /// backfill is given the committee map `current` of `last`.
    pub open spec fn after_backfill(self, last: u64, current: Seq<Committee>) -> (PollingIndexerView, ActionView) {
        if self.max_epoch is Some {
            (PollingIndexerView { phase: RunPhase::Finished, ..self }, ActionView::Finished)
        } else if last == u64::MAX {
            self.fail(IndexError::EpochOutOfRange)
        } else {
            self.start_pass(RunPhase::Polling, (last + 1) as u64, current)
        }
    }

    /// One step of the run.
    pub open spec fn step(self, event: Event) -> (PollingIndexerView, ActionView) {
        match self.phase {
            RunPhase::Idle => match event {
                Event::Failed(e) => self.fail(e),
                Event::Begin => (
                    PollingIndexerView { phase: RunPhase::Checkpoints, ..self },
                    ActionView::FetchCheckpoints,
                ),
                _ => self.fail(IndexError::Protocol),
            },
            RunPhase::Checkpoints => match event {
                Event::Failed(e) => self.fail(e),
                Event::Checkpoints(checkpoints) => {
                    let last = last_epoch(self.max_epoch, checkpoints.current_justified.epoch);
                    if self.from_epoch <= last {
                        self.begin_at(self.from_epoch, Some(last))
                    } else {
                        self.without_pass(last)
                    }
                },
                _ => self.fail(IndexError::Protocol),
            },
            RunPhase::Capture { epoch, last } => match event {
                Event::Failed(e) => self.fail(e),
                Event::Committees(list) => self.start_pass(phase_of(last), epoch, list@),
                _ => self.fail(IndexError::Protocol),
            },
            RunPhase::Backfill { last } => {
                let (pass, action) = self.pass.pass_step(event);
                if !(action is Finished) {
                    self.follow(self.phase, pass, action)
                } else if pass.epoch < last {
                    PollingIndexerView { pass, ..self }.start_pass(self.phase, (pass.epoch + 1) as u64, pass.current)
                } else {
                    PollingIndexerView { pass, ..self }.after_backfill(pass.epoch, pass.current)
                }
            },
            RunPhase::Polling => {
                let (pass, action) = self.pass.pass_step(event);
                if !(action is Finished) {
                    self.follow(self.phase, pass, action)
                } else {
                    PollingIndexerView { pass, ..self }.start_pass(self.phase, pass.epoch, pass.previous)
                }
            },
            RunPhase::Finished | RunPhase::Failed => match event {
                Event::Failed(e) => self.fail(e),
                _ => self.fail(IndexError::Protocol),
            },
        }
    }
}

impl PollingIndexer {
    /// A run from epoch 0, up to `max_epoch` where it is given.
    pub fn new(max_epoch: Option<u64>) -> (run: Self)
        ensures
            run@ == PollingIndexerView::fresh(max_epoch),
    {
        PollingIndexer { max_epoch, from_epoch: 0, phase: RunPhase::Idle, pass: Indexer::new(0, Vec::new()) }
    }

    /// The same run, starting at `epoch`.  The backfill of `epoch` begins
    /// with the committees of the epoch before it, which the run reads from
    /// the beacon node, so that attestations of that epoch found in blocks
    /// of `epoch` have their committees.
    pub fn resume_from(self, epoch: u64) -> (run: Self)
        ensures
            run@ == (PollingIndexerView { from_epoch: epoch, ..self@ }),
    {
        PollingIndexer { max_epoch: self.max_epoch, from_epoch: epoch, phase: self.phase, pass: self.pass }
    }

    fn give_up(&mut self, e: IndexError) -> (action: Action)
        ensures
            (final(self)@, action@) == old(self)@.fail(e),
    {
        self.phase = RunPhase::Failed;
        Action::Failed(e)
    }

    fn follow(&mut self, phase: RunPhase, action: Action) -> (followed: Action)
        ensures
            (final(self)@, followed@) == old(self)@.follow(phase, old(self)@.pass, action@),
            followed@ == action@,
    {
        match action {
            Action::Failed(_) => {
                self.phase = RunPhase::Failed;
            },
            _ => {
                self.phase = phase;
            },
        }
        action
    }

    fn start_pass(&mut self, phase: RunPhase, epoch: u64, previous: Vec<Committee>) -> (action: Action)
        ensures
            (final(self)@, action@) == old(self)@.start_pass(phase, epoch, previous@),
    {
        self.pass = Indexer::new(epoch, previous);
        let action = self.pass.run_for_epoch(Event::Begin);
        self.follow(phase, action)
    }

    fn begin_at(&mut self, epoch: u64, last: Option<u64>) -> (action: Action)
        ensures
            (final(self)@, action@) == old(self)@.begin_at(epoch, last),
    {
        if epoch == 0 {
            let phase = match last {
                Some(last) => RunPhase::Backfill { last },
                None => RunPhase::Polling,
            };
            self.start_pass(phase, 0, Vec::new())
        } else if epoch - 1 > MAX_EPOCH {
            self.give_up(IndexError::EpochOutOfRange)
        } else {
            self.phase = RunPhase::Capture { epoch, last };
            Action::FetchCommittees {
                state_slot: (epoch - 1) * SLOTS_PER_EPOCH,
                epoch_filter: Some(epoch - 1),
                index_filter: None,
                slot_filter: None,
            }
        }
    }

    fn without_pass(&mut self, last: u64) -> (action: Action)
        ensures
            (final(self)@, action@) == old(self)@.without_pass(last),
    {
        if self.max_epoch.is_some() {
            self.phase = RunPhase::Finished;
            Action::Finished
        } else if last == u64::MAX {
            self.give_up(IndexError::EpochOutOfRange)
        } else {
            self.begin_at(last + 1, None)
        }
    }

    fn after_backfill(&mut self, last: u64) -> (action: Action)
        ensures
            (final(self)@, action@) == old(self)@.after_backfill(last, old(self)@.pass.current),
    {
        if self.max_epoch.is_some() {
            self.phase = RunPhase::Finished;
            Action::Finished
        } else if last == u64::MAX {
            self.give_up(IndexError::EpochOutOfRange)
        } else {
            let mut current: Vec<Committee> = Vec::new();
            std::mem::swap(&mut current, &mut self.pass.current);
            self.start_pass(RunPhase::Polling, last + 1, current)
        }
    }

    /// One step of the import of the validators by the backfill of the
    /// epoch at hand; the run itself stays where it is.
    pub fn index_current_validators(&mut self, event: Event) -> (action: Action)
        ensures
            final(self)@ == (PollingIndexerView { pass: old(self)@.pass.validators_step(event).0, ..old(self)@ }),
            action@ == old(self)@.pass.validators_step(event).1,
    {
        self.pass.index_current_validators(event)
    }

    /// One step of the import of the committees by the backfill of the
    /// epoch at hand; the run itself stays where it is.
    pub fn index_committees_for_epoch(&mut self, event: Event) -> (action: Action)
        ensures
            final(self)@ == (PollingIndexerView { pass: old(self)@.pass.committees_step(event).0, ..old(self)@ }),
            action@ == old(self)@.pass.committees_step(event).1,
    {
        self.pass.index_committees_for_epoch(event)
    }

    /// One step of the creation of the record of `epoch` by the backfill of
    /// the epoch at hand; the run itself stays where it is.
    pub fn create_epoch(&mut self, epoch: u64, event: Event) -> (action: Action)
        ensures
            final(self)@ == (PollingIndexerView { pass: old(self)@.pass.epoch_step(epoch, event).0, ..old(self)@ }),
            action@ == old(self)@.pass.epoch_step(epoch, event).1,
    {
        self.pass.create_epoch(epoch, event)
    }

    /// One step of the backfill of the epoch at hand; the run itself stays
    /// where it is.
    pub fn run_for_epoch(&mut self, event: Event) -> (action: Action)
        ensures
            final(self)@ == (PollingIndexerView { pass: old(self)@.pass.pass_step(event).0, ..old(self)@ }),
            action@ == old(self)@.pass.pass_step(event).1,
    {
        self.pass.run_for_epoch(event)
    }

    /// One step of the run: takes the outcome of the last request and
    /// answers with the next, `Finished` when a run with a bound has
    /// indexed its last epoch, or `Failed` with the error that ended the
    /// run.
    pub fn run(&mut self, event: Event) -> (action: Action)
        ensures
            (final(self)@, action@) == old(self)@.step(event),
    {
        match self.phase {
            RunPhase::Idle => match event {
                Event::Failed(e) => self.give_up(e),
                Event::Begin => {
                    self.phase = RunPhase::Checkpoints;
                    Action::FetchCheckpoints
                },
                _ => self.give_up(IndexError::Protocol),
            },
            RunPhase::Checkpoints => match event {
                Event::Failed(e) => self.give_up(e),
                Event::Checkpoints(checkpoints) => {
                    let last = match self.max_epoch {
                        Some(max) => max,
                        None => checkpoints.current_justified.epoch,
                    };
                    if self.from_epoch <= last {
                        self.begin_at(self.from_epoch, Some(last))
                    } else {
                        self.without_pass(last)
                    }
                },
                _ => self.give_up(IndexError::Protocol),
            },
            RunPhase::Capture { epoch, last } => match event {
                Event::Failed(e) => self.give_up(e),
                Event::Committees(list) => {
                    let phase = match last {
                        Some(last) => RunPhase::Backfill { last },
                        None => RunPhase::Polling,
                    };
                    self.start_pass(phase, epoch, list)
                },
                _ => self.give_up(IndexError::Protocol),
            },
            RunPhase::Backfill { last } => {
                let action = self.pass.run_for_epoch(event);
                match action {
                    Action::Finished => {
                        let epoch = self.pass.epoch;
                        if epoch < last {
                            let mut current: Vec<Committee> = Vec::new();
                            std::mem::swap(&mut current, &mut self.pass.current);
                            self.start_pass(self.phase, epoch + 1, current)
                        } else {
                            self.after_backfill(epoch)
                        }
                    },
                    _ => self.follow(self.phase, action),
                }
            },
            RunPhase::Polling => {
                let action = self.pass.run_for_epoch(event);
                match action {
                    Action::Finished => {
                        let epoch = self.pass.epoch;
                        let mut previous: Vec<Committee> = Vec::new();
                        std::mem::swap(&mut previous, &mut self.pass.previous);
                        self.start_pass(self.phase, epoch, previous)
                    },
                    _ => self.follow(self.phase, action),
                }
            },
            RunPhase::Finished | RunPhase::Failed => match event {
                Event::Failed(e) => self.give_up(e),
                _ => self.give_up(IndexError::Protocol),
            },
        }
    }
}

/// Epochs are indexed in increasing order, and the committee map of an
/// epoch is handed on: when the backfill of an epoch before the last ends,
/// the run goes on with the epoch after it, whose backfill holds the
/// committee map of the epoch just indexed as its prior map.
pub proof fn lemma_epochs_in_order(run: PollingIndexerView, last: u64, event: Event)
    requires
        run.phase == (RunPhase::Backfill { last }),
        run.pass.pass_step(event).1 is Finished,
        run.pass.epoch < last,
    ensures
        run.step(event).0.pass.epoch == run.pass.epoch + 1,
        run.step(event).0.pass.previous == run.pass.pass_step(event).0.current,
        !(run.step(event).1 is Finished),
{
    lemma_step_keeps_epoch(run.pass, event);
    lemma_step_keeps_epoch(
        IndexerView::fresh((run.pass.epoch + 1) as u64, run.pass.pass_step(event).0.current),
        Event::Begin,
    );
}

/// A run with a bound ends with the bound: when the backfill of the last
/// epoch ends, the run is finished.  A run without a bound never finishes:
/// it goes on with the epoch after the last, again and again, with the
/// committee map of the last epoch as the prior map each time.
pub proof fn lemma_end_of_backfill(run: PollingIndexerView, last: u64, event: Event)
    requires
        run.pass.pass_step(event).1 is Finished,
        run.phase == (RunPhase::Backfill { last }) && run.pass.epoch >= last || run.phase == RunPhase::Polling,
    ensures
        run.phase is Backfill && run.max_epoch is Some ==> run.step(event).1 is Finished && run.step(event).0.phase
            == RunPhase::Finished,
        run.max_epoch is None ==> !(run.step(event).1 is Finished),
        run.phase is Backfill && run.max_epoch is None && run.pass.epoch < u64::MAX ==> run.step(event).0.pass.epoch
            == run.pass.epoch + 1 && run.step(event).0.pass.previous == run.pass.pass_step(event).0.current,
        run.phase == RunPhase::Polling ==> run.step(event).0.pass.epoch == run.pass.epoch && run.step(
            event,
        ).0.pass.previous == run.pass.previous,
{
    lemma_step_keeps_epoch(run.pass, event);
    let pass = run.pass.pass_step(event).0;
    if run.pass.epoch < u64::MAX {
        lemma_step_keeps_epoch(IndexerView::fresh((run.pass.epoch + 1) as u64, pass.current), Event::Begin);
    }
    lemma_step_keeps_epoch(IndexerView::fresh(run.pass.epoch, pass.previous), Event::Begin);
}

/// The last epoch of the backfill is the bound where the run has one, and
/// the justified epoch of the chain where it has none.  A run from epoch 0
/// begins the backfill at once; a run from a later epoch first reads the
/// committees of the epoch before it, and begins the backfill of its first
/// epoch with them as the prior committee map.
pub proof fn lemma_backfill_range(run: PollingIndexerView, event: Event, captured: Event)
    requires
        run.phase == RunPhase::Checkpoints,
        event is Checkpoints,
        run.from_epoch <= last_epoch(run.max_epoch, event->Checkpoints_0.current_justified.epoch),
        run.from_epoch <= MAX_EPOCH,
        captured is Committees,
    ensures
        run.from_epoch == 0 ==> run.step(event).0.phase == (RunPhase::Backfill {
            last: last_epoch(run.max_epoch, event->Checkpoints_0.current_justified.epoch),
        }) && run.step(event).0.pass.epoch == 0 && run.step(event).1 == ActionView::FetchValidators,
        run.from_epoch > 0 ==> run.step(event).1 == (ActionView::FetchCommittees {
            state_slot: ((run.from_epoch - 1) * SLOTS_PER_EPOCH) as u64,
            epoch_filter: Some((run.from_epoch - 1) as u64),
            index_filter: None,
            slot_filter: None,
        }),
        run.from_epoch > 0 ==> run.step(event).0.step(captured).0.phase == (RunPhase::Backfill {
            last: last_epoch(run.max_epoch, event->Checkpoints_0.current_justified.epoch),
        }) && run.step(event).0.step(captured).0.pass.epoch == run.from_epoch && run.step(event).0.step(
            captured,
        ).0.pass.previous == captured->Committees_0@ && run.step(event).0.step(captured).1
            == ActionView::FetchValidators,
{
}

} // verus!
