//! The committee resolver and the processing of one live attestation.

use crate::client::model::attestation::Attestation;
use crate::common::committee::{Committee, CommitteeView};
use crate::error::IndexError;
use crate::indexer::committees::{attendance, decode_attestation, find_committee, first_match, lemma_first_match};
use crate::indexer::{Action, ActionView, Event};
use crate::service::model::Committee as StoredCommittee;
use crate::store::committee::{with_committee, CommitteeStore};
use vstd::prelude::*;

verus! {

/// What a resolution is waiting for.
#[derive(Clone, Copy, Debug, PartialEq, Eq, Structural)]
pub enum ResolverStage {
    /// Nothing: no request was made yet.
    Idle,
    /// The committee that the store holds under the key.
    Store,
    /// The committees that the beacon node has for the key.
    Beacon,
    /// The write of the committee that the beacon node had.
    Persist,
    /// Nothing: the resolution is done.
    Resolved,
    /// Nothing: the resolution was given up.
    Failed,
}

/// The resolution of the committee of one (slot, index) pair: the store is
/// asked first, and the beacon node only where the store has no such
/// committee.  What the beacon node had is persisted before it is returned.
#[derive(Debug)]
pub struct Resolver {
    pub slot: u64,
    pub index: u8,
    pub stage: ResolverStage,
    /// The committee that the beacon node had, while its write is awaited.
    pub found: Option<StoredCommittee>,
}

/// What a resolution holds.
pub struct ResolverView {
    pub slot: u64,
    pub index: u8,
    pub stage: ResolverStage,
    pub found: Option<CommitteeView>,
}

impl View for Resolver {
    type V = ResolverView;

    open spec fn view(&self) -> ResolverView {
        ResolverView {
            slot: self.slot,
            index: self.index,
            stage: self.stage,
            found: match self.found {
                Some(committee) => Some(committee@),
                None => None,
            },
        }
    }
}

impl ResolverView {
    /// A resolution of (slot, index) that has not begun.
    pub open spec fn fresh(slot: u64, index: u8) -> ResolverView {
        ResolverView { slot, index, stage: ResolverStage::Idle, found: None }
    }

    /// The resolution gives up with `e`.
    pub open spec fn fail(self, e: IndexError) -> (ResolverView, ActionView) {
        (ResolverView { stage: ResolverStage::Failed, ..self }, ActionView::Failed(e))
    }

    /// One step of the resolution.
    ///
    /// The store is asked first.  What it holds is the answer.  Where it
    /// holds nothing, the beacon node is asked for the committees of the
    /// slot and index; the first of them that has the key is persisted and
    /// is then the answer; where none has the key, the answer is `None`.
    pub open spec fn step(self, event: Event) -> (ResolverView, ActionView) {
        match event {
            Event::Failed(e) => self.fail(e),
            Event::Begin => if self.stage == ResolverStage::Idle {
                (
                    ResolverView { stage: ResolverStage::Store, ..self },
                    ActionView::GetCommittee { slot: self.slot, index: self.index },
                )
            } else {
                self.fail(IndexError::Protocol)
            },
            Event::Stored(Some(committee)) => if self.stage == ResolverStage::Store {
                (ResolverView { stage: ResolverStage::Resolved, ..self }, ActionView::Resolved(Some(committee@)))
            } else {
                self.fail(IndexError::Protocol)
            },
            Event::Stored(None) => if self.stage == ResolverStage::Store {
                (
                    ResolverView { stage: ResolverStage::Beacon, ..self },
                    ActionView::FetchCommittees {
                        state_slot: self.slot,
                        epoch_filter: None,
                        index_filter: Some(self.index),
                        slot_filter: Some(self.slot),
                    },
                )
            } else {
                self.fail(IndexError::Protocol)
            },
            Event::Committees(list) => if self.stage == ResolverStage::Beacon {
                match first_match(list@, self.slot, self.index) {
                    Some(i) => (
                        ResolverView { stage: ResolverStage::Persist, found: Some(list@[i]@), ..self },
                        ActionView::UpsertCommittee(list@[i]@),
                    ),
                    None => (ResolverView { stage: ResolverStage::Resolved, ..self }, ActionView::Resolved(None)),
                }
            } else {
                self.fail(IndexError::Protocol)
            },
            Event::Done => if self.stage == ResolverStage::Persist && self.found is Some {
                (ResolverView { stage: ResolverStage::Resolved, found: None, ..self }, ActionView::Resolved(self.found))
            } else {
                self.fail(IndexError::Protocol)
            },
            _ => self.fail(IndexError::Protocol),
        }
    }
}

impl Resolver {
    /// A resolution of (slot, index) that has not begun.
    pub fn new(slot: u64, index: u8) -> (resolver: Self)
        ensures
            resolver@ == ResolverView::fresh(slot, index),
    {
        Resolver { slot, index, stage: ResolverStage::Idle, found: None }
    }

    fn give_up(&mut self, e: IndexError) -> (action: Action)
        ensures
            (final(self)@, action@) == old(self)@.fail(e),
    {
        self.stage = ResolverStage::Failed;
        Action::Failed(e)
    }
}

/// One step of the resolution of a committee: takes the outcome of the last
/// request and answers with the next, or with `Resolved` and the committee,
/// `None` where neither the store nor the beacon node has it.
pub fn get_committee_for_slot_and_index(resolver: &mut Resolver, event: Event) -> (action: Action)
    ensures
        (final(resolver)@, action@) == old(resolver)@.step(event),
{
    match event {
        Event::Failed(e) => resolver.give_up(e),
        Event::Begin => match resolver.stage {
            ResolverStage::Idle => {
                resolver.stage = ResolverStage::Store;
                Action::GetCommittee { slot: resolver.slot, index: resolver.index }
            },
            _ => resolver.give_up(IndexError::Protocol),
        },
        Event::Stored(Some(committee)) => match resolver.stage {
            ResolverStage::Store => {
                resolver.stage = ResolverStage::Resolved;
                Action::Resolved(Some(committee))
            },
            _ => resolver.give_up(IndexError::Protocol),
        },
        Event::Stored(None) => match resolver.stage {
            ResolverStage::Store => {
                resolver.stage = ResolverStage::Beacon;
                Action::FetchCommittees {
                    state_slot: resolver.slot,
                    epoch_filter: None,
                    index_filter: Some(resolver.index),
                    slot_filter: Some(resolver.slot),
                }
            },
            _ => resolver.give_up(IndexError::Protocol),
        },
        Event::Committees(list) => match resolver.stage {
            ResolverStage::Beacon => {
                let mut list = list;
                match find_committee(&list, resolver.slot, resolver.index) {
                    Some(at) => {
                        let committee = StoredCommittee::from(list.swap_remove(at));
                        let copy = committee.clone();
                        resolver.stage = ResolverStage::Persist;
                        resolver.found = Some(committee);
                        Action::UpsertCommittee(copy)
                    },
                    None => {
                        resolver.stage = ResolverStage::Resolved;
                        Action::Resolved(None)
                    },
                }
            },
            _ => resolver.give_up(IndexError::Protocol),
        },
        Event::Done => match resolver.stage {
            ResolverStage::Persist => {
                match resolver.found.take() {
                    Some(committee) => {
                        resolver.stage = ResolverStage::Resolved;
                        Action::Resolved(Some(committee))
                    },
                    None => resolver.give_up(IndexError::Protocol),
                }
            },
            _ => resolver.give_up(IndexError::Protocol),
        },
        _ => resolver.give_up(IndexError::Protocol),
    }
}

/// Whether `held` is what the store holds under (slot, index).
pub open spec fn is_held(store: CommitteeStore, slot: u64, index: u8, held: Option<StoredCommittee>) -> bool {
    match held {
        Some(committee) => store.dom().contains((slot, index)) && store[(slot, index)] == committee@,
        None => !store.dom().contains((slot, index)),
    }
}

/// How a resolution ended: what the store holds after it, what it answered,
/// and whether the beacon node was asked.
pub struct Outcome {
    pub store: CommitteeStore,
    pub answer: Option<CommitteeView>,
    pub asked_beacon: bool,
}

/// A whole resolution of (slot, index) over a store that holds `held` under
/// the key, with a beacon node that would answer `beacon`: each request of
/// the resolver is answered, and each upsert is made, until the resolver is
/// done.
pub open spec fn resolution(store: CommitteeStore, held: Option<StoredCommittee>, beacon: Vec<Committee>, slot: u64, index: u8) -> Outcome {
    let (asking_store, _) = ResolverView::fresh(slot, index).step(Event::Begin);
    let (after_store, second) = asking_store.step(Event::Stored(held));
    match second {
        ActionView::Resolved(answer) => Outcome { store, answer, asked_beacon: false },
        _ => {
            let (after_beacon, third) = after_store.step(Event::Committees(beacon));
            match third {
                ActionView::UpsertCommittee(committee) => {
                    let (_, last) = after_beacon.step(Event::Done);
                    Outcome {
                        store: with_committee(store, committee),
                        answer: match last {
                            ActionView::Resolved(answer) => answer,
                            _ => None,
                        },
                        asked_beacon: true,
                    }
                },
                _ => Outcome { store, answer: None, asked_beacon: true },
            }
        },
    }
}

/// The store is asked before the beacon node, and what it holds is the
/// answer.
pub proof fn lemma_store_is_asked_first(slot: u64, index: u8, held: StoredCommittee)
    ensures
        ResolverView::fresh(slot, index).step(Event::Begin).1 == (ActionView::GetCommittee { slot, index }),
        ResolverView::fresh(slot, index).step(Event::Begin).0.step(Event::Stored(Some(held))).1
            == ActionView::Resolved(Some(held@)),
{
}

/// A committee that was resolved once is resolved from the store from then
/// on: after a resolution of (slot, index) that answered with a committee, a
/// second resolution of the same key does not ask the beacon node, whatever
/// the beacon node would say, and answers with the same committee.
pub proof fn lemma_resolved_committee_is_cached(
    store: CommitteeStore,
    held: Option<StoredCommittee>,
    beacon: Vec<Committee>,
    slot: u64,
    index: u8,
    held_after: Option<StoredCommittee>,
    beacon_after: Vec<Committee>,
)
    requires
        is_held(store, slot, index, held),
        resolution(store, held, beacon, slot, index).answer is Some,
        is_held(resolution(store, held, beacon, slot, index).store, slot, index, held_after),
    ensures
        !resolution(resolution(store, held, beacon, slot, index).store, held_after, beacon_after, slot, index).asked_beacon,
        resolution(resolution(store, held, beacon, slot, index).store, held_after, beacon_after, slot, index).answer
            == resolution(store, held, beacon, slot, index).answer,
        resolution(resolution(store, held, beacon, slot, index).store, held_after, beacon_after, slot, index).store
            == resolution(store, held, beacon, slot, index).store,
{
    lemma_first_match(beacon@, slot, index);
}

/// What the processing of a live attestation is waiting for.
#[derive(Clone, Copy, Debug, PartialEq, Eq, Structural)]
pub enum TaskStage {
    /// The committee of the attestation.
    Resolving,
    /// The write of the records of the attestation.
    Writing,
    /// Nothing: the attestation is processed.
    Finished,
    /// Nothing: the processing was given up.
    Failed,
}

/// The processing of one attestation that the event stream delivered: its
/// committee is resolved by its own slot and index, its bitfield is decoded
/// against that committee, and the records are written in one batch.
#[derive(Debug)]
pub struct AttestationTask {
    pub attestation: Attestation,
    pub resolver: Resolver,
    pub stage: TaskStage,
}

/// What the processing of a live attestation holds.
pub struct AttestationTaskView {
    pub attestation: Attestation,
    pub resolver: ResolverView,
    pub stage: TaskStage,
}

impl View for AttestationTask {
    type V = AttestationTaskView;

    open spec fn view(&self) -> AttestationTaskView {
        AttestationTaskView { attestation: self.attestation, resolver: self.resolver@, stage: self.stage }
    }
}

impl AttestationTaskView {
    /// The processing of `attestation`, not yet begun.
    pub open spec fn fresh(attestation: Attestation) -> AttestationTaskView {
        AttestationTaskView {
            attestation,
            resolver: ResolverView::fresh(attestation.data.slot, attestation.data.index),
            stage: TaskStage::Resolving,
        }
    }

    /// The processing gives up with `e`.
    pub open spec fn fail(self, e: IndexError) -> (AttestationTaskView, ActionView) {
        (AttestationTaskView { stage: TaskStage::Failed, ..self }, ActionView::Failed(e))
    }

    /// One step of the processing.
    ///
    /// While the committee is being resolved, the step is that of the
    /// resolver.  A committee that cannot be had is a `Consistency` error.
    /// Once it is had, the attestation is decoded against it and the write of
    /// its records is asked for; the processing ends when they are written.
    pub open spec fn step(self, event: Event) -> (AttestationTaskView, ActionView) {
        match self.stage {
            TaskStage::Resolving => {
                let (resolver, action) = self.resolver.step(event);
                let after = AttestationTaskView { resolver, ..self };
                match action {
                    ActionView::Resolved(Some(committee)) => match attendance(self.attestation, committee.validators) {
                        Ok(batch) => (
                            AttestationTaskView { stage: TaskStage::Writing, ..after },
                            ActionView::UpsertAttestations(batch),
                        ),
                        Err(e) => after.fail(e),
                    },
                    ActionView::Resolved(None) => after.fail(IndexError::Consistency),
                    ActionView::Failed(e) => after.fail(e),
                    _ => (after, action),
                }
            },
            TaskStage::Writing => match event {
                Event::Failed(e) => self.fail(e),
                Event::Done => (AttestationTaskView { stage: TaskStage::Finished, ..self }, ActionView::Finished),
                _ => self.fail(IndexError::Protocol),
            },
            TaskStage::Finished | TaskStage::Failed => match event {
                Event::Failed(e) => self.fail(e),
                _ => self.fail(IndexError::Protocol),
            },
        }
    }
}

impl AttestationTask {
    /// The processing of `attestation`, not yet begun.
    pub fn new(attestation: Attestation) -> (task: Self)
        ensures
            task@ == AttestationTaskView::fresh(attestation),
    {
        let resolver = Resolver::new(attestation.data.slot, attestation.data.index);
        AttestationTask { attestation, resolver, stage: TaskStage::Resolving }
    }

    fn give_up(&mut self, e: IndexError) -> (action: Action)
        ensures
            (final(self)@, action@) == old(self)@.fail(e),
    {
        self.stage = TaskStage::Failed;
        Action::Failed(e)
    }
}

/// One step of the processing of a live attestation: takes the outcome of
/// the last request and answers with the next, `Finished` when the records
/// are written, or `Failed` with the error that ended the processing.
pub fn process_attestation(task: &mut AttestationTask, event: Event) -> (action: Action)
    ensures
        (final(task)@, action@) == old(task)@.step(event),
{
    match task.stage {
        TaskStage::Resolving => {
            let action = get_committee_for_slot_and_index(&mut task.resolver, event);
            match action {
                Action::Resolved(Some(committee)) => {
                    match decode_attestation(&task.attestation, &committee.validators) {
                        Ok(batch) => {
                            task.stage = TaskStage::Writing;
                            Action::UpsertAttestations(batch)
                        },
                        Err(e) => task.give_up(e),
                    }
                },
                Action::Resolved(None) => task.give_up(IndexError::Consistency),
                Action::Failed(e) => task.give_up(e),
                _ => action,
            }
        },
        TaskStage::Writing => match event {
            Event::Failed(e) => task.give_up(e),
            Event::Done => {
                task.stage = TaskStage::Finished;
                Action::Finished
            },
            _ => task.give_up(IndexError::Protocol),
        },
        TaskStage::Finished | TaskStage::Failed => match event {
            Event::Failed(e) => task.give_up(e),
            _ => task.give_up(IndexError::Protocol),
        },
    }
}

} // verus!
