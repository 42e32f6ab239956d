//! The indexing engine: the backfill of one epoch, the committee resolver
//! and the decoding of attestations.
//!
//! An engine performs no request itself.  It is handed an [`Event`], the
//! outcome of the request it asked for last, and answers with an
//! [`Action`], the next request.  Whoever drives it performs the action and
//! hands back the event.

pub mod batch;
pub mod bitfield;
pub mod committees;
pub mod polling;
pub mod protocol;
pub mod pubsub;
pub mod util;

pub use crate::indexer::protocol::{Action, ActionView, Event};

use crate::client::model::attestation::Attestation;
use crate::client::model::block::BlockHeader;
use crate::common::committee::Committee;
use crate::common::validator::ValidatorData;
use crate::error::IndexError;
use crate::indexer::batch::{
    batch_end, committee_batch, end_of_batch, make_committee_batch, make_validator_batch, validator_batch,
};
use crate::indexer::committees::{attendance, decode_attestation, find_source, source_of, Source};
use crate::indexer::util::{get_committee_for_slot_and_index, Resolver, ResolverView};
use crate::service::model::AttestationData;
use vstd::prelude::*;

verus! {

/// The number of slots of an epoch.
pub const SLOTS_PER_EPOCH: u64 = 32;

/// The last epoch whose slots all have a slot number.
pub const MAX_EPOCH: u64 = 0x07ff_ffff_ffff_ffff;

/// What the backfill of an epoch is waiting for.
#[derive(Clone, Copy, Debug, PartialEq, Eq, Structural)]
pub enum Stage {
    /// Nothing: no request is outstanding.
    Idle,
    /// The validators of the head state.
    Validators,
    /// The write of the validators before position `next`.
    ValidatorBatch { next: usize },
    /// The count of validators active in `epoch`.
    ActiveCount { epoch: u64 },
    /// The count of all validators of `epoch`.
    TotalCount { epoch: u64, active: u64 },
    /// The write of the record of `epoch`.
    EpochRecord { epoch: u64 },
    /// The committees of the epoch.
    Committees,
    /// The write of the committees before position `next`.
    CommitteeBatch { next: usize },
    /// The header of the block of `slot`.
    Header { slot: u64 },
    /// The write of the proposer of `slot`.
    ProposerRecord { slot: u64 },
    /// The attestations in the block of `slot`.
    Attestations { slot: u64 },
    /// The committee of one of the attestations of `slot`, which the
    /// committee map of the epoch lacks and the resolver is looking for.
    Resolving { slot: u64 },
    /// The write of the attestation records of `slot`.
    AttestationBatch { slot: u64 },
    /// Nothing: the epoch is indexed.
    Finished,
    /// Nothing: the backfill of the epoch was given up.
    Failed,
}

/// The backfill of one epoch.
///
/// It snapshots the validators, makes sure the records of the epoch and of
/// the epoch before it exist, imports the committees of the epoch, and then
/// for each of the 32 slots in increasing order records the proposer of the
/// block, if there is a block, and the attestations in it.  The committee
/// of an attestation is taken from the committee map of the epoch, or of the
/// prior epoch for an attestation that belongs there; a committee that the
/// map of the epoch lacks is resolved through the store and the beacon
/// node.  Any failure ends the backfill of the epoch.
#[derive(Debug)]
pub struct Indexer {
    /// The epoch being indexed.
    pub epoch: u64,
    /// What is being waited for.
    pub stage: Stage,
    /// The validators last read from the head state.
    pub validators: Vec<ValidatorData>,
    /// The committee map of `epoch`, once imported.
    pub current: Vec<Committee>,
    /// The committee map captured when the epoch before `epoch` was indexed.
    pub previous: Vec<Committee>,
    /// The attestations of the slot at hand.
    pub attestations: Vec<Attestation>,
    /// The number of attestations of the slot that are decoded.
    pub cursor: usize,
    /// The records of the attestations that are decoded.
    pub records: Vec<AttestationData>,
    /// The resolution of the committee that the map of the epoch lacks.
    pub resolver: Resolver,
}

/// What a backfill holds.
pub struct IndexerView {
    pub epoch: u64,
    pub stage: Stage,
    pub validators: Seq<ValidatorData>,
    pub current: Seq<Committee>,
    pub previous: Seq<Committee>,
    pub attestations: Seq<Attestation>,
    pub cursor: nat,
    pub records: Seq<AttestationData>,
    pub resolver: ResolverView,
}

impl View for Indexer {
    type V = IndexerView;

    open spec fn view(&self) -> IndexerView {
        IndexerView {
            epoch: self.epoch,
            stage: self.stage,
            validators: self.validators@,
            current: self.current@,
            previous: self.previous@,
            attestations: self.attestations@,
            cursor: self.cursor as nat,
            records: self.records@,
            resolver: self.resolver@,
        }
    }
}

impl IndexerView {
    /// A backfill of `epoch` that has not begun, with the committee map
    /// captured for the epoch before it.
    pub open spec fn fresh(epoch: u64, previous: Seq<Committee>) -> IndexerView {
        IndexerView {
            epoch,
            stage: Stage::Idle,
            validators: Seq::empty(),
            current: Seq::empty(),
            previous,
            attestations: Seq::empty(),
            cursor: 0,
            records: Seq::empty(),
            resolver: ResolverView::fresh(0, 0),
        }
    }

    /// The engine gives up with `e`.
    pub open spec fn fail(self, e: IndexError) -> (IndexerView, ActionView) {
        (IndexerView { stage: Stage::Failed, ..self }, ActionView::Failed(e))
    }

    /// The write of the validators from position `from` on, or the end of
    /// the import where none is left.
    pub open spec fn write_validators(self, from: usize) -> (IndexerView, ActionView) {
        if from < self.validators.len() {
            (
                IndexerView {
                    stage: Stage::ValidatorBatch { next: batch_end(self.validators.len() as int, from as int) as usize },
                    ..self
                },
                ActionView::UpsertValidators(validator_batch(self.validators, from as int)),
            )
        } else {
            (IndexerView { stage: Stage::Idle, ..self }, ActionView::Finished)
        }
    }

    /// One step of the import of the validators: read the validators of the
    /// head state, then write them in order in batches of `BATCH_SIZE`.
    pub open spec fn validators_step(self, event: Event) -> (IndexerView, ActionView) {
        match event {
            Event::Failed(e) => self.fail(e),
            Event::Begin => if self.stage == Stage::Idle {
                (IndexerView { stage: Stage::Validators, ..self }, ActionView::FetchValidators)
            } else {
                self.fail(IndexError::Protocol)
            },
            Event::Validators(list) => if self.stage == Stage::Validators {
                IndexerView { validators: list@, ..self }.write_validators(0)
            } else {
                self.fail(IndexError::Protocol)
            },
            Event::Done => match self.stage {
                Stage::ValidatorBatch { next } => self.write_validators(next),
                _ => self.fail(IndexError::Protocol),
            },
            _ => self.fail(IndexError::Protocol),
        }
    }

    /// One step of the creation of the record of `epoch`: count the active
    /// validators, count all validators, then create the record with both
    /// counts.
    pub open spec fn epoch_step(self, epoch: u64, event: Event) -> (IndexerView, ActionView) {
        match event {
            Event::Failed(e) => self.fail(e),
            Event::Begin => if self.stage == Stage::Idle {
                (IndexerView { stage: Stage::ActiveCount { epoch }, ..self }, ActionView::CountActiveValidators(epoch))
            } else {
                self.fail(IndexError::Protocol)
            },
            Event::Count(n) => if self.stage == (Stage::ActiveCount { epoch }) {
                (
                    IndexerView { stage: Stage::TotalCount { epoch, active: n }, ..self },
                    ActionView::CountTotalValidators(epoch),
                )
            } else {
                match self.stage {
                    Stage::TotalCount { epoch: e, active } => if e == epoch {
                        (
                            IndexerView { stage: Stage::EpochRecord { epoch }, ..self },
                            ActionView::CreateEpoch { epoch, active_validators: active, total_validators: n },
                        )
                    } else {
                        self.fail(IndexError::Protocol)
                    },
                    _ => self.fail(IndexError::Protocol),
                }
            },
            Event::Done => if self.stage == (Stage::EpochRecord { epoch }) {
                (IndexerView { stage: Stage::Idle, ..self }, ActionView::Finished)
            } else {
                self.fail(IndexError::Protocol)
            },
            _ => self.fail(IndexError::Protocol),
        }
    }

    /// The write of the committees from position `from` on, or the end of
    /// the import where none is left.
    pub open spec fn write_committees(self, from: usize) -> (IndexerView, ActionView) {
        if from < self.current.len() {
            (
                IndexerView {
                    stage: Stage::CommitteeBatch { next: batch_end(self.current.len() as int, from as int) as usize },
                    ..self
                },
                ActionView::UpsertCommittees(committee_batch(self.current, from as int)),
            )
        } else {
            (IndexerView { stage: Stage::Idle, ..self }, ActionView::Finished)
        }
    }

    /// One step of the import of the committees of the epoch: read them from
    /// the state at the first slot of the epoch, keep them as the committee
    /// map of the epoch, then write them in order in batches of
    /// `BATCH_SIZE`.
    pub open spec fn committees_step(self, event: Event) -> (IndexerView, ActionView) {
        match event {
            Event::Failed(e) => self.fail(e),
            Event::Begin => if self.stage != Stage::Idle {
                self.fail(IndexError::Protocol)
            } else if self.epoch > MAX_EPOCH {
                self.fail(IndexError::EpochOutOfRange)
            } else {
                (
                    IndexerView { stage: Stage::Committees, ..self },
                    ActionView::FetchCommittees {
                        state_slot: (self.epoch * SLOTS_PER_EPOCH) as u64,
                        epoch_filter: Some(self.epoch),
                        index_filter: None,
                        slot_filter: None,
                    },
                )
            },
            Event::Committees(list) => if self.stage == Stage::Committees {
                IndexerView { current: list@, ..self }.write_committees(0)
            } else {
                self.fail(IndexError::Protocol)
            },
            Event::Done => match self.stage {
                Stage::CommitteeBatch { next } => self.write_committees(next),
                _ => self.fail(IndexError::Protocol),
            },
            _ => self.fail(IndexError::Protocol),
        }
    }

    /// What follows the work on `slot`: the header of the next slot of the
    /// epoch, or the end of the backfill after the last.
    pub open spec fn after_slot(self, slot: u64) -> (IndexerView, ActionView) {
        if self.epoch > MAX_EPOCH {
            self.fail(IndexError::EpochOutOfRange)
        } else if slot >= self.epoch * SLOTS_PER_EPOCH + (SLOTS_PER_EPOCH - 1) {
            (IndexerView { stage: Stage::Finished, ..self }, ActionView::Finished)
        } else {
            (
                IndexerView { stage: Stage::Header { slot: (slot + 1) as u64 }, ..self },
                ActionView::FetchHeader((slot + 1) as u64),
            )
        }
    }

    /// The backfill with the next attestation of the slot decoded against
    /// the committee list `validators`: its records follow those of the
    /// attestations before it.
    pub open spec fn seated(self, validators: Seq<u64>) -> Result<IndexerView, IndexError> {
        match attendance(self.attestations[self.cursor as int], validators) {
            Ok(records) => Ok(IndexerView { records: self.records + records, cursor: self.cursor + 1, ..self }),
            Err(e) => Err(e),
        }
    }

    /// Decodes the attestations of `slot` that are not yet decoded, in list
    /// order, as far as the committee maps allow.
    ///
    /// When all are decoded, the write of their records is asked for, in
    /// one batch.  An attestation whose committee the map of the epoch
    /// lacks stops the decoding: the resolver starts to look for the
    /// committee, in the store first.  An attestation of the prior epoch
    /// whose committee the prior map lacks is a `Consistency` error, and an
    /// attestation that fails to decode ends the backfill with its error.
    pub open spec fn decode_on(self, slot: u64) -> (IndexerView, ActionView)
        decreases self.attestations.len() - self.cursor,
    {
        if self.cursor >= self.attestations.len() {
            (
                IndexerView {
                    stage: Stage::AttestationBatch { slot },
                    attestations: Seq::empty(),
                    cursor: 0,
                    records: Seq::empty(),
                    ..self
                },
                ActionView::UpsertAttestations(self.records),
            )
        } else {
            let attestation = self.attestations[self.cursor as int];
            match source_of(self.epoch, self.current, self.previous, attestation) {
                Source::Current(i) => match self.seated(self.current[i as int].validators@) {
                    Ok(next) => next.decode_on(slot),
                    Err(e) => self.fail(e),
                },
                Source::Previous(i) => match self.seated(self.previous[i as int].validators@) {
                    Ok(next) => next.decode_on(slot),
                    Err(e) => self.fail(e),
                },
                Source::Resolver => {
                    let (resolver, action) = ResolverView::fresh(attestation.data.slot, attestation.data.index).step(
                        Event::Begin,
                    );
                    (IndexerView { stage: Stage::Resolving { slot }, resolver, ..self }, action)
                },
                Source::Missing => self.fail(IndexError::Consistency),
            }
        }
    }

    /// One step of the resolution of the committee that the map of the
    /// epoch lacks: the step of the resolver, and once the committee is had,
    /// the decoding goes on with it.  A committee that neither the store nor
    /// the beacon node has is a `Consistency` error.
    pub open spec fn resolving_step(self, slot: u64, event: Event) -> (IndexerView, ActionView) {
        let (resolver, action) = self.resolver.step(event);
        let after = IndexerView { resolver, ..self };
        match action {
            ActionView::Resolved(Some(committee)) => if after.cursor < after.attestations.len() {
                match after.seated(committee.validators) {
                    Ok(next) => next.decode_on(slot),
                    Err(e) => after.fail(e),
                }
            } else {
                after.fail(IndexError::Protocol)
            },
            ActionView::Resolved(None) => after.fail(IndexError::Consistency),
            ActionView::Failed(e) => after.fail(e),
            _ => (after, action),
        }
    }

    /// One step of the backfill of the epoch.
    pub open spec fn pass_step(self, event: Event) -> (IndexerView, ActionView) {
        match self.stage {
            Stage::Idle | Stage::Validators | Stage::ValidatorBatch { .. } => {
                if self.stage == Stage::Idle && event is Begin && self.epoch > MAX_EPOCH {
                    self.fail(IndexError::EpochOutOfRange)
                } else {
                    let (after, action) = self.validators_step(event);
                    if action is Finished {
                        after.epoch_step(after.epoch, Event::Begin)
                    } else {
                        (after, action)
                    }
                }
            },
            Stage::ActiveCount { epoch } | Stage::TotalCount { epoch, .. } | Stage::EpochRecord { epoch } => {
                let (after, action) = self.epoch_step(epoch, event);
                if !(action is Finished) {
                    (after, action)
                } else if epoch == after.epoch && epoch > 0 {
                    after.epoch_step((epoch - 1) as u64, Event::Begin)
                } else {
                    after.committees_step(Event::Begin)
                }
            },
            Stage::Committees | Stage::CommitteeBatch { .. } => {
                let (after, action) = self.committees_step(event);
                if !(action is Finished) {
                    (after, action)
                } else if after.epoch > MAX_EPOCH {
                    after.fail(IndexError::EpochOutOfRange)
                } else {
                    (
                        IndexerView { stage: Stage::Header { slot: (after.epoch * SLOTS_PER_EPOCH) as u64 }, ..after },
                        ActionView::FetchHeader((after.epoch * SLOTS_PER_EPOCH) as u64),
                    )
                }
            },
            Stage::Header { slot } => match event {
                Event::Header(Some(header)) => (
                    IndexerView { stage: Stage::ProposerRecord { slot }, ..self },
                    ActionView::CreateProposer { slot, validator: header.message.proposer_index },
                ),
                Event::Header(None) | Event::Failed(IndexError::NotFound) => (
                    IndexerView { stage: Stage::Attestations { slot }, ..self },
                    ActionView::FetchAttestations(slot),
                ),
                Event::Failed(e) => self.fail(e),
                _ => self.fail(IndexError::Protocol),
            },
            Stage::ProposerRecord { slot } => match event {
                Event::Failed(e) => self.fail(e),
                Event::Done => (
                    IndexerView { stage: Stage::Attestations { slot }, ..self },
                    ActionView::FetchAttestations(slot),
                ),
                _ => self.fail(IndexError::Protocol),
            },
            Stage::Attestations { slot } => match event {
                Event::Attestations(None) | Event::Failed(IndexError::NotFound) => self.after_slot(slot),
                Event::Failed(e) => self.fail(e),
                Event::Attestations(Some(list)) => IndexerView {
                    attestations: list@,
                    cursor: 0,
                    records: Seq::empty(),
                    ..self
                }.decode_on(slot),
                _ => self.fail(IndexError::Protocol),
            },
            Stage::Resolving { slot } => self.resolving_step(slot, event),
            Stage::AttestationBatch { slot } => match event {
                Event::Failed(e) => self.fail(e),
                Event::Done => self.after_slot(slot),
                _ => self.fail(IndexError::Protocol),
            },
            Stage::Finished | Stage::Failed => match event {
                Event::Failed(e) => self.fail(e),
                _ => self.fail(IndexError::Protocol),
            },
        }
    }
}

impl Indexer {
    /// A backfill of `epoch` that has not begun, with the committee map
    /// captured for the epoch before it.
    pub fn new(epoch: u64, previous: Vec<Committee>) -> (indexer: Self)
        ensures
            indexer@ == IndexerView::fresh(epoch, previous@),
    {
        Indexer {
            epoch,
            stage: Stage::Idle,
            validators: Vec::new(),
            current: Vec::new(),
            previous,
            attestations: Vec::new(),
            cursor: 0,
            records: Vec::new(),
            resolver: Resolver::new(0, 0),
        }
    }

    fn give_up(&mut self, e: IndexError) -> (action: Action)
        ensures
            (final(self)@, action@) == old(self)@.fail(e),
    {
        self.stage = Stage::Failed;
        Action::Failed(e)
    }

    fn next_validators(&mut self, from: usize) -> (action: Action)
        ensures
            (final(self)@, action@) == old(self)@.write_validators(from),
    {
        if from < self.validators.len() {
            let batch = make_validator_batch(&self.validators, from);
            self.stage = Stage::ValidatorBatch { next: end_of_batch(self.validators.len(), from) };
            Action::UpsertValidators(batch)
        } else {
            self.stage = Stage::Idle;
            Action::Finished
        }
    }

    fn next_committees(&mut self, from: usize) -> (action: Action)
        ensures
            (final(self)@, action@) == old(self)@.write_committees(from),
    {
        if from < self.current.len() {
            let batch = make_committee_batch(&self.current, from);
            self.stage = Stage::CommitteeBatch { next: end_of_batch(self.current.len(), from) };
            Action::UpsertCommittees(batch)
        } else {
            self.stage = Stage::Idle;
            Action::Finished
        }
    }

    fn next_slot(&mut self, slot: u64) -> (action: Action)
        ensures
            (final(self)@, action@) == old(self)@.after_slot(slot),
    {
        if self.epoch > MAX_EPOCH {
            self.give_up(IndexError::EpochOutOfRange)
        } else if slot >= self.epoch * SLOTS_PER_EPOCH + (SLOTS_PER_EPOCH - 1) {
            self.stage = Stage::Finished;
            Action::Finished
        } else {
            self.stage = Stage::Header { slot: slot + 1 };
            Action::FetchHeader(slot + 1)
        }
    }

    fn decode_on(&mut self, slot: u64) -> (action: Action)
        ensures
            (final(self)@, action@) == old(self)@.decode_on(slot),
    {
        let ghost start = self@;
        loop
            invariant
                start == old(self)@,
                self@.decode_on(slot) == start.decode_on(slot),
            decreases self.attestations.len() - self.cursor,
        {
            let ghost here = self@;
            if self.cursor >= self.attestations.len() {
                let mut batch: Vec<AttestationData> = Vec::new();
                std::mem::swap(&mut batch, &mut self.records);
                self.attestations = Vec::new();
                self.cursor = 0;
                self.stage = Stage::AttestationBatch { slot };
                return Action::UpsertAttestations(batch);
            }
            let source = find_source(self.epoch, &self.current, &self.previous, &self.attestations[self.cursor]);
            let decoded = match source {
                Source::Current(i) => decode_attestation(&self.attestations[self.cursor], &self.current[i].validators),
                Source::Previous(i) => decode_attestation(
                    &self.attestations[self.cursor],
                    &self.previous[i].validators,
                ),
                Source::Resolver => {
                    self.resolver = Resolver::new(
                        self.attestations[self.cursor].data.slot,
                        self.attestations[self.cursor].data.index,
                    );
                    self.stage = Stage::Resolving { slot };
                    return get_committee_for_slot_and_index(&mut self.resolver, Event::Begin);
                },
                Source::Missing => {
                    return self.give_up(IndexError::Consistency);
                },
            };
            match decoded {
                Ok(mut records) => {
                    self.records.append(&mut records);
                    self.cursor = self.cursor + 1;
                    assert(here.seated(
                        match source {
                            Source::Current(i) => here.current[i as int].validators@,
                            _ => here.previous[source->Previous_0 as int].validators@,
                        },
                    ) == Ok::<IndexerView, IndexError>(self@));
                },
                Err(e) => {
                    return self.give_up(e);
                },
            }
        }
    }

    fn resolve_on(&mut self, slot: u64, event: Event) -> (action: Action)
        ensures
            (final(self)@, action@) == old(self)@.resolving_step(slot, event),
    {
        let action = get_committee_for_slot_and_index(&mut self.resolver, event);
        match action {
            Action::Resolved(Some(committee)) => {
                if self.cursor < self.attestations.len() {
                    match decode_attestation(&self.attestations[self.cursor], &committee.validators) {
                        Ok(mut records) => {
                            self.records.append(&mut records);
                            self.cursor = self.cursor + 1;
                            self.decode_on(slot)
                        },
                        Err(e) => self.give_up(e),
                    }
                } else {
                    self.give_up(IndexError::Protocol)
                }
            },
            Action::Resolved(None) => self.give_up(IndexError::Consistency),
            Action::Failed(e) => self.give_up(e),
            _ => action,
        }
    }

    /// Imports the validators of the head state: asks for them, then for
    /// their write in batches of `BATCH_SIZE`, in order, and answers
    /// `Finished` when the last batch is written.
    pub fn index_current_validators(&mut self, event: Event) -> (action: Action)
        ensures
            (final(self)@, action@) == old(self)@.validators_step(event),
    {
        match event {
            Event::Failed(e) => self.give_up(e),
            Event::Begin => match self.stage {
                Stage::Idle => {
                    self.stage = Stage::Validators;
                    Action::FetchValidators
                },
                _ => self.give_up(IndexError::Protocol),
            },
            Event::Validators(list) => match self.stage {
                Stage::Validators => {
                    self.validators = list;
                    self.next_validators(0)
                },
                _ => self.give_up(IndexError::Protocol),
            },
            Event::Done => match self.stage {
                Stage::ValidatorBatch { next } => self.next_validators(next),
                _ => self.give_up(IndexError::Protocol),
            },
            _ => self.give_up(IndexError::Protocol),
        }
    }

    /// Creates the record of `epoch`: asks for the count of its active
    /// validators, for the count of all its validators, then for the record
    /// with both, and answers `Finished` when it is written.
    pub fn create_epoch(&mut self, epoch: u64, event: Event) -> (action: Action)
        ensures
            (final(self)@, action@) == old(self)@.epoch_step(epoch, event),
    {
        match event {
            Event::Failed(e) => self.give_up(e),
            Event::Begin => match self.stage {
                Stage::Idle => {
                    self.stage = Stage::ActiveCount { epoch };
                    Action::CountActiveValidators(epoch)
                },
                _ => self.give_up(IndexError::Protocol),
            },
            Event::Count(n) => match self.stage {
                Stage::ActiveCount { epoch: e } => {
                    if e == epoch {
                        self.stage = Stage::TotalCount { epoch, active: n };
                        Action::CountTotalValidators(epoch)
                    } else {
                        self.give_up(IndexError::Protocol)
                    }
                },
                Stage::TotalCount { epoch: e, active } => {
                    if e == epoch {
                        self.stage = Stage::EpochRecord { epoch };
                        Action::CreateEpoch { epoch, active_validators: active, total_validators: n }
                    } else {
                        self.give_up(IndexError::Protocol)
                    }
                },
                _ => self.give_up(IndexError::Protocol),
            },
            Event::Done => match self.stage {
                Stage::EpochRecord { epoch: e } => {
                    if e == epoch {
                        self.stage = Stage::Idle;
                        Action::Finished
                    } else {
                        self.give_up(IndexError::Protocol)
                    }
                },
                _ => self.give_up(IndexError::Protocol),
            },
            _ => self.give_up(IndexError::Protocol),
        }
    }

    /// Imports the committees of the epoch: asks for them, keeps them as the
    /// committee map of the epoch, then asks for their write in batches of
    /// `BATCH_SIZE`, in order, and answers `Finished` when the last batch is
    /// written.
    pub fn index_committees_for_epoch(&mut self, event: Event) -> (action: Action)
        ensures
            (final(self)@, action@) == old(self)@.committees_step(event),
    {
        match event {
            Event::Failed(e) => self.give_up(e),
            Event::Begin => match self.stage {
                Stage::Idle => {
                    if self.epoch > MAX_EPOCH {
                        self.give_up(IndexError::EpochOutOfRange)
                    } else {
                        self.stage = Stage::Committees;
                        Action::FetchCommittees {
                            state_slot: self.epoch * SLOTS_PER_EPOCH,
                            epoch_filter: Some(self.epoch),
                            index_filter: None,
                            slot_filter: None,
                        }
                    }
                },
                _ => self.give_up(IndexError::Protocol),
            },
            Event::Committees(list) => match self.stage {
                Stage::Committees => {
                    self.current = list;
                    self.next_committees(0)
                },
                _ => self.give_up(IndexError::Protocol),
            },
            Event::Done => match self.stage {
                Stage::CommitteeBatch { next } => self.next_committees(next),
                _ => self.give_up(IndexError::Protocol),
            },
            _ => self.give_up(IndexError::Protocol),
        }
    }

    /// One step of the backfill of the epoch: takes the outcome of the last
    /// request and answers with the next, `Finished` after the last slot, or
    /// `Failed` with the error that ended the backfill.
    pub fn run_for_epoch(&mut self, event: Event) -> (action: Action)
        ensures
            (final(self)@, action@) == old(self)@.pass_step(event),
    {
        match self.stage {
            Stage::Idle | Stage::Validators | Stage::ValidatorBatch { .. } => {
                let begins = match (&self.stage, &event) {
                    (Stage::Idle, Event::Begin) => true,
                    _ => false,
                };
                if begins && self.epoch > MAX_EPOCH {
                    return self.give_up(IndexError::EpochOutOfRange);
                }
                let action = self.index_current_validators(event);
                match action {
                    Action::Finished => self.create_epoch(self.epoch, Event::Begin),
                    _ => action,
                }
            },
            Stage::ActiveCount { epoch } | Stage::TotalCount { epoch, .. } | Stage::EpochRecord { epoch } => {
                let action = self.create_epoch(epoch, event);
                match action {
                    Action::Finished => {
                        if epoch == self.epoch && epoch > 0 {
                            self.create_epoch(epoch - 1, Event::Begin)
                        } else {
                            self.index_committees_for_epoch(Event::Begin)
                        }
                    },
                    _ => action,
                }
            },
            Stage::Committees | Stage::CommitteeBatch { .. } => {
                let action = self.index_committees_for_epoch(event);
                match action {
                    Action::Finished => {
                        if self.epoch > MAX_EPOCH {
                            self.give_up(IndexError::EpochOutOfRange)
                        } else {
                            let first = self.epoch * SLOTS_PER_EPOCH;
                            self.stage = Stage::Header { slot: first };
                            Action::FetchHeader(first)
                        }
                    },
                    _ => action,
                }
            },
            Stage::Header { slot } => match event {
                Event::Header(Some(header)) => {
                    self.stage = Stage::ProposerRecord { slot };
                    Action::CreateProposer { slot, validator: header.message.proposer_index }
                },
                Event::Header(None) | Event::Failed(IndexError::NotFound) => {
                    self.stage = Stage::Attestations { slot };
                    Action::FetchAttestations(slot)
                },
                Event::Failed(e) => self.give_up(e),
                _ => self.give_up(IndexError::Protocol),
            },
            Stage::ProposerRecord { slot } => match event {
                Event::Failed(e) => self.give_up(e),
                Event::Done => {
                    self.stage = Stage::Attestations { slot };
                    Action::FetchAttestations(slot)
                },
                _ => self.give_up(IndexError::Protocol),
            },
            Stage::Attestations { slot } => match event {
                Event::Attestations(None) | Event::Failed(IndexError::NotFound) => self.next_slot(slot),
                Event::Failed(e) => self.give_up(e),
                Event::Attestations(Some(list)) => {
                    self.attestations = list;
                    self.cursor = 0;
                    self.records = Vec::new();
                    self.decode_on(slot)
                },
                _ => self.give_up(IndexError::Protocol),
            },
            Stage::Resolving { slot } => self.resolve_on(slot, event),
            Stage::AttestationBatch { slot } => match event {
                Event::Failed(e) => self.give_up(e),
                Event::Done => self.next_slot(slot),
                _ => self.give_up(IndexError::Protocol),
            },
            Stage::Finished | Stage::Failed => match event {
                Event::Failed(e) => self.give_up(e),
                _ => self.give_up(IndexError::Protocol),
            },
        }
    }
}

/// The decoding of the attestations of a slot changes neither the epoch of
/// the backfill nor its committee maps nor its validators.
pub proof fn lemma_decoding_keeps_maps(state: IndexerView, slot: u64)
    ensures
        state.decode_on(slot).0.epoch == state.epoch,
        state.decode_on(slot).0.current == state.current,
        state.decode_on(slot).0.previous == state.previous,
        state.decode_on(slot).0.validators == state.validators,
    decreases state.attestations.len() - state.cursor,
{
    if state.cursor < state.attestations.len() {
        let attestation = state.attestations[state.cursor as int];
        match source_of(state.epoch, state.current, state.previous, attestation) {
            Source::Current(i) => match state.seated(state.current[i as int].validators@) {
                Ok(next) => lemma_decoding_keeps_maps(next, slot),
                Err(_) => {},
            },
            Source::Previous(i) => match state.seated(state.previous[i as int].validators@) {
                Ok(next) => lemma_decoding_keeps_maps(next, slot),
                Err(_) => {},
            },
            _ => {},
        }
    }
}

/// A backfill keeps its epoch and its prior committee map through every
/// step, and its committee map of the epoch through every step but the one
/// that imports the committees.
pub proof fn lemma_step_keeps_epoch(state: IndexerView, event: Event)
    ensures
        state.pass_step(event).0.epoch == state.epoch,
        state.pass_step(event).0.previous == state.previous,
        !(state.stage is Committees) ==> state.pass_step(event).0.current == state.current,
{
    match state.stage {
        Stage::Attestations { slot } => {
            if let Event::Attestations(Some(list)) = event {
                lemma_decoding_keeps_maps(
                    IndexerView { attestations: list@, cursor: 0, records: Seq::empty(), ..state },
                    slot,
                );
            }
        },
        Stage::Resolving { slot } => {
            let (resolver, action) = state.resolver.step(event);
            let after = IndexerView { resolver, ..state };
            if let ActionView::Resolved(Some(committee)) = action {
                if after.cursor < after.attestations.len() {
                    if let Ok(next) = after.seated(committee.validators) {
                        lemma_decoding_keeps_maps(next, slot);
                    }
                }
            }
        },
        _ => {},
    }
}

/// Any failure ends the backfill of the epoch: whatever it was waiting
/// for, a failed request makes it give up with the error of the request,
/// and a backfill that has given up answers nothing but failures.  The one
/// failure that is no failure is "not found" for the header or the
/// attestations of a slot: the slot has no block.
pub proof fn lemma_failure_ends_backfill(state: IndexerView, e: IndexError, later: Event)
    ensures
        !(e == IndexError::NotFound && (state.stage is Header || state.stage is Attestations)) ==> state.pass_step(
            Event::Failed(e),
        ).1 == ActionView::Failed(e) && state.pass_step(Event::Failed(e)).0.stage == Stage::Failed,
        state.stage == Stage::Failed ==> state.pass_step(later).1 is Failed && state.pass_step(later).0.stage
            == Stage::Failed,
{
}

/// The slots of the epoch are taken in increasing order: when the work on a
/// slot is over, the next request is for the header of the slot after it,
/// unless the slot was the last of the epoch, where the backfill ends.
pub proof fn lemma_slots_in_order(state: IndexerView, slot: u64, event: Event)
    requires
        state.epoch <= MAX_EPOCH,
        state.stage == (Stage::AttestationBatch { slot }) && event is Done || state.stage == (Stage::Attestations {
            slot,
        }) && event == Event::Attestations(None),
    ensures
        slot < state.epoch * SLOTS_PER_EPOCH + (SLOTS_PER_EPOCH - 1) ==> state.pass_step(event).1
            == ActionView::FetchHeader((slot + 1) as u64),
        slot >= state.epoch * SLOTS_PER_EPOCH + (SLOTS_PER_EPOCH - 1) ==> state.pass_step(event).1
            == ActionView::Finished,
{
}

/// The proposer of a slot is recorded from the header of its block, once,
/// before the attestations of the slot are asked for; a slot without a
/// header gets no proposer record and is no failure.
pub proof fn lemma_proposer_follows_header(state: IndexerView, slot: u64, header: BlockHeader)
    requires
        state.stage == (Stage::Header { slot }),
    ensures
        state.pass_step(Event::Header(Some(header))).1 == (ActionView::CreateProposer {
            slot,
            validator: header.message.proposer_index,
        }),
        state.pass_step(Event::Header(Some(header))).0.pass_step(Event::Done).1 == ActionView::FetchAttestations(slot),
        state.pass_step(Event::Header(None)).1 == ActionView::FetchAttestations(slot),
        state.pass_step(Event::Failed(IndexError::NotFound)) == state.pass_step(Event::Header(None)),
{
}

/// An empty slot is passed over, whether it is reported as an absent list
/// or as "not found": it ends the work on the slot without a write and
/// without a failure.
pub proof fn lemma_empty_slot_is_skipped(state: IndexerView, slot: u64)
    requires
        state.stage == (Stage::Attestations { slot }),
        state.epoch <= MAX_EPOCH,
    ensures
        state.pass_step(Event::Attestations(None)) == state.after_slot(slot),
        state.pass_step(Event::Failed(IndexError::NotFound)) == state.after_slot(slot),
        !(state.pass_step(Event::Attestations(None)).1 is Failed),
{
}

/// What the store holds cannot make the backfill fail: a write that was
/// made and a count that was read are never answered with a failure.  So an
/// epoch that was indexed once is indexed again without failure, unless a
/// request itself fails or the beacon node says something else than before.
pub proof fn lemma_store_answers_never_fail(state: IndexerView, event: Event)
    requires
        state.epoch <= MAX_EPOCH,
        event is Done && (state.stage is ValidatorBatch || state.stage is EpochRecord || state.stage is CommitteeBatch
            || state.stage is ProposerRecord || state.stage is AttestationBatch) || event is Count && (
        state.stage is ActiveCount || state.stage is TotalCount),
    ensures
        !(state.pass_step(event).1 is Failed),
{
}

/// A committee that the map of the epoch lacks is looked for before the
/// backfill gives up: the attestation that needs it stops the decoding, and
/// the store is asked for the committee of its slot and index.
pub proof fn lemma_missing_committee_is_resolved(state: IndexerView, slot: u64)
    requires
        state.cursor < state.attestations.len(),
        source_of(state.epoch, state.current, state.previous, state.attestations[state.cursor as int]) is Resolver,
    ensures
        state.decode_on(slot).1 == (ActionView::GetCommittee {
            slot: state.attestations[state.cursor as int].data.slot,
            index: state.attestations[state.cursor as int].data.index,
        }),
        state.decode_on(slot).0.stage == (Stage::Resolving { slot }),
        state.decode_on(slot).0.records == state.records,
        state.decode_on(slot).0.cursor == state.cursor,
{
}

/// What the resolver finds is what the attestation is decoded against, and
/// the decoding goes on behind it; what neither the store nor the beacon
/// node has is a `Consistency` error, and nothing is written of the slot.
pub proof fn lemma_resolved_committee_is_used(state: IndexerView, slot: u64, event: Event)
    requires
        state.stage == (Stage::Resolving { slot }),
        state.cursor < state.attestations.len(),
    ensures
        state.resolver.step(event).1 matches ActionView::Resolved(Some(committee)) ==> state.pass_step(event) == (
        match attendance(state.attestations[state.cursor as int], committee.validators) {
            Ok(records) => (IndexerView {
                resolver: state.resolver.step(event).0,
                records: state.records + records,
                cursor: state.cursor + 1,
                ..state
            }).decode_on(slot),
            Err(e) => (IndexerView { resolver: state.resolver.step(event).0, ..state }).fail(e),
        }),
        state.resolver.step(event).1 == ActionView::Resolved(None) ==> state.pass_step(event).1 == ActionView::Failed(
            IndexError::Consistency,
        ),
{
}

} // verus!
