//! What an engine is told and what it asks for.

use crate::client::model::attestation::Attestation;
use crate::client::model::block::BlockHeader;
use crate::client::model::checkpoint::FinalityCheckpoints;
use crate::common::committee::{Committee, CommitteeView};
use crate::common::validator::ValidatorData;
use crate::error::IndexError;
use crate::service::model::Committee as StoredCommittee;
use crate::service::model::{AttestationData, ValidatorDataInput, ValidatorInputView};
use vstd::prelude::*;

verus! {

/// The outcome of the request that an engine asked for last.
#[derive(Debug)]
pub enum Event {
    /// Nothing was asked for yet: the engine is to start.
    Begin,
    /// The finality checkpoints of the head state.
    Checkpoints(FinalityCheckpoints),
    /// The validators of the head state.
    Validators(Vec<ValidatorData>),
    /// A count of validators.
    Count(u64),
    /// The committees that the beacon node has for the query.
    Committees(Vec<Committee>),
    /// The committee that the store holds under the key, if any.
    Stored(Option<StoredCommittee>),
    /// The header of the block of the slot; `None` where the slot has no
    /// block.
    Header(Option<BlockHeader>),
    /// The attestations in the block of the slot; `None` where the slot is
    /// empty.
    Attestations(Option<Vec<Attestation>>),
    /// The write was made.
    Done,
    /// The request failed.
    Failed(IndexError),
}

/// The next request of an engine.
#[derive(Debug)]
pub enum Action {
    /// Read the finality checkpoints of the head state.
    FetchCheckpoints,
    /// Read all validators of the head state.
    FetchValidators,
    /// Upsert the validators in one batch.
    UpsertValidators(Vec<ValidatorDataInput>),
    /// Count the validators active in the epoch.
    CountActiveValidators(u64),
    /// Count the validators activated up to the epoch.
    CountTotalValidators(u64),
    /// Create the epoch record unless it exists.
    CreateEpoch { epoch: u64, active_validators: u64, total_validators: u64 },
    /// Read the committees of the state at `state_slot`, narrowed by the
    /// filters that are present.
    FetchCommittees { state_slot: u64, epoch_filter: Option<u64>, index_filter: Option<u8>, slot_filter: Option<u64> },
    /// Upsert the committees in one batch.
    UpsertCommittees(Vec<StoredCommittee>),
    /// Read the committee that the store holds under (slot, index).
    GetCommittee { slot: u64, index: u8 },
    /// Upsert one committee.
    UpsertCommittee(StoredCommittee),
    /// Read the header of the block of the slot.
    FetchHeader(u64),
    /// Record the validator that proposed the block of the slot.
    CreateProposer { slot: u64, validator: u64 },
    /// Read the attestations in the block of the slot.
    FetchAttestations(u64),
    /// Upsert the records in one batch; a record already persisted as
    /// attested must stay so.
    UpsertAttestations(Vec<AttestationData>),
    /// The resolver is done: the committee, or `None` where neither the
    /// store nor the beacon node has it.
    Resolved(Option<StoredCommittee>),
    /// The engine is done.
    Finished,
    /// The engine gave up with the error.
    Failed(IndexError),
}

/// What an action asks for.
pub enum ActionView {
    FetchCheckpoints,
    FetchValidators,
    UpsertValidators(Seq<ValidatorInputView>),
    CountActiveValidators(u64),
    CountTotalValidators(u64),
    CreateEpoch { epoch: u64, active_validators: u64, total_validators: u64 },
    FetchCommittees { state_slot: u64, epoch_filter: Option<u64>, index_filter: Option<u8>, slot_filter: Option<u64> },
    UpsertCommittees(Seq<CommitteeView>),
    GetCommittee { slot: u64, index: u8 },
    UpsertCommittee(CommitteeView),
    FetchHeader(u64),
    CreateProposer { slot: u64, validator: u64 },
    FetchAttestations(u64),
    UpsertAttestations(Seq<AttestationData>),
    Resolved(Option<CommitteeView>),
    Finished,
    Failed(IndexError),
}

impl View for Action {
    type V = ActionView;

    open spec fn view(&self) -> ActionView {
        match *self {
            Action::FetchCheckpoints => ActionView::FetchCheckpoints,
            Action::FetchValidators => ActionView::FetchValidators,
            Action::UpsertValidators(batch) => ActionView::UpsertValidators(
                batch@.map_values(|v: ValidatorDataInput| v@),
            ),
            Action::CountActiveValidators(epoch) => ActionView::CountActiveValidators(epoch),
            Action::CountTotalValidators(epoch) => ActionView::CountTotalValidators(epoch),
            Action::CreateEpoch { epoch, active_validators, total_validators } => ActionView::CreateEpoch {
                epoch,
                active_validators,
                total_validators,
            },
            Action::FetchCommittees { state_slot, epoch_filter, index_filter, slot_filter } => ActionView::FetchCommittees {
                state_slot,
                epoch_filter,
                index_filter,
                slot_filter,
            },
            Action::UpsertCommittees(batch) => ActionView::UpsertCommittees(
                batch@.map_values(|c: StoredCommittee| c@),
            ),
            Action::GetCommittee { slot, index } => ActionView::GetCommittee { slot, index },
            Action::UpsertCommittee(committee) => ActionView::UpsertCommittee(committee@),
            Action::FetchHeader(slot) => ActionView::FetchHeader(slot),
            Action::CreateProposer { slot, validator } => ActionView::CreateProposer { slot, validator },
            Action::FetchAttestations(slot) => ActionView::FetchAttestations(slot),
            Action::UpsertAttestations(batch) => ActionView::UpsertAttestations(batch@),
            Action::Resolved(found) => ActionView::Resolved(
                match found {
                    Some(committee) => Some(committee@),
                    None => None,
                },
            ),
            Action::Finished => ActionView::Finished,
            Action::Failed(e) => ActionView::Failed(e),
        }
    }
}

} // verus!
