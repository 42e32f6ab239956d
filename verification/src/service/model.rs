//! The records of the store.

use crate::client::model::proposer::Proposer as DutyProposer;
use crate::common::committee::Committee as BeaconCommittee;
use crate::common::committee::CommitteeView;
use crate::common::committee::copy_validators;
use vstd::prelude::*;

verus! {

/// An epoch: 32 consecutive slots.  `attestations` counts the validators
/// recorded as having attested in it.
#[derive(Debug)]
pub struct Epoch {
    pub index: u64,
    pub active_validators: u64,
    pub total_validators: u64,
    pub attestations: u64,
}

/// A validator with the number of epochs in which it is recorded as having
/// attested.  An exit epoch of `u64::MAX` stands for "has not exited".
#[derive(Debug)]
pub struct Validator {
    pub index: u64,
    pub pubkey: String,
    pub attestations: u64,
    pub activation_epoch: u64,
    pub exit_epoch: u64,
}

/// What a validator upsert is made with.
pub struct ValidatorInputView {
    pub index: u64,
    pub pubkey: Seq<char>,
    pub activation_epoch: u64,
    pub exit_epoch: u64,
}

/// The fields of a validator that an import writes.
#[derive(Debug)]
pub struct ValidatorDataInput {
    pub index: u64,
    pub pubkey: String,
    pub activation_epoch: u64,
    pub exit_epoch: u64,
}

impl View for ValidatorDataInput {
    type V = ValidatorInputView;

    open spec fn view(&self) -> ValidatorInputView {
        ValidatorInputView {
            index: self.index,
            pubkey: self.pubkey@,
            activation_epoch: self.activation_epoch,
            exit_epoch: self.exit_epoch,
        }
    }
}

/// Whether one validator attested in one epoch, with the committee seat it
/// had.  The store holds at most one such record per (epoch, validator).
#[derive(Clone, Copy, Debug, PartialEq, Eq, Structural)]
pub struct AttestationData {
    pub epoch: u64,
    pub validator: u64,
    pub slot: u64,
    pub committee_index: u8,
    pub attested: bool,
}

/// A committee as the store holds it, keyed by (slot, index).
#[derive(Debug)]
pub struct Committee {
    pub index: u8,
    pub slot: u64,
    pub validators: Vec<u64>,
}

impl View for Committee {
    type V = CommitteeView;

    open spec fn view(&self) -> CommitteeView {
        CommitteeView { index: self.index, slot: self.slot, validators: self.validators@ }
    }
}

impl Clone for Committee {
    fn clone(&self) -> (copy: Self)
        ensures
            copy@ == self@,
    {
        Committee { index: self.index, slot: self.slot, validators: copy_validators(&self.validators) }
    }
}

impl From<BeaconCommittee> for Committee {
    fn from(committee: BeaconCommittee) -> (stored: Self) {
        Committee { index: committee.index, slot: committee.slot, validators: committee.validators }
    }
}

impl vstd::std_specs::convert::FromSpecImpl<BeaconCommittee> for Committee {
    open spec fn obeys_from_spec() -> bool {
        true
    }

    open spec fn from_spec(committee: BeaconCommittee) -> Self {
        Committee { index: committee.index, slot: committee.slot, validators: committee.validators }
    }
}

/// The validator that proposed the block of a slot.
#[derive(Clone, Copy, Debug, PartialEq, Eq, Structural)]
pub struct Proposer {
    pub slot: u64,
    pub validator_index: u64,
}

impl From<DutyProposer> for Proposer {
    fn from(proposer: DutyProposer) -> (stored: Self) {
        Proposer { slot: proposer.slot, validator_index: proposer.validator_index }
    }
}

impl vstd::std_specs::convert::FromSpecImpl<DutyProposer> for Proposer {
    open spec fn obeys_from_spec() -> bool {
        true
    }

    open spec fn from_spec(proposer: DutyProposer) -> Self {
        Proposer { slot: proposer.slot, validator_index: proposer.validator_index }
    }
}

} // verus!
