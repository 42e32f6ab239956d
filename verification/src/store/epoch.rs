//! Epoch rows.

use crate::error::IndexError;
use crate::service::model::Epoch;
use std::collections::HashMap;
use vstd::prelude::*;

verus! {

/// An epoch as a row of the store holds it: the attestation count in the
/// type in which the store counts.
#[derive(Debug)]
pub struct PostgresEpoch {
    pub index: u64,
    pub active_validators: u64,
    pub total_validators: u64,
    pub attestations: i64,
}

impl TryFrom<PostgresEpoch> for Epoch {
    type Error = IndexError;

    /// The epoch of a row.  A row with a negative count is a `Store` error.
    fn try_from(value: PostgresEpoch) -> (res: Result<Self, IndexError>) {
        if value.attestations >= 0 {
            Ok(
                Epoch {
                    index: value.index,
                    active_validators: value.active_validators,
                    total_validators: value.total_validators,
                    attestations: value.attestations as u64,
                },
            )
        } else {
            Err(IndexError::Store)
        }
    }
}

impl vstd::std_specs::convert::TryFromSpecImpl<PostgresEpoch> for Epoch {
    open spec fn obeys_try_from_spec() -> bool {
        true
    }

    open spec fn try_from_spec(value: PostgresEpoch) -> Result<Self, IndexError> {
        if value.attestations >= 0 {
            Ok(
                Epoch {
                    index: value.index,
                    active_validators: value.active_validators,
                    total_validators: value.total_validators,
                    attestations: value.attestations as u64,
                },
            )
        } else {
            Err(IndexError::Store)
        }
    }
}

/// The counts of the epochs of a store, active and total validators, by
/// epoch.
pub type EpochStore = Map<u64, (u64, u64)>;

/// The store after an epoch is created: an epoch gets its counts once, and
/// an epoch that has a record keeps it.
pub open spec fn with_epoch(store: EpochStore, epoch: u64, active_validators: u64, total_validators: u64) -> EpochStore {
    if store.dom().contains(epoch) {
        store
    } else {
        store.insert(epoch, (active_validators, total_validators))
    }
}

/// Creating an epoch again changes nothing, whatever the counts of the
/// second time.
pub proof fn lemma_epoch_is_created_once(store: EpochStore, epoch: u64, first: (u64, u64), second: (u64, u64))
    ensures
        with_epoch(with_epoch(store, epoch, first.0, first.1), epoch, second.0, second.1) == with_epoch(
            store,
            epoch,
            first.0,
            first.1,
        ),
        with_epoch(store, epoch, first.0, first.1).dom().contains(epoch),
        !store.dom().contains(epoch) ==> with_epoch(store, epoch, first.0, first.1)[epoch] == first,
{
}

/// The epoch records in memory: at most one per epoch.
pub struct EpochTable {
    pub rows: HashMap<u64, (u64, u64)>,
}

impl View for EpochTable {
    type V = EpochStore;

    open spec fn view(&self) -> EpochStore {
        self.rows@
    }
}

impl EpochTable {
    /// A table without epochs.
    pub fn new() -> (table: Self)
        ensures
            table@ == Map::<u64, (u64, u64)>::empty(),
    {
        EpochTable { rows: HashMap::new() }
    }

    /// The counts of the epoch, active and total validators; `None` where
    /// the epoch has no record.
    pub fn get_counts(&self, index: u64) -> (counts: Option<(u64, u64)>)
        ensures
            counts == if self@.dom().contains(index) {
                Some(self@[index])
            } else {
                None
            },
    {
        broadcast use vstd::std_specs::hash::group_hash_axioms;

        match self.rows.get(&index) {
            Some(counts) => Some(*counts),
            None => None,
        }
    }

    /// Creates the record of an epoch unless the epoch has one.
    pub fn create_epoch(&mut self, epoch_index: u64, active_validators: u64, total_validators: u64)
        ensures
            final(self)@ == with_epoch(old(self)@, epoch_index, active_validators, total_validators),
    {
        broadcast use vstd::std_specs::hash::group_hash_axioms;

        if !self.rows.contains_key(&epoch_index) {
            self.rows.insert(epoch_index, (active_validators, total_validators));
        }
    }
}

} // verus!
