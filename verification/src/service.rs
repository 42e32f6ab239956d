//! The records the engine persists and the rules by which they are written
//! and read back.
//!
//! The service performs no request itself: each rule takes what was read
//! from the repositories and says what is to be written or returned.

pub mod model;

use crate::error::IndexError;
use crate::service::model::{AttestationData, Epoch, Validator};
use vstd::prelude::*;

verus! {

/// A participation rate as a fraction: `numerator` attestations out of
/// `denominator` occasions, of which there is at least one.
#[derive(Clone, Copy, Debug, PartialEq, Eq, Structural)]
pub struct Ratio {
    pub numerator: u64,
    pub denominator: u64,
}

/// The participation rate of an epoch: the attestations recorded for it
/// over the validators active in it.  An epoch without a record has no rate,
/// and neither has an epoch without active validators.
pub open spec fn epoch_rate(active_validator_count: u64, epoch: Option<Epoch>) -> Result<Ratio, IndexError> {
    match epoch {
        None => Err(IndexError::NotFound),
        Some(epoch) => if active_validator_count == 0 {
            Err(IndexError::Division)
        } else {
            Ok(Ratio { numerator: epoch.attestations, denominator: active_validator_count })
        },
    }
}

/// The number of epochs in which a validator was active up to
/// `current_epoch`: from its activation to the current epoch, or to its exit
/// where that came first.
pub open spec fn active_epochs(current_epoch: u64, activation_epoch: u64, exit_epoch: u64) -> int {
    let end = if current_epoch > exit_epoch {
        exit_epoch
    } else {
        current_epoch
    };
    if end > activation_epoch {
        end - activation_epoch
    } else {
        0
    }
}

/// The participation rate of a validator: its attestations over the epochs
/// in which it was active.  An unknown validator has no rate, and neither
/// has one that was active in no epoch.
pub open spec fn validator_rate(current_epoch: u64, validator: Option<Validator>) -> Result<Ratio, IndexError> {
    match validator {
        None => Err(IndexError::NotFound),
        Some(validator) => {
            let active = active_epochs(current_epoch, validator.activation_epoch, validator.exit_epoch);
            if active == 0 {
                Err(IndexError::Division)
            } else {
                Ok(Ratio { numerator: validator.attestations, denominator: active as u64 })
            }
        },
    }
}

/// Whether a record is to be written over what the store holds for its key:
/// only where the store holds nothing, or holds "did not attest".
pub open spec fn needs_write(existing: Option<bool>) -> bool {
    existing != Some(true)
}

/// The keys under which the records of a batch are stored.
pub open spec fn keys_of(batch: Seq<AttestationData>) -> Seq<(u64, u64)> {
    Seq::new(batch.len(), |i: int| (batch[i].epoch, batch[i].validator))
}

/// Of the first `n` records of a batch, those that are to be written, given
/// what the store holds for the key of each.
pub open spec fn pending_writes(batch: Seq<AttestationData>, existing: Seq<Option<bool>>, n: nat) -> Seq<
    AttestationData,
>
    decreases n,
{
    if n == 0 {
        Seq::empty()
    } else {
        let before = pending_writes(batch, existing, (n - 1) as nat);
        if needs_write(existing[n - 1]) {
            before.push(batch[n - 1])
        } else {
            before
        }
    }
}

/// The number of records of a batch that have an answer of the store.
pub open spec fn answered(batch: Seq<AttestationData>, existing: Seq<Option<bool>>) -> nat {
    if batch.len() <= existing.len() {
        batch.len()
    } else {
        existing.len()
    }
}

/// The service over four repositories.  The repositories are whatever the
/// driver talks to the store with; the service never calls them.
pub struct ServiceImpl<E, V, A, C> {
    pub epoch_repository: E,
    pub validator_repository: V,
    pub attestation_repository: A,
    pub committee_repository: C,
}

impl<E, V, A, C> ServiceImpl<E, V, A, C> {
    /// A service over the four repositories.
    pub fn new(epoch_repository: E, validator_repository: V, attestation_repository: A, committee_repository: C) -> (service: Self)
        ensures
            service.epoch_repository == epoch_repository,
            service.validator_repository == validator_repository,
            service.attestation_repository == attestation_repository,
            service.committee_repository == committee_repository,
    {
        ServiceImpl { epoch_repository, validator_repository, attestation_repository, committee_repository }
    }

    /// The participation rate of an epoch, from the count of validators
    /// active in it and its record.
    pub fn get_participation_rate_for_epoch(&self, active_validator_count: u64, epoch: Option<Epoch>) -> (rate: Result<Ratio, IndexError>)
        ensures
            rate == epoch_rate(active_validator_count, epoch),
    {
        match epoch {
            None => Err(IndexError::NotFound),
            Some(epoch) => {
                if active_validator_count == 0 {
                    Err(IndexError::Division)
                } else {
                    Ok(Ratio { numerator: epoch.attestations, denominator: active_validator_count })
                }
            },
        }
    }

    /// The participation rate of a validator, from the current epoch and
    /// its record.
    pub fn get_participation_rate_for_validator(&self, current_epoch: u64, validator: Option<Validator>) -> (rate: Result<Ratio, IndexError>)
        ensures
            rate == validator_rate(current_epoch, validator),
    {
        match validator {
            None => Err(IndexError::NotFound),
            Some(validator) => {
                let end = if current_epoch > validator.exit_epoch {
                    validator.exit_epoch
                } else {
                    current_epoch
                };
                if end > validator.activation_epoch {
                    Ok(Ratio { numerator: validator.attestations, denominator: end - validator.activation_epoch })
                } else {
                    Err(IndexError::Division)
                }
            },
        }
    }

    /// The record to write for one attestation, given what the store holds
    /// for its key: the record itself, or nothing where the store already
    /// holds "attested".
    pub fn create_or_update_attestation(&self, existing: Option<bool>, attestation_data: AttestationData) -> (write: Option<AttestationData>)
        ensures
            write == if needs_write(existing) {
                Some(attestation_data)
            } else {
                None
            },
    {
        match existing {
            Some(true) => None,
            _ => Some(attestation_data),
        }
    }

    /// The keys to read before a batch is written: the (epoch, validator)
    /// pair of each record, in order.
    pub fn attestation_keys(&self, attestation_data: &Vec<AttestationData>) -> (keys: Vec<(u64, u64)>)
        ensures
            keys@ == keys_of(attestation_data@),
    {
        let mut keys: Vec<(u64, u64)> = Vec::new();
        let mut i: usize = 0;
        while i < attestation_data.len()
            invariant
                i <= attestation_data.len(),
                keys@ == keys_of(attestation_data@.take(i as int)),
            decreases attestation_data.len() - i,
        {
            keys.push((attestation_data[i].epoch, attestation_data[i].validator));
            i = i + 1;
            assert(keys@ =~= keys_of(attestation_data@.take(i as int)));
        }
        assert(attestation_data@.take(attestation_data.len() as int) == attestation_data@);
        keys
    }

    /// The records to write for a batch, given what the store holds for the
    /// key of each: in order, those for which it does not hold "attested".
    /// A record without an answer is not written.
    pub fn create_or_update_attestation_batch(&self, attestation_data: &Vec<AttestationData>, existing: &Vec<Option<bool>>) -> (batch: Vec<AttestationData>)
        ensures
            batch@ == pending_writes(attestation_data@, existing@, answered(attestation_data@, existing@)),
    {
        let n = if attestation_data.len() <= existing.len() {
            attestation_data.len()
        } else {
            existing.len()
        };
        let mut batch: Vec<AttestationData> = Vec::new();
        let mut i: usize = 0;
        while i < n
            invariant
                i <= n,
                n <= attestation_data.len(),
                n <= existing.len(),
                batch@ == pending_writes(attestation_data@, existing@, i as nat),
            decreases n - i,
        {
            match existing[i] {
                Some(true) => {},
                _ => {
                    batch.push(attestation_data[i]);
                },
            }
            i = i + 1;
        }
        batch
    }
}

} // verus!
