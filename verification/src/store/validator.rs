//! Validator rows.

use crate::error::IndexError;
use crate::service::model::Validator;
use vstd::prelude::*;

verus! {

/// A validator as a row of the store holds it: the index and the
/// attestation count in the column types of the store.
#[derive(Debug)]
pub struct PostgresValidator {
    pub index: i64,
    pub pubkey: String,
    pub attestations: i64,
    pub activation_epoch: u64,
    pub exit_epoch: u64,
}

impl TryFrom<PostgresValidator> for Validator {
    type Error = IndexError;

    /// The validator of a row.  A row with a negative index or a negative
    /// count is a `Store` error.
    fn try_from(value: PostgresValidator) -> (res: Result<Self, IndexError>) {
        if value.index >= 0 && value.attestations >= 0 {
            Ok(
                Validator {
                    index: value.index as u64,
                    pubkey: value.pubkey,
                    attestations: value.attestations as u64,
                    activation_epoch: value.activation_epoch,
                    exit_epoch: value.exit_epoch,
                },
            )
        } else {
            Err(IndexError::Store)
        }
    }
}

impl vstd::std_specs::convert::TryFromSpecImpl<PostgresValidator> for Validator {
    open spec fn obeys_try_from_spec() -> bool {
        true
    }

    open spec fn try_from_spec(value: PostgresValidator) -> Result<Self, IndexError> {
        if value.index >= 0 && value.attestations >= 0 {
            Ok(
                Validator {
                    index: value.index as u64,
                    pubkey: value.pubkey,
                    attestations: value.attestations as u64,
                    activation_epoch: value.activation_epoch,
                    exit_epoch: value.exit_epoch,
                },
            )
        } else {
            Err(IndexError::Store)
        }
    }
}

} // verus!
