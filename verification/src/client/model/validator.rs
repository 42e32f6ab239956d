//! Validators, as answers of the beacon node carry them.

pub use crate::common::validator::{ValidatorData, ValidatorId, ValidatorStatus};
