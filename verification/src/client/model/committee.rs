//! Committees, as answers of the beacon node carry them.

pub use crate::common::committee::Committee;
