//! References to a beacon state, as requests name them.

pub use crate::common::state::StateId;
