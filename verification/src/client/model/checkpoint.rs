//! Finality checkpoints as the beacon node reports them.

use vstd::prelude::*;

verus! {

/// An (epoch, root) pair.
#[derive(Debug)]
pub struct Checkpoint {
    pub epoch: u64,
    pub root: String,
}

/// The checkpoints that describe how far the chain is justified and
/// finalized.
#[derive(Debug)]
pub struct FinalityCheckpoints {
    pub previous_justified: Checkpoint,
    pub current_justified: Checkpoint,
    pub finalized: Checkpoint,
}

} // verus!
