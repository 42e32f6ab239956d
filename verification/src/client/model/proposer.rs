//! Proposer duties as the beacon node reports them.

use vstd::prelude::*;

verus! {

/// The validator that is to propose the block of a slot.
#[derive(Debug)]
pub struct Proposer {
    pub pubkey: String,
    pub validator_index: u64,
    pub slot: u64,
}

} // verus!
