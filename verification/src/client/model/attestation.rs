//! Attestations as the beacon node reports them.

use crate::client::subscription::{Subscribable, SubscribeEvent};
use vstd::prelude::*;

verus! {

/// An aggregated attestation: the votes of some members of one committee.
#[derive(Debug)]
pub struct Attestation {
    /// Hex text of the byte-packed bit vector that says which committee
    /// members voted, optionally prefixed with `0x`.
    pub aggregation_bits: String,
    pub data: AggregationData,
    pub signature: String,
}

/// What an attestation votes for.
#[derive(Debug)]
pub struct AggregationData {
    pub beacon_block_root: String,
    /// Index of the attesting committee within its slot.
    pub index: u8,
    /// Slot of the attesting committee.
    pub slot: u64,
    pub source: Checkpoint,
    /// The checkpoint whose epoch is credited with the attestation.
    pub target: Checkpoint,
}

/// An (epoch, root) pair.
#[derive(Debug)]
pub struct Checkpoint {
    pub epoch: u64,
    pub root: String,
}

impl Subscribable for Attestation {
    fn subscribe_event() -> (event: SubscribeEvent)
        ensures
            event == SubscribeEvent::Attestation,
    {
        SubscribeEvent::Attestation
    }
}

} // verus!
