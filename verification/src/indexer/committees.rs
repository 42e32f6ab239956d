//! Committee maps: the committees of one epoch, held in memory while the
//! epoch and its successor are indexed.

use crate::client::model::attestation::Attestation;
use crate::common::committee::Committee;
use crate::error::IndexError;
use crate::indexer::bitfield::{decode, decoded};
use crate::service::model::AttestationData;
use vstd::prelude::*;
use vstd::string::*;
use vstd::utf8::encode_utf8;

verus! {

/// Whether `committee` is the committee of (slot, index).
pub open spec fn has_key(committee: Committee, slot: u64, index: u8) -> bool {
    committee.slot == slot && committee.index == index
}

/// The position of the first committee of (slot, index) in `map`, if there
/// is one.
pub open spec fn first_match(map: Seq<Committee>, slot: u64, index: u8) -> Option<int>
    decreases map.len(),
{
    if map.len() == 0 {
        None
    } else if has_key(map.last(), slot, index) && first_match(map.drop_last(), slot, index) is None {
        Some(map.len() - 1)
    } else {
        first_match(map.drop_last(), slot, index)
    }
}

/// `first_match` names a committee with the key before which no committee
/// has the key, and names none only where no committee has the key.
pub proof fn lemma_first_match(map: Seq<Committee>, slot: u64, index: u8)
    ensures
        match first_match(map, slot, index) {
            Some(i) => {
                &&& 0 <= i < map.len()
                &&& has_key(map[i], slot, index)
                &&& forall|j: int| 0 <= j < i ==> !has_key(#[trigger] map[j], slot, index)
            },
            None => forall|j: int| 0 <= j < map.len() ==> !has_key(#[trigger] map[j], slot, index),
        },
    decreases map.len(),
{
    if map.len() > 0 {
        lemma_first_match(map.drop_last(), slot, index);
        assert forall|j: int| 0 <= j < map.len() - 1 implies map[j] == map.drop_last()[j] by {}
    }
}

/// Looks up the committee of (slot, index) in a committee map.
pub fn find_committee(map: &Vec<Committee>, slot: u64, index: u8) -> (found: Option<usize>)
    ensures
        match found {
            Some(at) => at < map.len() && first_match(map@, slot, index) == Some(at as int),
            None => first_match(map@, slot, index) is None,
        },
{
    let mut i: usize = 0;
    while i < map.len()
        invariant
            i <= map.len(),
            first_match(map@.take(i as int), slot, index) is None,
        decreases map.len() - i,
    {
        if map[i].slot == slot && map[i].index == index {
            proof {
                lemma_extend_match(map@, slot, index, i as int, map.len() as int);
                assert(map@.take(map.len() as int) == map@);
            }
            return Some(i);
        }
        assert(map@.take(i + 1).drop_last() == map@.take(i as int));
        i = i + 1;
    }
    assert(map@.take(map.len() as int) == map@);
    None
}

/// A first match among the first `i + 1` committees is the first match
/// among the first `n`, for every `n` above `i`.
proof fn lemma_extend_match(map: Seq<Committee>, slot: u64, index: u8, i: int, n: int)
    requires
        0 <= i < n <= map.len(),
        first_match(map.take(i), slot, index) is None,
        has_key(map[i], slot, index),
    ensures
        first_match(map.take(n), slot, index) == Some(i),
    decreases n - i,
{
    assert(map.take(n).drop_last() == map.take(n - 1));
    if n == i + 1 {
    } else {
        lemma_extend_match(map, slot, index, i, n - 1);
    }
}

/// The records that pairs of (validator, attested) become for one
/// attestation.
pub open spec fn records(pairs: Seq<(u64, bool)>, epoch: u64, slot: u64, index: u8) -> Seq<AttestationData> {
    Seq::new(
        pairs.len(),
        |i: int|
            AttestationData {
                epoch,
                validator: pairs[i].0,
                slot,
                committee_index: index,
                attested: pairs[i].1,
            },
    )
}

/// The records of one attestation decoded against the committee list
/// `validators`: one per seat, credited to the attestation's target epoch.
pub open spec fn attendance(attestation: Attestation, validators: Seq<u64>) -> Result<Seq<AttestationData>, IndexError> {
    match decoded(encode_utf8(attestation.aggregation_bits@), validators) {
        Ok(pairs) => Ok(
            records(pairs, attestation.data.target.epoch, attestation.data.slot, attestation.data.index),
        ),
        Err(e) => Err(e),
    }
}

/// Decodes one attestation against its committee.
pub fn decode_attestation(attestation: &Attestation, validators: &Vec<u64>) -> (res: Result<Vec<AttestationData>, IndexError>)
    ensures
        match attendance(*attestation, validators@) {
            Ok(expected) => res matches Ok(v) && v@ == expected,
            Err(e) => res == Err::<Vec<AttestationData>, IndexError>(e),
        },
{
    let pairs = match decode(attestation.aggregation_bits.as_str(), validators) {
        Ok(pairs) => pairs,
        Err(e) => {
            return Err(e);
        },
    };
    let epoch = attestation.data.target.epoch;
    let slot = attestation.data.slot;
    let index = attestation.data.index;
    let mut batch: Vec<AttestationData> = Vec::new();
    let mut i: usize = 0;
    while i < pairs.len()
        invariant
            i <= pairs.len(),
            batch@ == records(pairs@.take(i as int), epoch, slot, index),
        decreases pairs.len() - i,
    {
        let pair = pairs[i];
        batch.push(
            AttestationData { epoch, validator: pair.0, slot, committee_index: index, attested: pair.1 },
        );
        i = i + 1;
        assert(batch@ =~= records(pairs@.take(i as int), epoch, slot, index));
    }
    assert(pairs@.take(pairs.len() as int) == pairs@);
    Ok(batch)
}

/// Where the committee of an attestation is taken from while an epoch is
/// indexed.
#[derive(Clone, Copy, Debug, PartialEq, Eq, Structural)]
pub enum Source {
    /// From the committee map of the epoch being indexed, at this position.
    Current(usize),
    /// From the committee map of the prior epoch, at this position.
    Previous(usize),
    /// From the resolver, which asks the store and then the beacon node: the
    /// map of the epoch being indexed lacks the committee.
    Resolver,
    /// From nowhere: the attestation belongs to the prior epoch, and the map
    /// of the prior epoch lacks the committee.
    Missing,
}

/// The source of the committee of an attestation found while `epoch` is
/// indexed.
///
/// An attestation whose target epoch lies before `epoch` belongs to the
/// prior epoch: its committee is looked up in the map captured for the
/// prior epoch and nowhere else.  Every other attestation is looked up in
/// the map of `epoch`, and is resolved where that map lacks its committee.
pub open spec fn source_of(epoch: u64, current: Seq<Committee>, previous: Seq<Committee>, attestation: Attestation) -> Source {
    if attestation.data.target.epoch < epoch {
        match first_match(previous, attestation.data.slot, attestation.data.index) {
            Some(i) => Source::Previous(i as usize),
            None => Source::Missing,
        }
    } else {
        match first_match(current, attestation.data.slot, attestation.data.index) {
            Some(i) => Source::Current(i as usize),
            None => Source::Resolver,
        }
    }
}

/// Finds the source of the committee of an attestation.
pub fn find_source(epoch: u64, current: &Vec<Committee>, previous: &Vec<Committee>, attestation: &Attestation) -> (source: Source)
    ensures
        source == source_of(epoch, current@, previous@, *attestation),
        source matches Source::Current(i) ==> i < current.len(),
        source matches Source::Previous(i) ==> i < previous.len(),
{
    if attestation.data.target.epoch < epoch {
        match find_committee(previous, attestation.data.slot, attestation.data.index) {
            Some(at) => Source::Previous(at),
            None => Source::Missing,
        }
    } else {
        match find_committee(current, attestation.data.slot, attestation.data.index) {
            Some(at) => Source::Current(at),
            None => Source::Resolver,
        }
    }
}

/// An attestation whose target epoch lies before the epoch being indexed
/// takes its committee from the map of the prior epoch alone: the map of
/// the epoch being indexed has no part in it, the resolver is not asked, and
/// a committee that the prior map lacks is missing.
pub proof fn lemma_delayed_attestation_uses_previous_map(
    epoch: u64,
    current: Seq<Committee>,
    other_current: Seq<Committee>,
    previous: Seq<Committee>,
    attestation: Attestation,
)
    requires
        attestation.data.target.epoch < epoch,
        previous.len() <= usize::MAX,
    ensures
        source_of(epoch, current, previous, attestation) == source_of(epoch, other_current, previous, attestation),
        source_of(epoch, current, previous, attestation) is Previous || source_of(
            epoch,
            current,
            previous,
            attestation,
        ) is Missing,
        source_of(epoch, current, previous, attestation) matches Source::Previous(i) ==> i < previous.len() && has_key(
            previous[i as int],
            attestation.data.slot,
            attestation.data.index,
        ),
{
    lemma_first_match(previous, attestation.data.slot, attestation.data.index);
}

/// An attestation whose target epoch is the epoch being indexed, or a later
/// one, takes its committee from the map of the epoch being indexed, and
/// from the resolver where that map lacks it; the map of the prior epoch has
/// no part in it, and the committee is never missing without the resolver
/// being asked.
pub proof fn lemma_timely_attestation_uses_current_map(
    epoch: u64,
    current: Seq<Committee>,
    previous: Seq<Committee>,
    other_previous: Seq<Committee>,
    attestation: Attestation,
)
    requires
        attestation.data.target.epoch >= epoch,
        current.len() <= usize::MAX,
    ensures
        source_of(epoch, current, previous, attestation) == source_of(epoch, current, other_previous, attestation),
        source_of(epoch, current, previous, attestation) is Current || source_of(
            epoch,
            current,
            previous,
            attestation,
        ) is Resolver,
        source_of(epoch, current, previous, attestation) matches Source::Current(i) ==> i < current.len() && has_key(
            current[i as int],
            attestation.data.slot,
            attestation.data.index,
        ),
        source_of(epoch, current, previous, attestation) is Resolver <==> forall|j: int|
            0 <= j < current.len() ==> !has_key(#[trigger] current[j], attestation.data.slot, attestation.data.index),
{
    lemma_first_match(current, attestation.data.slot, attestation.data.index);
}

} // verus!
