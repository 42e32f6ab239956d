//! Batches: a list is written in order, `BATCH_SIZE` items at a time.

use crate::common::committee::{copy_validators, Committee, CommitteeView};
use crate::common::validator::ValidatorData;
use crate::service::model::Committee as StoredCommittee;
use crate::service::model::{ValidatorDataInput, ValidatorInputView};
use vstd::prelude::*;

verus! {

/// The number of records that one batch write carries at most.
pub const BATCH_SIZE: usize = 1000;

/// Where the first batch that starts at `from` ends, in a list of `len`
/// items.
pub open spec fn batch_end(len: int, from: int) -> int {
    if from + BATCH_SIZE < len {
        from + BATCH_SIZE
    } else {
        len
    }
}

/// What is written of a validator that the beacon node reports.
pub open spec fn validator_input(data: ValidatorData) -> ValidatorInputView {
    ValidatorInputView {
        index: data.index,
        pubkey: data.validator.pubkey@,
        activation_epoch: data.validator.activation_epoch,
        exit_epoch: data.validator.exit_epoch,
    }
}

/// The batch of validator writes that starts at `from`.
pub open spec fn validator_batch(validators: Seq<ValidatorData>, from: int) -> Seq<ValidatorInputView> {
    Seq::new(
        (batch_end(validators.len() as int, from) - from) as nat,
        |i: int| validator_input(validators[from + i]),
    )
}

/// The batch of committee writes that starts at `from`.
pub open spec fn committee_batch(committees: Seq<Committee>, from: int) -> Seq<CommitteeView> {
    Seq::new((batch_end(committees.len() as int, from) - from) as nat, |i: int| committees[from + i]@)
}

pub(crate) fn end_of_batch(len: usize, from: usize) -> (end: usize)
    requires
        from < len,
    ensures
        end == batch_end(len as int, from as int),
        from < end <= len,
{
    if len - from > BATCH_SIZE {
        from + BATCH_SIZE
    } else {
        len
    }
}

pub(crate) fn make_validator_batch(validators: &Vec<ValidatorData>, from: usize) -> (batch: Vec<ValidatorDataInput>)
    requires
        from < validators.len(),
    ensures
        batch@.map_values(|v: ValidatorDataInput| v@) == validator_batch(validators@, from as int),
{
    let end = end_of_batch(validators.len(), from);
    let mut batch: Vec<ValidatorDataInput> = Vec::new();
    let mut i: usize = from;
    while i < end
        invariant
            from <= i <= end <= validators.len(),
            batch@.len() == i - from,
            forall|k: int| 0 <= k < i - from ==> (#[trigger] batch@[k])@ == validator_input(validators@[from + k]),
        decreases end - i,
    {
        let data = &validators[i];
        batch.push(
            ValidatorDataInput {
                index: data.index,
                pubkey: data.validator.pubkey.clone(),
                activation_epoch: data.validator.activation_epoch,
                exit_epoch: data.validator.exit_epoch,
            },
        );
        i = i + 1;
    }
    assert(batch@.map_values(|v: ValidatorDataInput| v@) =~= validator_batch(validators@, from as int));
    batch
}

pub(crate) fn make_committee_batch(committees: &Vec<Committee>, from: usize) -> (batch: Vec<StoredCommittee>)
    requires
        from < committees.len(),
    ensures
        batch@.map_values(|c: StoredCommittee| c@) == committee_batch(committees@, from as int),
{
    let end = end_of_batch(committees.len(), from);
    let mut batch: Vec<StoredCommittee> = Vec::new();
    let mut i: usize = from;
    while i < end
        invariant
            from <= i <= end <= committees.len(),
            batch@.len() == i - from,
            forall|k: int| 0 <= k < i - from ==> (#[trigger] batch@[k])@ == committees@[from + k]@,
        decreases end - i,
    {
        let data = &committees[i];
        batch.push(
            StoredCommittee {
                index: data.index,
                slot: data.slot,
                validators: copy_validators(&data.validators),
            },
        );
        i = i + 1;
    }
    assert(batch@.map_values(|c: StoredCommittee| c@) =~= committee_batch(committees@, from as int));
    batch
}

/// A batch holds at least one record and at most `BATCH_SIZE`, and the
/// batches of a list follow one another without a gap: the batch that
/// starts at `from` holds the items from `from` up to where the next
/// starts.
pub proof fn lemma_batches_are_bounded(validators: Seq<ValidatorData>, committees: Seq<Committee>, from: int)
    ensures
        0 <= from < validators.len() ==> 0 < validator_batch(validators, from).len() <= BATCH_SIZE
            && validator_batch(validators, from).len() == batch_end(validators.len() as int, from) - from,
        0 <= from < committees.len() ==> 0 < committee_batch(committees, from).len() <= BATCH_SIZE
            && committee_batch(committees, from).len() == batch_end(committees.len() as int, from) - from,
{
}

} // verus!
