//! Committees as the beacon node reports them.

use vstd::prelude::*;

verus! {

/// What a committee is, whatever layer holds it: its key and the validators
/// in attestation-bit order.
pub struct CommitteeView {
    pub index: u8,
    pub slot: u64,
    pub validators: Seq<u64>,
}

/// The validators assigned to attest at one (slot, index) pair.  The position
/// of a validator in the list is its position in an aggregation bitfield.
#[derive(Debug)]
pub struct Committee {
    pub index: u8,
    pub slot: u64,
    pub validators: Vec<u64>,
}

impl View for Committee {
    type V = CommitteeView;

    open spec fn view(&self) -> CommitteeView {
        CommitteeView { index: self.index, slot: self.slot, validators: self.validators@ }
    }
}

/// A copy of a list of validator identifiers.
pub fn copy_validators(validators: &Vec<u64>) -> (copy: Vec<u64>)
    ensures
        copy@ == validators@,
{
    let mut copy: Vec<u64> = Vec::new();
    let mut i: usize = 0;
    while i < validators.len()
        invariant
            i <= validators.len(),
            copy@ == validators@.take(i as int),
        decreases validators.len() - i,
    {
        copy.push(validators[i]);
        i = i + 1;
        assert(validators@.take(i as int) == validators@.take(i - 1).push(validators@[i - 1]));
    }
    assert(validators@.take(validators.len() as int) == validators@);
    copy
}

impl Clone for Committee {
    fn clone(&self) -> (copy: Self)
        ensures
            copy@ == self@,
    {
        Committee { index: self.index, slot: self.slot, validators: copy_validators(&self.validators) }
    }
}

} // verus!
