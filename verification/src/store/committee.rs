//! Committee rows.

use crate::common::committee::CommitteeView;
use crate::error::IndexError;
use crate::service::model::Committee;
use std::collections::HashMap;
use crate::store::{batch_values, fits_statement, value_lists};
use vstd::prelude::*;
use vstd::string::*;

verus! {

/// A committee as a row of the store holds it: the index in the column type
/// of the store.
#[derive(Debug)]
pub struct PostgresCommittee {
    pub index: i16,
    pub slot: u64,
    pub validators: Vec<u64>,
}

impl TryFrom<PostgresCommittee> for Committee {
    type Error = IndexError;

    /// The committee of a row.  A row whose index is not a committee index
    /// is a `Store` error.
    fn try_from(committee: PostgresCommittee) -> (res: Result<Self, IndexError>) {
        if 0 <= committee.index && committee.index <= 255 {
            Ok(Committee { index: committee.index as u8, slot: committee.slot, validators: committee.validators })
        } else {
            Err(IndexError::Store)
        }
    }
}

impl vstd::std_specs::convert::TryFromSpecImpl<PostgresCommittee> for Committee {
    open spec fn obeys_try_from_spec() -> bool {
        true
    }

    open spec fn try_from_spec(committee: PostgresCommittee) -> Result<Self, IndexError> {
        if 0 <= committee.index <= u8::MAX {
            Ok(Committee { index: committee.index as u8, slot: committee.slot, validators: committee.validators })
        } else {
            Err(IndexError::Store)
        }
    }
}

impl From<Committee> for PostgresCommittee {
    fn from(committee: Committee) -> (row: Self) {
        PostgresCommittee { index: committee.index as i16, slot: committee.slot, validators: committee.validators }
    }
}

impl vstd::std_specs::convert::FromSpecImpl<Committee> for PostgresCommittee {
    open spec fn obeys_from_spec() -> bool {
        true
    }

    open spec fn from_spec(committee: Committee) -> Self {
        PostgresCommittee { index: committee.index as i16, slot: committee.slot, validators: committee.validators }
    }
}

/// The statement that upserts `rows` committees, index, slot and validators
/// each: a committee that is there gets the new validators.
pub open spec fn upsert_committees(rows: nat) -> Seq<char> {
    "INSERT INTO committee (index, slot, validators) VALUES "@ + value_lists(rows, 3)
        + " ON CONFLICT (slot, index) DO UPDATE SET validators = EXCLUDED.validators"@
}

/// Writes the statement of a batch upsert of committees; `None` where there
/// is nothing to upsert or more than one statement can carry.
pub fn create_committee_batch(rows: usize) -> (statement: Option<String>)
    ensures
        match statement {
            Some(text) => fits_statement(rows as nat, 3) && text@ == upsert_committees(rows as nat),
            None => !fits_statement(rows as nat, 3),
        },
{
    match batch_values(rows, 3) {
        Some(values) => {
            let mut text = String::from_str("INSERT INTO committee (index, slot, validators) VALUES ");
            text.append(values.as_str());
            text.append(" ON CONFLICT (slot, index) DO UPDATE SET validators = EXCLUDED.validators");
            Some(text)
        },
        None => None,
    }
}

/// The committees of a store, by (slot, index).
pub type CommitteeStore = Map<(u64, u8), CommitteeView>;

/// The store after the upsert of a committee: the committee stands under
/// its key, whatever stood there.
pub open spec fn with_committee(store: CommitteeStore, committee: CommitteeView) -> CommitteeStore {
    store.insert((committee.slot, committee.index), committee)
}

/// The store after the upsert of the committees of a batch, in order.
pub open spec fn with_committees(store: CommitteeStore, batch: Seq<Committee>) -> CommitteeStore
    decreases batch.len(),
{
    if batch.len() == 0 {
        store
    } else {
        with_committee(with_committees(store, batch.drop_last()), batch.last()@)
    }
}

/// The upsert of a committee is idempotent, and the last write wins: after
/// two upserts under one key the store is as after the second alone.
pub proof fn lemma_committee_upsert_overwrites(store: CommitteeStore, first: CommitteeView, second: CommitteeView)
    requires
        first.slot == second.slot,
        first.index == second.index,
    ensures
        with_committee(with_committee(store, first), second) == with_committee(store, second),
        with_committee(with_committee(store, second), second) == with_committee(store, second),
        with_committee(store, second)[(second.slot, second.index)] == second,
{
    assert(with_committee(with_committee(store, first), second) =~= with_committee(store, second));
    assert(with_committee(with_committee(store, second), second) =~= with_committee(store, second));
}

/// The number under which a table keeps the committee of (slot, index).
pub open spec fn key_code(key: (u64, u8)) -> u128 {
    (key.0 * 256 + key.1) as u128
}

/// The committees in memory: at most one per (slot, index).
pub struct CommitteeTable {
    pub rows: HashMap<u128, Committee>,
}

impl View for CommitteeTable {
    type V = CommitteeStore;

    open spec fn view(&self) -> CommitteeStore {
        Map::new(
            |key: (u64, u8)| self.rows@.contains_key(key_code(key)),
            |key: (u64, u8)| self.rows@[key_code(key)]@,
        )
    }
}

impl CommitteeTable {
    /// A table without committees.
    pub fn new() -> (table: Self)
        ensures
            table@ == Map::<(u64, u8), CommitteeView>::empty(),
    {
        broadcast use vstd::std_specs::hash::group_hash_axioms;

        let table = CommitteeTable { rows: HashMap::new() };
        assert(table@ =~= Map::<(u64, u8), CommitteeView>::empty());
        table
    }

    /// The committee under (slot, index), if there is one.
    pub fn get_committee(&self, slot: u64, index: u8) -> (found: Option<Committee>)
        ensures
            match found {
                Some(committee) => self@.dom().contains((slot, index)) && self@[(slot, index)] == committee@,
                None => !self@.dom().contains((slot, index)),
            },
    {
        broadcast use vstd::std_specs::hash::group_hash_axioms;

        let code = (slot as u128) * 256u128 + (index as u128);
        match self.rows.get(&code) {
            Some(committee) => Some(committee.clone()),
            None => None,
        }
    }

    /// Upserts one committee.
    pub fn create_committee(&mut self, committee: &Committee)
        ensures
            final(self)@ == with_committee(old(self)@, committee@),
    {
        broadcast use vstd::std_specs::hash::group_hash_axioms;

        let code = (committee.slot as u128) * 256u128 + (committee.index as u128);
        self.rows.insert(code, committee.clone());
        proof {
            let key = (committee.slot, committee.index);
            assert forall|other: (u64, u8)| other != key implies key_code(other) != key_code(key) by {}
            assert(self@ =~= with_committee(old(self)@, committee@));
        }
    }

    /// Upserts the committees of a batch, in order.
    pub fn create_committee_batch(&mut self, committees: &Vec<Committee>)
        ensures
            final(self)@ == with_committees(old(self)@, committees@),
    {
        let mut i: usize = 0;
        while i < committees.len()
            invariant
                i <= committees.len(),
                self@ == with_committees(old(self)@, committees@.take(i as int)),
            decreases committees.len() - i,
        {
            self.create_committee(&committees[i]);
            assert(committees@.take(i + 1).drop_last() == committees@.take(i as int));
            i = i + 1;
        }
        assert(committees@.take(committees.len() as int) == committees@);
    }
}

} // verus!
