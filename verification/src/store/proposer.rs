//! Proposer rows.

use crate::store::{batch_values, fits_statement, value_lists};
use std::collections::HashMap;
use vstd::prelude::*;
use vstd::string::*;

verus! {

/// The statement that inserts `rows` proposers, slot and validator each, and
/// leaves a slot that has a proposer as it is.
pub open spec fn insert_proposers(rows: nat) -> Seq<char> {
    "INSERT INTO proposer (slot, validator_index) VALUES "@ + value_lists(rows, 2) + " ON CONFLICT DO NOTHING"@
}

/// Writes the statement of a batch insert of proposers; `None` where there
/// is nothing to insert or more than one statement can carry.
pub fn create_proposers(rows: usize) -> (statement: Option<String>)
    ensures
        match statement {
            Some(text) => fits_statement(rows as nat, 2) && text@ == insert_proposers(rows as nat),
            None => !fits_statement(rows as nat, 2),
        },
{
    match batch_values(rows, 2) {
        Some(values) => {
            let mut text = String::from_str("INSERT INTO proposer (slot, validator_index) VALUES ");
            text.append(values.as_str());
            text.append(" ON CONFLICT DO NOTHING");
            Some(text)
        },
        None => None,
    }
}

/// The proposers of a store, by slot.
pub type ProposerStore = Map<u64, u64>;

/// The store after a proposer is recorded: a slot gets its proposer once,
/// and a slot that has one keeps it.
pub open spec fn with_proposer(store: ProposerStore, slot: u64, validator: u64) -> ProposerStore {
    if store.dom().contains(slot) {
        store
    } else {
        store.insert(slot, validator)
    }
}

/// Recording a proposer again changes nothing, whoever is named the second
/// time: a slot has exactly one proposer row once it has one.
pub proof fn lemma_proposer_is_written_once(store: ProposerStore, slot: u64, validator: u64, other: u64)
    ensures
        with_proposer(with_proposer(store, slot, validator), slot, other) == with_proposer(store, slot, validator),
        with_proposer(store, slot, validator).dom().contains(slot),
        !store.dom().contains(slot) ==> with_proposer(store, slot, validator)[slot] == validator,
{
}

/// The proposers in memory: at most one per slot.
pub struct ProposerTable {
    pub rows: HashMap<u64, u64>,
}

impl View for ProposerTable {
    type V = ProposerStore;

    open spec fn view(&self) -> ProposerStore {
        self.rows@
    }
}

impl ProposerTable {
    /// A table without proposers.
    pub fn new() -> (table: Self)
        ensures
            table@ == Map::<u64, u64>::empty(),
    {
        ProposerTable { rows: HashMap::new() }
    }

    /// The proposer of the slot, if one is recorded.
    pub fn get_proposer_for_slot(&self, slot: u64) -> (proposer: Option<u64>)
        ensures
            proposer == if self@.dom().contains(slot) {
                Some(self@[slot])
            } else {
                None
            },
    {
        broadcast use vstd::std_specs::hash::group_hash_axioms;

        match self.rows.get(&slot) {
            Some(validator) => Some(*validator),
            None => None,
        }
    }

    /// Records the proposer of a slot unless the slot has one.
    pub fn create_proposer(&mut self, slot: u64, validator: u64)
        ensures
            final(self)@ == with_proposer(old(self)@, slot, validator),
    {
        broadcast use vstd::std_specs::hash::group_hash_axioms;

        if !self.rows.contains_key(&slot) {
            self.rows.insert(slot, validator);
        }
    }
}

} // verus!
