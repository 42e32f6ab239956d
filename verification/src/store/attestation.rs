//! The rule of an attestation write, the store of attestation records as a
//! map, and a table in memory that follows the rule.

use crate::service::model::AttestationData;
use crate::service::{keys_of, needs_write, pending_writes, ServiceImpl};
use std::collections::HashMap;
use vstd::prelude::*;

verus! {

/// What the store holds for the key of `incoming` after `incoming` is
/// written over `existing`: the incoming record where the store held
/// nothing, or held "did not attest" and the incoming record says
/// "attested"; else what it held.
pub open spec fn merged(existing: Option<AttestationData>, incoming: AttestationData) -> AttestationData {
    match existing {
        None => incoming,
        Some(held) => if !held.attested && incoming.attested {
            incoming
        } else {
            held
        },
    }
}

/// Decides what an upsert leaves in the store under the key of `incoming`.
pub fn upsert_outcome(existing: Option<AttestationData>, incoming: AttestationData) -> (row: AttestationData)
    ensures
        row == merged(existing, incoming),
{
    match existing {
        None => incoming,
        Some(held) => {
            if !held.attested && incoming.attested {
                incoming
            } else {
                held
            }
        },
    }
}

/// What the store holds after the service has handled `incoming`: the
/// service reads what the store holds for the key and asks for the write
/// only where that is not "attested".
pub open spec fn handled(existing: Option<AttestationData>, incoming: AttestationData) -> AttestationData {
    match existing {
        Some(held) => if needs_write(Some(held.attested)) {
            merged(existing, incoming)
        } else {
            held
        },
        None => merged(existing, incoming),
    }
}

/// Of two writes for one key, one saying "did not attest" and one saying
/// "attested", the store holds "attested" after both, in whichever order
/// they arrive and whatever it held before.
pub proof fn lemma_attested_wins(existing: Option<AttestationData>, no: AttestationData, yes: AttestationData)
    requires
        !no.attested,
        yes.attested,
    ensures
        merged(Some(merged(existing, no)), yes).attested,
        merged(Some(merged(existing, yes)), no).attested,
        handled(Some(handled(existing, no)), yes).attested,
        handled(Some(handled(existing, yes)), no).attested,
{
}

/// A write never turns "attested" into "did not attest".
pub proof fn lemma_write_keeps_attested(held: AttestationData, incoming: AttestationData)
    requires
        held.attested,
    ensures
        merged(Some(held), incoming) == held,
        handled(Some(held), incoming) == held,
{
}

/// The attestation records of a store, by (epoch, validator).
pub type Ledger = Map<(u64, u64), AttestationData>;

/// What the store holds under `key`.
pub open spec fn held_under(ledger: Ledger, key: (u64, u64)) -> Option<AttestationData> {
    if ledger.dom().contains(key) {
        Some(ledger[key])
    } else {
        None
    }
}

/// The store after the upsert of one record.
pub open spec fn upsert(ledger: Ledger, incoming: AttestationData) -> Ledger {
    let key = (incoming.epoch, incoming.validator);
    ledger.insert(key, merged(held_under(ledger, key), incoming))
}

/// The store after the upsert of the records of a batch, in order.
pub open spec fn upsert_batch(ledger: Ledger, batch: Seq<AttestationData>) -> Ledger
    decreases batch.len(),
{
    if batch.len() == 0 {
        ledger
    } else {
        upsert(upsert_batch(ledger, batch.drop_last()), batch.last())
    }
}

/// What the store answers when it is asked for the flags under `keys`.
pub open spec fn flags(ledger: Ledger, keys: Seq<(u64, u64)>) -> Seq<Option<bool>> {
    Seq::new(
        keys.len(),
        |i: int|
            match held_under(ledger, keys[i]) {
                Some(held) => Some(held.attested),
                None => None,
            },
    )
}

/// The store after the service has written a batch: it reads the flags
/// under the keys of the batch, and upserts the records that are to be
/// written.
pub open spec fn written(ledger: Ledger, batch: Seq<AttestationData>) -> Ledger {
    upsert_batch(ledger, pending_writes(batch, flags(ledger, keys_of(batch)), batch.len()))
}

/// An upsert of any batch keeps every record of the store, and keeps
/// "attested" wherever the store held it.
pub proof fn lemma_upsert_batch_keeps_attested(ledger: Ledger, batch: Seq<AttestationData>)
    ensures
        forall|key: (u64, u64)| #[trigger]
            ledger.dom().contains(key) ==> upsert_batch(ledger, batch).dom().contains(key) && (ledger[key].attested
                ==> upsert_batch(ledger, batch)[key].attested),
    decreases batch.len(),
{
    if batch.len() > 0 {
        lemma_upsert_batch_keeps_attested(ledger, batch.drop_last());
    }
}

/// Writing a batch again, or any batch at all, over a store turns no
/// "attested" into "did not attest" and drops no record: what the backfill
/// of an epoch has persisted as attested stays so when the epoch is indexed
/// again.
pub proof fn lemma_rerun_keeps_attested(ledger: Ledger, batch: Seq<AttestationData>)
    ensures
        forall|key: (u64, u64)| #[trigger]
            ledger.dom().contains(key) ==> written(ledger, batch).dom().contains(key) && (ledger[key].attested
                ==> written(ledger, batch)[key].attested),
{
    lemma_upsert_batch_keeps_attested(ledger, pending_writes(batch, flags(ledger, keys_of(batch)), batch.len()));
}

/// Whether the store holds the record, or a record with "attested", under
/// the key of every record of the batch that says "attested", and some
/// record under the key of every other.
pub open spec fn absorbs(ledger: Ledger, batch: Seq<AttestationData>) -> bool {
    forall|i: int|
        0 <= i < batch.len() ==> {
            let key = ((#[trigger] batch[i]).epoch, batch[i].validator);
            ledger.dom().contains(key) && (batch[i].attested ==> ledger[key].attested)
        }
}

/// After the upsert of a batch the store absorbs the batch.
pub proof fn lemma_upsert_batch_is_absorbed(ledger: Ledger, batch: Seq<AttestationData>)
    ensures
        absorbs(upsert_batch(ledger, batch), batch),
    decreases batch.len(),
{
    if batch.len() > 0 {
        let before = upsert_batch(ledger, batch.drop_last());
        lemma_upsert_batch_is_absorbed(ledger, batch.drop_last());
        assert forall|i: int| 0 <= i < batch.len() implies {
            let key = ((#[trigger] batch[i]).epoch, batch[i].validator);
            upsert(before, batch.last()).dom().contains(key) && (batch[i].attested ==> upsert(
                before,
                batch.last(),
            )[key].attested)
        } by {
            if i < batch.len() - 1 {
                assert(batch.drop_last()[i] == batch[i]);
            }
        }
    }
}

/// The upsert of a batch that the store absorbs changes nothing.
pub proof fn lemma_absorbed_batch_changes_nothing(ledger: Ledger, batch: Seq<AttestationData>)
    requires
        absorbs(ledger, batch),
    ensures
        upsert_batch(ledger, batch) == ledger,
    decreases batch.len(),
{
    if batch.len() > 0 {
        assert forall|i: int| 0 <= i < batch.len() - 1 implies {
            let key = ((#[trigger] batch.drop_last()[i]).epoch, batch.drop_last()[i].validator);
            ledger.dom().contains(key) && (batch.drop_last()[i].attested ==> ledger[key].attested)
        } by {
            assert(batch.drop_last()[i] == batch[i]);
        }
        lemma_absorbed_batch_changes_nothing(ledger, batch.drop_last());
        let last = batch[batch.len() - 1];
        assert(upsert(ledger, last) =~= ledger);
    }
}

/// Whether `record` is one of the first `n` records of the batch and the
/// store did not answer "attested" for it.
pub open spec fn is_pending(batch: Seq<AttestationData>, existing: Seq<Option<bool>>, n: nat, record: AttestationData) -> bool {
    exists|j: int| 0 <= j < n && needs_write(existing[j]) && #[trigger] batch[j] == record
}

/// The records that are to be written are the records of the batch for
/// which the store did not answer "attested".
pub proof fn lemma_pending_writes_origin(batch: Seq<AttestationData>, existing: Seq<Option<bool>>, n: nat)
    requires
        n <= batch.len(),
    ensures
        forall|k: int|
            0 <= k < pending_writes(batch, existing, n).len() ==> is_pending(
                batch,
                existing,
                n,
                #[trigger] pending_writes(batch, existing, n)[k],
            ),
        forall|j: int|
            0 <= j < n && needs_write(existing[j]) ==> pending_writes(batch, existing, n).contains(#[trigger] batch[j]),
    decreases n,
{
    if n > 0 {
        let before = pending_writes(batch, existing, (n - 1) as nat);
        let all = pending_writes(batch, existing, n);
        lemma_pending_writes_origin(batch, existing, (n - 1) as nat);
        assert forall|k: int| 0 <= k < all.len() implies is_pending(batch, existing, n, #[trigger] all[k]) by {
            if k < before.len() {
                assert(is_pending(batch, existing, (n - 1) as nat, before[k]));
                let j = choose|j: int| 0 <= j < n - 1 && needs_write(existing[j]) && #[trigger] batch[j] == before[k];
                assert(0 <= j < n && needs_write(existing[j]) && batch[j] == all[k]);
            } else {
                assert(needs_write(existing[n - 1]) && batch[n - 1] == all[k]);
            }
        }
        assert forall|j: int| 0 <= j < n && needs_write(existing[j]) implies all.contains(#[trigger] batch[j]) by {
            if j < n - 1 {
                assert(before.contains(batch[j]));
                let k = choose|k: int| 0 <= k < before.len() && before[k] == batch[j];
                assert(all[k] == batch[j]);
            } else {
                assert(all[all.len() - 1] == batch[j]);
            }
        }
    }
}

/// Indexing an epoch again changes nothing: once the service has written a
/// batch, writing the same batch over the result leaves the store as it is.
pub proof fn lemma_rerun_is_idempotent(ledger: Ledger, batch: Seq<AttestationData>)
    ensures
        written(written(ledger, batch), batch) == written(ledger, batch),
{
    let n = batch.len();
    let first = pending_writes(batch, flags(ledger, keys_of(batch)), n);
    let once = written(ledger, batch);
    let second = pending_writes(batch, flags(once, keys_of(batch)), n);
    lemma_upsert_batch_keeps_attested(ledger, first);
    lemma_upsert_batch_is_absorbed(ledger, first);
    lemma_pending_writes_origin(batch, flags(ledger, keys_of(batch)), n);
    lemma_pending_writes_origin(batch, flags(once, keys_of(batch)), n);
    assert forall|k: int| 0 <= k < second.len() implies {
        let key = ((#[trigger] second[k]).epoch, second[k].validator);
        once.dom().contains(key) && (second[k].attested ==> once[key].attested)
    } by {
        assert(is_pending(batch, flags(once, keys_of(batch)), n, second[k]));
        let j = choose|j: int|
            0 <= j < n && needs_write(flags(once, keys_of(batch))[j]) && #[trigger] batch[j] == second[k];
        let key = (batch[j].epoch, batch[j].validator);
        assert(keys_of(batch)[j] == key);
        if needs_write(flags(ledger, keys_of(batch))[j]) {
            assert(first.contains(batch[j]));
            let at = choose|at: int| 0 <= at < first.len() && first[at] == batch[j];
            assert(first[at] == batch[j]);
        } else {
            assert(ledger.dom().contains(key) && ledger[key].attested);
        }
    }
    lemma_absorbed_batch_changes_nothing(once, second);
}

/// The number under which a table keeps the record of (epoch, validator):
/// the epoch in the upper half, the validator in the lower.
pub open spec fn key_code(key: (u64, u64)) -> u128 {
    (key.0 * 0x1_0000_0000_0000_0000 + key.1) as u128
}

/// The attestation records in memory: at most one per (epoch, validator),
/// written by the rule of `merged`.
pub struct AttestationTable {
    pub rows: HashMap<u128, AttestationData>,
}

impl View for AttestationTable {
    type V = Ledger;

    open spec fn view(&self) -> Ledger {
        Map::new(
            |key: (u64, u64)| self.rows@.contains_key(key_code(key)),
            |key: (u64, u64)| self.rows@[key_code(key)],
        )
    }
}

fn code_of(epoch: u64, validator: u64) -> (code: u128)
    ensures
        code == key_code((epoch, validator)),
{
    (epoch as u128) * 0x1_0000_0000_0000_0000u128 + (validator as u128)
}

impl AttestationTable {
    /// A table without records.
    pub fn new() -> (table: Self)
        ensures
            table@ == Map::<(u64, u64), AttestationData>::empty(),
    {
        broadcast use vstd::std_specs::hash::group_hash_axioms;

        let table = AttestationTable { rows: HashMap::new() };
        assert(table@ =~= Map::<(u64, u64), AttestationData>::empty());
        table
    }

    /// The record under (epoch, validator), if there is one.
    pub fn get_row(&self, epoch: u64, validator: u64) -> (row: Option<AttestationData>)
        ensures
            row == held_under(self@, (epoch, validator)),
    {
        broadcast use vstd::std_specs::hash::group_hash_axioms;

        let code = code_of(epoch, validator);
        match self.rows.get(&code) {
            Some(row) => Some(*row),
            None => None,
        }
    }

    /// Whether the validator is recorded as having attested in the epoch;
    /// `None` where there is no record.
    pub fn get_attestation(&self, epoch: u64, validator: u64) -> (flag: Option<bool>)
        ensures
            flag == match held_under(self@, (epoch, validator)) {
                Some(held) => Some(held.attested),
                None => None,
            },
    {
        match self.get_row(epoch, validator) {
            Some(row) => Some(row.attested),
            None => None,
        }
    }

    /// The flags under the keys, in the order of the keys.
    pub fn get_attestations(&self, epoch_validators: &Vec<(u64, u64)>) -> (found: Vec<Option<bool>>)
        ensures
            found@ == flags(self@, epoch_validators@),
    {
        let mut found: Vec<Option<bool>> = Vec::new();
        let mut i: usize = 0;
        while i < epoch_validators.len()
            invariant
                i <= epoch_validators.len(),
                found@ == flags(self@, epoch_validators@.take(i as int)),
            decreases epoch_validators.len() - i,
        {
            let key = epoch_validators[i];
            found.push(self.get_attestation(key.0, key.1));
            i = i + 1;
            assert(found@ =~= flags(self@, epoch_validators@.take(i as int)));
        }
        assert(epoch_validators@.take(epoch_validators.len() as int) == epoch_validators@);
        found
    }

    /// Upserts one record.
    pub fn create_attestation(&mut self, attestation_data: AttestationData)
        ensures
            final(self)@ == upsert(old(self)@, attestation_data),
    {
        broadcast use vstd::std_specs::hash::group_hash_axioms;

        let row = upsert_outcome(self.get_row(attestation_data.epoch, attestation_data.validator), attestation_data);
        let code = code_of(attestation_data.epoch, attestation_data.validator);
        self.rows.insert(code, row);
        proof {
            let key = (attestation_data.epoch, attestation_data.validator);
            assert forall|other: (u64, u64)| other != key implies key_code(other) != key_code(key) by {}
            assert(self@ =~= upsert(old(self)@, attestation_data));
        }
    }

    /// Writes a batch the way the service does: reads the flags under the
    /// keys of the batch, lets the service pick the records to write, and
    /// upserts those.
    pub fn create_or_update_attestation_batch<E, V, A, C>(
        &mut self,
        service: &ServiceImpl<E, V, A, C>,
        attestation_data: &Vec<AttestationData>,
    )
        ensures
            final(self)@ == written(old(self)@, attestation_data@),
    {
        let keys = service.attestation_keys(attestation_data);
        let existing = self.get_attestations(&keys);
        let batch = service.create_or_update_attestation_batch(attestation_data, &existing);
        self.create_attestation_batch(&batch);
    }

    /// Upserts the records of a batch, in order.
    pub fn create_attestation_batch(&mut self, attestations: &Vec<AttestationData>)
        ensures
            final(self)@ == upsert_batch(old(self)@, attestations@),
    {
        let mut i: usize = 0;
        while i < attestations.len()
            invariant
                i <= attestations.len(),
                self@ == upsert_batch(old(self)@, attestations@.take(i as int)),
            decreases attestations.len() - i,
        {
            self.create_attestation(attestations[i]);
            assert(attestations@.take(i + 1).drop_last() == attestations@.take(i as int));
            i = i + 1;
        }
        assert(attestations@.take(attestations.len() as int) == attestations@);
    }
}

} // verus!
