use attestation_indexer::client::model::attestation::{AggregationData, Attestation, Checkpoint};
use attestation_indexer::common::committee::Committee;
use attestation_indexer::error::IndexError;
use attestation_indexer::indexer::pubsub::{index_attestations, LiveAction, LiveEvent, LiveIngestion};
use attestation_indexer::indexer::util::{
    get_committee_for_slot_and_index, process_attestation, AttestationTask, Resolver, ResolverStage, TaskStage,
};
use attestation_indexer::indexer::{Action, Event};
use attestation_indexer::service::model::{AttestationData, Committee as StoredCommittee};
use attestation_indexer::store::committee::CommitteeTable;

fn attestation(bits: &str, slot: u64, index: u8, target_epoch: u64) -> Attestation {
    Attestation {
        aggregation_bits: bits.to_string(),
        data: AggregationData {
            beacon_block_root: "0xroot".to_string(),
            index,
            slot,
            source: Checkpoint { epoch: 0, root: "0xsource".to_string() },
            target: Checkpoint { epoch: target_epoch, root: "0xtarget".to_string() },
        },
        signature: "0xsig".to_string(),
    }
}

/// A store of committees and a beacon node, with a count of the calls made
/// to the beacon node.
struct World {
    beacon: Vec<(u64, u8, Vec<u64>)>,
    beacon_calls: usize,
    store: CommitteeTable,
    store_reads: usize,
    written: Vec<AttestationData>,
    fail_beacon: bool,
    fail_store_write: bool,
}

fn world(beacon: Vec<(u64, u8, Vec<u64>)>) -> World {
    World {
        beacon,
        beacon_calls: 0,
        store: CommitteeTable::new(),
        store_reads: 0,
        written: Vec::new(),
        fail_beacon: false,
        fail_store_write: false,
    }
}

impl World {
    fn perform(&mut self, action: Action) -> Event {
        match action {
            Action::GetCommittee { slot, index } => {
                self.store_reads += 1;
                Event::Stored(self.store.get_committee(slot, index))
            }
            Action::FetchCommittees { state_slot, epoch_filter, index_filter, slot_filter } => {
                self.beacon_calls += 1;
                if self.fail_beacon {
                    return Event::Failed(IndexError::Network);
                }
                assert_eq!(epoch_filter, None);
                assert_eq!(slot_filter, Some(state_slot));
                assert!(index_filter.is_some());
                Event::Committees(
                    self.beacon
                        .iter()
                        .map(|(slot, index, validators)| Committee {
                            index: *index,
                            slot: *slot,
                            validators: validators.clone(),
                        })
                        .collect(),
                )
            }
            Action::UpsertCommittee(committee) => {
                if self.fail_store_write {
                    return Event::Failed(IndexError::Store);
                }
                self.store.create_committee(&committee);
                Event::Done
            }
            Action::UpsertAttestations(batch) => {
                if self.fail_store_write {
                    return Event::Failed(IndexError::Store);
                }
                self.written.extend(batch);
                Event::Done
            }
            other => panic!("asked for {other:?}"),
        }
    }

    fn resolve(&mut self, slot: u64, index: u8) -> Result<Option<StoredCommittee>, IndexError> {
        let mut resolver = Resolver::new(slot, index);
        let mut event = Event::Begin;
        loop {
            match get_committee_for_slot_and_index(&mut resolver, event) {
                Action::Resolved(found) => {
                    assert_eq!(resolver.stage, ResolverStage::Resolved);
                    return Ok(found);
                }
                Action::Failed(e) => {
                    assert_eq!(resolver.stage, ResolverStage::Failed);
                    return Err(e);
                }
                action => event = self.perform(action),
            }
        }
    }

    fn process(&mut self, attestation: Attestation) -> Result<(), IndexError> {
        let mut task = AttestationTask::new(attestation);
        let mut event = Event::Begin;
        loop {
            match process_attestation(&mut task, event) {
                Action::Finished => {
                    assert_eq!(task.stage, TaskStage::Finished);
                    return Ok(());
                }
                Action::Failed(e) => {
                    assert_eq!(task.stage, TaskStage::Failed);
                    return Err(e);
                }
                action => event = self.perform(action),
            }
        }
    }
}

#[test]
fn resolver_asks_the_store_first() {
    let mut w = world(vec![(40, 2, vec![1, 2, 3])]);
    w.store.create_committee(&StoredCommittee { index: 2, slot: 40, validators: vec![9, 8] });
    let found = w.resolve(40, 2).unwrap().unwrap();
    assert_eq!((found.slot, found.index), (40, 2));
    assert_eq!(found.validators, vec![9, 8]);
    assert_eq!(w.beacon_calls, 0);
    assert_eq!(w.store_reads, 1);
}

#[test]
fn resolver_falls_back_to_the_beacon_node_and_persists() {
    let mut w = world(vec![(40, 2, vec![1, 2, 3])]);
    let found = w.resolve(40, 2).unwrap().unwrap();
    assert_eq!((found.slot, found.index), (40, 2));
    assert_eq!(found.validators, vec![1, 2, 3]);
    assert_eq!(w.beacon_calls, 1);
    assert_eq!(w.store.get_committee(40, 2).map(|c| c.validators), Some(vec![1, 2, 3]));
}

#[test]
fn second_resolution_does_not_call_the_beacon_node() {
    let mut w = world(vec![(40, 2, vec![1, 2, 3])]);
    let first = w.resolve(40, 2).unwrap().unwrap();
    assert_eq!(w.beacon_calls, 1);
    // Whatever the beacon node would say now is not asked for.
    w.beacon = vec![(40, 2, vec![7, 7, 7])];
    let second = w.resolve(40, 2).unwrap().unwrap();
    assert_eq!(w.beacon_calls, 1);
    assert_eq!(second.validators, first.validators);
    assert_eq!((second.slot, second.index), (40, 2));
}

#[test]
fn resolver_reports_not_found_when_neither_has_the_committee() {
    let mut w = world(vec![]);
    assert!(w.resolve(40, 2).unwrap().is_none());
    assert_eq!(w.beacon_calls, 1);
    assert!(w.store.rows.is_empty());
    // Nothing was cached, so the beacon node is asked again.
    assert!(w.resolve(40, 2).unwrap().is_none());
    assert_eq!(w.beacon_calls, 2);
}

#[test]
fn resolver_takes_the_first_committee_that_has_the_key() {
    let mut w = world(vec![(41, 2, vec![5]), (40, 3, vec![6]), (40, 2, vec![1]), (40, 2, vec![2])]);
    let found = w.resolve(40, 2).unwrap().unwrap();
    assert_eq!(found.validators, vec![1]);
    assert_eq!(w.store.rows.len(), 1);
    let mut w = world(vec![(41, 2, vec![5]), (40, 3, vec![6])]);
    assert!(w.resolve(40, 2).unwrap().is_none());
    assert!(w.store.rows.is_empty());
}

#[test]
fn resolver_gives_up_when_a_request_fails() {
    let mut w = world(vec![(40, 2, vec![1])]);
    w.fail_beacon = true;
    assert_eq!(w.resolve(40, 2).err(), Some(IndexError::Network));
    let mut w = world(vec![(40, 2, vec![1])]);
    w.fail_store_write = true;
    assert_eq!(w.resolve(40, 2).err(), Some(IndexError::Store));
    let mut resolver = Resolver::new(1, 1);
    assert!(matches!(
        get_committee_for_slot_and_index(&mut resolver, Event::Failed(IndexError::Store)),
        Action::Failed(IndexError::Store)
    ));
}

#[test]
fn resolver_refuses_an_outcome_it_did_not_ask_for() {
    let mut resolver = Resolver::new(1, 1);
    assert!(matches!(
        get_committee_for_slot_and_index(&mut resolver, Event::Done),
        Action::Failed(IndexError::Protocol)
    ));
    let mut resolver = Resolver::new(1, 1);
    assert!(matches!(
        get_committee_for_slot_and_index(&mut resolver, Event::Begin),
        Action::GetCommittee { slot: 1, index: 1 }
    ));
    assert!(matches!(
        get_committee_for_slot_and_index(&mut resolver, Event::Committees(vec![])),
        Action::Failed(IndexError::Protocol)
    ));
}

#[test]
fn live_attestation_is_decoded_against_the_committee_of_its_own_slot() {
    let mut w = world(vec![(40, 2, vec![11, 12, 13])]);
    assert_eq!(w.process(attestation("0x60", 40, 2, 1)), Ok(()));
    assert_eq!(
        w.written,
        vec![
            AttestationData { epoch: 1, validator: 11, slot: 40, committee_index: 2, attested: false },
            AttestationData { epoch: 1, validator: 12, slot: 40, committee_index: 2, attested: true },
            AttestationData { epoch: 1, validator: 13, slot: 40, committee_index: 2, attested: true },
        ]
    );
    assert_eq!(w.beacon_calls, 1);
    // A second attestation of the same committee is served from the store.
    assert_eq!(w.process(attestation("0x80", 40, 2, 1)), Ok(()));
    assert_eq!(w.beacon_calls, 1);
    assert_eq!(w.written.len(), 6);
}

#[test]
fn live_attestation_without_a_committee_is_a_consistency_error() {
    let mut w = world(vec![]);
    assert_eq!(w.process(attestation("0x60", 40, 2, 1)), Err(IndexError::Consistency));
    assert!(w.written.is_empty());
}

#[test]
fn live_attestation_with_bad_bits_fails_and_writes_nothing() {
    let mut w = world(vec![(40, 2, vec![11, 12, 13])]);
    assert_eq!(w.process(attestation("0x6", 40, 2, 1)), Err(IndexError::Format));
    assert_eq!(w.process(attestation("0xxy", 40, 2, 1)), Err(IndexError::Format));
    assert_eq!(w.process(attestation("", 40, 2, 1)), Err(IndexError::Consistency));
    assert!(w.written.is_empty());
}

#[test]
fn live_attestation_fails_with_the_error_of_the_failed_request() {
    let mut w = world(vec![(40, 2, vec![11])]);
    w.fail_beacon = true;
    assert_eq!(w.process(attestation("0x80", 40, 2, 1)), Err(IndexError::Network));
    let mut w = world(vec![(40, 2, vec![11])]);
    w.store.create_committee(&StoredCommittee { index: 2, slot: 40, validators: vec![11] });
    w.fail_store_write = true;
    assert_eq!(w.process(attestation("0x80", 40, 2, 1)), Err(IndexError::Store));
}

#[test]
fn finished_task_refuses_further_outcomes() {
    let mut w = world(vec![(40, 2, vec![11])]);
    let mut task = AttestationTask::new(attestation("0x80", 40, 2, 1));
    let mut event = Event::Begin;
    loop {
        match process_attestation(&mut task, event) {
            Action::Finished => break,
            action => event = w.perform(action),
        }
    }
    assert!(matches!(process_attestation(&mut task, Event::Done), Action::Failed(IndexError::Protocol)));
    assert_eq!(task.stage, TaskStage::Failed);
}

fn spawned(action: LiveAction) -> (u64, bool) {
    match action {
        LiveAction::Spawn { attestation, hold } => (attestation.data.slot, hold),
        other => panic!("expected a task, got {other:?}"),
    }
}

#[test]
fn live_loop_starts_a_task_for_each_attestation() {
    let mut state = LiveIngestion::new(4);
    assert!(matches!(index_attestations(&mut state, LiveEvent::Begin), LiveAction::Listen));
    assert_eq!(spawned(index_attestations(&mut state, LiveEvent::Item(Ok(attestation("0x80", 1, 0, 0))))), (1, false));
    assert_eq!(spawned(index_attestations(&mut state, LiveEvent::Item(Ok(attestation("0x80", 2, 0, 0))))), (2, false));
    assert_eq!(state.in_flight, 2);
    assert!(matches!(index_attestations(&mut state, LiveEvent::TaskEnded(Ok(()))), LiveAction::Listen));
    assert_eq!(state.in_flight, 1);
}

#[test]
fn live_loop_passes_over_a_bad_item() {
    let mut state = LiveIngestion::new(4);
    assert!(matches!(
        index_attestations(&mut state, LiveEvent::Item(Err(IndexError::Format))),
        LiveAction::Listen
    ));
    assert_eq!(state.in_flight, 0);
    assert_eq!(spawned(index_attestations(&mut state, LiveEvent::Item(Ok(attestation("0x80", 1, 0, 0))))), (1, false));
}

#[test]
fn live_loop_is_not_disturbed_by_a_failed_task() {
    let mut state = LiveIngestion::new(4);
    spawned(index_attestations(&mut state, LiveEvent::Item(Ok(attestation("0x80", 1, 0, 0)))));
    spawned(index_attestations(&mut state, LiveEvent::Item(Ok(attestation("0x80", 2, 0, 0)))));
    assert!(matches!(
        index_attestations(&mut state, LiveEvent::TaskEnded(Err(IndexError::Consistency))),
        LiveAction::Listen
    ));
    assert_eq!(state.in_flight, 1);
    assert_eq!(spawned(index_attestations(&mut state, LiveEvent::Item(Ok(attestation("0x80", 3, 0, 0))))), (3, false));
}

#[test]
fn live_loop_never_runs_more_tasks_than_its_limit() {
    let mut state = LiveIngestion::new(2);
    assert_eq!(spawned(index_attestations(&mut state, LiveEvent::Item(Ok(attestation("0x80", 1, 0, 0))))), (1, false));
    // The second task fills the limit: the stream is left alone.
    assert_eq!(spawned(index_attestations(&mut state, LiveEvent::Item(Ok(attestation("0x80", 2, 0, 0))))), (2, true));
    assert_eq!(state.in_flight, 2);
    // An item that arrives all the same waits and is not lost.
    assert!(matches!(
        index_attestations(&mut state, LiveEvent::Item(Ok(attestation("0x80", 3, 0, 0)))),
        LiveAction::Hold
    ));
    assert!(matches!(
        index_attestations(&mut state, LiveEvent::Item(Ok(attestation("0x80", 4, 0, 0)))),
        LiveAction::Hold
    ));
    assert_eq!(state.in_flight, 2);
    assert_eq!(state.waiting.len(), 2);
    // When a task ends the oldest waiting attestation takes its place.
    assert_eq!(spawned(index_attestations(&mut state, LiveEvent::TaskEnded(Ok(())))), (3, true));
    assert_eq!(state.in_flight, 2);
    assert_eq!(spawned(index_attestations(&mut state, LiveEvent::TaskEnded(Err(IndexError::Store)))), (4, true));
    assert_eq!(state.in_flight, 2);
    assert!(state.waiting.is_empty());
    assert!(matches!(index_attestations(&mut state, LiveEvent::TaskEnded(Ok(()))), LiveAction::Listen));
    assert!(matches!(index_attestations(&mut state, LiveEvent::TaskEnded(Ok(()))), LiveAction::Listen));
    assert_eq!(state.in_flight, 0);
    assert!(matches!(index_attestations(&mut state, LiveEvent::TaskEnded(Ok(()))), LiveAction::Listen));
    assert_eq!(state.in_flight, 0);
}

#[test]
fn live_loop_with_limit_zero_runs_one_task_at_a_time() {
    let mut state = LiveIngestion::new(0);
    assert!(matches!(index_attestations(&mut state, LiveEvent::Begin), LiveAction::Listen));
    assert_eq!(spawned(index_attestations(&mut state, LiveEvent::Item(Ok(attestation("0x80", 1, 0, 0))))), (1, true));
    assert!(matches!(
        index_attestations(&mut state, LiveEvent::Item(Ok(attestation("0x80", 2, 0, 0)))),
        LiveAction::Hold
    ));
    assert_eq!(state.in_flight, 1);
    assert_eq!(spawned(index_attestations(&mut state, LiveEvent::TaskEnded(Ok(())))), (2, true));
}

#[test]
fn live_loop_stops_at_once_when_the_stream_ends_and_nothing_runs() {
    let mut state = LiveIngestion::new(2);
    assert!(matches!(index_attestations(&mut state, LiveEvent::Closed), LiveAction::Finish));
    assert!(state.closed);
    let mut state = LiveIngestion::new(2);
    spawned(index_attestations(&mut state, LiveEvent::Item(Ok(attestation("0x80", 1, 0, 0)))));
    assert!(matches!(index_attestations(&mut state, LiveEvent::TaskEnded(Ok(()))), LiveAction::Listen));
    assert!(matches!(index_attestations(&mut state, LiveEvent::Closed), LiveAction::Finish));
}

#[test]
fn live_loop_waits_for_running_tasks_when_the_stream_ends() {
    let mut state = LiveIngestion::new(4);
    spawned(index_attestations(&mut state, LiveEvent::Item(Ok(attestation("0x80", 1, 0, 0)))));
    spawned(index_attestations(&mut state, LiveEvent::Item(Ok(attestation("0x80", 2, 0, 0)))));
    assert!(matches!(index_attestations(&mut state, LiveEvent::Closed), LiveAction::Hold));
    assert_eq!(state.in_flight, 2);
    assert!(matches!(index_attestations(&mut state, LiveEvent::TaskEnded(Err(IndexError::Store))), LiveAction::Hold));
    assert!(matches!(index_attestations(&mut state, LiveEvent::TaskEnded(Ok(()))), LiveAction::Finish));
    assert_eq!(state.in_flight, 0);
}

#[test]
fn live_loop_processes_what_waits_before_it_stops() {
    let mut state = LiveIngestion::new(1);
    assert_eq!(spawned(index_attestations(&mut state, LiveEvent::Item(Ok(attestation("0x80", 1, 0, 0))))), (1, true));
    assert!(matches!(
        index_attestations(&mut state, LiveEvent::Item(Ok(attestation("0x80", 2, 0, 0)))),
        LiveAction::Hold
    ));
    assert!(matches!(
        index_attestations(&mut state, LiveEvent::Item(Ok(attestation("0x80", 3, 0, 0)))),
        LiveAction::Hold
    ));
    assert!(matches!(index_attestations(&mut state, LiveEvent::Closed), LiveAction::Hold));
    assert_eq!(spawned(index_attestations(&mut state, LiveEvent::TaskEnded(Ok(())))), (2, true));
    assert_eq!(spawned(index_attestations(&mut state, LiveEvent::TaskEnded(Ok(())))), (3, true));
    assert!(state.waiting.is_empty());
    assert!(matches!(index_attestations(&mut state, LiveEvent::TaskEnded(Ok(()))), LiveAction::Finish));
}

#[test]
fn live_loop_leaves_an_ended_stream_alone() {
    let mut state = LiveIngestion::new(4);
    spawned(index_attestations(&mut state, LiveEvent::Item(Ok(attestation("0x80", 1, 0, 0)))));
    assert!(matches!(index_attestations(&mut state, LiveEvent::Closed), LiveAction::Hold));
    // A bad item or a second end changes nothing.
    assert!(matches!(index_attestations(&mut state, LiveEvent::Item(Err(IndexError::Network))), LiveAction::Hold));
    assert!(matches!(index_attestations(&mut state, LiveEvent::Closed), LiveAction::Hold));
    // An attestation that arrives all the same is processed, and the
    // stream is not listened to again.
    assert_eq!(spawned(index_attestations(&mut state, LiveEvent::Item(Ok(attestation("0x80", 2, 0, 0))))), (2, true));
    assert!(matches!(index_attestations(&mut state, LiveEvent::TaskEnded(Ok(()))), LiveAction::Hold));
    assert!(matches!(index_attestations(&mut state, LiveEvent::TaskEnded(Ok(()))), LiveAction::Finish));
}

#[test]
fn committee_table_holds_one_committee_per_slot_and_index() {
    let mut table = CommitteeTable::new();
    assert!(table.get_committee(5, 1).is_none());
    table.create_committee(&StoredCommittee { index: 1, slot: 5, validators: vec![1, 2] });
    table.create_committee(&StoredCommittee { index: 1, slot: 5, validators: vec![3] });
    table.create_committee(&StoredCommittee { index: 0, slot: 6, validators: vec![4] });
    table.create_committee_batch(&vec![
        StoredCommittee { index: 255, slot: u64::MAX, validators: vec![5] },
        StoredCommittee { index: 0, slot: u64::MAX, validators: vec![6] },
        StoredCommittee { index: 255, slot: 0, validators: vec![7] },
        StoredCommittee { index: 0, slot: 1, validators: vec![8] },
    ]);
    assert_eq!(table.rows.len(), 6);
    let found = table.get_committee(5, 1).unwrap();
    assert_eq!((found.slot, found.index, found.validators), (5, 1, vec![3]));
    assert_eq!(table.get_committee(6, 0).unwrap().validators, vec![4]);
    assert_eq!(table.get_committee(u64::MAX, 255).unwrap().validators, vec![5]);
    assert_eq!(table.get_committee(u64::MAX, 0).unwrap().validators, vec![6]);
    assert_eq!(table.get_committee(0, 255).unwrap().validators, vec![7]);
    assert_eq!(table.get_committee(1, 0).unwrap().validators, vec![8]);
    assert!(table.get_committee(6, 1).is_none());
}
