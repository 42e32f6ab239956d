use attestation_indexer::client::model::attestation::{AggregationData, Attestation, Checkpoint as AttestationCheckpoint};
use attestation_indexer::client::model::checkpoint::{Checkpoint, FinalityCheckpoints};
use attestation_indexer::common::committee::Committee;
use attestation_indexer::error::IndexError;
use attestation_indexer::indexer::polling::{PollingIndexer, RunPhase};
use attestation_indexer::indexer::{Action, Event, Stage, MAX_EPOCH};

fn checkpoints(justified: u64) -> FinalityCheckpoints {
    FinalityCheckpoints {
        previous_justified: Checkpoint { epoch: justified.saturating_sub(1), root: "0xp".to_string() },
        current_justified: Checkpoint { epoch: justified, root: "0xc".to_string() },
        finalized: Checkpoint { epoch: justified.saturating_sub(2), root: "0xf".to_string() },
    }
}

/// Answers every request of a run in the plainest way: no validators, one
/// committee per epoch at its first slot, no blocks.  Returns the epochs for
/// which committees were imported, in order, and how the run ended.  The
/// epochs whose committees were only read to begin with are not among them.
fn drive(run: &mut PollingIndexer, justified: u64, stop_after: usize, fail_at_epoch: Option<u64>) -> (Vec<u64>, Action) {
    let (epochs, _, end) = drive_all(run, justified, stop_after, fail_at_epoch);
    (epochs, end)
}

/// As `drive`, and returns the epochs whose committees were read to begin
/// with as well.
fn drive_all(
    run: &mut PollingIndexer,
    justified: u64,
    stop_after: usize,
    fail_at_epoch: Option<u64>,
) -> (Vec<u64>, Vec<u64>, Action) {
    let mut epochs = Vec::new();
    let mut captured = Vec::new();
    let mut event = Event::Begin;
    loop {
        let action = run.run(event);
        event = match action {
            Action::FetchCheckpoints => Event::Checkpoints(checkpoints(justified)),
            Action::FetchValidators => Event::Validators(vec![]),
            Action::CountActiveValidators(_) | Action::CountTotalValidators(_) => Event::Count(0),
            Action::CreateEpoch { .. } => Event::Done,
            Action::FetchCommittees { state_slot, epoch_filter, .. } => {
                let epoch = epoch_filter.unwrap();
                assert_eq!(state_slot, epoch * 32);
                if matches!(run.phase, RunPhase::Capture { .. }) {
                    captured.push(epoch);
                } else {
                    if epochs.len() == stop_after {
                        return (epochs, captured, Action::FetchCommittees {
                            state_slot,
                            epoch_filter,
                            index_filter: None,
                            slot_filter: None,
                        });
                    }
                    epochs.push(epoch);
                }
                if fail_at_epoch == Some(epoch) {
                    Event::Failed(IndexError::Network)
                } else {
                    Event::Committees(vec![Committee { index: 0, slot: state_slot, validators: vec![epoch] }])
                }
            }
            Action::UpsertCommittees(_) => Event::Done,
            Action::FetchHeader(_) => Event::Header(None),
            Action::FetchAttestations(_) => Event::Attestations(None),
            other => return (epochs, captured, other),
        };
    }
}

#[test]
fn bounded_run_indexes_from_zero_to_the_bound_and_ends() {
    let mut run = PollingIndexer::new(Some(3));
    let (epochs, end) = drive(&mut run, 10, 100, None);
    assert_eq!(epochs, vec![0, 1, 2, 3]);
    assert!(matches!(end, Action::Finished));
    assert_eq!(run.phase, RunPhase::Finished);
}

#[test]
fn bounded_run_goes_past_the_justified_epoch_up_to_its_bound() {
    let mut run = PollingIndexer::new(Some(4));
    let (epochs, end) = drive(&mut run, 2, 100, None);
    assert_eq!(epochs, vec![0, 1, 2, 3, 4]);
    assert!(matches!(end, Action::Finished));
}

#[test]
fn bounded_run_to_epoch_zero_indexes_one_epoch() {
    let mut run = PollingIndexer::new(Some(0));
    let (epochs, end) = drive(&mut run, 10, 100, None);
    assert_eq!(epochs, vec![0]);
    assert!(matches!(end, Action::Finished));
}

#[test]
fn run_first_asks_for_the_finality_checkpoints() {
    let mut run = PollingIndexer::new(None);
    assert_eq!(run.phase, RunPhase::Idle);
    assert!(matches!(run.run(Event::Begin), Action::FetchCheckpoints));
    assert_eq!(run.phase, RunPhase::Checkpoints);
    assert!(matches!(run.run(Event::Checkpoints(checkpoints(5))), Action::FetchValidators));
    assert_eq!(run.phase, RunPhase::Backfill { last: 5 });
    assert_eq!(run.pass.epoch, 0);
}

#[test]
fn unbounded_run_follows_the_justified_epoch_and_then_polls_the_next() {
    let mut run = PollingIndexer::new(None);
    let (epochs, end) = drive(&mut run, 2, 6, None);
    assert_eq!(epochs, vec![0, 1, 2, 3, 3, 3]);
    assert!(matches!(end, Action::FetchCommittees { state_slot: 96, .. }));
    assert_eq!(run.phase, RunPhase::Polling);
}

#[test]
fn resumed_run_starts_at_the_resume_point() {
    let mut run = PollingIndexer::new(Some(5)).resume_from(3);
    let (epochs, end) = drive(&mut run, 10, 100, None);
    assert_eq!(epochs, vec![3, 4, 5]);
    assert!(matches!(end, Action::Finished));
}

#[test]
fn resumed_run_first_reads_the_committees_of_the_epoch_before() {
    let mut run = PollingIndexer::new(Some(5)).resume_from(3);
    assert!(matches!(run.run(Event::Begin), Action::FetchCheckpoints));
    assert!(matches!(
        run.run(Event::Checkpoints(checkpoints(10))),
        Action::FetchCommittees { state_slot: 64, epoch_filter: Some(2), index_filter: None, slot_filter: None }
    ));
    assert_eq!(run.phase, RunPhase::Capture { epoch: 3, last: Some(5) });
    let prior = vec![Committee { index: 1, slot: 95, validators: vec![7, 8] }];
    assert!(matches!(run.run(Event::Committees(prior)), Action::FetchValidators));
    assert_eq!(run.phase, RunPhase::Backfill { last: 5 });
    assert_eq!(run.pass.epoch, 3);
    assert_eq!(run.pass.previous.len(), 1);
    assert_eq!((run.pass.previous[0].slot, run.pass.previous[0].index), (95, 1));
    assert_eq!(run.pass.previous[0].validators, vec![7, 8]);
}

#[test]
fn run_from_epoch_zero_reads_no_earlier_committees() {
    let mut run = PollingIndexer::new(Some(2));
    let (epochs, captured, end) = drive_all(&mut run, 10, 100, None);
    assert_eq!(epochs, vec![0, 1, 2]);
    assert!(captured.is_empty());
    assert!(matches!(end, Action::Finished));
}

#[test]
fn resumed_run_reads_the_earlier_committees_once() {
    let mut run = PollingIndexer::new(Some(5)).resume_from(3);
    let (epochs, captured, end) = drive_all(&mut run, 10, 100, None);
    assert_eq!(epochs, vec![3, 4, 5]);
    assert_eq!(captured, vec![2]);
    assert!(matches!(end, Action::Finished));
    let mut run = PollingIndexer::new(None).resume_from(9);
    let (epochs, captured, _) = drive_all(&mut run, 4, 2, None);
    assert_eq!(epochs, vec![5, 5]);
    assert_eq!(captured, vec![4]);
}

#[test]
fn a_failure_to_read_the_earlier_committees_ends_the_run() {
    let mut run = PollingIndexer::new(Some(5)).resume_from(3);
    let (epochs, captured, end) = drive_all(&mut run, 10, 100, Some(2));
    assert!(epochs.is_empty());
    assert_eq!(captured, vec![2]);
    assert!(matches!(end, Action::Failed(IndexError::Network)));
    assert_eq!(run.phase, RunPhase::Failed);
    let mut run = PollingIndexer::new(Some(5)).resume_from(3);
    run.run(Event::Begin);
    run.run(Event::Checkpoints(checkpoints(10)));
    assert!(matches!(run.run(Event::Done), Action::Failed(IndexError::Protocol)));
}

#[test]
fn resumed_run_decodes_an_attestation_of_the_epoch_before() {
    let mut run = PollingIndexer::new(Some(3)).resume_from(3);
    run.run(Event::Begin);
    run.run(Event::Checkpoints(checkpoints(10)));
    let prior = vec![Committee { index: 0, slot: 95, validators: vec![7, 8] }];
    let mut action = run.run(Event::Committees(prior));
    // Answer plainly up to the attestations of the first slot of epoch 3.
    loop {
        let event = match action {
            Action::FetchValidators => Event::Validators(vec![]),
            Action::CountActiveValidators(_) | Action::CountTotalValidators(_) => Event::Count(0),
            Action::CreateEpoch { .. } => Event::Done,
            Action::FetchCommittees { .. } => Event::Committees(vec![]),
            Action::FetchHeader(_) => Event::Header(None),
            Action::FetchAttestations(96) => break,
            other => panic!("asked for {other:?}"),
        };
        action = run.run(event);
    }
    let delayed = Attestation {
        aggregation_bits: "0x40".to_string(),
        data: AggregationData {
            beacon_block_root: "0xroot".to_string(),
            index: 0,
            slot: 95,
            source: AttestationCheckpoint { epoch: 1, root: "0xs".to_string() },
            target: AttestationCheckpoint { epoch: 2, root: "0xt".to_string() },
        },
        signature: "0xsig".to_string(),
    };
    match run.run(Event::Attestations(Some(vec![delayed]))) {
        Action::UpsertAttestations(batch) => {
            let seen: Vec<(u64, u64, bool)> = batch.iter().map(|r| (r.epoch, r.validator, r.attested)).collect();
            assert_eq!(seen, vec![(2, 7, false), (2, 8, true)]);
        }
        other => panic!("asked for {other:?}"),
    }
}

#[test]
fn run_resumed_beyond_its_bound_has_nothing_to_do() {
    let mut run = PollingIndexer::new(Some(5)).resume_from(6);
    let (epochs, end) = drive(&mut run, 10, 100, None);
    assert!(epochs.is_empty());
    assert!(matches!(end, Action::Finished));
}

#[test]
fn unbounded_run_resumed_beyond_the_justified_epoch_polls_the_epoch_after_it() {
    let mut run = PollingIndexer::new(None).resume_from(9);
    let (epochs, _) = drive(&mut run, 4, 2, None);
    assert_eq!(epochs, vec![5, 5]);
    assert_eq!(run.phase, RunPhase::Polling);
}

#[test]
fn the_committee_map_of_an_epoch_is_handed_to_the_next() {
    let mut run = PollingIndexer::new(Some(3));
    let (epochs, _) = drive(&mut run, 10, 2, None);
    assert_eq!(epochs, vec![0, 1]);
    // The backfill of epoch 2 has begun and holds the map of epoch 1.
    assert_eq!(run.pass.epoch, 2);
    assert_eq!(run.pass.previous.len(), 1);
    assert_eq!(run.pass.previous[0].slot, 32);
    assert_eq!(run.pass.previous[0].validators, vec![1]);
}

#[test]
fn polling_keeps_the_map_of_the_last_backfilled_epoch() {
    let mut run = PollingIndexer::new(None);
    let (epochs, _) = drive(&mut run, 1, 4, None);
    assert_eq!(epochs, vec![0, 1, 2, 2]);
    assert_eq!(run.pass.epoch, 2);
    assert_eq!(run.pass.previous.len(), 1);
    assert_eq!(run.pass.previous[0].validators, vec![1]);
}

#[test]
fn a_failure_in_an_epoch_ends_the_run() {
    let mut run = PollingIndexer::new(Some(5));
    let (epochs, end) = drive(&mut run, 10, 100, Some(2));
    assert_eq!(epochs, vec![0, 1, 2]);
    assert!(matches!(end, Action::Failed(IndexError::Network)));
    assert_eq!(run.phase, RunPhase::Failed);
    assert_eq!(run.pass.stage, Stage::Failed);
    assert!(matches!(run.run(Event::Begin), Action::Failed(IndexError::Protocol)));
}

#[test]
fn a_failure_to_read_the_checkpoints_ends_the_run() {
    let mut run = PollingIndexer::new(None);
    assert!(matches!(run.run(Event::Begin), Action::FetchCheckpoints));
    assert!(matches!(run.run(Event::Failed(IndexError::Network)), Action::Failed(IndexError::Network)));
    assert_eq!(run.phase, RunPhase::Failed);
}

#[test]
fn a_run_that_is_not_told_to_begin_refuses() {
    let mut run = PollingIndexer::new(None);
    assert!(matches!(run.run(Event::Done), Action::Failed(IndexError::Protocol)));
    let mut run = PollingIndexer::new(None);
    run.run(Event::Begin);
    assert!(matches!(run.run(Event::Count(1)), Action::Failed(IndexError::Protocol)));
}

#[test]
fn a_bound_beyond_the_slot_range_fails_when_it_is_reached() {
    let mut run = PollingIndexer::new(Some(u64::MAX)).resume_from(MAX_EPOCH);
    let (epochs, end) = drive(&mut run, 0, 100, None);
    assert_eq!(epochs, vec![MAX_EPOCH]);
    assert!(matches!(end, Action::Failed(IndexError::EpochOutOfRange)));
}

#[test]
fn an_unbounded_run_cannot_poll_past_the_last_epoch() {
    let mut run = PollingIndexer::new(None).resume_from(u64::MAX);
    let (epochs, end) = drive(&mut run, u64::MAX, 100, None);
    assert!(epochs.is_empty());
    assert!(matches!(end, Action::Failed(IndexError::EpochOutOfRange)));
}

#[test]
fn the_run_can_drive_the_backfill_of_the_epoch_at_hand_step_by_step() {
    let mut run = PollingIndexer::new(None);
    assert!(matches!(run.index_current_validators(Event::Begin), Action::FetchValidators));
    assert!(matches!(run.index_current_validators(Event::Validators(vec![])), Action::Finished));
    assert!(matches!(run.create_epoch(4, Event::Begin), Action::CountActiveValidators(4)));
    assert!(matches!(run.create_epoch(4, Event::Count(1)), Action::CountTotalValidators(4)));
    assert!(matches!(
        run.create_epoch(4, Event::Count(2)),
        Action::CreateEpoch { epoch: 4, active_validators: 1, total_validators: 2 }
    ));
    assert!(matches!(run.create_epoch(4, Event::Done), Action::Finished));
    assert!(matches!(
        run.index_committees_for_epoch(Event::Begin),
        Action::FetchCommittees { state_slot: 0, epoch_filter: Some(0), index_filter: None, slot_filter: None }
    ));
    assert!(matches!(run.index_committees_for_epoch(Event::Committees(vec![])), Action::Finished));
    assert!(matches!(run.run_for_epoch(Event::Begin), Action::FetchValidators));
    assert_eq!(run.phase, RunPhase::Idle);
}
