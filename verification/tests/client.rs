use attestation_indexer::client::model::attestation::Attestation;
use attestation_indexer::client::model::block::BlockId;
use attestation_indexer::client::model::state::StateId;
use attestation_indexer::client::subscription::{event_data, Subscribable, SubscribeEvent, DATA_OFFSET};
use attestation_indexer::client::{
    classify, get_attestations_for_block, get_committees_for_state, get_finality_checkpoints, get_header_for_block,
    get_proposers_for_epoch, get_root_for_block, get_root_for_state, subscribe, validator_count,
    validators_for_state, Reply, Request,
};
use attestation_indexer::common::validator::{ValidatorId, ValidatorStatus};
use attestation_indexer::error::IndexError;

fn query(request: &Request) -> Vec<(&str, &str)> {
    request.query.iter().map(|(name, value)| (name.as_str(), value.as_str())).collect()
}

#[test]
fn block_requests_name_the_block_in_the_path() {
    let r = get_header_for_block(&BlockId::Slot(123));
    assert_eq!(r.path, "eth/v1/beacon/headers/123");
    assert!(r.query.is_empty());
    let r = get_header_for_block(&BlockId::Head);
    assert_eq!(r.path, "eth/v1/beacon/headers/head");
    let r = get_root_for_block(&BlockId::Genesis);
    assert_eq!(r.path, "eth/v1/beacon/blocks/genesis/root");
    assert!(r.query.is_empty());
    let r = get_attestations_for_block(&BlockId::BlockRoot("0xabc".to_string()));
    assert_eq!(r.path, "eth/v1/beacon/blocks/0xabc/attestations");
    assert!(r.query.is_empty());
}

#[test]
fn state_requests_name_the_state_in_the_path() {
    let r = get_root_for_state(&StateId::Finalized);
    assert_eq!(r.path, "eth/v1/beacon/states/finalized/root");
    assert!(r.query.is_empty());
    let r = get_finality_checkpoints(&StateId::Head);
    assert_eq!(r.path, "eth/v1/beacon/states/head/finality_checkpoints");
    assert!(r.query.is_empty());
    let r = get_finality_checkpoints(&StateId::Slot(0));
    assert_eq!(r.path, "eth/v1/beacon/states/0/finality_checkpoints");
}

#[test]
fn committee_request_carries_the_filters_that_are_given() {
    let r = get_committees_for_state(&StateId::Slot(64), Some(2), None, None);
    assert_eq!(r.path, "eth/v1/beacon/states/64/committees");
    assert_eq!(query(&r), vec![("epoch", "2")]);
    let r = get_committees_for_state(&StateId::Slot(70), None, Some(3), Some(70));
    assert_eq!(query(&r), vec![("index", "3"), ("slot", "70")]);
    let r = get_committees_for_state(&StateId::Justified, Some(1), Some(255), Some(u64::MAX));
    assert_eq!(r.path, "eth/v1/beacon/states/justified/committees");
    assert_eq!(query(&r), vec![("epoch", "1"), ("index", "255"), ("slot", "18446744073709551615")]);
    let r = get_committees_for_state(&StateId::Head, None, None, None);
    assert!(r.query.is_empty());
}

#[test]
fn validator_request_joins_the_identifiers_with_commas() {
    let ids = vec![ValidatorId::Index(4), ValidatorId::Pubkey("0xkey".to_string()), ValidatorId::Index(10)];
    let r = validators_for_state(&StateId::Head, &ids, Some(ValidatorStatus::ActiveOngoing));
    assert_eq!(r.path, "eth/v1/beacon/states/head/validators");
    assert_eq!(query(&r), vec![("status", "active_ongoing"), ("id", "4,0xkey,10")]);
    let r = validators_for_state(&StateId::Head, &vec![ValidatorId::Index(4)], None);
    assert_eq!(query(&r), vec![("id", "4")]);
    let r = validators_for_state(&StateId::Head, &vec![], None);
    assert!(r.query.is_empty());
}

#[test]
fn validator_count_request_asks_for_all_validators_of_the_status() {
    let r = validator_count(&StateId::Slot(5), Some(ValidatorStatus::Active));
    assert_eq!(r.path, "eth/v1/beacon/states/5/validators");
    assert_eq!(query(&r), vec![("status", "active")]);
    let r = validator_count(&StateId::Slot(5), None);
    assert!(r.query.is_empty());
}

#[test]
fn proposer_request_names_the_epoch() {
    let r = get_proposers_for_epoch(17);
    assert_eq!(r.path, "eth/v1/validator/duties/proposer/17");
    assert!(r.query.is_empty());
}

#[test]
fn subscription_request_names_the_topic() {
    let r = subscribe(Attestation::subscribe_event());
    assert_eq!(r.path, "eth/v1/events");
    assert_eq!(query(&r), vec![("topics", "attestation")]);
    assert_eq!(Attestation::subscribe_event(), SubscribeEvent::Attestation);
    let r = subscribe(SubscribeEvent::ChainReorg);
    assert_eq!(query(&r), vec![("topics", "chain_reorg")]);
}

#[test]
fn status_404_means_absent_and_every_other_status_but_2xx_means_failure() {
    assert_eq!(classify(200), Reply::Found);
    assert_eq!(classify(204), Reply::Found);
    assert_eq!(classify(299), Reply::Found);
    assert_eq!(classify(404), Reply::Absent);
    assert_eq!(classify(0), Reply::Failed);
    assert_eq!(classify(100), Reply::Failed);
    assert_eq!(classify(199), Reply::Failed);
    assert_eq!(classify(300), Reply::Failed);
    assert_eq!(classify(304), Reply::Failed);
    assert_eq!(classify(399), Reply::Failed);
    assert_eq!(classify(400), Reply::Failed);
    assert_eq!(classify(403), Reply::Failed);
    assert_eq!(classify(405), Reply::Failed);
    assert_eq!(classify(500), Reply::Failed);
    assert_eq!(classify(599), Reply::Failed);
    assert_eq!(classify(600), Reply::Failed);
    assert_eq!(classify(u16::MAX), Reply::Failed);
}

#[test]
fn event_data_is_the_second_line_after_its_field_name() {
    let frame = b"event: attestation\ndata: {\"a\":1}\n\n";
    assert_eq!(event_data(frame), Ok(&b"{\"a\":1}"[..]));
    let frame = b"event: attestation\r\ndata: {\"a\":1}\r\n\r\n";
    assert_eq!(event_data(frame), Ok(&b"{\"a\":1}"[..]));
    let frame = b"event: attestation\ndata: {}";
    assert_eq!(event_data(frame), Ok(&b"{}"[..]));
    assert_eq!(DATA_OFFSET, 6);
}

#[test]
fn event_data_may_be_empty() {
    assert_eq!(event_data(b"event: x\ndata: \n"), Ok(&b""[..]));
    assert_eq!(event_data(b"\n123456"), Ok(&b""[..]));
}

#[test]
fn frame_without_a_data_line_is_a_format_error() {
    assert_eq!(event_data(b""), Err(IndexError::Format));
    assert_eq!(event_data(b"event: attestation"), Err(IndexError::Format));
    assert_eq!(event_data(b"event: attestation\n"), Err(IndexError::Format));
    assert_eq!(event_data(b"event: attestation\ndata:"), Err(IndexError::Format));
    assert_eq!(event_data(b"event: attestation\n\ndata: {}"), Err(IndexError::Format));
    assert_eq!(event_data(b"event: attestation\ndata:\r\n"), Err(IndexError::Format));
}

#[test]
fn a_carriage_return_is_dropped_only_before_a_line_feed() {
    assert_eq!(event_data(b"e\ndata: x\r"), Ok(&b"x\r"[..]));
    assert_eq!(event_data(b"e\ndata: x\r\n"), Ok(&b"x"[..]));
    assert_eq!(event_data(b"e\ndata: \rx\n"), Ok(&b"\rx"[..]));
}
