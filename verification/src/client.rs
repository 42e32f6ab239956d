//! The beacon node as the engine sees it: the values it returns, the
//! requests that are made of it, and what its answers mean.
//!
//! Nothing here talks to the node.  A request is built here, sent by the
//! driver, and the status of the answer is judged here.

pub mod model;
pub mod subscription;

use crate::client::model::block::BlockId;
use crate::client::subscription::SubscribeEvent;
use crate::common::state::StateId;
use crate::common::util::{decimal, decimal_string};
use crate::common::validator::{ValidatorId, ValidatorStatus};
use vstd::prelude::*;
use vstd::string::*;

verus! {

/// A request of the beacon node: a path below the node's base URL, and the
/// query parameters in the order in which they are appended.
#[derive(Debug)]
pub struct Request {
    pub path: String,
    pub query: Vec<(String, String)>,
}

/// What a request asks for.
pub struct RequestView {
    pub path: Seq<char>,
    pub query: Seq<(Seq<char>, Seq<char>)>,
}

impl View for Request {
    type V = RequestView;

    open spec fn view(&self) -> RequestView {
        RequestView { path: self.path@, query: self.query@.map_values(|pair: (String, String)| (pair.0@, pair.1@)) }
    }
}

/// What the status of an answer means.
#[derive(Clone, Copy, Debug, PartialEq, Eq, Structural)]
pub enum Reply {
    /// The node answered the request: the body holds what was asked for.
    Found,
    /// The node has no such block, slot or state.
    Absent,
    /// The node refused or failed, or answered with anything else that is
    /// not success.
    Failed,
}

/// What an HTTP status means: 404 is "not found", a status from 200 to 299
/// is success, and every other status is a failure.
pub open spec fn reply_of(status: u16) -> Reply {
    if status == 404 {
        Reply::Absent
    } else if 200 <= status <= 299 {
        Reply::Found
    } else {
        Reply::Failed
    }
}

/// Judges the HTTP status of an answer.
pub fn classify(status: u16) -> (reply: Reply)
    ensures
        reply == reply_of(status),
{
    if status == 404 {
        Reply::Absent
    } else if 200 <= status && status <= 299 {
        Reply::Found
    } else {
        Reply::Failed
    }
}

/// The identifiers of a validator query in one text: the tokens in order,
/// with a comma between two.
pub open spec fn joined(ids: Seq<ValidatorId>) -> Seq<char>
    decreases ids.len(),
{
    if ids.len() == 0 {
        Seq::empty()
    } else if ids.len() == 1 {
        ids[0].token()
    } else {
        joined(ids.drop_last()) + ","@ + ids.last().token()
    }
}

fn join_ids(ids: &Vec<ValidatorId>) -> (text: String)
    ensures
        text@ == joined(ids@),
{
    let mut text = String::new();
    let mut i: usize = 0;
    while i < ids.len()
        invariant
            i <= ids.len(),
            text@ == joined(ids@.take(i as int)),
        decreases ids.len() - i,
    {
        if i > 0 {
            text.append(",");
        }
        let token = ids[i].to_string();
        text.append(token.as_str());
        assert(ids@.take(i + 1).drop_last() == ids@.take(i as int));
        assert(ids@.take(i + 1).last() == ids@[i as int]);
        assert(text@ == joined(ids@.take(i + 1))) by {
            if i == 0 {
                assert(joined(ids@.take(0)) == Seq::<char>::empty());
                assert(Seq::<char>::empty() + ids@[0].token() == ids@[0].token());
            }
        }
        i = i + 1;
    }
    assert(ids@.take(ids.len() as int) == ids@);
    text
}

fn path_of(before: &str, token: &String, after: &str) -> (path: String)
    ensures
        path@ == before@ + token@ + after@,
{
    let mut path = String::from_str(before);
    path.append(token.as_str());
    path.append(after);
    path
}

fn plain(path: String) -> (request: Request)
    ensures
        request@ == (RequestView { path: path@, query: Seq::empty() }),
{
    let request = Request { path, query: Vec::new() };
    assert(request@.query =~= Seq::empty());
    request
}

fn pair(name: &str, value: String) -> (pair: (String, String))
    ensures
        pair.0@ == name@,
        pair.1@ == value@,
{
    (String::from_str(name), value)
}

/// The request for the header of a block.
pub fn get_header_for_block(block_id: &BlockId) -> (request: Request)
    ensures
        request@ == (RequestView { path: "eth/v1/beacon/headers/"@ + block_id.token(), query: Seq::empty() }),
{
    let token = block_id.to_string();
    let request = plain(path_of("eth/v1/beacon/headers/", &token, ""));
    proof {
        reveal_strlit("");
        assert("eth/v1/beacon/headers/"@ + token@ + ""@ =~= "eth/v1/beacon/headers/"@ + token@);
    }
    request
}

/// The request for the root of a block.
pub fn get_root_for_block(block_id: &BlockId) -> (request: Request)
    ensures
        request@ == (RequestView {
            path: "eth/v1/beacon/blocks/"@ + block_id.token() + "/root"@,
            query: Seq::empty(),
        }),
{
    let token = block_id.to_string();
    plain(path_of("eth/v1/beacon/blocks/", &token, "/root"))
}

/// The request for the attestations in a block.
pub fn get_attestations_for_block(block_id: &BlockId) -> (request: Request)
    ensures
        request@ == (RequestView {
            path: "eth/v1/beacon/blocks/"@ + block_id.token() + "/attestations"@,
            query: Seq::empty(),
        }),
{
    let token = block_id.to_string();
    plain(path_of("eth/v1/beacon/blocks/", &token, "/attestations"))
}

/// The request for the root of a state.
pub fn get_root_for_state(state_id: &StateId) -> (request: Request)
    ensures
        request@ == (RequestView {
            path: "eth/v1/beacon/states/"@ + state_id.token() + "/root"@,
            query: Seq::empty(),
        }),
{
    let token = state_id.to_string();
    plain(path_of("eth/v1/beacon/states/", &token, "/root"))
}

/// The filters of a committee query: `epoch`, `index` and `slot`, in this
/// order, each where it is given, each in decimal.
pub open spec fn committee_filters(epoch: Option<u64>, index: Option<u8>, slot: Option<u64>) -> Seq<
    (Seq<char>, Seq<char>),
> {
    (match epoch {
        Some(epoch) => seq![("epoch"@, decimal(epoch as nat))],
        None => Seq::empty(),
    }) + (match index {
        Some(index) => seq![("index"@, decimal(index as nat))],
        None => Seq::empty(),
    }) + (match slot {
        Some(slot) => seq![("slot"@, decimal(slot as nat))],
        None => Seq::empty(),
    })
}

/// The request for the committees of a state, narrowed by the filters that
/// are given.
pub fn get_committees_for_state(state_id: &StateId, epoch: Option<u64>, index: Option<u8>, slot: Option<u64>) -> (request: Request)
    ensures
        request@ == (RequestView {
            path: "eth/v1/beacon/states/"@ + state_id.token() + "/committees"@,
            query: committee_filters(epoch, index, slot),
        }),
{
    let token = state_id.to_string();
    let path = path_of("eth/v1/beacon/states/", &token, "/committees");
    let mut query: Vec<(String, String)> = Vec::new();
    if let Some(epoch) = epoch {
        query.push(pair("epoch", decimal_string(epoch)));
    }
    if let Some(index) = index {
        query.push(pair("index", decimal_string(index as u64)));
    }
    if let Some(slot) = slot {
        query.push(pair("slot", decimal_string(slot)));
    }
    let request = Request { path, query };
    assert(request@.query =~= committee_filters(epoch, index, slot));
    request
}

/// The filters of a validator query: `status` where one is given, then `id`
/// with the identifiers joined by commas where there are any.
pub open spec fn validator_filters(ids: Seq<ValidatorId>, status: Option<ValidatorStatus>) -> Seq<
    (Seq<char>, Seq<char>),
> {
    (match status {
        Some(status) => seq![("status"@, status.name())],
        None => Seq::empty(),
    }) + (if ids.len() > 0 {
        seq![("id"@, joined(ids))]
    } else {
        Seq::empty()
    })
}

/// The request for the validators of a state, narrowed to the given
/// identifiers where there are any, and to a status where one is given.
pub fn validators_for_state(state_id: &StateId, id: &Vec<ValidatorId>, status: Option<ValidatorStatus>) -> (request: Request)
    ensures
        request@ == (RequestView {
            path: "eth/v1/beacon/states/"@ + state_id.token() + "/validators"@,
            query: validator_filters(id@, status),
        }),
{
    let token = state_id.to_string();
    let path = path_of("eth/v1/beacon/states/", &token, "/validators");
    let mut query: Vec<(String, String)> = Vec::new();
    if let Some(status) = status {
        query.push(pair("status", status.to_string()));
    }
    if id.len() > 0 {
        query.push(pair("id", join_ids(id)));
    }
    let request = Request { path, query };
    assert(request@.query =~= validator_filters(id@, status));
    request
}

/// The request whose answer is counted to get the number of validators of a
/// state, of a status where one is given.
pub fn validator_count(state_id: &StateId, validator_status: Option<ValidatorStatus>) -> (request: Request)
    ensures
        request@ == (RequestView {
            path: "eth/v1/beacon/states/"@ + state_id.token() + "/validators"@,
            query: validator_filters(Seq::empty(), validator_status),
        }),
{
    let none: Vec<ValidatorId> = Vec::new();
    validators_for_state(state_id, &none, validator_status)
}

/// The request for the finality checkpoints of a state.
pub fn get_finality_checkpoints(state_id: &StateId) -> (request: Request)
    ensures
        request@ == (RequestView {
            path: "eth/v1/beacon/states/"@ + state_id.token() + "/finality_checkpoints"@,
            query: Seq::empty(),
        }),
{
    let token = state_id.to_string();
    plain(path_of("eth/v1/beacon/states/", &token, "/finality_checkpoints"))
}

/// The request for the proposer duties of an epoch.
pub fn get_proposers_for_epoch(epoch: u64) -> (request: Request)
    ensures
        request@ == (RequestView {
            path: "eth/v1/validator/duties/proposer/"@ + decimal(epoch as nat),
            query: Seq::empty(),
        }),
{
    let token = decimal_string(epoch);
    let request = plain(path_of("eth/v1/validator/duties/proposer/", &token, ""));
    proof {
        reveal_strlit("");
        assert("eth/v1/validator/duties/proposer/"@ + token@ + ""@ =~= "eth/v1/validator/duties/proposer/"@
            + token@);
    }
    request
}

/// The request that opens the event stream for one topic.
pub fn subscribe(event: SubscribeEvent) -> (request: Request)
    ensures
        request@ == (RequestView { path: "eth/v1/events"@, query: seq![("topics"@, event.topic())] }),
{
    let mut query: Vec<(String, String)> = Vec::new();
    query.push(pair("topics", event.to_string()));
    let request = Request { path: String::from_str("eth/v1/events"), query };
    assert(request@.query =~= seq![("topics"@, event.topic())]);
    request
}

} // verus!
