//! Blocks and block headers as the beacon node reports them.

use crate::common::util::{decimal, decimal_string};
use vstd::prelude::*;
use vstd::string::*;

verus! {

/// Names a block: a well-known one, the block at a slot, or the block with a
/// given root.
#[derive(Debug)]
pub enum BlockId {
    Head,
    Genesis,
    Finalized,
    Justified,
    Slot(u64),
    BlockRoot(String),
}

impl BlockId {
    /// The token that stands for this reference in a request path.
    pub open spec fn token(self) -> Seq<char> {
        match self {
            BlockId::Head => "head"@,
            BlockId::Genesis => "genesis"@,
            BlockId::Finalized => "finalized"@,
            BlockId::Justified => "justified"@,
            BlockId::Slot(slot) => decimal(slot as nat),
            BlockId::BlockRoot(root) => root@,
        }
    }

    /// Formats the reference as the single token the beacon node expects.
    pub fn to_string(&self) -> (s: String)
        ensures
            s@ == self.token(),
    {
        match self {
            BlockId::Head => String::from_str("head"),
            BlockId::Genesis => String::from_str("genesis"),
            BlockId::Finalized => String::from_str("finalized"),
            BlockId::Justified => String::from_str("justified"),
            BlockId::Slot(slot) => decimal_string(*slot),
            BlockId::BlockRoot(root) => root.clone(),
        }
    }
}

/// A signed block header.
#[derive(Debug)]
pub struct BlockHeader {
    pub message: BlockHeaderMessage,
    pub signature: String,
}

/// The signed part of a block header.
#[derive(Debug)]
pub struct BlockHeaderMessage {
    pub slot: u64,
    /// The validator that proposed the block.
    pub proposer_index: u64,
    pub parent_root: String,
    pub state_root: String,
    pub body_root: String,
}

} // verus!
