//! References to a beacon state.

use crate::common::util::{decimal, decimal_string};
use vstd::prelude::*;
use vstd::string::*;

verus! {

/// Names a beacon state: a well-known one, the state at a slot, or the
/// state with a given root.
#[derive(Debug)]
pub enum StateId {
    Head,
    Genesis,
    Finalized,
    Justified,
    Slot(u64),
    StateRoot(String),
}

impl StateId {
    /// The token that stands for this reference in a request path.
    pub open spec fn token(self) -> Seq<char> {
        match self {
            StateId::Head => "head"@,
            StateId::Genesis => "genesis"@,
            StateId::Finalized => "finalized"@,
            StateId::Justified => "justified"@,
            StateId::Slot(slot) => decimal(slot as nat),
            StateId::StateRoot(root) => root@,
        }
    }

    /// Formats the reference as the single token the beacon node expects.
    pub fn to_string(&self) -> (s: String)
        ensures
            s@ == self.token(),
    {
        match self {
            StateId::Head => String::from_str("head"),
            StateId::Genesis => String::from_str("genesis"),
            StateId::Finalized => String::from_str("finalized"),
            StateId::Justified => String::from_str("justified"),
            StateId::Slot(slot) => decimal_string(*slot),
            StateId::StateRoot(root) => root.clone(),
        }
    }
}

} // verus!
