//! The failures the engine can report.

use vstd::prelude::*;
use vstd::string::*;

verus! {

/// Why an operation of the engine failed.
#[derive(Clone, Copy, Debug, PartialEq, Eq, Structural)]
pub enum IndexError {
    /// The beacon node could not be reached or answered with a failure
    /// other than "not found".
    Network,
    /// The beacon node has no such slot or block, or the store has no such
    /// record.
    NotFound,
    /// The store failed to read or to persist.
    Store,
    /// An aggregation bitfield is not a well-formed hex string, or some
    /// other text is not in its format.
    Format,
    /// A committee that must exist is missing, or is longer than the
    /// bitfield it is matched against.
    Consistency,
    /// A rate was asked for against a zero denominator.
    Division,
    /// An epoch whose slots do not fit the slot number range.
    EpochOutOfRange,
    /// An engine was handed an outcome that does not answer the request it
    /// made.
    Protocol,
}

impl IndexError {
    /// What the error says.
    pub open spec fn text(self) -> Seq<char> {
        match self {
            IndexError::Network => "the beacon node could not be reached or refused the request"@,
            IndexError::NotFound => "not found"@,
            IndexError::Store => "the store failed"@,
            IndexError::Format => "malformed text"@,
            IndexError::Consistency => "committee not found or longer than its bitfield"@,
            IndexError::Division => "division by zero"@,
            IndexError::EpochOutOfRange => "epoch out of range"@,
            IndexError::Protocol => "unexpected outcome"@,
        }
    }

    /// Describes the error in words.
    pub fn to_string(&self) -> (s: String)
        ensures
            s@ == self.text(),
    {
        match self {
            IndexError::Network => String::from_str("the beacon node could not be reached or refused the request"),
            IndexError::NotFound => String::from_str("not found"),
            IndexError::Store => String::from_str("the store failed"),
            IndexError::Format => String::from_str("malformed text"),
            IndexError::Consistency => String::from_str("committee not found or longer than its bitfield"),
            IndexError::Division => String::from_str("division by zero"),
            IndexError::EpochOutOfRange => String::from_str("epoch out of range"),
            IndexError::Protocol => String::from_str("unexpected outcome"),
        }
    }
}

} // verus!
