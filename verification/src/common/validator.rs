//! Validators as the beacon node reports them.

use crate::common::util::{decimal, decimal_string, str_eq};
use crate::error::IndexError;
use vstd::prelude::*;
use vstd::string::*;

verus! {

/// Names a validator in a query: by public key or by index.
#[derive(Debug)]
pub enum ValidatorId {
    Pubkey(String),
    Index(u64),
}

impl ValidatorId {
    /// The token that stands for this validator in a query.
    pub open spec fn token(self) -> Seq<char> {
        match self {
            ValidatorId::Pubkey(pubkey) => pubkey@,
            ValidatorId::Index(index) => decimal(index as nat),
        }
    }

    /// Formats the identifier as the beacon node expects it.
    pub fn to_string(&self) -> (s: String)
        ensures
            s@ == self.token(),
    {
        match self {
            ValidatorId::Pubkey(pubkey) => pubkey.clone(),
            ValidatorId::Index(index) => decimal_string(*index),
        }
    }
}

/// The registry entry of a validator.  An exit epoch of `u64::MAX` stands
/// for a validator that has not exited.
#[derive(Debug)]
pub struct Validator {
    pub pubkey: String,
    pub slashed: bool,
    pub activation_eligibility_epoch: u64,
    pub activation_epoch: u64,
    pub effective_balance: String,
    pub exit_epoch: u64,
    pub withdrawable_epoch: u64,
    pub withdrawal_credentials: String,
}

/// The life-cycle status of a validator, in the beacon node's vocabulary.
#[derive(Clone, Copy, Debug, PartialEq, Eq, Structural)]
pub enum ValidatorStatus {
    Active,
    Pending,
    Exited,
    PendingInitialized,
    PendingQueued,
    ActiveOngoing,
    ActiveExiting,
    ActiveSlashed,
    ExitedUnslashed,
    ExitedSlashed,
    WithdrawalPossible,
    WithdrawalDone,
}

impl ValidatorStatus {
    /// The name of the status on the wire.
    pub open spec fn name(self) -> Seq<char> {
        match self {
            ValidatorStatus::Active => "active"@,
            ValidatorStatus::Pending => "pending"@,
            ValidatorStatus::Exited => "exited"@,
            ValidatorStatus::PendingInitialized => "pending_initialized"@,
            ValidatorStatus::PendingQueued => "pending_queued"@,
            ValidatorStatus::ActiveOngoing => "active_ongoing"@,
            ValidatorStatus::ActiveExiting => "active_exiting"@,
            ValidatorStatus::ActiveSlashed => "active_slashed"@,
            ValidatorStatus::ExitedUnslashed => "exited_unslashed"@,
            ValidatorStatus::ExitedSlashed => "exited_slashed"@,
            ValidatorStatus::WithdrawalPossible => "withdrawal_possible"@,
            ValidatorStatus::WithdrawalDone => "withdrawal_done"@,
        }
    }

    /// Reads a status from its name on the wire.  Text that names no status
    /// is a `Format` error.
    pub fn from_str(s: &str) -> (res: Result<Self, IndexError>)
        ensures
            match res {
                Ok(status) => s@ == status.name(),
                Err(e) => e == IndexError::Format && forall|status: ValidatorStatus| s@ != #[trigger] status.name(),
            },
    {
        if str_eq(s, "active") {
            Ok(ValidatorStatus::Active)
        } else if str_eq(s, "pending") {
            Ok(ValidatorStatus::Pending)
        } else if str_eq(s, "exited") {
            Ok(ValidatorStatus::Exited)
        } else if str_eq(s, "pending_initialized") {
            Ok(ValidatorStatus::PendingInitialized)
        } else if str_eq(s, "pending_queued") {
            Ok(ValidatorStatus::PendingQueued)
        } else if str_eq(s, "active_ongoing") {
            Ok(ValidatorStatus::ActiveOngoing)
        } else if str_eq(s, "active_exiting") {
            Ok(ValidatorStatus::ActiveExiting)
        } else if str_eq(s, "active_slashed") {
            Ok(ValidatorStatus::ActiveSlashed)
        } else if str_eq(s, "exited_unslashed") {
            Ok(ValidatorStatus::ExitedUnslashed)
        } else if str_eq(s, "exited_slashed") {
            Ok(ValidatorStatus::ExitedSlashed)
        } else if str_eq(s, "withdrawal_possible") {
            Ok(ValidatorStatus::WithdrawalPossible)
        } else if str_eq(s, "withdrawal_done") {
            Ok(ValidatorStatus::WithdrawalDone)
        } else {
            Err(IndexError::Format)
        }
    }

    /// Formats the status as the beacon node names it.
    pub fn to_string(&self) -> (s: String)
        ensures
            s@ == self.name(),
    {
        match self {
            ValidatorStatus::Active => String::from_str("active"),
            ValidatorStatus::Pending => String::from_str("pending"),
            ValidatorStatus::Exited => String::from_str("exited"),
            ValidatorStatus::PendingInitialized => String::from_str("pending_initialized"),
            ValidatorStatus::PendingQueued => String::from_str("pending_queued"),
            ValidatorStatus::ActiveOngoing => String::from_str("active_ongoing"),
            ValidatorStatus::ActiveExiting => String::from_str("active_exiting"),
            ValidatorStatus::ActiveSlashed => String::from_str("active_slashed"),
            ValidatorStatus::ExitedUnslashed => String::from_str("exited_unslashed"),
            ValidatorStatus::ExitedSlashed => String::from_str("exited_slashed"),
            ValidatorStatus::WithdrawalPossible => String::from_str("withdrawal_possible"),
            ValidatorStatus::WithdrawalDone => String::from_str("withdrawal_done"),
        }
    }
}

impl std::str::FromStr for ValidatorStatus {
    type Err = IndexError;

    /// Reads a status from its name on the wire, as the method of the same
    /// name on the type does: the status whose name the text is, or a
    /// `Format` error where the text names no status.
    fn from_str(s: &str) -> (res: Result<Self, IndexError>)
        ensures
            match res {
                Ok(status) => s@ == status.name(),
                Err(e) => e == IndexError::Format && forall|status: ValidatorStatus| s@ != #[trigger] status.name(),
            },
    {
        ValidatorStatus::from_str(s)
    }
}

/// No two statuses share a name: the name of a status is read back as that
/// status and no other.
pub proof fn lemma_status_names_differ(a: ValidatorStatus, b: ValidatorStatus)
    ensures
        a.name() == b.name() <==> a == b,
{
    reveal_strlit("active");
    reveal_strlit("pending");
    reveal_strlit("exited");
    reveal_strlit("pending_initialized");
    reveal_strlit("pending_queued");
    reveal_strlit("active_ongoing");
    reveal_strlit("active_exiting");
    reveal_strlit("active_slashed");
    reveal_strlit("exited_unslashed");
    reveal_strlit("exited_slashed");
    reveal_strlit("withdrawal_possible");
    reveal_strlit("withdrawal_done");
    if a != b && a.name() == b.name() {
        assert(a.name().len() == b.name().len());
        assert(a.name()[0] == b.name()[0]);
        assert(a.name()[1] == b.name()[1]);
        assert(a.name()[7] == b.name()[7]);
        assert(a.name()[8] == b.name()[8]);
        assert(a.name()[9] == b.name()[9]);
    }
}

/// A validator with its index, balance and status at some state.
#[derive(Debug)]
pub struct ValidatorData {
    pub index: u64,
    pub balance: String,
    pub status: ValidatorStatus,
    pub validator: Validator,
}

} // verus!
