use vstd::prelude::*;

verus! {

/// Why an operation was refused. Every refusal leaves all records exactly as
/// they were before the call.
#[derive(Clone, Copy, Debug, PartialEq, Eq, Structural)]
pub enum MultisigError {
    /// The strata offered do not form a valid membership model.
    InvalidStrata,
    /// The edit would break the membership model.
    InvalidMembershipChange,
    /// The backing record cannot be grown to the size the edit needs.
    StorageResizeFailed,
    /// The container holds no instruction.
    EmptyPayload,
    /// The index names no instruction of the container.
    IndexOutOfRange,
    /// No stratum has that rank.
    UnknownStratum,
    /// The caller is not a member of the stratum in question.
    NotStratumMember,
    /// The caller did not create the transaction.
    NotProposer,
    /// The caller lacks the privilege the operation asks for.
    Unauthorized,
    /// The transaction's payload has already been sealed.
    TransactionAlreadySealed,
    /// The container is sealed and can no longer change.
    ContainerSealed,
    /// The container was sealed before.
    AlreadyFinalized,
    /// The transaction is not open for voting.
    NotOpenForVoting,
    /// The transaction has not been approved.
    NotApproved,
    /// The transaction was executed before.
    AlreadyExecuted,
    /// Dispatching the instruction at this position failed.
    ExecutionFailed(usize),
}

/// The four families of refusal.
#[derive(Clone, Copy, Debug, PartialEq, Eq, Structural)]
pub enum ErrorKind {
    /// Malformed input.
    Validation,
    /// The caller lacks the required role.
    Authorization,
    /// The record is in the wrong state of its lifecycle.
    State,
    /// An embedded instruction failed while being dispatched.
    Execution,
}

impl MultisigError {
    /// The family each refusal belongs to.
    pub open spec fn spec_kind(self) -> ErrorKind {
        match self {
            MultisigError::InvalidStrata
            | MultisigError::InvalidMembershipChange
            | MultisigError::StorageResizeFailed
            | MultisigError::EmptyPayload
            | MultisigError::IndexOutOfRange
            | MultisigError::UnknownStratum => ErrorKind::Validation,
            MultisigError::NotStratumMember
            | MultisigError::NotProposer
            | MultisigError::Unauthorized => ErrorKind::Authorization,
            MultisigError::TransactionAlreadySealed
            | MultisigError::ContainerSealed
            | MultisigError::AlreadyFinalized
            | MultisigError::NotOpenForVoting
            | MultisigError::NotApproved
            | MultisigError::AlreadyExecuted => ErrorKind::State,
            MultisigError::ExecutionFailed(_) => ErrorKind::Execution,
        }
    }

    /// The family this refusal belongs to.
    pub fn kind(&self) -> (r: ErrorKind)
        ensures
            r == self.spec_kind(),
    {
        match self {
            MultisigError::InvalidStrata => ErrorKind::Validation,
            MultisigError::InvalidMembershipChange => ErrorKind::Validation,
            MultisigError::StorageResizeFailed => ErrorKind::Validation,
            MultisigError::EmptyPayload => ErrorKind::Validation,
            MultisigError::IndexOutOfRange => ErrorKind::Validation,
            MultisigError::UnknownStratum => ErrorKind::Validation,
            MultisigError::NotStratumMember => ErrorKind::Authorization,
            MultisigError::NotProposer => ErrorKind::Authorization,
            MultisigError::Unauthorized => ErrorKind::Authorization,
            MultisigError::TransactionAlreadySealed => ErrorKind::State,
            MultisigError::ContainerSealed => ErrorKind::State,
            MultisigError::AlreadyFinalized => ErrorKind::State,
            MultisigError::NotOpenForVoting => ErrorKind::State,
            MultisigError::NotApproved => ErrorKind::State,
            MultisigError::AlreadyExecuted => ErrorKind::State,
            MultisigError::ExecutionFailed(_) => ErrorKind::Execution,
        }
    }
}

} // verus!
