//! A multi-party authorization engine: signers, grouped in ranked strata,
//! jointly approve a transaction and have its instructions dispatched
//! exactly once.
//!
//! The library holds the rules and nothing else. A host keeps the records,
//! hands them in as plain values, dispatches what the execution gate
//! directs, and stores what comes back. Each operation states what it
//! returns and what it changes over the mathematical view of its records;
//! the laws that relate the operations stand in the `*_laws` modules.

pub mod address;
pub mod error;
pub mod execution;
pub mod execution_laws;
pub mod lifecycle_laws;
pub mod membership;
pub mod milestone;
pub mod multisig;
pub mod payload;
pub mod transaction;
pub mod voting_laws;

pub use address::Address;
pub use error::{ErrorKind, MultisigError};
pub use multisig::{create_multisig, Multisig, Stratum};
pub use transaction::{
    accept_transaction, create_transaction, vote_transaction, Status, Transaction, TransactionId,
    Vote, VoteRecord,
};
pub use payload::{
    add_tx_data, create_tx_data, create_versioned_tx_data, finalize_tx_data, AccountKey,
    InstructionAccount, InstructionData, Payload, TxData, VersionedAccount,
    VersionedInstructionData, VersionedTxData,
};
pub use execution::{execute_transaction, Directive};
pub use membership::{
    change_multisig, change_multisig_realloc, ChangeReallocType, ChangeType, Reallocation,
};
pub use milestone::{is_spend_authorized, Milestone};
