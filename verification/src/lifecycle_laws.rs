use vstd::prelude::*;
use crate::address::Address;
use crate::error::MultisigError;
use crate::execution::{gate_model, Directive};
use crate::membership::{change_model, realloc_model, ChangeReallocView, ChangeType, Reallocation};
use crate::multisig::MultisigView;
use crate::payload::{add_model, finalize_model, InstructionAccount, PayloadView};
use crate::transaction::{accept_model, create_model, vote_model, Status, TransactionView};

verus! {

/// The steps that the status of a transaction can take: a draft is opened,
/// an open transaction is approved or rejected, an approved one is
/// executed.
pub open spec fn may_follow(from: Status, to: Status) -> bool {
    match (from, to) {
        (Status::Draft, Status::Open) => true,
        (Status::Open, Status::Approved) => true,
        (Status::Open, Status::Rejected) => true,
        (Status::Approved, Status::Executed) => true,
        _ => false,
    }
}

/// The states that no operation leads out of.
pub open spec fn is_terminal(s: Status) -> bool {
    s == Status::Rejected || s == Status::Executed || s == Status::Cancelled
}

/// Whatever an operation does to a transaction, its status stays or takes
/// one step of the lifecycle; sealing and single-handed approval always
/// take one.
pub proof fn operations_follow_the_lifecycle(
    t: TransactionView,
    p: PayloadView,
    caller: Address,
    owner_stratum: u8,
    is_accept: bool,
    outcomes: Seq<bool>,
)
    ensures
        vote_model(t, caller, owner_stratum, is_accept) matches Ok(n) ==> n.status == t.status
            || may_follow(t.status, n.status),
        accept_model(t, caller, owner_stratum) matches Ok(n) ==> may_follow(t.status, n.status),
        finalize_model(p, t, caller) matches Ok((q, n)) ==> may_follow(t.status, n.status),
        gate_model(t, p, owner_stratum, outcomes) matches Ok((n, d)) ==> n.status == t.status
            || may_follow(t.status, n.status),
{
}

/// A transaction that was rejected, executed or cancelled is refused by
/// every operation that could change it.
pub proof fn terminal_states_are_final(
    t: TransactionView,
    p: PayloadView,
    caller: Address,
    owner_stratum: u8,
    is_accept: bool,
    outcomes: Seq<bool>,
)
    requires
        is_terminal(t.status),
    ensures
        vote_model(t, caller, owner_stratum, is_accept) is Err,
        accept_model(t, caller, owner_stratum) is Err,
        finalize_model(p, t, caller) is Err,
        gate_model(t, p, owner_stratum, outcomes) is Err,
{
}

/// A sealed container is frozen: it refuses every addition and every
/// further sealing, whoever asks and whatever else is given.
pub proof fn sealed_container_is_frozen(
    p: PayloadView,
    t: TransactionView,
    caller: Address,
    keys: Seq<InstructionAccount>,
    instruction_index: u8,
)
    requires
        p.sealed(),
    ensures
        add_model(p, t, caller, keys, instruction_index) == Err::<PayloadView, MultisigError>(
            MultisigError::ContainerSealed,
        ),
        finalize_model(p, t, caller) == Err::<(PayloadView, TransactionView), MultisigError>(
            MultisigError::AlreadyFinalized,
        ),
{
}

/// Votes are cast on a frozen target: sealing is the only way for a draft
/// to become open, and it leaves the container sealed with the instructions
/// it held.
pub proof fn sealing_freezes_what_is_voted_on(p: PayloadView, t: TransactionView, caller: Address)
    requires
        finalize_model(p, t, caller) is Ok,
    ensures
        ({
            let (q, n) = finalize_model(p, t, caller)->Ok_0;
            &&& t.status == Status::Draft
            &&& n.status == Status::Open
            &&& q.sealed()
            &&& q.len() == p.len()
            &&& q.len() > 0
            &&& q.transaction() == n.id
            &&& q == p.seal()
        }),
{
}

/// The membership of a multisig changes only through its own approval: the
/// authority under which the execution gate has the instructions of a
/// transaction dispatched is the address of the multisig it was filed
/// under, and that address is the only authority whose edits a multisig
/// does not refuse as unauthorized.
pub proof fn edits_take_the_authority_of_an_approved_dispatch(
    t: TransactionView,
    p: PayloadView,
    owner_stratum: u8,
    outcomes: Seq<bool>,
    m: MultisigView,
    authority: Address,
    change: ChangeType,
    grow: ChangeReallocView,
    rank: u8,
    allocated: usize,
    limit: usize,
)
    ensures
        gate_model(t, p, owner_stratum, outcomes) matches Ok((n, Directive::Dispatch { index, authority: a }))
            ==> a == t.id.multisig && t.status == Status::Approved,
        authority != m.address ==> change_model(m, authority, change, rank) == Err::<
            MultisigView,
            MultisigError,
        >(MultisigError::Unauthorized),
        authority != m.address ==> realloc_model(m, authority, grow, allocated, limit) == Err::<
            (MultisigView, Reallocation),
            MultisigError,
        >(MultisigError::Unauthorized),
        authority == m.address ==> change_model(m, authority, change, rank) != Err::<
            MultisigView,
            MultisigError,
        >(MultisigError::Unauthorized),
{
}

/// At most one container is ever sealed for a transaction: once a sealing
/// has succeeded, every further sealing for that transaction is refused,
/// whichever container is offered and whoever asks.
pub proof fn one_sealed_container_per_transaction(
    p: PayloadView,
    t: TransactionView,
    caller: Address,
    other: PayloadView,
    other_caller: Address,
)
    requires
        finalize_model(p, t, caller) is Ok,
    ensures
        finalize_model(other, finalize_model(p, t, caller)->Ok_0.1, other_caller) is Err,
        finalize_model(finalize_model(p, t, caller)->Ok_0.0, t, other_caller) is Err,
{
}

/// A multisig never hands out the same transaction identifier twice: each
/// transaction takes the sequence number at which it was created and moves
/// the sequence past it, so a transaction created in any later state of
/// the multisig gets another identifier.
pub proof fn later_transactions_get_new_identifiers(
    earlier: MultisigView,
    caller: Address,
    owner_stratum: u8,
    description: Seq<char>,
    later: MultisigView,
    later_caller: Address,
    later_stratum: u8,
    later_description: Seq<char>,
)
    requires
        create_model(earlier, caller, owner_stratum, description) is Ok,
        create_model(later, later_caller, later_stratum, later_description) is Ok,
        later.address == earlier.address ==> later.sequence > earlier.sequence,
    ensures
        create_model(earlier, caller, owner_stratum, description)->Ok_0.id != create_model(
            later,
            later_caller,
            later_stratum,
            later_description,
        )->Ok_0.id,
        create_model(earlier, caller, owner_stratum, description)->Ok_0.id.index
            == earlier.sequence,
{
}

} // verus!
