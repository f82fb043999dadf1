use vstd::prelude::*;
use crate::address::Address;
use crate::error::MultisigError;
use crate::payload::{Payload, PayloadView};
use crate::transaction::{Status, Transaction, TransactionView};

verus! {

/// What the execution gate asks of its host next.
#[derive(Clone, Copy, Debug, PartialEq, Eq)]
pub enum Directive {
    /// Dispatch the instruction at `index` of the payload, signed by
    /// `authority`, and come back with the outcome added to the log.
    Dispatch { index: usize, authority: Address },
    /// Every instruction went through; the transaction is now executed.
    Finished,
}

/// Whether this payload may be dispatched for this transaction at all:
/// the transaction is approved and was filed under `owner_stratum`, and the
/// payload is the sealed container that the transaction owns.
pub open spec fn cleared(t: TransactionView, p: PayloadView, owner_stratum: u8) -> bool {
    &&& t.status == Status::Approved
    &&& owner_stratum == t.owner_stratum
    &&& p.transaction() == t.id
    &&& p.sealed()
}

/// Whether position `k` of the log holds its first failure.
pub open spec fn fails_first_at(outcomes: Seq<bool>, k: int) -> bool {
    &&& 0 <= k < outcomes.len()
    &&& !outcomes[k]
    &&& forall|j: int| 0 <= j < k ==> outcomes[j]
}

/// Whether one of the first `n` dispatches failed.
pub open spec fn failed_within(outcomes: Seq<bool>, n: nat) -> bool {
    exists|k: int| k < n && fails_first_at(outcomes, k)
}

/// The position of the first failure in the log.
pub open spec fn first_failure(outcomes: Seq<bool>) -> int {
    choose|k: int| fails_first_at(outcomes, k)
}

/// What the execution gate decides. `outcomes` is the host's log of this
/// invocation so far: entry `i` says whether the dispatch of instruction `i`
/// succeeded.
///
/// Refused with `AlreadyExecuted` when the transaction was executed before,
/// else with `NotApproved` unless the payload is cleared for dispatch, else
/// with `ExecutionFailed(k)` when the dispatch of instruction `k` was the
/// first to fail. Otherwise, while instructions remain, the next one is to
/// be dispatched under the multisig's own authority and the transaction is
/// untouched; when none remains, the transaction becomes executed.
pub open spec fn gate_model(
    t: TransactionView,
    p: PayloadView,
    owner_stratum: u8,
    outcomes: Seq<bool>,
) -> Result<(TransactionView, Directive), MultisigError> {
    if t.status == Status::Executed {
        Err(MultisigError::AlreadyExecuted)
    } else if !cleared(t, p, owner_stratum) {
        Err(MultisigError::NotApproved)
    } else if failed_within(outcomes, p.len()) {
        Err(MultisigError::ExecutionFailed(first_failure(outcomes) as usize))
    } else if outcomes.len() >= p.len() {
        Ok((TransactionView { status: Status::Executed, ..t }, Directive::Finished))
    } else {
        Ok((t, Directive::Dispatch { index: outcomes.len() as usize, authority: t.id.multisig }))
    }
}

/// A log has at most one first failure.
pub proof fn lemma_first_failure_unique(outcomes: Seq<bool>, k: int)
    requires
        fails_first_at(outcomes, k),
    ensures
        first_failure(outcomes) == k,
{
    let c = first_failure(outcomes);
    assert(fails_first_at(outcomes, c));
    if c < k {
        assert(outcomes[c]);
    } else if k < c {
        assert(outcomes[k]);
    }
}

/// One step of the execution gate.
///
/// The host calls it with an empty log, dispatches what it is directed to
/// dispatch, appends the outcome to the log and calls again, until the
/// answer is `Finished` or a refusal. The transaction changes only in the
/// step that answers `Finished`; a failed dispatch leaves it approved, so
/// that the same payload can be tried again from the start.
pub fn execute_transaction(
    transaction: &mut Transaction,
    payload: &Payload,
    owner_stratum: u8,
    outcomes: &Vec<bool>,
) -> (r: Result<Directive, MultisigError>)
    ensures
        match gate_model(old(transaction)@, payload@, owner_stratum, outcomes@) {
            Ok((t, d)) => r == Ok::<Directive, MultisigError>(d) && final(transaction)@ == t,
            Err(e) => r == Err::<Directive, MultisigError>(e) && *final(transaction) == *old(
                transaction,
            ),
        },
        old(transaction)@.status != Status::Approved ==> r is Err && *final(transaction) == *old(
            transaction,
        ),
        old(transaction)@.wf() ==> final(transaction)@.wf(),
{
    match transaction.status {
        Status::Executed => {
            return Err(MultisigError::AlreadyExecuted);
        },
        Status::Approved => {},
        _ => {
            return Err(MultisigError::NotApproved);
        },
    }
    if owner_stratum != transaction.owner_stratum || !payload.transaction().same(&transaction.id)
        || !payload.is_sealed() {
        return Err(MultisigError::NotApproved);
    }
    let n: usize = payload.len();
    let reported: usize = outcomes.len();
    let mut k: usize = 0;
    while k < n && k < reported
        invariant
            k <= n,
            k <= reported,
            reported == outcomes.len(),
            n == payload@.len(),
            *transaction == *old(transaction),
            cleared(transaction@, payload@, owner_stratum),
            forall|j: int| 0 <= j < k ==> outcomes[j],
        decreases n - k,
    {
        if !outcomes[k] {
            proof {
                assert(fails_first_at(outcomes@, k as int));
                lemma_first_failure_unique(outcomes@, k as int);
            }
            return Err(MultisigError::ExecutionFailed(k));
        }
        k += 1;
    }
    assert(!failed_within(outcomes@, n as nat)) by {
        if failed_within(outcomes@, n as nat) {
            let w = choose|w: int| w < n && fails_first_at(outcomes@, w);
            assert(outcomes[w]);
        }
    }
    if reported >= n {
        transaction.status = Status::Executed;
        Ok(Directive::Finished)
    } else {
        Ok(Directive::Dispatch { index: reported, authority: transaction.id.multisig })
    }
}

} // verus!
