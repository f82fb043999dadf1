use vstd::prelude::*;
use crate::error::MultisigError;
use crate::execution::{
    cleared, failed_within, fails_first_at, gate_model, lemma_first_failure_unique, Directive,
};
use crate::payload::PayloadView;
use crate::transaction::{Status, TransactionView};

verus! {

/// What one whole invocation of the execution gate comes to: the
/// transaction as it is left, the positions of the instructions that were
/// dispatched, in the order of their dispatch, and the answer to the caller.
pub struct Invocation {
    pub transaction: TransactionView,
    pub dispatched: Seq<int>,
    pub result: Result<(), MultisigError>,
}

/// The log that the host holds once it has dispatched the instructions at
/// the positions `dispatched`, where `answers(i)` says whether the dispatch
/// of the instruction at position `i` succeeds.
pub open spec fn log_of(dispatched: Seq<int>, answers: spec_fn(int) -> bool) -> Seq<bool> {
    dispatched.map_values(|i: int| answers(i))
}

/// The rest of an invocation in which the host has already dispatched the
/// instructions at `dispatched`: it asks for the next step, dispatches what
/// it is directed to dispatch and asks again, until the answer is `Finished`
/// or a refusal. No dispatch is ever directed once the log is as long as
/// the payload, so the last case below does not arise; it is there to bound
/// the recursion.
pub open spec fn invoke_from(
    t: TransactionView,
    p: PayloadView,
    owner_stratum: u8,
    answers: spec_fn(int) -> bool,
    dispatched: Seq<int>,
) -> Invocation
    decreases p.len() - dispatched.len(),
{
    match gate_model(t, p, owner_stratum, log_of(dispatched, answers)) {
        Err(e) => Invocation { transaction: t, dispatched, result: Err(e) },
        Ok((next, Directive::Finished)) => Invocation {
            transaction: next,
            dispatched,
            result: Ok(()),
        },
        Ok((next, Directive::Dispatch { index, authority })) => if dispatched.len() < p.len() {
            invoke_from(next, p, owner_stratum, answers, dispatched.push(index as int))
        } else {
            Invocation { transaction: next, dispatched, result: Ok(()) }
        },
    }
}

/// One whole invocation, from an empty log.
pub open spec fn invoke(
    t: TransactionView,
    p: PayloadView,
    owner_stratum: u8,
    answers: spec_fn(int) -> bool,
) -> Invocation {
    invoke_from(t, p, owner_stratum, answers, Seq::empty())
}

/// Whether the dispatch of each of the first `n` instructions succeeds.
pub open spec fn all_succeed(answers: spec_fn(int) -> bool, n: int) -> bool {
    forall|i: int| 0 <= i < n ==> #[trigger] answers(i)
}

/// The positions below `n`, in rising order.
pub open spec fn positions(n: int) -> Seq<int> {
    Seq::new(n as nat, |i: int| i)
}

/// What an invocation on a cleared payload comes to. If every dispatch
/// succeeds, each instruction was dispatched once, in container order, and
/// the transaction is executed. Otherwise the instructions up to the first
/// that fails were dispatched, the caller is told its position, and the
/// transaction is exactly as before.
pub open spec fn runs_to_completion_or_first_failure(
    r: Invocation,
    t: TransactionView,
    p: PayloadView,
    answers: spec_fn(int) -> bool,
) -> bool {
    if all_succeed(answers, p.len() as int) {
        &&& r.result == Ok::<(), MultisigError>(())
        &&& r.transaction == (TransactionView { status: Status::Executed, ..t })
        &&& r.dispatched == positions(p.len() as int)
    } else {
        exists|k: int|
            {
                &&& 0 <= k < p.len()
                &&& !answers(k)
                &&& all_succeed(answers, k)
                &&& r.result == Err::<(), MultisigError>(
                    MultisigError::ExecutionFailed(k as usize),
                )
                &&& r.transaction == t
                &&& #[trigger] positions(k + 1) == r.dispatched
            }
    }
}

proof fn lemma_log_of_positions(answers: spec_fn(int) -> bool, m: int)
    requires
        0 <= m,
    ensures
        log_of(positions(m), answers).len() == m,
        forall|j: int| 0 <= j < m ==> log_of(positions(m), answers)[j] == answers(j),
{
}

proof fn lemma_invoke_after_failure(
    t: TransactionView,
    p: PayloadView,
    owner_stratum: u8,
    answers: spec_fn(int) -> bool,
    m: int,
)
    requires
        cleared(t, p, owner_stratum),
        p.len() <= usize::MAX,
        0 <= m < p.len(),
        all_succeed(answers, m),
        !answers(m),
    ensures
        invoke_from(t, p, owner_stratum, answers, positions(m + 1)) == (Invocation {
            transaction: t,
            dispatched: positions(m + 1),
            result: Err(MultisigError::ExecutionFailed(m as usize)),
        }),
{
    let log = log_of(positions(m + 1), answers);
    lemma_log_of_positions(answers, m + 1);
    assert(fails_first_at(log, m));
    lemma_first_failure_unique(log, m);
    assert(failed_within(log, p.len()));
}

proof fn lemma_invoke_from_positions(
    t: TransactionView,
    p: PayloadView,
    owner_stratum: u8,
    answers: spec_fn(int) -> bool,
    m: int,
)
    requires
        cleared(t, p, owner_stratum),
        p.len() <= usize::MAX,
        0 <= m <= p.len(),
        all_succeed(answers, m),
    ensures
        runs_to_completion_or_first_failure(
            invoke_from(t, p, owner_stratum, answers, positions(m)),
            t,
            p,
            answers,
        ),
    decreases p.len() - m,
{
    let log = log_of(positions(m), answers);
    lemma_log_of_positions(answers, m);
    assert(!failed_within(log, p.len())) by {
        if failed_within(log, p.len()) {
            let w = choose|w: int| w < p.len() && fails_first_at(log, w);
            assert(answers(w));
        }
    }
    if m < p.len() {
        assert(positions(m).push(m) =~= positions(m + 1));
        if answers(m) {
            assert(all_succeed(answers, m + 1));
            lemma_invoke_from_positions(t, p, owner_stratum, answers, m + 1);
        } else {
            lemma_invoke_after_failure(t, p, owner_stratum, answers, m);
            assert(!all_succeed(answers, p.len() as int));
        }
    }
}

/// An invocation on a cleared payload dispatches the instructions one by
/// one in container order and stops at the first failure: it ends either
/// with every instruction dispatched once and the transaction executed, or
/// with the position of the failed instruction and the transaction
/// unchanged, still approved.
pub proof fn invocation_is_all_or_nothing(
    t: TransactionView,
    p: PayloadView,
    owner_stratum: u8,
    answers: spec_fn(int) -> bool,
)
    requires
        cleared(t, p, owner_stratum),
        p.len() <= usize::MAX,
    ensures
        runs_to_completion_or_first_failure(invoke(t, p, owner_stratum, answers), t, p, answers),
{
    assert(positions(0) =~= Seq::<int>::empty());
    lemma_invoke_from_positions(t, p, owner_stratum, answers, 0);
}

/// A transaction that is not approved is refused at every step, whatever the
/// log holds, and an invocation on it dispatches nothing and changes
/// nothing.
pub proof fn unapproved_is_never_dispatched(
    t: TransactionView,
    p: PayloadView,
    owner_stratum: u8,
    answers: spec_fn(int) -> bool,
    outcomes: Seq<bool>,
)
    requires
        t.status != Status::Approved,
    ensures
        gate_model(t, p, owner_stratum, outcomes) is Err,
        t.status == Status::Executed ==> gate_model(t, p, owner_stratum, outcomes) == Err::<
            (TransactionView, Directive),
            MultisigError,
        >(MultisigError::AlreadyExecuted),
        t.status != Status::Executed ==> gate_model(t, p, owner_stratum, outcomes) == Err::<
            (TransactionView, Directive),
            MultisigError,
        >(MultisigError::NotApproved),
        invoke(t, p, owner_stratum, answers).result is Err,
        invoke(t, p, owner_stratum, answers).dispatched.len() == 0,
        invoke(t, p, owner_stratum, answers).transaction == t,
{
}

/// Execution happens exactly once. When an invocation succeeds, it has
/// dispatched every instruction once and left the transaction executed; any
/// further invocation on that transaction is refused with `AlreadyExecuted`
/// and dispatches nothing, so that the two together have dispatched each
/// instruction exactly once.
pub proof fn execution_is_exactly_once(
    t: TransactionView,
    p: PayloadView,
    owner_stratum: u8,
    first: spec_fn(int) -> bool,
    second: spec_fn(int) -> bool,
)
    requires
        p.len() <= usize::MAX,
        invoke(t, p, owner_stratum, first).result is Ok,
    ensures
        ({
            let a = invoke(t, p, owner_stratum, first);
            let b = invoke(a.transaction, p, owner_stratum, second);
            &&& a.transaction.status == Status::Executed
            &&& a.dispatched == positions(p.len() as int)
            &&& b.result == Err::<(), MultisigError>(MultisigError::AlreadyExecuted)
            &&& b.dispatched.len() == 0
            &&& b.transaction == a.transaction
            &&& a.dispatched + b.dispatched == positions(p.len() as int)
        }),
{
    let a = invoke(t, p, owner_stratum, first);
    if cleared(t, p, owner_stratum) && t.status != Status::Executed {
        invocation_is_all_or_nothing(t, p, owner_stratum, first);
    }
    assert(a.dispatched + Seq::<int>::empty() =~= a.dispatched);
}

/// After a failed invocation the transaction is still approved and the same
/// payload can be tried again: if every dispatch then succeeds, the
/// transaction is executed.
pub proof fn failed_execution_can_be_retried(
    t: TransactionView,
    p: PayloadView,
    owner_stratum: u8,
    first: spec_fn(int) -> bool,
    second: spec_fn(int) -> bool,
)
    requires
        cleared(t, p, owner_stratum),
        p.len() <= usize::MAX,
        !all_succeed(first, p.len() as int),
        all_succeed(second, p.len() as int),
    ensures
        invoke(t, p, owner_stratum, first).result is Err,
        invoke(t, p, owner_stratum, first).transaction == t,
        invoke(invoke(t, p, owner_stratum, first).transaction, p, owner_stratum, second).result
            is Ok,
        invoke(
            invoke(t, p, owner_stratum, first).transaction,
            p,
            owner_stratum,
            second,
        ).transaction.status == Status::Executed,
{
    invocation_is_all_or_nothing(t, p, owner_stratum, first);
    invocation_is_all_or_nothing(t, p, owner_stratum, second);
}

} // verus!
