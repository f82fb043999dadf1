use vstd::prelude::*;
use crate::address::Address;
use crate::transaction::{
    accept_model, ballot_box, cast, distinct_members, lemma_count_absent, lemma_count_present,
    lemma_count_step, lemma_record_keeps_members, record_vote, tally_status, vote_model, Status,
    TransactionView, Vote, VoteRecord,
};

verus! {

/// One call of the voting operation: who votes, under which stratum, and how.
pub struct Ballot {
    pub voter: Address,
    pub stratum: u8,
    pub accept: bool,
}

/// The transaction as one call of the voting operation leaves it: changed as
/// the operation says when the call succeeds, untouched when it is refused.
pub open spec fn after_vote(t: TransactionView, b: Ballot) -> TransactionView {
    match vote_model(t, b.voter, b.stratum, b.accept) {
        Ok(next) => next,
        Err(_) => t,
    }
}

/// The transaction as a series of calls of the voting operation leaves it.
pub open spec fn after_votes(t: TransactionView, ballots: Seq<Ballot>) -> TransactionView
    decreases ballots.len(),
{
    if ballots.len() == 0 {
        t
    } else {
        after_vote(after_votes(t, ballots.drop_last()), ballots.last())
    }
}

/// The members whose line in the ledger carries an accept.
pub open spec fn accepting_members(ledger: Seq<VoteRecord>) -> Set<Address> {
    Set::new(
        |a: Address|
            exists|i: int|
                0 <= i < ledger.len() && (#[trigger] ledger[i]).member == a && ledger[i].vote
                    == Vote::Accept,
    )
}

/// Where no member has two lines, the accepting lines of a ledger are the
/// votes of as many different members.
pub proof fn accepts_come_from_distinct_members(ledger: Seq<VoteRecord>)
    requires
        distinct_members(ledger),
    ensures
        accepting_members(ledger).finite(),
        accepting_members(ledger).len() == ballot_box(ledger).count(Vote::Accept),
    decreases ledger.len(),
{
    if ledger.len() == 0 {
        lemma_count_absent(ledger, Vote::Accept);
        assert(accepting_members(ledger) =~= Set::<Address>::empty());
    } else {
        let n = ledger.len() - 1;
        let rest = ledger.take(n);
        let last = ledger[n];
        assert(distinct_members(rest));
        accepts_come_from_distinct_members(rest);
        lemma_count_step(ledger, n, Vote::Accept);
        assert(ledger.take(n + 1) =~= ledger);
        assert(!accepting_members(rest).contains(last.member)) by {
            if accepting_members(rest).contains(last.member) {
                let w = choose|w: int|
                    0 <= w < rest.len() && (#[trigger] rest[w]).member == last.member && rest[w].vote
                        == Vote::Accept;
                assert(ledger[w].member == ledger[n].member);
            }
        }
        if last.vote == Vote::Accept {
            assert(accepting_members(ledger) =~= accepting_members(rest).insert(last.member)) by {
                assert forall|a: Address|
                    accepting_members(ledger).contains(a) <==> accepting_members(rest).insert(
                        last.member,
                    ).contains(a) by {
                    if accepting_members(ledger).contains(a) {
                        let w = choose|w: int|
                            0 <= w < ledger.len() && (#[trigger] ledger[w]).member == a
                                && ledger[w].vote == Vote::Accept;
                        if w < n {
                            assert(rest[w].member == a);
                        }
                    }
                    if accepting_members(rest).contains(a) {
                        let w = choose|w: int|
                            0 <= w < rest.len() && (#[trigger] rest[w]).member == a && rest[w].vote
                                == Vote::Accept;
                        assert(ledger[w].member == a);
                    }
                    if a == last.member {
                        assert(ledger[n].member == a);
                    }
                }
            }
        } else {
            assert(accepting_members(ledger) =~= accepting_members(rest)) by {
                assert forall|a: Address|
                    accepting_members(ledger).contains(a) <==> accepting_members(rest).contains(
                        a,
                    ) by {
                    if accepting_members(ledger).contains(a) {
                        let w = choose|w: int|
                            0 <= w < ledger.len() && (#[trigger] ledger[w]).member == a
                                && ledger[w].vote == Vote::Accept;
                        assert(rest[w].member == a);
                    }
                    if accepting_members(rest).contains(a) {
                        let w = choose|w: int|
                            0 <= w < rest.len() && (#[trigger] rest[w]).member == a && rest[w].vote
                                == Vote::Accept;
                        assert(ledger[w].member == a);
                    }
                }
            }
        }
    }
}

/// A vote that is taken approves the transaction exactly when the accepting
/// lines of the ledger, as it then stands, number at least the threshold.
pub proof fn vote_approves_exactly_at_threshold(t: TransactionView, b: Ballot)
    requires
        vote_model(t, b.voter, b.stratum, b.accept) is Ok,
    ensures
        after_vote(t, b).status == Status::Approved <==> after_vote(t, b).accepts()
            >= t.threshold,
        after_vote(t, b).threshold == t.threshold,
{
}

/// One call of the voting operation keeps a well-formed transaction well formed.
pub proof fn vote_keeps_wf(t: TransactionView, b: Ballot)
    requires
        t.wf(),
    ensures
        after_vote(t, b).wf(),
        after_vote(t, b).threshold == t.threshold,
{
    lemma_record_keeps_members(t.ledger, b.voter, cast(b.accept), t.proposer);
}

/// Whatever votes are cast and in whatever order, a well-formed transaction
/// stays well formed and keeps its threshold; it is approved only while at
/// least `threshold` different members accept. With fewer accepts it is
/// never approved.
pub proof fn approval_takes_threshold_accepts(t: TransactionView, ballots: Seq<Ballot>)
    requires
        t.wf(),
    ensures
        after_votes(t, ballots).wf(),
        after_votes(t, ballots).threshold == t.threshold,
        distinct_members(after_votes(t, ballots).ledger),
        after_votes(t, ballots).status == Status::Approved ==> after_votes(t, ballots).accepts()
            >= t.threshold,
        after_votes(t, ballots).accepts() < t.threshold ==> after_votes(t, ballots).status
            != Status::Approved,
        accepting_members(after_votes(t, ballots).ledger).finite(),
        accepting_members(after_votes(t, ballots).ledger).len() == after_votes(
            t,
            ballots,
        ).accepts(),
    decreases ballots.len(),
{
    if ballots.len() > 0 {
        approval_takes_threshold_accepts(t, ballots.drop_last());
        vote_keeps_wf(after_votes(t, ballots.drop_last()), ballots.last());
    }
    accepts_come_from_distinct_members(after_votes(t, ballots).ledger);
}

/// Recording the same vote twice is recording it once.
pub proof fn lemma_record_twice(ledger: Seq<VoteRecord>, who: Address, vote: Vote)
    ensures
        record_vote(record_vote(ledger, who, vote), who, vote) == record_vote(ledger, who, vote),
{
    assert(record_vote(record_vote(ledger, who, vote), who, vote) =~= record_vote(
        ledger,
        who,
        vote,
    ));
}

/// Casting the same vote a second time changes nothing: the transaction is
/// as the first cast left it, whether the second call is taken or refused.
pub proof fn vote_is_idempotent(t: TransactionView, b: Ballot)
    ensures
        after_vote(after_vote(t, b), b) == after_vote(t, b),
{
    let once = after_vote(t, b);
    if vote_model(t, b.voter, b.stratum, b.accept) is Ok {
        lemma_record_keeps_members(t.ledger, b.voter, cast(b.accept), b.voter);
        lemma_record_twice(t.ledger, b.voter, cast(b.accept));
    }
}

/// The status that a vote leaves behind depends on the threshold and on the
/// ballot box alone: two transactions with the same threshold whose ledgers
/// hold the same votes, in any order and however they came about, have the
/// same status after a vote was taken on each.
pub proof fn status_depends_on_ballot_box(a: TransactionView, x: Ballot, b: TransactionView, y: Ballot)
    requires
        vote_model(a, x.voter, x.stratum, x.accept) is Ok,
        vote_model(b, y.voter, y.stratum, y.accept) is Ok,
        a.threshold == b.threshold,
        ballot_box(after_vote(a, x).ledger) == ballot_box(after_vote(b, y).ledger),
    ensures
        after_vote(a, x).status == after_vote(b, y).status,
        after_vote(a, x).status == tally_status(a.threshold, ballot_box(after_vote(a, x).ledger)),
{
}

/// Recording the votes of two different members in either order gives the
/// same ledger.
pub proof fn lemma_record_commutes(
    ledger: Seq<VoteRecord>,
    p: Address,
    u: Vote,
    q: Address,
    v: Vote,
)
    requires
        p != q,
    ensures
        record_vote(record_vote(ledger, p, u), q, v) == record_vote(record_vote(ledger, q, v), p, u),
{
    assert(record_vote(record_vote(ledger, p, u), q, v) =~= record_vote(
        record_vote(ledger, q, v),
        p,
        u,
    ));
}

/// The votes of two different members may arrive in either order: as long
/// as neither vote alone settles the transaction, both orders leave the
/// same transaction behind.
pub proof fn votes_of_two_members_commute(t: TransactionView, x: Ballot, y: Ballot)
    requires
        x.voter != y.voter,
        after_vote(t, x).status == Status::Open,
        after_vote(t, y).status == Status::Open,
    ensures
        after_vote(after_vote(t, x), y) == after_vote(after_vote(t, y), x),
{
    lemma_record_keeps_members(t.ledger, x.voter, cast(x.accept), y.voter);
    lemma_record_keeps_members(t.ledger, y.voter, cast(y.accept), x.voter);
    lemma_record_commutes(t.ledger, x.voter, cast(x.accept), y.voter, cast(y.accept));
}

/// Approving single-handedly is no way around the count: whenever it is
/// granted, it leaves the transaction exactly as the caller's accepting vote
/// would have left it.
pub proof fn accepting_alone_is_voting_accept(t: TransactionView, caller: Address, owner_stratum: u8)
    requires
        accept_model(t, caller, owner_stratum) is Ok,
    ensures
        vote_model(t, caller, owner_stratum, true) == accept_model(t, caller, owner_stratum),
        accept_model(t, caller, owner_stratum) matches Ok(n) && n.accepts() >= n.threshold,
{
    let w = choose|w: int| 0 <= w < t.ledger.len() && (#[trigger] t.ledger[w]).member == caller;
    lemma_count_present(record_vote(t.ledger, caller, Vote::Accept), w);
}

} // verus!
