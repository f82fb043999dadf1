use vstd::prelude::*;
use vstd::multiset::Multiset;
use vstd::seq_lib::to_multiset_build;
use crate::address::Address;
use crate::error::MultisigError;
use crate::multisig::{position_of, Multisig, MultisigView};

verus! {

/// What one member has said about a transaction so far.
#[derive(Clone, Copy, Debug, PartialEq, Eq, Structural)]
pub enum Vote {
    Unvoted,
    Accept,
    Reject,
}

/// Where a transaction stands in its lifecycle.
#[derive(Clone, Copy, Debug, PartialEq, Eq, Structural)]
pub enum Status {
    /// The payload is still being assembled.
    Draft,
    /// The payload is sealed and votes are accepted.
    Open,
    /// Enough members accepted.
    Approved,
    /// Too many members rejected for approval to remain possible.
    Rejected,
    /// The payload was dispatched in full.
    Executed,
    /// The transaction was abandoned.
    Cancelled,
}

/// Names one transaction: the multisig it was filed under and its index in
/// that multisig's sequence.
#[derive(Clone, Copy, Debug, PartialEq, Eq)]
pub struct TransactionId {
    pub multisig: Address,
    pub index: u64,
}

impl TransactionId {
    /// Whether both name the same transaction.
    pub fn same(&self, other: &TransactionId) -> (r: bool)
        ensures
            r == (*self == *other),
    {
        self.multisig == other.multisig && self.index == other.index
    }
}

/// One line of the vote ledger.
#[derive(Clone, Copy, Debug, PartialEq, Eq)]
pub struct VoteRecord {
    pub member: Address,
    pub vote: Vote,
}

/// A proposal with the votes cast on it. The ledger and the threshold are
/// those of the owning stratum at the moment the transaction was created;
/// later edits of the multisig do not reach them.
#[derive(Clone, Debug, PartialEq, Eq)]
pub struct Transaction {
    pub id: TransactionId,
    pub owner_stratum: u8,
    pub proposer: Address,
    pub description: String,
    pub status: Status,
    pub threshold: u8,
    pub ledger: Vec<VoteRecord>,
}

/// The mathematical content of a [`Transaction`].
pub struct TransactionView {
    pub id: TransactionId,
    pub owner_stratum: u8,
    pub proposer: Address,
    pub description: Seq<char>,
    pub status: Status,
    pub threshold: u8,
    pub ledger: Seq<VoteRecord>,
}

impl View for Transaction {
    type V = TransactionView;

    open spec fn view(&self) -> TransactionView {
        TransactionView {
            id: self.id,
            owner_stratum: self.owner_stratum,
            proposer: self.proposer,
            description: self.description@,
            status: self.status,
            threshold: self.threshold,
            ledger: self.ledger@,
        }
    }
}

/// The votes of a ledger, line by line.
pub open spec fn votes(ledger: Seq<VoteRecord>) -> Seq<Vote> {
    ledger.map_values(|r: VoteRecord| r.vote)
}

/// The votes of a ledger with their order forgotten.
pub open spec fn ballot_box(ledger: Seq<VoteRecord>) -> Multiset<Vote> {
    votes(ledger).to_multiset()
}

/// Whether the ledger has a line for `who`.
pub open spec fn is_member(ledger: Seq<VoteRecord>, who: Address) -> bool {
    exists|i: int| 0 <= i < ledger.len() && (#[trigger] ledger[i]).member == who
}

/// Whether no member has two lines.
pub open spec fn distinct_members(ledger: Seq<VoteRecord>) -> bool {
    forall|i: int, j: int|
        0 <= i < ledger.len() && 0 <= j < ledger.len() && i != j ==> (#[trigger] ledger[i]).member
            != (#[trigger] ledger[j]).member
}

/// The ledger in which every line of `who` carries `vote` and every other
/// line is as before.
pub open spec fn record_vote(ledger: Seq<VoteRecord>, who: Address, vote: Vote) -> Seq<VoteRecord> {
    ledger.map_values(
        |r: VoteRecord|
            if r.member == who {
                VoteRecord { member: r.member, vote }
            } else {
                r
            },
    )
}

/// The ledger a transaction starts with: one line per member, nobody has voted.
pub open spec fn blank_ledger(members: Seq<Address>) -> Seq<VoteRecord> {
    members.map_values(|a: Address| VoteRecord { member: a, vote: Vote::Unvoted })
}

/// The status that a ballot box gives a transaction that is open for voting:
/// approved once the accepting votes reach the threshold; rejected once the
/// members who have not rejected are too few to reach it; open otherwise.
pub open spec fn tally_status(threshold: u8, ballots: Multiset<Vote>) -> Status {
    if ballots.count(Vote::Accept) >= threshold {
        Status::Approved
    } else if ballots.len() - ballots.count(Vote::Reject) < threshold {
        Status::Rejected
    } else {
        Status::Open
    }
}

/// The vote that a yes or a no stands for.
pub open spec fn cast(is_accept: bool) -> Vote {
    if is_accept {
        Vote::Accept
    } else {
        Vote::Reject
    }
}

impl TransactionView {
    /// How many members currently accept.
    pub open spec fn accepts(self) -> nat {
        ballot_box(self.ledger).count(Vote::Accept)
    }

    /// How many members currently reject.
    pub open spec fn rejects(self) -> nat {
        ballot_box(self.ledger).count(Vote::Reject)
    }

    /// The record's invariant: one ledger line per member, a threshold that
    /// the members can reach, a proposer who is a member, and a status that
    /// agrees with the votes cast.
    pub open spec fn wf(self) -> bool {
        &&& distinct_members(self.ledger)
        &&& 1 <= self.threshold <= self.ledger.len()
        &&& is_member(self.ledger, self.proposer)
        &&& match self.status {
            Status::Draft => self.accepts() == 0 && self.rejects() == 0,
            Status::Open => tally_status(self.threshold, ballot_box(self.ledger)) == Status::Open,
            Status::Approved | Status::Executed => self.accepts() >= self.threshold,
            Status::Rejected => tally_status(self.threshold, ballot_box(self.ledger))
                == Status::Rejected,
            Status::Cancelled => true,
        }
    }
}

/// What creating a transaction yields: refused with `UnknownStratum` when no
/// stratum has the rank, with `NotStratumMember` when the caller is not
/// listed in it; otherwise a draft that takes the multisig's next index and
/// snapshots the stratum's members and threshold.
pub open spec fn create_model(
    m: MultisigView,
    caller: Address,
    owner_stratum: u8,
    description: Seq<char>,
) -> Result<TransactionView, MultisigError> {
    if !m.has_stratum(owner_stratum) {
        Err(MultisigError::UnknownStratum)
    } else if !m.strata[owner_stratum as int].members.contains(caller) {
        Err(MultisigError::NotStratumMember)
    } else {
        Ok(
            TransactionView {
                id: TransactionId { multisig: m.address, index: m.sequence },
                owner_stratum,
                proposer: caller,
                description,
                status: Status::Draft,
                threshold: m.strata[owner_stratum as int].threshold,
                ledger: blank_ledger(m.strata[owner_stratum as int].members),
            },
        )
    }
}

/// What casting a vote yields: refused with `NotOpenForVoting` unless the
/// transaction is open, with `NotStratumMember` unless it was filed under
/// `owner_stratum` and the caller has a line in its ledger; otherwise the
/// caller's line carries the new vote and the status follows from the ballot
/// box as a whole.
pub open spec fn vote_model(
    t: TransactionView,
    caller: Address,
    owner_stratum: u8,
    is_accept: bool,
) -> Result<TransactionView, MultisigError> {
    if t.status != Status::Open {
        Err(MultisigError::NotOpenForVoting)
    } else if owner_stratum != t.owner_stratum || !is_member(t.ledger, caller) {
        Err(MultisigError::NotStratumMember)
    } else {
        let ledger = record_vote(t.ledger, caller, cast(is_accept));
        Ok(TransactionView { ledger, status: tally_status(t.threshold, ballot_box(ledger)), ..t })
    }
}

/// Whether `caller` may approve the transaction single-handedly: it was
/// filed under `owner_stratum`, that stratum lets any one member authorize
/// (its threshold is one), and the caller is one of its members.
pub open spec fn may_accept_alone(t: TransactionView, caller: Address, owner_stratum: u8) -> bool {
    &&& owner_stratum == t.owner_stratum
    &&& t.threshold == 1
    &&& is_member(t.ledger, caller)
}

/// What the single-handed approval yields: refused with `NotOpenForVoting`
/// unless the transaction is open, with `Unauthorized` unless the caller may
/// accept alone; otherwise the caller's line carries an accept and the
/// transaction is approved without any counting.
pub open spec fn accept_model(t: TransactionView, caller: Address, owner_stratum: u8) -> Result<
    TransactionView,
    MultisigError,
> {
    if t.status != Status::Open {
        Err(MultisigError::NotOpenForVoting)
    } else if !may_accept_alone(t, caller, owner_stratum) {
        Err(MultisigError::Unauthorized)
    } else {
        Ok(
            TransactionView {
                ledger: record_vote(t.ledger, caller, Vote::Accept),
                status: Status::Approved,
                ..t
            },
        )
    }
}

/// Counting a ledger line by line: the line at `i` adds one to the count of
/// its own vote and nothing to the others.
pub proof fn lemma_count_step(ledger: Seq<VoteRecord>, i: int, vote: Vote)
    requires
        0 <= i < ledger.len(),
    ensures
        ballot_box(ledger.take(i + 1)).count(vote) == ballot_box(ledger.take(i)).count(vote)
            + if ledger[i].vote == vote { 1nat } else { 0nat },
{
    let before = ledger.take(i);
    assert(ledger.take(i + 1) =~= before.push(ledger[i]));
    assert(votes(before.push(ledger[i])) =~= votes(before).push(ledger[i].vote));
    to_multiset_build(votes(before), ledger[i].vote);
}

/// A vote that no line carries is counted zero times.
pub proof fn lemma_count_absent(ledger: Seq<VoteRecord>, vote: Vote)
    requires
        forall|i: int| 0 <= i < ledger.len() ==> (#[trigger] ledger[i]).vote != vote,
    ensures
        ballot_box(ledger).count(vote) == 0,
    decreases ledger.len(),
{
    if ledger.len() == 0 {
        assert(votes(ledger) =~= Seq::<Vote>::empty());
        assert(ballot_box(ledger).len() == 0) by {
            votes(ledger).to_multiset_ensures();
        }
    } else {
        let n = ledger.len() - 1;
        lemma_count_absent(ledger.take(n), vote);
        lemma_count_step(ledger, n, vote);
        assert(ledger.take(n + 1) =~= ledger);
    }
}

/// A vote that some line carries is counted at least once.
pub proof fn lemma_count_present(ledger: Seq<VoteRecord>, i: int)
    requires
        0 <= i < ledger.len(),
    ensures
        ballot_box(ledger).count(ledger[i].vote) >= 1,
{
    votes(ledger).to_multiset_ensures();
    assert(votes(ledger)[i] == ledger[i].vote);
    assert(votes(ledger).contains(ledger[i].vote));
}

/// How many lines of the ledger carry `vote`.
pub fn count_votes(ledger: &Vec<VoteRecord>, vote: Vote) -> (n: usize)
    ensures
        n == ballot_box(ledger@).count(vote),
        n <= ledger.len(),
{
    let len: usize = ledger.len();
    let mut n: usize = 0;
    let mut i: usize = 0;
    proof {
        lemma_count_absent(ledger@.take(0), vote);
    }
    while i < len
        invariant
            i <= len,
            len == ledger.len(),
            n <= i,
            n == ballot_box(ledger@.take(i as int)).count(vote),
        decreases len - i,
    {
        proof {
            lemma_count_step(ledger@, i as int, vote);
        }
        if ledger[i].vote == vote {
            n += 1;
        }
        i += 1;
    }
    assert(ledger@.take(len as int) =~= ledger@);
    n
}

/// The status that the votes now in the ledger give an open transaction.
pub fn tally(threshold: u8, ledger: &Vec<VoteRecord>) -> (s: Status)
    ensures
        s == tally_status(threshold, ballot_box(ledger@)),
{
    let accepts: usize = count_votes(ledger, Vote::Accept);
    let rejects: usize = count_votes(ledger, Vote::Reject);
    proof {
        votes(ledger@).to_multiset_ensures();
    }
    if accepts >= threshold as usize {
        Status::Approved
    } else if ledger.len() - rejects < threshold as usize {
        Status::Rejected
    } else {
        Status::Open
    }
}

/// Writes `vote` into every line of `who`; says whether there was one.
fn mark(ledger: &mut Vec<VoteRecord>, who: Address, vote: Vote) -> (found: bool)
    ensures
        final(ledger)@ == record_vote(old(ledger)@, who, vote),
        found == is_member(old(ledger)@, who),
{
    let len: usize = ledger.len();
    let mut found: bool = false;
    let mut i: usize = 0;
    while i < len
        invariant
            i <= len,
            len == ledger.len(),
            len == old(ledger).len(),
            found == is_member(old(ledger)@.take(i as int), who),
            ledger@.take(i as int) == record_vote(old(ledger)@, who, vote).take(i as int),
            ledger@.skip(i as int) == old(ledger)@.skip(i as int),
        decreases len - i,
    {
        let ghost before = ledger@;
        let line = ledger[i];
        assert(line == old(ledger)@[i as int]) by {
            assert(ledger@.skip(i as int)[0] == old(ledger)@.skip(i as int)[0]);
        }
        if line.member == who {
            ledger.set(i, VoteRecord { member: line.member, vote });
            found = true;
        }
        proof {
            let target = record_vote(old(ledger)@, who, vote);
            let done = ledger@.take(i + 1);
            let wanted = target.take(i + 1);
            assert(done =~= wanted) by {
                assert forall|k: int| 0 <= k < done.len() implies done[k] == wanted[k] by {
                    if k < i {
                        assert(ledger@[k] == before.take(i as int)[k]);
                        assert(target[k] == target.take(i as int)[k]);
                    }
                }
            }
            let rest = ledger@.skip(i + 1);
            let untouched = old(ledger)@.skip(i + 1);
            assert(rest =~= untouched) by {
                assert forall|k: int| 0 <= k < rest.len() implies rest[k] == untouched[k] by {
                    assert(before.skip(i as int)[k + 1] == old(ledger)@.skip(i as int)[k + 1]);
                }
            }
            let prefix = old(ledger)@.take(i as int);
            let longer = old(ledger)@.take(i + 1);
            if is_member(prefix, who) {
                let w = choose|w: int| 0 <= w < prefix.len() && (#[trigger] prefix[w]).member == who;
                assert(longer[w].member == who);
            }
            if line.member == who {
                assert(longer[i as int].member == who);
            }
            if is_member(longer, who) {
                let w = choose|w: int| 0 <= w < longer.len() && (#[trigger] longer[w]).member == who;
                if w < i {
                    assert(prefix[w].member == who);
                }
            }
        }
        i += 1;
    }
    proof {
        assert(old(ledger)@.take(len as int) =~= old(ledger)@);
        assert(ledger@.take(len as int) =~= ledger@);
        assert(record_vote(old(ledger)@, who, vote).take(len as int) =~= record_vote(
            old(ledger)@,
            who,
            vote,
        ));
    }
    found
}

/// Whether the ledger has a line for `who`.
pub fn has_member(ledger: &Vec<VoteRecord>, who: &Address) -> (r: bool)
    ensures
        r == is_member(ledger@, *who),
{
    let len: usize = ledger.len();
    let mut i: usize = 0;
    while i < len
        invariant
            i <= len,
            len == ledger.len(),
            forall|j: int| 0 <= j < i ==> (#[trigger] ledger[j]).member != *who,
        decreases len - i,
    {
        if ledger[i].member == *who {
            return true;
        }
        i += 1;
    }
    false
}

/// Files a new transaction under the stratum `owner_stratum` of `multisig`
/// on behalf of `caller`, and advances the multisig's sequence by one.
///
/// Refused with `UnknownStratum` when no stratum has that rank and with
/// `NotStratumMember` when the caller is not one of its members; the
/// multisig is then untouched. The sequence counter must have room for one
/// more transaction.
pub fn create_transaction(
    multisig: &mut Multisig,
    caller: Address,
    owner_stratum: u8,
    description: String,
) -> (r: Result<Transaction, MultisigError>)
    requires
        old(multisig).sequence < u64::MAX,
    ensures
        match create_model(old(multisig)@, caller, owner_stratum, description@) {
            Ok(t) => r is Ok && r->Ok_0@ == t && final(multisig)@ == (MultisigView {
                sequence: (old(multisig).sequence + 1) as u64,
                ..old(multisig)@
            }),
            Err(e) => r is Err && r->Err_0 == e && *final(multisig) == *old(multisig),
        },
        old(multisig)@.wf() && r is Ok ==> r->Ok_0@.wf(),
{
    let rank: usize = owner_stratum as usize;
    if rank >= multisig.strata.len() {
        return Err(MultisigError::UnknownStratum);
    }
    let stratum = &multisig.strata[rank];
    assert(stratum@ == multisig@.strata[owner_stratum as int]);
    if position_of(&stratum.members, &caller).is_none() {
        return Err(MultisigError::NotStratumMember);
    }
    let threshold: u8 = stratum.threshold;
    let count: usize = stratum.members.len();
    let mut ledger: Vec<VoteRecord> = Vec::new();
    let mut i: usize = 0;
    while i < count
        invariant
            i <= count,
            count == stratum.members.len(),
            ledger@ == blank_ledger(stratum.members@.take(i as int)),
        decreases count - i,
    {
        ledger.push(VoteRecord { member: stratum.members[i], vote: Vote::Unvoted });
        assert(stratum.members@.take(i + 1) =~= stratum.members@.take(i as int).push(
            stratum.members[i as int],
        ));
        assert(ledger@ =~= blank_ledger(stratum.members@.take(i + 1)));
        i += 1;
    }
    assert(stratum.members@.take(count as int) =~= stratum.members@);
    let transaction = Transaction {
        id: TransactionId { multisig: multisig.address, index: multisig.sequence },
        owner_stratum,
        proposer: caller,
        description,
        status: Status::Draft,
        threshold,
        ledger,
    };
    proof {
        if old(multisig)@.wf() {
            let members = stratum.members@;
            let t = transaction@;
            assert(stratum@.valid());
            lemma_count_absent(t.ledger, Vote::Accept);
            lemma_count_absent(t.ledger, Vote::Reject);
            let w = choose|w: int| 0 <= w < members.len() && members[w] == caller;
            assert(t.ledger[w].member == caller);
            assert(distinct_members(t.ledger));
        }
    }
    multisig.sequence = multisig.sequence + 1;
    Ok(transaction)
}

/// Records the caller's vote on an open transaction and settles its status
/// from the ledger as it then stands.
///
/// A member may vote again while the transaction is open: the new vote takes
/// the place of the old one. Every refusal leaves the transaction untouched.
pub fn vote_transaction(
    transaction: &mut Transaction,
    caller: Address,
    owner_stratum: u8,
    is_accept: bool,
) -> (r: Result<(), MultisigError>)
    ensures
        match vote_model(old(transaction)@, caller, owner_stratum, is_accept) {
            Ok(t) => r is Ok && final(transaction)@ == t,
            Err(e) => r == Err::<(), MultisigError>(e) && *final(transaction) == *old(transaction),
        },
        old(transaction)@.wf() ==> final(transaction)@.wf(),
{
    match transaction.status {
        Status::Open => {},
        _ => {
            return Err(MultisigError::NotOpenForVoting);
        },
    }
    if owner_stratum != transaction.owner_stratum || !has_member(&transaction.ledger, &caller) {
        return Err(MultisigError::NotStratumMember);
    }
    let vote = if is_accept {
        Vote::Accept
    } else {
        Vote::Reject
    };
    mark(&mut transaction.ledger, caller, vote);
    transaction.status = tally(transaction.threshold, &transaction.ledger);
    proof {
        lemma_record_keeps_members(old(transaction)@.ledger, caller, vote, old(transaction)@.proposer);
    }
    Ok(())
}

/// Approves an open transaction on the word of one privileged caller: a
/// member of the owning stratum, where that stratum's threshold is one.
/// The caller's accept is entered in the ledger; nothing is counted. Every
/// refusal leaves the transaction untouched.
pub fn accept_transaction(transaction: &mut Transaction, caller: Address, owner_stratum: u8) -> (r:
    Result<(), MultisigError>)
    ensures
        match accept_model(old(transaction)@, caller, owner_stratum) {
            Ok(t) => r is Ok && final(transaction)@ == t,
            Err(e) => r == Err::<(), MultisigError>(e) && *final(transaction) == *old(transaction),
        },
        old(transaction)@.wf() ==> final(transaction)@.wf(),
{
    match transaction.status {
        Status::Open => {},
        _ => {
            return Err(MultisigError::NotOpenForVoting);
        },
    }
    if owner_stratum != transaction.owner_stratum || transaction.threshold != 1 || !has_member(
        &transaction.ledger,
        &caller,
    ) {
        return Err(MultisigError::Unauthorized);
    }
    mark(&mut transaction.ledger, caller, Vote::Accept);
    transaction.status = Status::Approved;
    proof {
        let before = old(transaction)@.ledger;
        lemma_record_keeps_members(before, caller, Vote::Accept, old(transaction)@.proposer);
        let w = choose|w: int| 0 <= w < before.len() && (#[trigger] before[w]).member == caller;
        lemma_count_present(record_vote(before, caller, Vote::Accept), w);
    }
    Ok(())
}

/// Recording a vote changes no line's member: the members stay distinct and
/// whoever had a line keeps it.
pub proof fn lemma_record_keeps_members(
    ledger: Seq<VoteRecord>,
    who: Address,
    vote: Vote,
    other: Address,
)
    ensures
        record_vote(ledger, who, vote).len() == ledger.len(),
        forall|i: int|
            0 <= i < ledger.len() ==> (#[trigger] record_vote(ledger, who, vote)[i]).member
                == ledger[i].member,
        distinct_members(ledger) ==> distinct_members(record_vote(ledger, who, vote)),
        is_member(ledger, other) <==> is_member(record_vote(ledger, who, vote), other),
{
    let after = record_vote(ledger, who, vote);
    if is_member(ledger, other) {
        let w = choose|w: int| 0 <= w < ledger.len() && (#[trigger] ledger[w]).member == other;
        assert(after[w].member == other);
    }
    if is_member(after, other) {
        let w = choose|w: int| 0 <= w < after.len() && (#[trigger] after[w]).member == other;
        assert(ledger[w].member == other);
    }
}

} // verus!
