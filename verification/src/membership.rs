use vstd::prelude::*;
use crate::address::Address;
use crate::error::MultisigError;
use crate::multisig::{position_of, Multisig, MultisigView, Stratum, StratumView};

verus! {

/// The bytes that one member takes in the stored record.
pub const MEMBER_BYTES: usize = 32;

/// The bytes that one stratum takes in the stored record besides its
/// members: its rank, the length of its member list and its threshold.
pub const STRATUM_BYTES: usize = 6;

/// An edit of one stratum that fits the record as it is stored.
#[derive(Clone, Copy, Debug, PartialEq, Eq)]
pub enum ChangeType {
    /// Lists a new member.
    AddMember(Address),
    /// Strikes a member.
    RemoveMember(Address),
    /// Sets the number of accepting votes that approval takes.
    SetThreshold(u8),
    /// Gives the stratum another rank; the stratum that held that rank
    /// takes this one's in exchange.
    SetRank(u8),
}

/// An edit that makes the stored record grow.
#[derive(Clone, Debug, PartialEq, Eq)]
pub enum ChangeReallocType {
    /// Appends a stratum, which must carry the next free rank.
    AddStratum(Stratum),
    /// Lists a new member in the stratum of the given rank.
    AddMember { stratum: u8, member: Address },
}

/// The mathematical content of a [`ChangeReallocType`].
pub enum ChangeReallocView {
    AddStratum(StratumView),
    AddMember { stratum: u8, member: Address },
}

impl View for ChangeReallocType {
    type V = ChangeReallocView;

    open spec fn view(&self) -> ChangeReallocView {
        match self {
            ChangeReallocType::AddStratum(s) => ChangeReallocView::AddStratum(s@),
            ChangeReallocType::AddMember { stratum, member } => ChangeReallocView::AddMember {
                stratum: *stratum,
                member: *member,
            },
        }
    }
}

/// How the backing storage of a record is to be resized: to `new_size`
/// bytes, of which those from `zero_from` on are newly exposed and must be
/// zero before the record is written.
#[derive(Clone, Copy, Debug, PartialEq, Eq, Structural)]
pub struct Reallocation {
    pub new_size: usize,
    pub zero_from: usize,
}

/// The first position at which `who` is listed.
pub open spec fn first_position(members: Seq<Address>, who: Address) -> int {
    choose|i: int|
        0 <= i < members.len() && members[i] == who && forall|j: int|
            0 <= j < i ==> members[j] != who
}

impl MultisigView {
    /// The same record with the stratum at position `rank` replaced.
    pub open spec fn with_stratum(self, rank: int, s: StratumView) -> MultisigView {
        MultisigView { strata: self.strata.update(rank, s), ..self }
    }
}

/// What listing `who` in the stratum of rank `rank` yields: refused with
/// `UnknownStratum` when there is no such stratum, with
/// `InvalidMembershipChange` when `who` is already listed there; otherwise
/// `who` is listed last.
pub open spec fn add_member_model(m: MultisigView, rank: u8, who: Address) -> Result<
    MultisigView,
    MultisigError,
> {
    if !m.has_stratum(rank) {
        Err(MultisigError::UnknownStratum)
    } else {
        let s = m.strata[rank as int];
        if s.members.contains(who) {
            Err(MultisigError::InvalidMembershipChange)
        } else {
            Ok(m.with_stratum(rank as int, StratumView { members: s.members.push(who), ..s }))
        }
    }
}

/// What one edit of the stratum of rank `rank` yields when `authority`
/// signs for it.
///
/// Refused with `Unauthorized` unless the authority is the multisig's own
/// address, which signs only for what its members approved. Else refused
/// with `UnknownStratum` when there is no such stratum. Listing a
/// member is refused with `InvalidMembershipChange` when the member is
/// listed already. Striking one is refused when it is not listed or when
/// fewer members than the threshold would remain, so the last member of a
/// stratum can never be struck. A threshold is refused when it is zero or
/// above the number of members. A rank is refused when no stratum holds it.
/// Otherwise the edit is applied: in an exchange of ranks the two strata
/// swap their members and thresholds.
pub open spec fn change_model(
    m: MultisigView,
    authority: Address,
    change: ChangeType,
    rank: u8,
) -> Result<MultisigView, MultisigError> {
    if authority != m.address {
        Err(MultisigError::Unauthorized)
    } else if !m.has_stratum(rank) {
        Err(MultisigError::UnknownStratum)
    } else {
        let s = m.strata[rank as int];
        match change {
            ChangeType::AddMember(who) => add_member_model(m, rank, who),
            ChangeType::RemoveMember(who) => if !s.members.contains(who) || s.threshold
                > s.members.len() - 1 {
                Err(MultisigError::InvalidMembershipChange)
            } else {
                Ok(
                    m.with_stratum(
                        rank as int,
                        StratumView {
                            members: s.members.remove(first_position(s.members, who)),
                            ..s
                        },
                    ),
                )
            },
            ChangeType::SetThreshold(k) => if k < 1 || k > s.members.len() {
                Err(MultisigError::InvalidMembershipChange)
            } else {
                Ok(m.with_stratum(rank as int, StratumView { threshold: k, ..s }))
            },
            ChangeType::SetRank(other) => if !m.has_stratum(other) {
                Err(MultisigError::InvalidMembershipChange)
            } else {
                let o = m.strata[other as int];
                Ok(
                    m.with_stratum(
                        rank as int,
                        StratumView { rank: s.rank, ..o },
                    ).with_stratum(other as int, StratumView { rank: o.rank, ..s }),
                )
            },
        }
    }
}

/// By how many bytes an edit makes the stored record grow.
pub open spec fn growth(change: ChangeReallocView) -> nat {
    match change {
        ChangeReallocView::AddStratum(s) => (STRATUM_BYTES + MEMBER_BYTES * s.members.len()) as nat,
        ChangeReallocView::AddMember { .. } => MEMBER_BYTES as nat,
    }
}

/// The record that a growing edit yields, storage aside: appending a
/// stratum is refused with `InvalidStrata` unless it is valid and carries
/// the next free rank; listing a member is refused as it is without
/// reallocation.
pub open spec fn grown_model(m: MultisigView, change: ChangeReallocView) -> Result<
    MultisigView,
    MultisigError,
> {
    match change {
        ChangeReallocView::AddStratum(s) => if s.rank != m.strata.len() || !s.valid() {
            Err(MultisigError::InvalidStrata)
        } else {
            Ok(MultisigView { strata: m.strata.push(s), ..m })
        },
        ChangeReallocView::AddMember { stratum, member } => add_member_model(m, stratum, member),
    }
}

/// What a growing edit yields, when `authority` signs for it, for a record
/// that takes `allocated` bytes of a storage that can hold `limit` bytes at
/// most: refused with `Unauthorized` unless the authority is the multisig's
/// own address; else as the edit itself is refused; else with
/// `StorageResizeFailed` when the grown record would exceed the limit;
/// otherwise the edited record together with the resizing to carry out, in
/// which all that is added is newly exposed.
pub open spec fn realloc_model(
    m: MultisigView,
    authority: Address,
    change: ChangeReallocView,
    allocated: usize,
    limit: usize,
) -> Result<(MultisigView, Reallocation), MultisigError> {
    if authority != m.address {
        Err(MultisigError::Unauthorized)
    } else {
        match grown_model(m, change) {
            Err(e) => Err(e),
            Ok(next) => if allocated + growth(change) > limit {
                Err(MultisigError::StorageResizeFailed)
            } else {
                Ok(
                    (
                        next,
                        Reallocation {
                            new_size: (allocated + growth(change)) as usize,
                            zero_from: allocated,
                        },
                    ),
                )
            },
        }
    }
}

/// `position_of` finds the first position.
proof fn lemma_first_position(members: Seq<Address>, who: Address, i: int)
    requires
        0 <= i < members.len(),
        members[i] == who,
        forall|j: int| 0 <= j < i ==> members[j] != who,
    ensures
        first_position(members, who) == i,
{
    let c = first_position(members, who);
    if c < i {
        assert(members[c] != who);
    } else if i < c {
        assert(members[i] != who);
    }
}

/// Replacing one valid stratum by another of the same rank keeps the
/// membership model valid.
proof fn lemma_update_keeps_valid(strata: Seq<StratumView>, rank: int, s: StratumView)
    requires
        crate::multisig::valid_strata(strata),
        0 <= rank < strata.len(),
        s.rank == rank,
        s.valid(),
    ensures
        crate::multisig::valid_strata(strata.update(rank, s)),
{
    let after = strata.update(rank, s);
    assert forall|i: int| 0 <= i < after.len() implies (#[trigger] after[i]).rank == i
        && after[i].valid() by {
        if i != rank {
            assert(after[i] == strata[i]);
        }
    }
}

proof fn lemma_push_distinct(members: Seq<Address>, who: Address)
    requires
        members.no_duplicates(),
        !members.contains(who),
    ensures
        members.push(who).no_duplicates(),
{
    let after = members.push(who);
    assert forall|i: int, j: int|
        0 <= i < after.len() && 0 <= j < after.len() && i != j implies after[i] != after[j] by {
        if i < members.len() {
            assert(members.contains(after[i]));
        }
        if j < members.len() {
            assert(members.contains(after[j]));
        }
    }
}

proof fn lemma_remove_distinct(members: Seq<Address>, at: int)
    requires
        members.no_duplicates(),
        0 <= at < members.len(),
    ensures
        members.remove(at).no_duplicates(),
        members.remove(at).len() == members.len() - 1,
{
    let after = members.remove(at);
    assert forall|i: int, j: int|
        0 <= i < after.len() && 0 <= j < after.len() && i != j implies after[i] != after[j] by {
        let a = if i < at {
            i
        } else {
            i + 1
        };
        let b = if j < at {
            j
        } else {
            j + 1
        };
        assert(after[i] == members[a]);
        assert(after[j] == members[b]);
    }
}

/// Lists `who` in the stratum of rank `rank`, unless it is listed already.
fn add_member(multisig: &mut Multisig, rank: u8, who: Address) -> (r: Result<(), MultisigError>)
    ensures
        match add_member_model(old(multisig)@, rank, who) {
            Ok(m) => r is Ok && final(multisig)@ == m,
            Err(e) => r == Err::<(), MultisigError>(e) && *final(multisig) == *old(multisig),
        },
        old(multisig)@.wf() ==> final(multisig)@.wf(),
{
    let at: usize = rank as usize;
    if at >= multisig.strata.len() {
        return Err(MultisigError::UnknownStratum);
    }
    assert(multisig.strata@[at as int]@ == multisig@.strata[rank as int]);
    if position_of(&multisig.strata[at].members, &who).is_some() {
        return Err(MultisigError::InvalidMembershipChange);
    }
    multisig.strata[at].members.push(who);
    proof {
        let before = old(multisig)@;
        let s = before.strata[rank as int];
        let grown = StratumView { members: s.members.push(who), ..s };
        assert(multisig@.strata =~= before.strata.update(rank as int, grown));
        if before.wf() {
            lemma_push_distinct(s.members, who);
            lemma_update_keeps_valid(before.strata, rank as int, grown);
        }
    }
    Ok(())
}

/// Applies one edit to the stratum of rank `stratum` on the word of
/// `authority`, the identity that signed for the edit.
///
/// Only the multisig's own address is heard, and it signs only for what
/// went through the multisig's own approval: any other authority is refused
/// with `Unauthorized`. The edit is then refused with `UnknownStratum` when
/// there is no such stratum and with `InvalidMembershipChange` when the
/// edit would break the membership model: a member listed twice, a member
/// struck who is not listed, fewer members left than the threshold, a
/// threshold of zero or above the number of members, a rank that no stratum
/// holds. Every refusal leaves the record untouched.
pub fn change_multisig(
    multisig: &mut Multisig,
    authority: Address,
    change_type: ChangeType,
    stratum: u8,
) -> (r: Result<(), MultisigError>)
    ensures
        match change_model(old(multisig)@, authority, change_type, stratum) {
            Ok(m) => r is Ok && final(multisig)@ == m,
            Err(e) => r == Err::<(), MultisigError>(e) && *final(multisig) == *old(multisig),
        },
        old(multisig)@.wf() ==> final(multisig)@.wf(),
{
    if authority != multisig.address {
        return Err(MultisigError::Unauthorized);
    }
    let at: usize = stratum as usize;
    if at >= multisig.strata.len() {
        return Err(MultisigError::UnknownStratum);
    }
    let ghost before = old(multisig)@;
    let ghost s = before.strata[stratum as int];
    assert(multisig.strata@[at as int]@ == s);
    match change_type {
        ChangeType::AddMember(who) => add_member(multisig, stratum, who),
        ChangeType::RemoveMember(who) => {
            let count: usize = multisig.strata[at].members.len();
            let found = position_of(&multisig.strata[at].members, &who);
            match found {
                None => Err(MultisigError::InvalidMembershipChange),
                Some(i) => {
                    if multisig.strata[at].threshold as usize > count - 1 {
                        return Err(MultisigError::InvalidMembershipChange);
                    }
                    multisig.strata[at].members.remove(i);
                    proof {
                        lemma_first_position(s.members, who, i as int);
                        let shrunk = StratumView { members: s.members.remove(i as int), ..s };
                        assert(multisig@.strata =~= before.strata.update(stratum as int, shrunk));
                        if before.wf() {
                            lemma_remove_distinct(s.members, i as int);
                            lemma_update_keeps_valid(before.strata, stratum as int, shrunk);
                        }
                    }
                    Ok(())
                },
            }
        },
        ChangeType::SetThreshold(k) => {
            if k < 1 || k as usize > multisig.strata[at].members.len() {
                return Err(MultisigError::InvalidMembershipChange);
            }
            multisig.strata[at].threshold = k;
            proof {
                let set = StratumView { threshold: k, ..s };
                assert(multisig@.strata =~= before.strata.update(stratum as int, set));
                if before.wf() {
                    lemma_update_keeps_valid(before.strata, stratum as int, set);
                }
            }
            Ok(())
        },
        ChangeType::SetRank(other) => {
            let to: usize = other as usize;
            if to >= multisig.strata.len() {
                return Err(MultisigError::InvalidMembershipChange);
            }
            let ghost o = before.strata[other as int];
            assert(multisig.strata@[to as int]@ == o);
            if to != at {
                let mut held: Vec<Address> = Vec::new();
                std::mem::swap(&mut held, &mut multisig.strata[at].members);
                std::mem::swap(&mut held, &mut multisig.strata[to].members);
                std::mem::swap(&mut held, &mut multisig.strata[at].members);
                let threshold: u8 = multisig.strata[at].threshold;
                let other_threshold: u8 = multisig.strata[to].threshold;
                multisig.strata[at].threshold = other_threshold;
                multisig.strata[to].threshold = threshold;
            }
            proof {
                let first = StratumView { rank: s.rank, ..o };
                let second = StratumView { rank: o.rank, ..s };
                let after = before.strata.update(stratum as int, first).update(other as int, second);
                assert(multisig@.strata =~= after);
                if before.wf() {
                    lemma_update_keeps_valid(before.strata, stratum as int, first);
                    lemma_update_keeps_valid(
                        before.strata.update(stratum as int, first),
                        other as int,
                        second,
                    );
                }
            }
            Ok(())
        },
    }
}

/// Applies an edit that makes the stored record grow, on the word of
/// `authority`, and says how its backing storage is to be resized for it.
/// The record takes `allocated` bytes now; the storage can hold `limit`
/// bytes at most.
///
/// Refused with `Unauthorized` unless the authority is the multisig's own
/// address, else as the edit itself is refused (`InvalidStrata` for a stratum
/// that is not valid or does not carry the next free rank; `UnknownStratum`
/// or `InvalidMembershipChange` for a member), else with
/// `StorageResizeFailed` when the grown record would exceed `limit`. Every
/// refusal leaves the record untouched. On success the storage must be
/// resized to `new_size` and zeroed from `zero_from` on before the record is
/// written back.
pub fn change_multisig_realloc(
    multisig: &mut Multisig,
    authority: Address,
    change_type: ChangeReallocType,
    allocated: usize,
    limit: usize,
) -> (r: Result<Reallocation, MultisigError>)
    ensures
        match realloc_model(old(multisig)@, authority, change_type@, allocated, limit) {
            Ok((m, resize)) => r == Ok::<Reallocation, MultisigError>(resize) && final(multisig)@
                == m,
            Err(e) => r == Err::<Reallocation, MultisigError>(e) && *final(multisig) == *old(
                multisig,
            ),
        },
        old(multisig)@.wf() ==> final(multisig)@.wf(),
        r is Ok ==> r->Ok_0.zero_from == allocated && allocated <= r->Ok_0.new_size <= limit,
{
    if authority != multisig.address {
        return Err(MultisigError::Unauthorized);
    }
    match change_type {
        ChangeReallocType::AddStratum(s) => {
            let count: usize = multisig.strata.len();
            if count > 255 || s.rank as usize != count || !s.is_valid() {
                return Err(MultisigError::InvalidStrata);
            }
            if allocated > limit || limit - allocated < STRATUM_BYTES {
                return Err(MultisigError::StorageResizeFailed);
            }
            let room: usize = limit - allocated - STRATUM_BYTES;
            if s.members.len() > room / MEMBER_BYTES {
                return Err(MultisigError::StorageResizeFailed);
            }
            let new_size: usize = allocated + STRATUM_BYTES + MEMBER_BYTES * s.members.len();
            let ghost added = s@;
            multisig.strata.push(s);
            proof {
                let before = old(multisig)@;
                assert(multisig@.strata =~= before.strata.push(added));
                if before.wf() {
                    let after = multisig@.strata;
                    assert forall|i: int| 0 <= i < after.len() implies (#[trigger] after[i]).rank
                        == i && after[i].valid() by {
                        if i < before.strata.len() {
                            assert(after[i] == before.strata[i]);
                        }
                    }
                }
            }
            Ok(Reallocation { new_size, zero_from: allocated })
        },
        ChangeReallocType::AddMember { stratum, member } => {
            if let Some(e) = add_member_refusal(multisig, stratum, member) {
                return Err(e);
            }
            if allocated > limit || limit - allocated < MEMBER_BYTES {
                return Err(MultisigError::StorageResizeFailed);
            }
            match add_member(multisig, stratum, member) {
                Ok(()) => Ok(
                    Reallocation { new_size: allocated + MEMBER_BYTES, zero_from: allocated },
                ),
                Err(e) => Err(e),
            }
        },
    }
}

/// Why `who` cannot be listed in the stratum of rank `rank`, if it cannot.
fn add_member_refusal(multisig: &Multisig, rank: u8, who: Address) -> (r: Option<MultisigError>)
    ensures
        match add_member_model(multisig@, rank, who) {
            Ok(_) => r is None,
            Err(e) => r == Some(e),
        },
{
    let at: usize = rank as usize;
    if at >= multisig.strata.len() {
        return Some(MultisigError::UnknownStratum);
    }
    assert(multisig.strata@[at as int]@ == multisig@.strata[rank as int]);
    if position_of(&multisig.strata[at].members, &who).is_some() {
        return Some(MultisigError::InvalidMembershipChange);
    }
    None
}

} // verus!
