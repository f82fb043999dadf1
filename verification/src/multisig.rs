use vstd::prelude::*;
use crate::address::Address;
use crate::error::MultisigError;

verus! {

/// One ranked group of signers with the number of accepting votes it takes
/// to approve a transaction filed under it.
#[derive(Clone, Debug, PartialEq, Eq)]
pub struct Stratum {
    pub rank: u8,
    pub members: Vec<Address>,
    pub threshold: u8,
}

/// The mathematical content of a [`Stratum`].
pub struct StratumView {
    pub rank: u8,
    pub members: Seq<Address>,
    pub threshold: u8,
}

impl StratumView {
    /// A stratum is valid when no member is listed twice and its threshold
    /// is at least one and at most the number of members.
    pub open spec fn valid(self) -> bool {
        &&& 1 <= self.threshold <= self.members.len()
        &&& self.members.no_duplicates()
    }
}

impl View for Stratum {
    type V = StratumView;

    open spec fn view(&self) -> StratumView {
        StratumView { rank: self.rank, members: self.members@, threshold: self.threshold }
    }
}

/// The views of a sequence of strata, in order.
pub open spec fn strata_view(strata: Seq<Stratum>) -> Seq<StratumView> {
    strata.map_values(|s: Stratum| s@)
}

/// Strata form a valid membership model when there is at least one, the
/// stratum at each position carries that position as its rank, and each is
/// valid by itself.
pub open spec fn valid_strata(strata: Seq<StratumView>) -> bool {
    &&& strata.len() >= 1
    &&& forall|i: int| 0 <= i < strata.len() ==> (#[trigger] strata[i]).rank == i
    &&& forall|i: int| 0 <= i < strata.len() ==> (#[trigger] strata[i]).valid()
}

/// The persistent record of one multisig: who may sign, in which strata, and
/// how many transactions have been filed under it.
#[derive(Clone, Debug, PartialEq, Eq)]
pub struct Multisig {
    /// The multisig's own address: the identity that authorizes what it owns.
    pub address: Address,
    pub name: String,
    pub strata: Vec<Stratum>,
    /// The number of transactions filed so far; the next one gets this index.
    pub sequence: u64,
}

/// The mathematical content of a [`Multisig`].
pub struct MultisigView {
    pub address: Address,
    pub name: Seq<char>,
    pub strata: Seq<StratumView>,
    pub sequence: u64,
}

impl MultisigView {
    /// The record's invariant.
    pub open spec fn wf(self) -> bool {
        valid_strata(self.strata)
    }

    /// Whether a stratum of this rank exists.
    pub open spec fn has_stratum(self, rank: u8) -> bool {
        (rank as int) < self.strata.len()
    }
}

impl View for Multisig {
    type V = MultisigView;

    open spec fn view(&self) -> MultisigView {
        MultisigView {
            address: self.address,
            name: self.name@,
            strata: strata_view(self.strata@),
            sequence: self.sequence,
        }
    }
}

/// The first position at which `who` is listed, if it is listed at all.
pub fn position_of(members: &Vec<Address>, who: &Address) -> (r: Option<usize>)
    ensures
        match r {
            Some(i) => i < members.len() && members[i as int] == *who && forall|j: int|
                0 <= j < i ==> members[j] != *who,
            None => !members@.contains(*who),
        },
{
    let n: usize = members.len();
    let mut i: usize = 0;
    while i < n
        invariant
            i <= n,
            n == members.len(),
            forall|j: int| 0 <= j < i ==> members[j] != *who,
        decreases n - i,
    {
        if members[i] == *who {
            return Some(i);
        }
        i += 1;
    }
    None
}

/// Whether no address is listed twice.
pub fn all_distinct(members: &Vec<Address>) -> (r: bool)
    ensures
        r == members@.no_duplicates(),
{
    let n: usize = members.len();
    let mut i: usize = 0;
    while i < n
        invariant
            i <= n,
            n == members.len(),
            forall|a: int, b: int| 0 <= a < b < i ==> members[a] != members[b],
        decreases n - i,
    {
        let mut j: usize = 0;
        while j < i
            invariant
                j <= i < n,
                n == members.len(),
                forall|a: int| 0 <= a < j ==> members[a] != members[i as int],
            decreases i - j,
        {
            if members[j] == members[i] {
                return false;
            }
            j += 1;
        }
        i += 1;
    }
    true
}

impl Stratum {
    /// Whether this stratum is valid by itself.
    pub fn is_valid(&self) -> (r: bool)
        ensures
            r == self@.valid(),
    {
        self.threshold >= 1 && self.threshold as usize <= self.members.len() && all_distinct(
            &self.members,
        )
    }
}

/// Whether the strata form a valid membership model.
pub fn strata_are_valid(strata: &Vec<Stratum>) -> (r: bool)
    ensures
        r == valid_strata(strata_view(strata@)),
{
    let n: usize = strata.len();
    if n == 0 {
        return false;
    }
    let ghost views = strata_view(strata@);
    let mut i: usize = 0;
    while i < n
        invariant
            i <= n,
            n == strata.len(),
            views == strata_view(strata@),
            forall|k: int| 0 <= k < i ==> (#[trigger] views[k]).rank == k,
            forall|k: int| 0 <= k < i ==> (#[trigger] views[k]).valid(),
        decreases n - i,
    {
        if i > 255 || strata[i].rank != i as u8 || !strata[i].is_valid() {
            assert(!(views[i as int].rank == i && views[i as int].valid()));
            return false;
        }
        i += 1;
    }
    true
}

/// Creates a multisig at `address` from the strata and the name given, with
/// no transaction filed yet. Refused with `InvalidStrata` exactly when the
/// strata do not form a valid membership model.
pub fn create_multisig(address: Address, strata: Vec<Stratum>, name: String) -> (r: Result<
    Multisig,
    MultisigError,
>)
    ensures
        match r {
            Ok(m) => valid_strata(strata_view(strata@)) && m@ == (MultisigView {
                address,
                name: name@,
                strata: strata_view(strata@),
                sequence: 0,
            }),
            Err(e) => !valid_strata(strata_view(strata@)) && e == MultisigError::InvalidStrata,
        },
        r is Ok ==> r->Ok_0@.wf(),
{
    if !strata_are_valid(&strata) {
        return Err(MultisigError::InvalidStrata);
    }
    Ok(Multisig { address, name, strata, sequence: 0 })
}

} // verus!
