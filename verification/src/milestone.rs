use vstd::prelude::*;
use crate::address::Address;
use crate::payload::{
    InstructionData, InstructionView, Payload, PayloadView, VersionedInstructionView,
};
use crate::transaction::{Status, Transaction, TransactionView};

verus! {

/// A funding vault whose custody lies with a multisig.
#[derive(Clone, Copy, Debug, PartialEq, Eq)]
pub struct Milestone {
    /// The multisig that controls the vault.
    pub owner_multisig: Address,
    /// Who created the vault.
    pub creator: Address,
    /// The identifier of the group the vault belongs to.
    pub group_id: [u8; 16],
    /// The mint of the token that the vault holds.
    pub mint: Address,
    /// The amount the milestone aims for.
    pub target_amount: u64,
    /// The amount deposited so far.
    pub deposited_amount: u64,
    /// The deadline, in seconds since the Unix epoch.
    pub deadline: i64,
}

/// Whether a plain container holds `required` as it stands.
pub open spec fn holds_plain(instructions: Seq<InstructionView>, required: InstructionView) -> bool {
    exists|i: int| 0 <= i < instructions.len() && (#[trigger] instructions[i]) == required
}

/// Whether one of the versioned instructions resolves to `required` with
/// `table`.
pub open spec fn holds_resolved(
    instructions: Seq<VersionedInstructionView>,
    table: Seq<Address>,
    required: InstructionView,
) -> bool {
    exists|i: int|
        0 <= i < instructions.len() && (#[trigger] instructions[i]).resolvable(table)
            && instructions[i].resolved(table) == required
}

/// Whether the container holds `required`: as it stands in a plain
/// container, as what one of the instructions resolves to with `table` in a
/// versioned one.
pub open spec fn carries(p: PayloadView, table: Seq<Address>, required: InstructionView) -> bool {
    match p {
        PayloadView::Plain(d) => holds_plain(d.instructions, required),
        PayloadView::Versioned(d) => holds_resolved(d.instructions, table, required),
    }
}

/// Whether the spend that `required` stands for is authorized for the
/// vault: the transaction was filed under the multisig that controls the
/// vault, it has been executed, and the sealed payload it owns holds
/// exactly that instruction.
pub open spec fn spend_authorized(
    milestone: Milestone,
    t: TransactionView,
    p: PayloadView,
    table: Seq<Address>,
    required: InstructionView,
) -> bool {
    &&& t.id.multisig == milestone.owner_multisig
    &&& t.status == Status::Executed
    &&& p.transaction() == t.id
    &&& p.sealed()
    &&& carries(p, table, required)
}

/// Whether the container holds `required`.
fn holds(payload: &Payload, table: &Vec<Address>, required: &InstructionData) -> (r: bool)
    ensures
        r == carries(payload@, table@, required@),
{
    match payload {
        Payload::Plain(d) => {
            let n: usize = d.instructions.len();
            let mut i: usize = 0;
            while i < n
                invariant
                    i <= n,
                    n == d.instructions.len(),
                    payload@ == PayloadView::Plain(d@),
                    forall|j: int| 0 <= j < i ==> (#[trigger] d@.instructions[j]) != required@,
                decreases n - i,
            {
                if d.instructions[i].same(required) {
                    assert(d@.instructions[i as int] == required@);
                    return true;
                }
                i += 1;
            }
            false
        },
        Payload::Versioned(d) => {
            let n: usize = d.instructions.len();
            let mut i: usize = 0;
            while i < n
                invariant
                    i <= n,
                    n == d.instructions.len(),
                    payload@ == PayloadView::Versioned(d@),
                    forall|j: int|
                        0 <= j < i ==> !((#[trigger] d@.instructions[j]).resolvable(table@)
                            && d@.instructions[j].resolved(table@) == required@),
                decreases n - i,
            {
                assert(d@.instructions[i as int] == d.instructions[i as int]@);
                match d.instructions[i].resolve(table) {
                    Ok(plain) => {
                        if plain.same(required) {
                            return true;
                        }
                    },
                    Err(_) => {},
                }
                i += 1;
            }
            false
        },
    }
}

/// Answers the one question a vault asks of its multisig: is the spend
/// that `required` stands for authorized? `table` is the lookup table that
/// a versioned payload refers to; a plain payload does not read it.
pub fn is_spend_authorized(
    milestone: &Milestone,
    transaction: &Transaction,
    payload: &Payload,
    table: &Vec<Address>,
    required: &InstructionData,
) -> (r: bool)
    ensures
        r == spend_authorized(*milestone, transaction@, payload@, table@, required@),
{
    let executed: bool = match transaction.status {
        Status::Executed => true,
        _ => false,
    };
    executed && transaction.id.multisig == milestone.owner_multisig && payload.transaction().same(
        &transaction.id,
    ) && payload.is_sealed() && holds(payload, table, required)
}

} // verus!
