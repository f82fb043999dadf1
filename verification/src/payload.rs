use vstd::prelude::*;
use crate::address::Address;
use crate::error::MultisigError;
use crate::transaction::{Status, Transaction, TransactionId, TransactionView};

verus! {

/// One account that an embedded instruction touches.
#[derive(Clone, Copy, Debug, PartialEq, Eq)]
pub struct InstructionAccount {
    pub address: Address,
    pub is_writable: bool,
    pub is_signer: bool,
}

/// One embedded instruction: the program it targets, the accounts it
/// touches, in order, and its opaque payload bytes.
#[derive(Clone, Debug, PartialEq, Eq)]
pub struct InstructionData {
    pub program_id: Address,
    pub accounts: Vec<InstructionAccount>,
    pub data: Vec<u8>,
}

/// The mathematical content of an [`InstructionData`].
pub struct InstructionView {
    pub program_id: Address,
    pub accounts: Seq<InstructionAccount>,
    pub data: Seq<u8>,
}

impl View for InstructionData {
    type V = InstructionView;

    open spec fn view(&self) -> InstructionView {
        InstructionView { program_id: self.program_id, accounts: self.accounts@, data: self.data@ }
    }
}

/// How a versioned instruction names an account: by its address, or by a
/// position in a lookup table that is supplied from outside.
#[derive(Clone, Copy, Debug, PartialEq, Eq)]
pub enum AccountKey {
    Direct(Address),
    Indexed(u8),
}

/// One account that a versioned instruction touches.
#[derive(Clone, Copy, Debug, PartialEq, Eq)]
pub struct VersionedAccount {
    pub key: AccountKey,
    pub is_writable: bool,
    pub is_signer: bool,
}

/// An embedded instruction whose accounts may be named by position in a
/// lookup table.
#[derive(Clone, Debug, PartialEq, Eq)]
pub struct VersionedInstructionData {
    pub program_id: Address,
    pub accounts: Vec<VersionedAccount>,
    pub data: Vec<u8>,
    /// The table that the positions refer to, if the instruction names one.
    pub lookup_table: Option<Address>,
}

/// The mathematical content of a [`VersionedInstructionData`].
pub struct VersionedInstructionView {
    pub program_id: Address,
    pub accounts: Seq<VersionedAccount>,
    pub data: Seq<u8>,
    pub lookup_table: Option<Address>,
}

impl View for VersionedInstructionData {
    type V = VersionedInstructionView;

    open spec fn view(&self) -> VersionedInstructionView {
        VersionedInstructionView {
            program_id: self.program_id,
            accounts: self.accounts@,
            data: self.data@,
            lookup_table: self.lookup_table,
        }
    }
}

/// The container in which a transaction's instructions are assembled and
/// then sealed.
#[derive(Clone, Debug, PartialEq, Eq)]
pub struct TxData {
    pub transaction: TransactionId,
    pub instructions: Vec<InstructionData>,
    pub sealed: bool,
}

/// The mathematical content of a [`TxData`].
pub struct TxDataView {
    pub transaction: TransactionId,
    pub instructions: Seq<InstructionView>,
    pub sealed: bool,
}

/// The views of a sequence of instructions, in order.
pub open spec fn instruction_views(instructions: Seq<InstructionData>) -> Seq<InstructionView> {
    instructions.map_values(|ix: InstructionData| ix@)
}

impl View for TxData {
    type V = TxDataView;

    open spec fn view(&self) -> TxDataView {
        TxDataView {
            transaction: self.transaction,
            instructions: instruction_views(self.instructions@),
            sealed: self.sealed,
        }
    }
}

/// The container for versioned instructions.
#[derive(Clone, Debug, PartialEq, Eq)]
pub struct VersionedTxData {
    pub transaction: TransactionId,
    pub instructions: Vec<VersionedInstructionData>,
    pub sealed: bool,
    /// The table that the container as a whole refers to, if any.
    pub lookup_table: Option<Address>,
}

/// The mathematical content of a [`VersionedTxData`].
pub struct VersionedTxDataView {
    pub transaction: TransactionId,
    pub instructions: Seq<VersionedInstructionView>,
    pub sealed: bool,
    pub lookup_table: Option<Address>,
}

/// The views of a sequence of versioned instructions, in order.
pub open spec fn versioned_views(instructions: Seq<VersionedInstructionData>) -> Seq<
    VersionedInstructionView,
> {
    instructions.map_values(|ix: VersionedInstructionData| ix@)
}

impl View for VersionedTxData {
    type V = VersionedTxDataView;

    open spec fn view(&self) -> VersionedTxDataView {
        VersionedTxDataView {
            transaction: self.transaction,
            instructions: versioned_views(self.instructions@),
            sealed: self.sealed,
            lookup_table: self.lookup_table,
        }
    }
}

/// The one payload of a transaction: a plain container or a versioned one.
#[derive(Clone, Debug, PartialEq, Eq)]
pub enum Payload {
    Plain(TxData),
    Versioned(VersionedTxData),
}

/// The mathematical content of a [`Payload`].
pub enum PayloadView {
    Plain(TxDataView),
    Versioned(VersionedTxDataView),
}

impl View for Payload {
    type V = PayloadView;

    open spec fn view(&self) -> PayloadView {
        match self {
            Payload::Plain(d) => PayloadView::Plain(d@),
            Payload::Versioned(d) => PayloadView::Versioned(d@),
        }
    }
}

/// The accounts as a versioned instruction holds them when each is named by
/// its address.
pub open spec fn direct_accounts(keys: Seq<InstructionAccount>) -> Seq<VersionedAccount> {
    keys.map_values(
        |k: InstructionAccount|
            VersionedAccount {
                key: AccountKey::Direct(k.address),
                is_writable: k.is_writable,
                is_signer: k.is_signer,
            },
    )
}

impl PayloadView {
    /// The transaction that owns the container.
    pub open spec fn transaction(self) -> TransactionId {
        match self {
            PayloadView::Plain(d) => d.transaction,
            PayloadView::Versioned(d) => d.transaction,
        }
    }

    /// Whether the container has been sealed.
    pub open spec fn sealed(self) -> bool {
        match self {
            PayloadView::Plain(d) => d.sealed,
            PayloadView::Versioned(d) => d.sealed,
        }
    }

    /// How many instructions the container holds.
    pub open spec fn len(self) -> nat {
        match self {
            PayloadView::Plain(d) => d.instructions.len(),
            PayloadView::Versioned(d) => d.instructions.len(),
        }
    }

    /// The invariant of a container: a sealed one holds at least one
    /// instruction.
    pub open spec fn wf(self) -> bool {
        self.sealed() ==> self.len() > 0
    }

    /// The same container, sealed.
    pub open spec fn seal(self) -> PayloadView {
        match self {
            PayloadView::Plain(d) => PayloadView::Plain(TxDataView { sealed: true, ..d }),
            PayloadView::Versioned(d) => PayloadView::Versioned(
                VersionedTxDataView { sealed: true, ..d },
            ),
        }
    }

    /// The same container with `keys` appended, in order, to the accounts of
    /// the instruction at position `i`. In a versioned container the new
    /// accounts are named by address.
    pub open spec fn with_accounts(self, i: int, keys: Seq<InstructionAccount>) -> PayloadView {
        match self {
            PayloadView::Plain(d) => PayloadView::Plain(
                TxDataView {
                    instructions: d.instructions.update(
                        i,
                        InstructionView {
                            accounts: d.instructions[i].accounts + keys,
                            ..d.instructions[i]
                        },
                    ),
                    ..d
                },
            ),
            PayloadView::Versioned(d) => PayloadView::Versioned(
                VersionedTxDataView {
                    instructions: d.instructions.update(
                        i,
                        VersionedInstructionView {
                            accounts: d.instructions[i].accounts + direct_accounts(keys),
                            ..d.instructions[i]
                        },
                    ),
                    ..d
                },
            ),
        }
    }
}

/// Whether `caller` acts as the creator of the transaction that owns the
/// container.
pub open spec fn is_proposer_of(t: TransactionView, p: PayloadView, caller: Address) -> bool {
    p.transaction() == t.id && caller == t.proposer
}

/// Why a new container may not be created for the transaction, if it may
/// not: `TransactionAlreadySealed` when the transaction has left the draft
/// state or the container it already has is sealed; else `NotProposer` when
/// the caller did not create the transaction.
pub open spec fn creation_refusal(
    t: TransactionView,
    existing: Option<PayloadView>,
    caller: Address,
) -> Option<MultisigError> {
    if t.status != Status::Draft || (existing matches Some(p) && p.sealed()) {
        Some(MultisigError::TransactionAlreadySealed)
    } else if caller != t.proposer {
        Some(MultisigError::NotProposer)
    } else {
        None
    }
}

/// What appending accounts yields: refused with `ContainerSealed` whenever
/// the container is sealed, whatever else holds; else with `NotProposer`
/// unless the caller created the owning transaction; else with
/// `IndexOutOfRange` unless the index names an instruction; otherwise the
/// container with the accounts appended to that instruction.
pub open spec fn add_model(
    p: PayloadView,
    t: TransactionView,
    caller: Address,
    keys: Seq<InstructionAccount>,
    instruction_index: u8,
) -> Result<PayloadView, MultisigError> {
    if p.sealed() {
        Err(MultisigError::ContainerSealed)
    } else if !is_proposer_of(t, p, caller) {
        Err(MultisigError::NotProposer)
    } else if instruction_index >= p.len() {
        Err(MultisigError::IndexOutOfRange)
    } else {
        Ok(p.with_accounts(instruction_index as int, keys))
    }
}

/// What sealing yields: refused with `AlreadyFinalized` when the container
/// is sealed; else with `NotProposer` unless the caller created the owning
/// transaction; else with `TransactionAlreadySealed` unless that transaction
/// is a draft; else with `EmptyPayload` when the container holds no
/// instruction; otherwise the container sealed and the transaction open.
pub open spec fn finalize_model(p: PayloadView, t: TransactionView, caller: Address) -> Result<
    (PayloadView, TransactionView),
    MultisigError,
> {
    if p.sealed() {
        Err(MultisigError::AlreadyFinalized)
    } else if !is_proposer_of(t, p, caller) {
        Err(MultisigError::NotProposer)
    } else if t.status != Status::Draft {
        Err(MultisigError::TransactionAlreadySealed)
    } else if p.len() == 0 {
        Err(MultisigError::EmptyPayload)
    } else {
        Ok((p.seal(), TransactionView { status: Status::Open, ..t }))
    }
}

/// The view of a container that may or may not be there.
pub open spec fn optional_view(existing: Option<&Payload>) -> Option<PayloadView> {
    match existing {
        Some(p) => Some(p@),
        None => None,
    }
}

impl Payload {
    /// The transaction that owns the container.
    pub fn transaction(&self) -> (r: TransactionId)
        ensures
            r == self@.transaction(),
    {
        match self {
            Payload::Plain(d) => d.transaction,
            Payload::Versioned(d) => d.transaction,
        }
    }

    /// Whether the container has been sealed.
    pub fn is_sealed(&self) -> (r: bool)
        ensures
            r == self@.sealed(),
    {
        match self {
            Payload::Plain(d) => d.sealed,
            Payload::Versioned(d) => d.sealed,
        }
    }

    /// How many instructions the container holds.
    pub fn len(&self) -> (r: usize)
        ensures
            r == self@.len(),
    {
        match self {
            Payload::Plain(d) => d.instructions.len(),
            Payload::Versioned(d) => d.instructions.len(),
        }
    }
}

fn refusal_to_create(transaction: &Transaction, existing: Option<&Payload>, caller: Address) -> (r:
    Option<MultisigError>)
    ensures
        r == creation_refusal(transaction@, optional_view(existing), caller),
{
    let occupied: bool = match existing {
        Some(p) => p.is_sealed(),
        None => false,
    };
    let draft: bool = match transaction.status {
        Status::Draft => true,
        _ => false,
    };
    if !draft || occupied {
        Some(MultisigError::TransactionAlreadySealed)
    } else if caller != transaction.proposer {
        Some(MultisigError::NotProposer)
    } else {
        None
    }
}

/// Creates an unsealed container for `transaction` that holds the
/// instructions given, which may be none yet.
///
/// `existing` is the container that the transaction already has, if any: an
/// unsealed one is superseded, a sealed one forbids the creation. Refused
/// with `TransactionAlreadySealed` when the transaction is no longer a draft
/// or `existing` is sealed; else with `NotProposer` when the caller did not
/// create the transaction.
pub fn create_tx_data(
    transaction: &Transaction,
    existing: Option<&Payload>,
    caller: Address,
    instructions: Vec<InstructionData>,
) -> (r: Result<TxData, MultisigError>)
    ensures
        match creation_refusal(transaction@, optional_view(existing), caller) {
            Some(e) => r is Err && r->Err_0 == e,
            None => r is Ok && r->Ok_0@ == (TxDataView {
                transaction: transaction.id,
                instructions: instruction_views(instructions@),
                sealed: false,
            }),
        },
{
    match refusal_to_create(transaction, existing, caller) {
        Some(e) => Err(e),
        None => Ok(TxData { transaction: transaction.id, instructions, sealed: false }),
    }
}

/// Creates an unsealed versioned container for `transaction` that holds the
/// instructions given and refers to `lookup_table`. It is refused exactly as
/// the creation of a plain container is.
pub fn create_versioned_tx_data(
    transaction: &Transaction,
    existing: Option<&Payload>,
    caller: Address,
    versioned_ixs: Vec<VersionedInstructionData>,
    lookup_table: Option<Address>,
) -> (r: Result<VersionedTxData, MultisigError>)
    ensures
        match creation_refusal(transaction@, optional_view(existing), caller) {
            Some(e) => r is Err && r->Err_0 == e,
            None => r is Ok && r->Ok_0@ == (VersionedTxDataView {
                transaction: transaction.id,
                instructions: versioned_views(versioned_ixs@),
                sealed: false,
                lookup_table,
            }),
        },
{
    match refusal_to_create(transaction, existing, caller) {
        Some(e) => Err(e),
        None => Ok(
            VersionedTxData {
                transaction: transaction.id,
                instructions: versioned_ixs,
                sealed: false,
                lookup_table,
            },
        ),
    }
}

/// Appends to `accounts` each of `keys`, named by its address.
fn append_direct(accounts: &mut Vec<VersionedAccount>, keys: &Vec<InstructionAccount>)
    ensures
        final(accounts)@ == old(accounts)@ + direct_accounts(keys@),
{
    let n: usize = keys.len();
    let mut i: usize = 0;
    assert(accounts@ =~= old(accounts)@ + direct_accounts(keys@.take(0)));
    while i < n
        invariant
            i <= n,
            n == keys.len(),
            accounts@ == old(accounts)@ + direct_accounts(keys@.take(i as int)),
        decreases n - i,
    {
        let k = keys[i];
        accounts.push(
            VersionedAccount {
                key: AccountKey::Direct(k.address),
                is_writable: k.is_writable,
                is_signer: k.is_signer,
            },
        );
        assert(keys@.take(i + 1) =~= keys@.take(i as int).push(k));
        assert(accounts@ =~= old(accounts)@ + direct_accounts(keys@.take(i + 1)));
        i += 1;
    }
    assert(keys@.take(n as int) =~= keys@);
}

/// Appends `keys`, in order, to the accounts of the instruction at
/// `instruction_index` of an unsealed container.
///
/// A sealed container refuses with `ContainerSealed`, whatever the other
/// arguments are. Otherwise the call is refused with `NotProposer` unless
/// `transaction` owns the container and `caller` created it, and with
/// `IndexOutOfRange` unless the index names an instruction. Every refusal
/// leaves the container untouched.
pub fn add_tx_data(
    payload: &mut Payload,
    transaction: &Transaction,
    caller: Address,
    keys: Vec<InstructionAccount>,
    instruction_index: u8,
) -> (r: Result<(), MultisigError>)
    ensures
        match add_model(old(payload)@, transaction@, caller, keys@, instruction_index) {
            Ok(p) => r is Ok && final(payload)@ == p,
            Err(e) => r == Err::<(), MultisigError>(e) && *final(payload) == *old(payload),
        },
        old(payload)@.sealed() ==> r == Err::<(), MultisigError>(MultisigError::ContainerSealed)
            && *final(payload) == *old(payload),
        old(payload)@.wf() ==> final(payload)@.wf(),
{
    if payload.is_sealed() {
        return Err(MultisigError::ContainerSealed);
    }
    if !payload.transaction().same(&transaction.id) || caller != transaction.proposer {
        return Err(MultisigError::NotProposer);
    }
    let i: usize = instruction_index as usize;
    if i >= payload.len() {
        return Err(MultisigError::IndexOutOfRange);
    }
    match payload {
        Payload::Plain(d) => {
            let ghost before = d@;
            let ghost added = keys@;
            let mut keys = keys;
            d.instructions[i].accounts.append(&mut keys);
            assert(d@.instructions =~= before.instructions.update(
                i as int,
                InstructionView {
                    accounts: before.instructions[i as int].accounts + added,
                    ..before.instructions[i as int]
                },
            ));
        },
        Payload::Versioned(d) => {
            let ghost before = d@;
            append_direct(&mut d.instructions[i].accounts, &keys);
            assert(d@.instructions =~= before.instructions.update(
                i as int,
                VersionedInstructionView {
                    accounts: before.instructions[i as int].accounts + direct_accounts(keys@),
                    ..before.instructions[i as int]
                },
            ));
        },
    }
    Ok(())
}

/// Seals the container and opens its transaction for voting.
///
/// Refused with `AlreadyFinalized` when the container is sealed; else with
/// `NotProposer` unless `transaction` owns the container and `caller`
/// created it; else with `TransactionAlreadySealed` unless the transaction
/// is a draft; else with `EmptyPayload` when the container holds no
/// instruction. Every refusal leaves both records untouched.
pub fn finalize_tx_data(payload: &mut Payload, transaction: &mut Transaction, caller: Address) -> (r:
    Result<(), MultisigError>)
    ensures
        match finalize_model(old(payload)@, old(transaction)@, caller) {
            Ok((p, t)) => r is Ok && final(payload)@ == p && final(transaction)@ == t,
            Err(e) => r == Err::<(), MultisigError>(e) && *final(payload) == *old(payload)
                && *final(transaction) == *old(transaction),
        },
        r is Ok ==> final(payload)@.wf(),
        old(payload)@.wf() ==> final(payload)@.wf(),
        old(transaction)@.wf() ==> final(transaction)@.wf(),
{
    if payload.is_sealed() {
        return Err(MultisigError::AlreadyFinalized);
    }
    if !payload.transaction().same(&transaction.id) || caller != transaction.proposer {
        return Err(MultisigError::NotProposer);
    }
    match transaction.status {
        Status::Draft => {},
        _ => {
            return Err(MultisigError::TransactionAlreadySealed);
        },
    }
    if payload.len() == 0 {
        return Err(MultisigError::EmptyPayload);
    }
    match payload {
        Payload::Plain(d) => {
            d.sealed = true;
        },
        Payload::Versioned(d) => {
            d.sealed = true;
        },
    }
    transaction.status = Status::Open;
    proof {
        crate::transaction::votes(transaction@.ledger).to_multiset_ensures();
    }
    Ok(())
}

/// The address that a key stands for, given the lookup table: its own when
/// it is direct, the table's entry at its position when that position
/// exists, none otherwise.
pub open spec fn resolve_key(key: AccountKey, table: Seq<Address>) -> Option<Address> {
    match key {
        AccountKey::Direct(a) => Some(a),
        AccountKey::Indexed(i) => if (i as int) < table.len() {
            Some(table[i as int])
        } else {
            None
        },
    }
}

/// The account that a versioned account stands for, given the lookup table.
pub open spec fn resolve_account(a: VersionedAccount, table: Seq<Address>) -> InstructionAccount {
    InstructionAccount {
        address: resolve_key(a.key, table)->Some_0,
        is_writable: a.is_writable,
        is_signer: a.is_signer,
    }
}

impl VersionedInstructionView {
    /// Whether the table has an entry for every position the instruction
    /// names.
    pub open spec fn resolvable(self, table: Seq<Address>) -> bool {
        forall|i: int|
            0 <= i < self.accounts.len() ==> resolve_key(
                (#[trigger] self.accounts[i]).key,
                table,
            ) is Some
    }

    /// The plain instruction that this one stands for, given the table.
    pub open spec fn resolved(self, table: Seq<Address>) -> InstructionView {
        InstructionView {
            program_id: self.program_id,
            accounts: self.accounts.map_values(|a: VersionedAccount| resolve_account(a, table)),
            data: self.data,
        }
    }
}

/// A copy of the bytes.
fn copy_bytes(bytes: &Vec<u8>) -> (r: Vec<u8>)
    ensures
        r@ == bytes@,
{
    let n: usize = bytes.len();
    let mut r: Vec<u8> = Vec::new();
    let mut i: usize = 0;
    while i < n
        invariant
            i <= n,
            n == bytes.len(),
            r@ == bytes@.take(i as int),
        decreases n - i,
    {
        r.push(bytes[i]);
        assert(bytes@.take(i + 1) =~= bytes@.take(i as int).push(bytes[i as int]));
        i += 1;
    }
    assert(bytes@.take(n as int) =~= bytes@);
    r
}

impl VersionedInstructionData {
    /// Replaces every position by the table's entry for it, which gives the
    /// plain instruction to dispatch. Refused with `IndexOutOfRange` exactly
    /// when the instruction names a position that the table does not have.
    pub fn resolve(&self, table: &Vec<Address>) -> (r: Result<InstructionData, MultisigError>)
        ensures
            match r {
                Ok(ix) => self@.resolvable(table@) && ix@ == self@.resolved(table@),
                Err(e) => !self@.resolvable(table@) && e == MultisigError::IndexOutOfRange,
            },
    {
        let n: usize = self.accounts.len();
        let mut accounts: Vec<InstructionAccount> = Vec::new();
        let mut i: usize = 0;
        while i < n
            invariant
                i <= n,
                n == self.accounts.len(),
                forall|j: int|
                    0 <= j < i ==> resolve_key((#[trigger] self.accounts[j]).key, table@) is Some,
                accounts@ == self@.resolved(table@).accounts.take(i as int),
            decreases n - i,
        {
            let a = self.accounts[i];
            let address = match a.key {
                AccountKey::Direct(address) => address,
                AccountKey::Indexed(k) => {
                    if k as usize >= table.len() {
                        assert(resolve_key(self@.accounts[i as int].key, table@) is None);
                        return Err(MultisigError::IndexOutOfRange);
                    }
                    table[k as usize]
                },
            };
            accounts.push(
                InstructionAccount { address, is_writable: a.is_writable, is_signer: a.is_signer },
            );
            assert(accounts@ =~= self@.resolved(table@).accounts.take(i + 1));
            i += 1;
        }
        assert(self@.resolved(table@).accounts.take(n as int) =~= self@.resolved(table@).accounts);
        let data = copy_bytes(&self.data);
        Ok(InstructionData { program_id: self.program_id, accounts, data })
    }
}

impl InstructionData {
    /// Whether both are the same instruction: the same program, the same
    /// accounts with the same flags in the same order, the same bytes.
    pub fn same(&self, other: &InstructionData) -> (r: bool)
        ensures
            r == (self@ == other@),
    {
        if self.program_id != other.program_id || self.accounts.len() != other.accounts.len()
            || self.data.len() != other.data.len() {
            return false;
        }
        let n: usize = self.accounts.len();
        let mut i: usize = 0;
        while i < n
            invariant
                i <= n,
                n == self.accounts.len(),
                n == other.accounts.len(),
                forall|j: int| 0 <= j < i ==> self.accounts[j] == other.accounts[j],
            decreases n - i,
        {
            let a = self.accounts[i];
            let b = other.accounts[i];
            if a.address != b.address || a.is_writable != b.is_writable || a.is_signer
                != b.is_signer {
                return false;
            }
            i += 1;
        }
        assert(self.accounts@ =~= other.accounts@);
        let m: usize = self.data.len();
        let mut k: usize = 0;
        while k < m
            invariant
                k <= m,
                m == self.data.len(),
                m == other.data.len(),
                forall|j: int| 0 <= j < k ==> self.data[j] == other.data[j],
            decreases m - k,
        {
            if self.data[k] != other.data[k] {
                return false;
            }
            k += 1;
        }
        assert(self.data@ =~= other.data@);
        true
    }
}

} // verus!
