use chipin::{
    add_tx_data, create_multisig, create_transaction, create_tx_data, create_versioned_tx_data,
    finalize_tx_data, is_spend_authorized, vote_transaction, execute_transaction, AccountKey,
    Address, Directive, InstructionAccount, InstructionData, Milestone, Multisig, MultisigError,
    Payload, Status, Stratum, Transaction, TxData, VersionedAccount, VersionedInstructionData,
    VersionedTxData,
};

fn key(n: u8) -> Address {
    Address { bytes: [n; 32] }
}

fn board() -> Multisig {
    let strata = vec![Stratum { rank: 0, members: vec![key(1), key(2)], threshold: 1 }];
    create_multisig(key(100), strata, String::from("board")).unwrap()
}

fn draft(multisig: &mut Multisig) -> Transaction {
    create_transaction(multisig, key(1), 0, String::from("send")).unwrap()
}

fn account(n: u8, is_writable: bool, is_signer: bool) -> InstructionAccount {
    InstructionAccount { address: key(n), is_writable, is_signer }
}

fn instruction(program: u8, accounts: Vec<InstructionAccount>, data: Vec<u8>) -> InstructionData {
    InstructionData { program_id: key(program), accounts, data }
}

fn indexed(position: u8, is_writable: bool) -> VersionedAccount {
    VersionedAccount { key: AccountKey::Indexed(position), is_writable, is_signer: false }
}

fn direct(n: u8, is_signer: bool) -> VersionedAccount {
    VersionedAccount { key: AccountKey::Direct(key(n)), is_writable: false, is_signer }
}

fn versioned(program: u8, accounts: Vec<VersionedAccount>) -> VersionedInstructionData {
    VersionedInstructionData {
        program_id: key(program),
        accounts,
        data: vec![9, 9],
        lookup_table: Some(key(77)),
    }
}

#[test]
fn created_container_is_unsealed_and_bound_to_the_transaction() {
    let mut m = board();
    let t = draft(&mut m);
    let ixs = vec![instruction(50, vec![account(10, true, false)], vec![1])];
    let data = create_tx_data(&t, None, key(1), ixs.clone()).unwrap();
    assert_eq!(data, TxData { transaction: t.id, instructions: ixs, sealed: false });
}

#[test]
fn created_versioned_container_keeps_its_lookup_table() {
    let mut m = board();
    let t = draft(&mut m);
    let ixs = vec![versioned(50, vec![indexed(0, true), direct(3, true)])];
    let data = create_versioned_tx_data(&t, None, key(1), ixs.clone(), Some(key(77))).unwrap();
    assert_eq!(
        data,
        VersionedTxData {
            transaction: t.id,
            instructions: ixs,
            sealed: false,
            lookup_table: Some(key(77)),
        }
    );
    let bare = create_versioned_tx_data(&t, None, key(1), vec![], None).unwrap();
    assert_eq!(bare.lookup_table, None);
    assert!(bare.instructions.is_empty());
}

#[test]
fn only_the_proposer_creates_a_container() {
    let mut m = board();
    let t = draft(&mut m);
    assert_eq!(create_tx_data(&t, None, key(2), vec![]), Err(MultisigError::NotProposer));
    assert_eq!(
        create_versioned_tx_data(&t, None, key(2), vec![], None),
        Err(MultisigError::NotProposer)
    );
}

#[test]
fn unsealed_container_may_be_superseded() {
    let mut m = board();
    let t = draft(&mut m);
    let old = Payload::Plain(create_tx_data(&t, None, key(1), vec![]).unwrap());
    let ixs = vec![instruction(50, vec![], vec![])];
    let new = create_tx_data(&t, Some(&old), key(1), ixs.clone()).unwrap();
    assert_eq!(new.instructions, ixs);
}

#[test]
fn sealed_container_forbids_another() {
    let mut m = board();
    let mut t = draft(&mut m);
    let mut payload =
        Payload::Plain(create_tx_data(&t, None, key(1), vec![instruction(50, vec![], vec![])]).unwrap());
    finalize_tx_data(&mut payload, &mut t, key(1)).unwrap();
    assert_eq!(
        create_tx_data(&t, Some(&payload), key(1), vec![]),
        Err(MultisigError::TransactionAlreadySealed)
    );
    assert_eq!(
        create_tx_data(&t, None, key(1), vec![]),
        Err(MultisigError::TransactionAlreadySealed)
    );
    assert_eq!(
        create_versioned_tx_data(&t, None, key(2), vec![], None),
        Err(MultisigError::TransactionAlreadySealed)
    );
    let mut other = draft(&mut m);
    other.proposer = key(1);
    assert_eq!(
        create_tx_data(&other, Some(&payload), key(1), vec![]),
        Err(MultisigError::TransactionAlreadySealed)
    );
}

#[test]
fn accounts_are_appended_in_order_to_the_instruction_named() {
    let mut m = board();
    let t = draft(&mut m);
    let ixs = vec![
        instruction(50, vec![account(10, true, false)], vec![1]),
        instruction(51, vec![], vec![2, 3]),
    ];
    let mut payload = Payload::Plain(create_tx_data(&t, None, key(1), ixs).unwrap());
    let more = vec![account(11, false, true), account(12, true, true)];
    assert_eq!(add_tx_data(&mut payload, &t, key(1), more, 0), Ok(()));
    assert_eq!(add_tx_data(&mut payload, &t, key(1), vec![account(13, false, false)], 1), Ok(()));
    assert_eq!(add_tx_data(&mut payload, &t, key(1), vec![account(14, false, false)], 0), Ok(()));
    assert_eq!(
        payload,
        Payload::Plain(TxData {
            transaction: t.id,
            instructions: vec![
                instruction(
                    50,
                    vec![
                        account(10, true, false),
                        account(11, false, true),
                        account(12, true, true),
                        account(14, false, false),
                    ],
                    vec![1],
                ),
                instruction(51, vec![account(13, false, false)], vec![2, 3]),
            ],
            sealed: false,
        })
    );
}

#[test]
fn accounts_appended_to_a_versioned_instruction_are_named_by_address() {
    let mut m = board();
    let t = draft(&mut m);
    let ixs = vec![versioned(50, vec![indexed(4, true)])];
    let data = create_versioned_tx_data(&t, None, key(1), ixs, Some(key(77))).unwrap();
    let mut payload = Payload::Versioned(data);
    assert_eq!(add_tx_data(&mut payload, &t, key(1), vec![account(11, true, true)], 0), Ok(()));
    match payload {
        Payload::Versioned(d) => assert_eq!(
            d.instructions[0].accounts,
            vec![
                indexed(4, true),
                VersionedAccount {
                    key: AccountKey::Direct(key(11)),
                    is_writable: true,
                    is_signer: true
                },
            ]
        ),
        Payload::Plain(_) => panic!("the container changed its kind"),
    }
}

#[test]
fn index_must_name_an_instruction() {
    let mut m = board();
    let t = draft(&mut m);
    let ixs = vec![instruction(50, vec![], vec![])];
    let mut payload = Payload::Plain(create_tx_data(&t, None, key(1), ixs).unwrap());
    let before = payload.clone();
    assert_eq!(
        add_tx_data(&mut payload, &t, key(1), vec![account(11, true, true)], 1),
        Err(MultisigError::IndexOutOfRange)
    );
    assert_eq!(
        add_tx_data(&mut payload, &t, key(1), vec![], 255),
        Err(MultisigError::IndexOutOfRange)
    );
    assert_eq!(payload, before);
    let mut empty = Payload::Plain(create_tx_data(&t, None, key(1), vec![]).unwrap());
    assert_eq!(add_tx_data(&mut empty, &t, key(1), vec![], 0), Err(MultisigError::IndexOutOfRange));
}

#[test]
fn only_the_proposer_of_the_owning_transaction_adds() {
    let mut m = board();
    let t = draft(&mut m);
    let other = draft(&mut m);
    let ixs = vec![instruction(50, vec![], vec![])];
    let mut payload = Payload::Plain(create_tx_data(&t, None, key(1), ixs).unwrap());
    let before = payload.clone();
    assert_eq!(add_tx_data(&mut payload, &t, key(2), vec![], 0), Err(MultisigError::NotProposer));
    assert_eq!(add_tx_data(&mut payload, &other, key(1), vec![], 0), Err(MultisigError::NotProposer));
    assert_eq!(add_tx_data(&mut payload, &t, key(2), vec![], 9), Err(MultisigError::NotProposer));
    assert_eq!(payload, before);
}

#[test]
fn sealed_container_refuses_every_addition() {
    let mut m = board();
    let mut t = draft(&mut m);
    let other = draft(&mut m);
    let ixs = vec![instruction(50, vec![account(10, true, false)], vec![1])];
    let mut payload = Payload::Plain(create_tx_data(&t, None, key(1), ixs).unwrap());
    finalize_tx_data(&mut payload, &mut t, key(1)).unwrap();
    let sealed = payload.clone();
    for caller in [1u8, 2, 9] {
        for index in [0u8, 1, 255] {
            for owner in [&t, &other] {
                assert_eq!(
                    add_tx_data(&mut payload, owner, key(caller), vec![account(11, true, true)], index),
                    Err(MultisigError::ContainerSealed)
                );
                assert_eq!(
                    add_tx_data(&mut payload, owner, key(caller), vec![], index),
                    Err(MultisigError::ContainerSealed)
                );
            }
        }
    }
    assert_eq!(payload, sealed);

    let mut u = draft(&mut m);
    let data = create_versioned_tx_data(&u, None, key(1), vec![versioned(50, vec![])], None).unwrap();
    let mut payload = Payload::Versioned(data);
    finalize_tx_data(&mut payload, &mut u, key(1)).unwrap();
    assert_eq!(
        add_tx_data(&mut payload, &u, key(1), vec![], 0),
        Err(MultisigError::ContainerSealed)
    );
}

#[test]
fn empty_container_cannot_be_sealed() {
    let mut m = board();
    let mut t = draft(&mut m);
    let mut payload = Payload::Plain(create_tx_data(&t, None, key(1), vec![]).unwrap());
    assert_eq!(finalize_tx_data(&mut payload, &mut t, key(1)), Err(MultisigError::EmptyPayload));
    assert!(!payload.is_sealed());
    assert_eq!(t.status, Status::Draft);

    let data = create_versioned_tx_data(&t, None, key(1), vec![], None).unwrap();
    let mut payload = Payload::Versioned(data);
    assert_eq!(finalize_tx_data(&mut payload, &mut t, key(1)), Err(MultisigError::EmptyPayload));
    assert_eq!(t.status, Status::Draft);
}

#[test]
fn sealing_opens_the_transaction() {
    let mut m = board();
    let mut t = draft(&mut m);
    let ixs = vec![instruction(50, vec![], vec![])];
    let mut payload = Payload::Plain(create_tx_data(&t, None, key(1), ixs.clone()).unwrap());
    assert_eq!(finalize_tx_data(&mut payload, &mut t, key(1)), Ok(()));
    assert_eq!(t.status, Status::Open);
    assert_eq!(
        payload,
        Payload::Plain(TxData { transaction: t.id, instructions: ixs, sealed: true })
    );
    assert!(payload.is_sealed());
    assert_eq!(payload.len(), 1);
    assert_eq!(payload.transaction(), t.id);
}

#[test]
fn sealing_twice_is_refused() {
    let mut m = board();
    let mut t = draft(&mut m);
    let ixs = vec![instruction(50, vec![], vec![])];
    let mut payload = Payload::Plain(create_tx_data(&t, None, key(1), ixs).unwrap());
    finalize_tx_data(&mut payload, &mut t, key(1)).unwrap();
    let (sealed, opened) = (payload.clone(), t.clone());
    assert_eq!(finalize_tx_data(&mut payload, &mut t, key(1)), Err(MultisigError::AlreadyFinalized));
    assert_eq!(finalize_tx_data(&mut payload, &mut t, key(2)), Err(MultisigError::AlreadyFinalized));
    assert_eq!((payload, t), (sealed, opened));
}

#[test]
fn only_the_proposer_seals() {
    let mut m = board();
    let mut t = draft(&mut m);
    let mut other = draft(&mut m);
    let ixs = vec![instruction(50, vec![], vec![])];
    let mut payload = Payload::Plain(create_tx_data(&t, None, key(1), ixs).unwrap());
    assert_eq!(finalize_tx_data(&mut payload, &mut t, key(2)), Err(MultisigError::NotProposer));
    assert_eq!(finalize_tx_data(&mut payload, &mut other, key(1)), Err(MultisigError::NotProposer));
    assert!(!payload.is_sealed());
    assert_eq!(t.status, Status::Draft);
    assert_eq!(other.status, Status::Draft);
    let mut empty = Payload::Plain(create_tx_data(&t, None, key(1), vec![]).unwrap());
    assert_eq!(finalize_tx_data(&mut empty, &mut t, key(2)), Err(MultisigError::NotProposer));
}

#[test]
fn second_container_cannot_be_sealed_for_an_open_transaction() {
    let mut m = board();
    let mut t = draft(&mut m);
    let ixs = vec![instruction(50, vec![], vec![])];
    let mut first = Payload::Plain(create_tx_data(&t, None, key(1), ixs.clone()).unwrap());
    let mut second = Payload::Plain(create_tx_data(&t, None, key(1), ixs).unwrap());
    finalize_tx_data(&mut first, &mut t, key(1)).unwrap();
    assert_eq!(
        finalize_tx_data(&mut second, &mut t, key(1)),
        Err(MultisigError::TransactionAlreadySealed)
    );
    assert!(!second.is_sealed());
    assert_eq!(t.status, Status::Open);
}

#[test]
fn positions_resolve_through_the_lookup_table() {
    let ix = versioned(50, vec![indexed(2, true), direct(3, true), indexed(0, false)]);
    let table = vec![key(20), key(21), key(22)];
    assert_eq!(
        ix.resolve(&table),
        Ok(InstructionData {
            program_id: key(50),
            accounts: vec![
                account(22, true, false),
                account(3, false, true),
                account(20, false, false),
            ],
            data: vec![9, 9],
        })
    );
}

#[test]
fn position_beyond_the_table_does_not_resolve() {
    let ix = versioned(50, vec![indexed(0, true), indexed(3, true)]);
    let table = vec![key(20), key(21), key(22)];
    assert_eq!(ix.resolve(&table), Err(MultisigError::IndexOutOfRange));
    assert_eq!(ix.resolve(&vec![]), Err(MultisigError::IndexOutOfRange));
    let plain = versioned(50, vec![direct(3, false)]);
    assert!(plain.resolve(&vec![]).is_ok());
}

#[test]
fn instructions_are_the_same_when_every_part_agrees() {
    let a = instruction(50, vec![account(10, true, false)], vec![1, 2]);
    assert!(a.same(&a.clone()));
    assert!(!a.same(&instruction(51, vec![account(10, true, false)], vec![1, 2])));
    assert!(!a.same(&instruction(50, vec![account(11, true, false)], vec![1, 2])));
    assert!(!a.same(&instruction(50, vec![account(10, false, false)], vec![1, 2])));
    assert!(!a.same(&instruction(50, vec![account(10, true, true)], vec![1, 2])));
    assert!(!a.same(&instruction(50, vec![account(10, true, false)], vec![1, 3])));
    assert!(!a.same(&instruction(50, vec![account(10, true, false)], vec![1])));
    assert!(!a.same(&instruction(50, vec![], vec![1, 2])));
}

fn vault() -> Milestone {
    Milestone {
        owner_multisig: key(100),
        creator: key(1),
        group_id: [5; 16],
        mint: key(60),
        target_amount: 1_000,
        deposited_amount: 400,
        deadline: 1_900_000_000,
    }
}

fn executed(multisig: &mut Multisig, payload: &mut Payload, t: &mut Transaction) {
    finalize_tx_data(payload, t, key(1)).unwrap();
    vote_transaction(t, key(2), 0, true).unwrap();
    let mut log = vec![];
    while let Directive::Dispatch { .. } = execute_transaction(t, payload, 0, &log).unwrap() {
        log.push(true);
    }
    assert_eq!(t.status, Status::Executed);
    assert_eq!(multisig.sequence, t.id.index + 1);
}

#[test]
fn spend_is_authorized_once_its_instruction_was_executed() {
    let mut m = board();
    let mut t = draft(&mut m);
    let spend = instruction(50, vec![account(10, true, false)], vec![4, 0, 0]);
    let ixs = vec![instruction(51, vec![], vec![]), spend.clone()];
    let mut payload = Payload::Plain(create_tx_data(&t, None, key(1), ixs).unwrap());
    assert!(!is_spend_authorized(&vault(), &t, &payload, &vec![], &spend));
    finalize_tx_data(&mut payload, &mut t, key(1)).unwrap();
    assert!(!is_spend_authorized(&vault(), &t, &payload, &vec![], &spend));
    vote_transaction(&mut t, key(2), 0, true).unwrap();
    assert_eq!(t.status, Status::Approved);
    assert!(!is_spend_authorized(&vault(), &t, &payload, &vec![], &spend));
    let mut log = vec![];
    while let Directive::Dispatch { .. } = execute_transaction(&mut t, &payload, 0, &log).unwrap() {
        log.push(true);
    }
    assert!(is_spend_authorized(&vault(), &t, &payload, &vec![], &spend));

    let larger = instruction(50, vec![account(10, true, false)], vec![5, 0, 0]);
    assert!(!is_spend_authorized(&vault(), &t, &payload, &vec![], &larger));
    let mut foreign = vault();
    foreign.owner_multisig = key(101);
    assert!(!is_spend_authorized(&foreign, &t, &payload, &vec![], &spend));
}

#[test]
fn spend_is_not_authorized_by_another_transaction_s_payload() {
    let mut m = board();
    let mut t = draft(&mut m);
    let mut u = draft(&mut m);
    let spend = instruction(50, vec![], vec![4]);
    let mut mine = Payload::Plain(create_tx_data(&t, None, key(1), vec![spend.clone()]).unwrap());
    let idle = instruction(51, vec![], vec![]);
    let mut theirs = Payload::Plain(create_tx_data(&u, None, key(1), vec![idle]).unwrap());
    executed(&mut m, &mut theirs, &mut u);
    finalize_tx_data(&mut mine, &mut t, key(1)).unwrap();
    assert!(!is_spend_authorized(&vault(), &u, &mine, &vec![], &spend));
    assert!(!is_spend_authorized(&vault(), &u, &theirs, &vec![], &spend));
    assert!(!is_spend_authorized(&vault(), &t, &mine, &vec![], &spend));
}

#[test]
fn spend_in_a_versioned_payload_is_matched_after_resolution() {
    let mut m = board();
    let mut t = draft(&mut m);
    let ixs = vec![versioned(50, vec![indexed(1, true)])];
    let data = create_versioned_tx_data(&t, None, key(1), ixs, Some(key(77))).unwrap();
    let mut payload = Payload::Versioned(data);
    executed(&mut m, &mut payload, &mut t);
    let table = vec![key(20), key(21)];
    let spend = instruction(50, vec![account(21, true, false)], vec![9, 9]);
    assert!(is_spend_authorized(&vault(), &t, &payload, &table, &spend));
    assert!(!is_spend_authorized(&vault(), &t, &payload, &vec![key(20)], &spend));
    assert!(!is_spend_authorized(&vault(), &t, &payload, &vec![key(21), key(20)], &spend));
}
