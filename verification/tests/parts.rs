use chipin::multisig::{all_distinct, position_of, strata_are_valid};
use chipin::transaction::{count_votes, has_member, tally};
use chipin::{Address, Status, Stratum, TransactionId, Vote, VoteRecord};

fn who(n: u8) -> Address {
    Address { bytes: [n; 32] }
}

fn line(n: u8, vote: Vote) -> VoteRecord {
    VoteRecord { member: who(n), vote }
}

#[test]
fn position_is_the_first_at_which_the_address_is_listed() {
    let members = vec![who(3), who(1), who(3), who(2)];
    assert_eq!(position_of(&members, &who(3)), Some(0));
    assert_eq!(position_of(&members, &who(1)), Some(1));
    assert_eq!(position_of(&members, &who(2)), Some(3));
    assert_eq!(position_of(&members, &who(4)), None);
    assert_eq!(position_of(&vec![], &who(4)), None);
}

#[test]
fn distinctness_is_about_every_pair() {
    assert!(all_distinct(&vec![]));
    assert!(all_distinct(&vec![who(1)]));
    assert!(all_distinct(&vec![who(1), who(2), who(3)]));
    assert!(!all_distinct(&vec![who(1), who(1)]));
    assert!(!all_distinct(&vec![who(1), who(2), who(1)]));
    assert!(!all_distinct(&vec![who(2), who(1), who(3), who(3)]));
}

#[test]
fn strata_are_valid_when_ranked_by_position_and_each_is_valid() {
    let good = |rank: u8| Stratum { rank, members: vec![who(1), who(2)], threshold: 2 };
    assert!(strata_are_valid(&vec![good(0)]));
    assert!(strata_are_valid(&vec![good(0), good(1), good(2)]));
    assert!(!strata_are_valid(&vec![]));
    assert!(!strata_are_valid(&vec![good(0), good(2), good(1)]));
    assert!(!strata_are_valid(&vec![good(1), good(0)]));
    let mut strata = vec![good(0), good(1)];
    strata[1].threshold = 3;
    assert!(!strata_are_valid(&strata));
}

#[test]
fn a_multisig_can_hold_as_many_strata_as_there_are_ranks() {
    let all: Vec<Stratum> =
        (0..=255u8).map(|rank| Stratum { rank, members: vec![who(rank)], threshold: 1 }).collect();
    assert_eq!(all.len(), 256);
    assert!(strata_are_valid(&all));
    let mut more = all.clone();
    more.push(Stratum { rank: 0, members: vec![who(0)], threshold: 1 });
    assert!(!strata_are_valid(&more));
}

#[test]
fn votes_are_counted_by_kind() {
    let ledger = vec![
        line(1, Vote::Accept),
        line(2, Vote::Reject),
        line(3, Vote::Unvoted),
        line(4, Vote::Accept),
        line(5, Vote::Accept),
    ];
    assert_eq!(count_votes(&ledger, Vote::Accept), 3);
    assert_eq!(count_votes(&ledger, Vote::Reject), 1);
    assert_eq!(count_votes(&ledger, Vote::Unvoted), 1);
    assert_eq!(count_votes(&vec![], Vote::Accept), 0);
}

#[test]
fn tally_approves_at_the_threshold_and_rejects_when_it_is_out_of_reach() {
    let ledger = |votes: [Vote; 4]| -> Vec<VoteRecord> {
        votes.iter().enumerate().map(|(i, v)| line(i as u8, *v)).collect()
    };
    let (a, r, u) = (Vote::Accept, Vote::Reject, Vote::Unvoted);
    assert_eq!(tally(3, &ledger([u, u, u, u])), Status::Open);
    assert_eq!(tally(3, &ledger([a, a, u, u])), Status::Open);
    assert_eq!(tally(3, &ledger([a, a, r, u])), Status::Open);
    assert_eq!(tally(3, &ledger([a, a, a, u])), Status::Approved);
    assert_eq!(tally(3, &ledger([a, a, a, r])), Status::Approved);
    assert_eq!(tally(3, &ledger([r, r, u, u])), Status::Rejected);
    assert_eq!(tally(3, &ledger([a, r, r, a])), Status::Rejected);
    assert_eq!(tally(4, &ledger([a, a, a, r])), Status::Rejected);
    assert_eq!(tally(4, &ledger([a, a, a, a])), Status::Approved);
    assert_eq!(tally(1, &ledger([r, r, r, u])), Status::Open);
    assert_eq!(tally(1, &ledger([r, r, r, r])), Status::Rejected);
    assert_eq!(tally(1, &ledger([r, a, r, r])), Status::Approved);
}

#[test]
fn membership_of_a_ledger_goes_by_address() {
    let ledger = vec![line(1, Vote::Accept), line(2, Vote::Unvoted)];
    assert!(has_member(&ledger, &who(1)));
    assert!(has_member(&ledger, &who(2)));
    assert!(!has_member(&ledger, &who(3)));
    assert!(!has_member(&vec![], &who(1)));
}

#[test]
fn transaction_identifiers_agree_when_both_parts_agree() {
    let id = TransactionId { multisig: who(9), index: 4 };
    assert!(id.same(&TransactionId { multisig: who(9), index: 4 }));
    assert!(!id.same(&TransactionId { multisig: who(9), index: 5 }));
    assert!(!id.same(&TransactionId { multisig: who(8), index: 4 }));
}
