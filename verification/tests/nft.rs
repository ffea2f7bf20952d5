use microbonds::error::Error;
use microbonds::nft::{
    assert_at_least_one_yocto, checked_royalty_to_payout, royalty_to_payout, Contract, Token,
};
use microbonds::str_map::StrMap;

fn token(owner: &str, approvals: &[(&str, u64)], next: u64) -> Token {
    let mut approved_account_ids = StrMap::new();
    for (account, id) in approvals {
        approved_account_ids.insert(account.to_string(), *id);
    }
    let mut royalty = StrMap::new();
    royalty.insert("city.near".to_string(), 250u32);
    Token { owner_id: owner.to_string(), approved_account_ids, next_approval_id: next, royalty }
}

fn contract_with(owner: &str, token_id: &str, approvals: &[(&str, u64)]) -> Contract {
    let mut contract = Contract::new();
    contract.internal_add_token_to_owner(&owner.to_string(), &token_id.to_string());
    contract.tokens_by_id.insert(token_id.to_string(), token(owner, approvals, 5));
    contract
}

fn held(contract: &Contract, owner: &str) -> Vec<String> {
    match contract.tokens_per_owner.get(&owner.to_string()) {
        Some(set) => set.to_vec(),
        None => vec![],
    }
}

#[test]
fn payout_is_the_share_in_hundredths_of_a_percent() {
    assert_eq!(royalty_to_payout(250, 1_000_000), 25_000);
    assert_eq!(royalty_to_payout(10_000, 7), 7);
    assert_eq!(royalty_to_payout(1, 9_999), 0);
    assert_eq!(royalty_to_payout(0, u128::MAX), 0);
    assert_eq!(checked_royalty_to_payout(250, 1_000_000), Some(25_000));
    assert_eq!(checked_royalty_to_payout(2, u128::MAX), None);
    assert_eq!(checked_royalty_to_payout(1, u128::MAX), Some(u128::MAX / 10_000));
}

#[test]
fn a_call_that_needs_a_deposit_needs_one_yocto() {
    assert_eq!(assert_at_least_one_yocto(0), Err(Error::NoDeposit));
    assert_eq!(assert_at_least_one_yocto(1), Ok(()));
    assert_eq!(assert_at_least_one_yocto(u128::MAX), Ok(()));
}

#[test]
fn the_owner_transfers_and_the_approvals_are_cleared() {
    let mut contract = contract_with("alice", "t1", &[("bob", 3)]);
    let (previous, log) = contract
        .internal_transfer(
            &"alice".to_string(),
            &"charlie".to_string(),
            &"t1".to_string(),
            None,
            Some("gift".to_string()),
        )
        .unwrap();
    assert_eq!(previous.owner_id, "alice");
    assert_eq!(previous.approved_account_ids.get(&"bob".to_string()), Some(&3));
    assert!(held(&contract, "alice").is_empty());
    assert!(!contract.tokens_per_owner.contains_key(&"alice".to_string()));
    assert_eq!(held(&contract, "charlie"), vec!["t1".to_string()]);
    let now = contract.tokens_by_id.get(&"t1".to_string()).unwrap();
    assert_eq!(now.owner_id, "charlie");
    assert_eq!(now.approved_account_ids.get(&"bob".to_string()), None);
    assert_eq!(now.next_approval_id, 5);
    assert_eq!(now.royalty.get(&"city.near".to_string()), Some(&250));
    assert_eq!(log.authorized_id, None);
    assert_eq!(log.old_owner_id, "alice");
    assert_eq!(log.new_owner_id, "charlie");
    assert_eq!(log.token_ids, vec!["t1".to_string()]);
    assert_eq!(log.memo, Some("gift".to_string()));
}

#[test]
fn an_approved_account_transfers_with_its_approval_id() {
    let mut contract = contract_with("alice", "t1", &[("bob", 3)]);
    let (_, log) = contract
        .internal_transfer(
            &"bob".to_string(),
            &"charlie".to_string(),
            &"t1".to_string(),
            Some(3),
            None,
        )
        .unwrap();
    assert_eq!(log.authorized_id, Some("bob".to_string()));
    assert_eq!(log.old_owner_id, "alice");
    assert_eq!(held(&contract, "charlie"), vec!["t1".to_string()]);
    assert!(held(&contract, "alice").is_empty());
}

#[test]
fn an_approved_account_without_an_id_is_still_named_in_the_record() {
    let mut contract = contract_with("alice", "t1", &[("bob", 3)]);
    let (_, log) = contract
        .internal_transfer(&"bob".to_string(), &"charlie".to_string(), &"t1".to_string(), None, None)
        .unwrap();
    assert_eq!(log.authorized_id, Some("bob".to_string()));
}

#[test]
fn transfers_are_refused_for_each_broken_rule() {
    let mut contract = contract_with("alice", "t1", &[("bob", 3)]);
    let mut go = |sender: &str, receiver: &str, id: &str, approval: Option<u64>| {
        contract
            .internal_transfer(
                &sender.to_string(),
                &receiver.to_string(),
                &id.to_string(),
                approval,
                None,
            )
            .map(|_| ())
    };
    assert_eq!(go("alice", "charlie", "t2", None), Err(Error::TokenNotFound));
    assert_eq!(go("danny", "charlie", "t1", None), Err(Error::Unauthorized));
    assert_eq!(go("alice", "charlie", "t1", Some(3)), Err(Error::SenderNotApproved));
    assert_eq!(go("bob", "charlie", "t1", Some(4)), Err(Error::ApprovalIdMismatch));
    assert_eq!(go("bob", "alice", "t1", Some(3)), Err(Error::ReceiverIsOwner));
    assert_eq!(go("alice", "alice", "t1", None), Err(Error::ReceiverIsOwner));
    assert_eq!(go("bob", "bob", "t1", Some(3)), Err(Error::ReceiverIsSender));
    assert_eq!(held(&contract, "alice"), vec!["t1".to_string()]);
    assert_eq!(contract.tokens_by_id.get(&"t1".to_string()).unwrap().owner_id, "alice");
}

#[test]
fn a_token_whose_owner_has_no_index_is_not_moved() {
    let mut contract = Contract::new();
    contract.tokens_by_id.insert("t1".to_string(), token("alice", &[], 0));
    let r = contract.internal_transfer(
        &"alice".to_string(),
        &"bob".to_string(),
        &"t1".to_string(),
        None,
        None,
    );
    assert_eq!(r.map(|_| ()), Err(Error::OwnerIndexMissing));
    assert_eq!(
        contract.internal_remove_token_from_owner(&"alice".to_string(), &"t1".to_string()),
        Err(Error::OwnerIndexMissing)
    );
}

#[test]
fn the_index_keeps_the_other_tokens_of_an_owner() {
    let mut contract = Contract::new();
    for id in ["a", "b", "c"] {
        contract.internal_add_token_to_owner(&"alice".to_string(), &id.to_string());
    }
    contract.internal_add_token_to_owner(&"alice".to_string(), &"b".to_string());
    assert_eq!(held(&contract, "alice"), vec!["a".to_string(), "b".to_string(), "c".to_string()]);
    contract.internal_remove_token_from_owner(&"alice".to_string(), &"a".to_string()).unwrap();
    assert_eq!(held(&contract, "alice"), vec!["c".to_string(), "b".to_string()]);
    contract.internal_remove_token_from_owner(&"alice".to_string(), &"zzz".to_string()).unwrap();
    assert_eq!(held(&contract, "alice"), vec!["c".to_string(), "b".to_string()]);
}
