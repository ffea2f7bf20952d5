use microbonds::context::{Context, PromiseOutcome};
use microbonds::custody::events::{
    AddTokenLog, ChangeAccountLog, EventLog, EventLogVariant, LinkAccountLog, SendTokenLog,
};
use microbonds::custody::types::JsonTokens;
use microbonds::custody::Contract;
use microbonds::error::Error;

fn accounts(id: usize) -> String {
    ["alice", "bob", "charlie", "danny", "eugene", "fargo"][id].to_string()
}

fn get_context(predecessor: String) -> Context {
    Context {
        predecessor_account_id: predecessor.clone(),
        signer_account_id: predecessor,
        current_account_id: "custody.near".to_string(),
        attached_deposit: 0,
    }
}

fn callback() -> Context {
    get_context("custody.near".to_string())
}

fn sample_json_tokens_data() -> JsonTokens {
    JsonTokens {
        owner_id: "token_owner_1".to_string(),
        tokens: vec![accounts(3) + &":1".to_string(), accounts(3) + &":2".to_string()],
    }
}

fn contract_with_two_tokens() -> Contract {
    let context = get_context(accounts(1));
    let mut contract = Contract::new(accounts(1));
    contract
        .add_new_token_for_owner(
            &context,
            "token_owner_1".to_string(),
            accounts(3),
            "1".to_string(),
            None,
        )
        .unwrap();
    contract
        .add_new_token_for_owner(
            &context,
            "token_owner_1".to_string(),
            accounts(3),
            "2".to_string(),
            None,
        )
        .unwrap();
    contract
}

#[test]
fn tests_test_initialization() {
    let contract = Contract::new(accounts(1));
    assert_eq!(contract.owner_id, accounts(1));
    assert!(contract.tokens_for_owner("token_owner_1".to_string(), None, None).is_empty());
    assert_eq!(contract.get_account_for_user("user1".to_string()), None);
}

#[test]
fn test_tokens_for_owner() {
    let contract = contract_with_two_tokens();
    let tokens = contract.tokens_for_owner("token_owner_1".to_string(), None, None);
    assert_eq!(tokens.len(), sample_json_tokens_data().tokens.len());
    assert_eq!(tokens, sample_json_tokens_data().tokens);
}

#[test]
fn test_tokens_for_owner_with_limit() {
    let contract = contract_with_two_tokens();
    let tokens = contract.tokens_for_owner("token_owner_1".to_string(), None, Some(1));
    assert_eq!(tokens.len(), 1);
    assert_eq!(tokens[0], sample_json_tokens_data().tokens[0]);
}

#[test]
fn test_tokens_for_owner_with_limit_and_offset() {
    let contract = contract_with_two_tokens();
    let tokens = contract.tokens_for_owner("token_owner_1".to_string(), Some(1), None);
    assert_eq!(tokens.len(), 1);
    assert_eq!(tokens[0], sample_json_tokens_data().tokens[1]);
}

#[test]
fn test_add_new_token_for_owner() {
    let context = get_context(accounts(5));
    let mut contract = Contract::new(accounts(1));
    let r = contract.add_new_token_for_owner(
        &context,
        "token_owner_1".to_string(),
        accounts(3),
        "1".to_string(),
        None,
    );
    assert_eq!(r, Err(Error::CallerNotOwner));
    assert!(contract.tokens_for_owner("token_owner_1".to_string(), None, None).is_empty());
}

#[test]
fn test_add_account_to_user() {
    let context = get_context(accounts(0));
    let mut contract = Contract::new(accounts(0));
    contract.link_account_to_user(&context, "user1".to_string(), accounts(1)).unwrap();
    assert_eq!(*contract.user_to_account.get(&"user1".to_string()).unwrap(), accounts(1));
}

#[test]
fn test_change_account_for_user() {
    let context = get_context(accounts(0));
    let mut contract = Contract::new(accounts(0));
    contract.link_account_to_user(&context, "user1".to_string(), accounts(1)).unwrap();
    contract.link_account_to_user(&context, "user1".to_string(), accounts(2)).unwrap();
    assert_eq!(*contract.user_to_account.get(&"user1".to_string()).unwrap(), accounts(2));
}

#[test]
fn test_add_account_to_user_not_owner() {
    let context = get_context(accounts(1));
    let mut contract = Contract::new(accounts(0));
    let r = contract.link_account_to_user(&context, "user1".to_string(), accounts(1));
    assert_eq!(r, Err(Error::CallerNotOwner));
    assert_eq!(contract.get_account_for_user("user1".to_string()), None);
}

#[test]
fn linking_records_a_link_then_a_change_then_nothing() {
    let context = get_context(accounts(0));
    let mut contract = Contract::new(accounts(0));
    let first = contract.link_account_to_user(&context, "u".to_string(), "a.near".to_string());
    assert_eq!(
        first,
        Ok(Some(EventLog {
            version: "1.0.0".to_string(),
            event: EventLogVariant::LinkAccount(vec![LinkAccountLog {
                user_id: "u".to_string(),
                account_id: "a.near".to_string(),
                memo: None,
            }]),
        }))
    );
    assert_eq!(contract.get_account_for_user("u".to_string()), Some("a.near".to_string()));
    let second = contract.link_account_to_user(&context, "u".to_string(), "b.near".to_string());
    assert_eq!(
        second,
        Ok(Some(EventLog {
            version: "1.0.0".to_string(),
            event: EventLogVariant::ChangeAccount(vec![ChangeAccountLog {
                user_id: "u".to_string(),
                old_account_id: "a.near".to_string(),
                new_account_id: "b.near".to_string(),
                memo: None,
            }]),
        }))
    );
    assert_eq!(contract.get_account_for_user("u".to_string()), Some("b.near".to_string()));
    let third = contract.link_account_to_user(&context, "u".to_string(), "b.near".to_string());
    assert_eq!(third, Ok(None));
    assert_eq!(contract.get_account_for_user("u".to_string()), Some("b.near".to_string()));
}

#[test]
fn taking_a_token_twice_is_refused_and_changes_nothing() {
    let context = get_context(accounts(1));
    let mut contract = contract_with_two_tokens();
    let r = contract.add_new_token_for_owner(
        &context,
        "token_owner_1".to_string(),
        accounts(3),
        "1".to_string(),
        Some("again".to_string()),
    );
    assert_eq!(r, Err(Error::TokenInfoExists));
    assert_eq!(
        contract.tokens_for_owner("token_owner_1".to_string(), None, None),
        vec!["danny:1".to_string(), "danny:2".to_string()]
    );
    let other = contract
        .add_new_token_for_owner(
            &context,
            "token_owner_2".to_string(),
            accounts(3),
            "1".to_string(),
            Some("m".to_string()),
        )
        .unwrap();
    assert_eq!(
        other.event,
        EventLogVariant::AddToken(vec![AddTokenLog {
            owner_id: "token_owner_2".to_string(),
            token_account_id: "danny".to_string(),
            token_id: "1".to_string(),
            memo: Some("m".to_string()),
        }])
    );
}

#[test]
fn sending_needs_a_link_the_right_signer_and_the_token() {
    let owner = get_context(accounts(1));
    let mut contract = contract_with_two_tokens();
    let alice = get_context(accounts(0));
    let send = |c: &Contract, ctx: &Context, id: &str| {
        c.send_token_to_owner(
            ctx,
            "token_owner_1".to_string(),
            accounts(3),
            id.to_string(),
            Some("t".to_string()),
            Some("r".to_string()),
        )
    };
    assert_eq!(send(&contract, &alice, "1"), Err(Error::NoLinkedAccount));
    contract.link_account_to_user(&owner, "token_owner_1".to_string(), accounts(0)).unwrap();
    assert_eq!(send(&contract, &owner, "1"), Err(Error::CallerNotLinkedAccount));
    assert_eq!(send(&contract, &alice, "3"), Err(Error::TokenNotHeld));
    let request = send(&contract, &alice, "1").unwrap();
    assert_eq!(request.token_account_id, "danny");
    assert_eq!(request.receiver_id, "alice");
    assert_eq!(request.token_id, "1");
    assert_eq!(request.approval_id, None);
    assert_eq!(request.transfer_memo, Some("t".to_string()));
    assert_eq!(request.deposit, 1);
    assert_eq!(request.transfer_gas, 15_000_000_000_000);
    assert_eq!(request.resolve_gas, 15_000_000_000_000);
    assert_eq!(request.owner_id, "token_owner_1");
    assert_eq!(request.resolve_memo, Some("r".to_string()));
    assert_eq!(contract.tokens_for_owner("token_owner_1".to_string(), None, None).len(), 2);
}

#[test]
fn resolving_releases_the_token_only_after_success() {
    let mut contract = contract_with_two_tokens();
    let failed = contract.resolve_transfer(
        &callback(),
        PromiseOutcome::Failed,
        "token_owner_1".to_string(),
        accounts(3),
        "1".to_string(),
        None,
    );
    assert_eq!(failed, Err(Error::TransferFailed));
    assert_eq!(contract.tokens_for_owner("token_owner_1".to_string(), None, None).len(), 2);
    let log = contract
        .resolve_transfer(
            &callback(),
            PromiseOutcome::Successful,
            "token_owner_1".to_string(),
            accounts(3),
            "1".to_string(),
            Some("sent".to_string()),
        )
        .unwrap();
    assert_eq!(
        log.event,
        EventLogVariant::SendToken(vec![SendTokenLog {
            owner_id: "token_owner_1".to_string(),
            token_account_id: "danny".to_string(),
            token_id: "1".to_string(),
            memo: Some("sent".to_string()),
        }])
    );
    assert_eq!(
        contract.tokens_for_owner("token_owner_1".to_string(), None, None),
        vec!["danny:2".to_string()]
    );
    let twice = contract.resolve_transfer(
        &callback(),
        PromiseOutcome::Successful,
        "token_owner_1".to_string(),
        accounts(3),
        "1".to_string(),
        None,
    );
    assert_eq!(twice, Err(Error::TokenNotHeld));
    let stranger = contract.resolve_transfer(
        &callback(),
        PromiseOutcome::Successful,
        "nobody".to_string(),
        accounts(3),
        "1".to_string(),
        None,
    );
    assert_eq!(stranger, Err(Error::TokenNotHeld));
}

#[test]
fn accounts_must_be_valid_account_ids() {
    let context = get_context(accounts(1));
    let mut contract = Contract::new(accounts(1));
    for bad in ["", "a", "A.near", "a:b", "a..b", ".near", "near.", "a b"] {
        let r = contract.add_new_token_for_owner(
            &context,
            "token_owner_1".to_string(),
            bad.to_string(),
            "1".to_string(),
            None,
        );
        assert_eq!(r, Err(Error::InvalidAccountId));
        let r = contract.link_account_to_user(&context, "user1".to_string(), bad.to_string());
        assert_eq!(r, Err(Error::InvalidAccountId));
    }
    assert!(contract.tokens_for_owner("token_owner_1".to_string(), None, None).is_empty());
    assert_eq!(contract.get_account_for_user("user1".to_string()), None);
    let r = contract.add_new_token_for_owner(
        &get_context(accounts(2)),
        "token_owner_1".to_string(),
        "a:b".to_string(),
        "1".to_string(),
        None,
    );
    assert_eq!(r, Err(Error::CallerNotOwner));
    assert!(contract
        .add_new_token_for_owner(
            &context,
            "token_owner_1".to_string(),
            "a-b_c.d0".to_string(),
            "x:y".to_string(),
            None,
        )
        .is_ok());
    assert_eq!(
        contract.tokens_for_owner("token_owner_1".to_string(), None, None),
        vec!["a-b_c.d0:x:y".to_string()]
    );
    assert_eq!(Error::InvalidAccountId.message(), "the account ID is invalid");
}

#[test]
fn only_the_ledger_resolves_its_transfers() {
    let mut contract = contract_with_two_tokens();
    let r = contract.resolve_transfer(
        &get_context(accounts(1)),
        PromiseOutcome::Successful,
        "token_owner_1".to_string(),
        accounts(3),
        "1".to_string(),
        None,
    );
    assert_eq!(r, Err(Error::NotCallback));
    assert_eq!(contract.tokens_for_owner("token_owner_1".to_string(), None, None).len(), 2);
}

#[test]
fn releasing_a_token_moves_the_last_one_into_its_place() {
    let context = get_context(accounts(1));
    let mut contract = contract_with_two_tokens();
    contract
        .add_new_token_for_owner(
            &context,
            "token_owner_1".to_string(),
            accounts(3),
            "3".to_string(),
            None,
        )
        .unwrap();
    contract
        .resolve_transfer(
            &callback(),
            PromiseOutcome::Successful,
            "token_owner_1".to_string(),
            accounts(3),
            "1".to_string(),
            None,
        )
        .unwrap();
    assert_eq!(
        contract.tokens_for_owner("token_owner_1".to_string(), None, None),
        vec!["danny:3".to_string(), "danny:2".to_string()]
    );
}

#[test]
fn a_custodied_token_reaches_the_linked_wallet() {
    let owner = get_context("alice".to_string());
    let mut contract = Contract::new("alice".to_string());
    contract
        .add_new_token_for_owner(
            &owner,
            "alice".to_string(),
            "acct.x".to_string(),
            "7".to_string(),
            None,
        )
        .unwrap();
    assert_eq!(
        contract.tokens_for_owner("alice".to_string(), None, None),
        vec!["acct.x:7".to_string()]
    );
    contract.link_account_to_user(&owner, "alice".to_string(), "alice".to_string()).unwrap();
    let request = contract
        .send_token_to_owner(
            &owner,
            "alice".to_string(),
            "acct.x".to_string(),
            "7".to_string(),
            None,
            None,
        )
        .unwrap();
    contract
        .resolve_transfer(
            &callback(),
            PromiseOutcome::Successful,
            request.owner_id,
            request.token_account_id,
            request.token_id,
            request.resolve_memo,
        )
        .unwrap();
    let left = contract.tokens_for_owner("alice".to_string(), None, None);
    assert!(!left.contains(&"acct.x:7".to_string()));
    assert!(left.is_empty());
}
