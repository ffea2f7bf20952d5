use microbonds::context::{Context, PromiseOutcome};
use microbonds::error::{Error, ErrorKind};
use microbonds::factory::events::{
    AddMunicipalityLog, AddProjectLog, AddProjectTokenLog, EventLog, EventLogVariant,
};
use microbonds::factory::tokens::DeployRequest;
use microbonds::factory::types::{JsonMunicipality, JsonProject};
use microbonds::factory::Contract;

fn accounts(id: usize) -> String {
    ["alice", "bob", "charlie", "danny", "eugene", "fargo"][id].to_string()
}

fn get_context(predecessor: String) -> Context {
    Context {
        predecessor_account_id: predecessor.clone(),
        signer_account_id: predecessor,
        current_account_id: "factory.near".to_string(),
        attached_deposit: 0,
    }
}

fn callback() -> Context {
    get_context("factory.near".to_string())
}

fn sample_project_data() -> JsonProject {
    JsonProject {
        project_id: "test_project_1_a".to_string(),
        tokens_account_ids: [accounts(3)].to_vec(),
    }
}

fn sample_municipality_data() -> JsonMunicipality {
    JsonMunicipality {
        municipality_id: "test_municipality_1".to_string(),
        projects: ["test_project_1_a".to_string()].to_vec(),
    }
}

fn deploy(
    contract: &Contract,
    ctx: &Context,
    municipality_id: &str,
    project_id: &str,
    version: &str,
    name: &str,
) -> Result<DeployRequest, Error> {
    contract.add_new_token_for_project(
        ctx,
        municipality_id.to_string(),
        project_id.to_string(),
        version.to_string(),
        name.to_string(),
        "Bond".to_string(),
        "BND".to_string(),
        None,
        Some("https://example.org".to_string()),
        None,
        None,
        Some("deploy memo".to_string()),
    )
}

#[test]
fn test_initialization() {
    let contract = Contract::new(accounts(1));
    let owner = contract.owner();
    assert_eq!(owner, accounts(1));
    assert!(contract.view_municipalities(None, None).is_empty());
    assert!(contract.get_token_versions().is_empty());
}

#[test]
fn test_add_municipality() {
    let context = get_context(accounts(0));
    let mut contract = Contract::new(accounts(0));
    let municipality_data = sample_municipality_data();

    let log = contract
        .add_new_municipality(
            &context,
            municipality_data.municipality_id.clone(),
            Some("This is a test memo".to_string()),
        )
        .unwrap();
    assert_eq!(
        log,
        EventLog {
            version: "1.0.0".to_string(),
            event: EventLogVariant::AddMunicipality(vec![AddMunicipalityLog {
                municipality_id: "test_municipality_1".to_string(),
                memo: Some("This is a test memo".to_string()),
            }]),
        }
    );

    let projects_for_municipality = contract.view_projects_for_municipality(
        municipality_data.municipality_id.clone(),
        None,
        None,
    );
    assert_eq!(projects_for_municipality.len(), 0, "Projects length expected to be zero");
    assert_eq!(
        contract.view_municipalities(None, None),
        vec!["test_municipality_1".to_string()]
    );
}

#[test]
fn test_add_municipality_non_owner() {
    let context = get_context(accounts(1));
    let mut contract = Contract::new(accounts(0));
    let municipality_data = sample_municipality_data();
    let r = contract.add_new_municipality(
        &context,
        municipality_data.municipality_id.clone(),
        Some("This is a test memo".to_string()),
    );
    assert_eq!(r, Err(Error::CallerNotOwner));
    assert!(contract.view_municipalities(None, None).is_empty());
}

#[test]
fn test_add_project() {
    let context = get_context(accounts(0));
    let mut contract = Contract::new(accounts(0));
    let municipality_data = sample_municipality_data();
    let project_data = sample_project_data();

    contract
        .add_new_municipality(
            &context,
            municipality_data.municipality_id.clone(),
            Some("This is a test memo".to_string()),
        )
        .unwrap();
    let log = contract
        .add_new_project(
            &context,
            municipality_data.municipality_id.clone(),
            project_data.project_id.clone(),
            Some("This is a test memo".to_string()),
        )
        .unwrap();
    assert_eq!(
        log.event,
        EventLogVariant::AddProject(vec![AddProjectLog {
            municipality_id: "test_municipality_1".to_string(),
            project_id: "test_project_1_a".to_string(),
            memo: Some("This is a test memo".to_string()),
        }])
    );

    let projects_for_municipality = contract.view_projects_for_municipality(
        municipality_data.municipality_id.clone(),
        None,
        None,
    );
    let tokens_for_projects =
        contract.view_tokens_for_project(project_data.project_id.clone(), None, None);

    assert_eq!(
        projects_for_municipality[0],
        project_data.project_id.clone(),
        "Project ID does not match expected ID in projects_for_municipalities"
    );
    assert_eq!(projects_for_municipality, municipality_data.projects);
    assert_eq!(tokens_for_projects.len(), 0, "Token account ids expected to be of length zero");
}

#[test]
fn test_add_project_non_owner() {
    let context = get_context(accounts(1));
    let mut contract = Contract::new(accounts(0));
    let municipality_data = sample_municipality_data();
    let project_data = sample_project_data();
    let r = contract.add_new_project(
        &context,
        municipality_data.municipality_id.clone(),
        project_data.project_id.clone(),
        Some("This is a test memo".to_string()),
    );
    assert_eq!(r, Err(Error::CallerNotOwner));
}

#[test]
fn readding_a_municipality_is_refused_and_changes_nothing() {
    let context = get_context(accounts(0));
    let mut contract = Contract::new(accounts(0));
    contract.add_new_municipality(&context, "m1".to_string(), None).unwrap();
    contract.add_new_municipality(&context, "m2".to_string(), None).unwrap();
    let r = contract.add_new_municipality(&context, "m1".to_string(), None);
    assert_eq!(r, Err(Error::MunicipalityExists));
    assert_eq!(
        contract.view_municipalities(None, None),
        vec!["m1".to_string(), "m2".to_string()]
    );
}

#[test]
fn a_project_needs_its_municipality_and_a_new_id() {
    let context = get_context(accounts(0));
    let mut contract = Contract::new(accounts(0));
    assert_eq!(
        contract.add_new_project(&context, "m1".to_string(), "p1".to_string(), None),
        Err(Error::MunicipalityNotFound)
    );
    contract.add_new_municipality(&context, "m1".to_string(), None).unwrap();
    contract.add_new_municipality(&context, "m2".to_string(), None).unwrap();
    contract.add_new_project(&context, "m1".to_string(), "p1".to_string(), None).unwrap();
    assert_eq!(
        contract.add_new_project(&context, "m1".to_string(), "p1".to_string(), None),
        Err(Error::ProjectExists)
    );
    assert_eq!(
        contract.add_new_project(&context, "m2".to_string(), "p1".to_string(), None),
        Err(Error::ProjectExists)
    );
    assert_eq!(
        contract.view_projects_for_municipality("m1".to_string(), None, None),
        vec!["p1".to_string()]
    );
    assert!(contract.view_projects_for_municipality("m2".to_string(), None, None).is_empty());
}

#[test]
fn token_versions_are_numbered_from_zero() {
    let context = get_context(accounts(0));
    let mut contract = Contract::new(accounts(0));
    assert_eq!(contract.add_token_version(&context, vec![]), Err(Error::NoCode));
    assert_eq!(
        contract.add_token_version(&get_context(accounts(1)), vec![1]),
        Err(Error::CallerNotOwner)
    );
    for i in 0..12u8 {
        contract.add_token_version(&context, vec![i, i]).unwrap();
    }
    let versions = contract.get_token_versions();
    let expected: Vec<String> = (0..12).map(|i: u32| i.to_string()).collect();
    assert_eq!(versions, expected);
    assert_eq!(contract.get_code_for_token_version(&"11".to_string()), Ok(vec![11, 11]));
    assert_eq!(contract.get_code_for_token_version(&"0".to_string()), Ok(vec![0, 0]));
    assert_eq!(
        contract.get_code_for_token_version(&"12".to_string()),
        Err(Error::TokenVersionNotFound)
    );
}

#[test]
fn a_version_id_that_is_taken_is_not_overwritten() {
    let context = get_context(accounts(0));
    let mut contract = Contract::new(accounts(0));
    assert!(contract.token_versions.insert("1".to_string()));
    let r = contract.add_token_version(&context, vec![1, 2, 3]);
    assert_eq!(r, Err(Error::TokenVersionExists));
    assert_eq!(contract.get_token_versions(), vec!["1".to_string()]);
    assert_eq!(
        contract.get_code_for_token_version(&"1".to_string()),
        Err(Error::TokenVersionNotFound)
    );
}

#[test]
fn deployment_cost_is_the_price_of_each_byte() {
    let context = get_context(accounts(0));
    let mut contract = Contract::new(accounts(0));
    contract.add_token_version(&context, vec![7, 7, 7]).unwrap();
    assert_eq!(
        contract.get_deployment_cost("0".to_string()),
        Ok(30_000_000_000_000_000_000u128)
    );
    assert_eq!(contract.get_deployment_cost("1".to_string()), Err(Error::TokenVersionNotFound));
}

#[test]
fn deployment_is_refused_step_by_step() {
    let mut context = get_context(accounts(0));
    let mut contract = Contract::new(accounts(0));
    assert_eq!(
        deploy(&contract, &get_context(accounts(1)), "m1", "p1", "0", "bond"),
        Err(Error::CallerNotOwner)
    );
    assert_eq!(
        deploy(&contract, &context, "m1", "p1", "0", "bond"),
        Err(Error::MunicipalityNotFound)
    );
    contract.add_new_municipality(&context, "m1".to_string(), None).unwrap();
    assert_eq!(deploy(&contract, &context, "m1", "p1", "0", "bond"), Err(Error::ProjectNotFound));
    contract.add_new_project(&context, "m1".to_string(), "p1".to_string(), None).unwrap();
    assert_eq!(
        deploy(&contract, &context, "m1", "p1", "0", "bond"),
        Err(Error::TokenVersionNotFound)
    );
    contract.add_token_version(&context, vec![1, 2]).unwrap();
    context.attached_deposit = 19_999_999_999_999_999_999;
    assert_eq!(
        deploy(&contract, &context, "m1", "p1", "0", "bond"),
        Err(Error::InsufficientDeposit { required: 20_000_000_000_000_000_000 })
    );
    context.attached_deposit = 20_000_000_000_000_000_000;
    assert_eq!(
        deploy(&contract, &context, "m1", "p1", "0", "Bond"),
        Err(Error::InvalidSubaccount)
    );
    assert_eq!(
        deploy(&contract, &context, "m1", "p1", "0", "bond."),
        Err(Error::InvalidSubaccount)
    );
    assert_eq!(deploy(&contract, &context, "m1", "p1", "0", ""), Err(Error::InvalidSubaccount));
    let long_name = "a".repeat(60);
    assert_eq!(
        deploy(&contract, &context, "m1", "p1", "0", &long_name),
        Err(Error::InvalidSubaccount)
    );
    assert!(deploy(&contract, &context, "m1", "p1", "0", "bond-1_a").is_ok());
}

#[test]
fn a_deployment_request_carries_the_whole_chain() {
    let mut context = get_context(accounts(0));
    context.signer_account_id = accounts(2);
    context.attached_deposit = 50_000_000_000_000_000_000;
    let mut contract = Contract::new(accounts(0));
    contract.add_new_municipality(&context, "m1".to_string(), None).unwrap();
    contract.add_new_project(&context, "m1".to_string(), "p1".to_string(), None).unwrap();
    contract.add_token_version(&context, vec![9, 8, 7]).unwrap();
    let request = deploy(&contract, &context, "m1", "p1", "0", "bond").unwrap();
    assert_eq!(request.new_token_account_id, "bond.factory.near");
    assert_eq!(request.deposit, 50_000_000_000_000_000_000);
    assert_eq!(request.code, vec![9, 8, 7]);
    assert_eq!(request.init_args.owner_id, "charlie");
    assert_eq!(request.init_args.metadata.spec, "nft-0");
    assert_eq!(request.init_args.metadata.name, "Bond");
    assert_eq!(request.init_args.metadata.symbol, "BND");
    assert_eq!(request.init_args.metadata.icon, None);
    assert_eq!(request.init_args.metadata.base_uri, Some("https://example.org".to_string()));
    assert_eq!(request.init_gas, 1_000_000_000_000);
    assert_eq!(request.municipality_id, "m1");
    assert_eq!(request.project_id, "p1");
    assert_eq!(request.memo, Some("deploy memo".to_string()));
    assert!(contract.view_tokens_for_project("p1".to_string(), None, None).is_empty());
}

#[test]
fn a_failed_deployment_registers_nothing() {
    let context = get_context(accounts(0));
    let mut contract = Contract::new(accounts(0));
    contract.add_new_municipality(&context, "m1".to_string(), None).unwrap();
    contract.add_new_project(&context, "m1".to_string(), "p1".to_string(), None).unwrap();
    let r = contract.resolve_deploy(
        &callback(),
        PromiseOutcome::Failed,
        "m1".to_string(),
        "p1".to_string(),
        "bond.factory.near".to_string(),
        None,
    );
    assert_eq!(r, Err(Error::DeployFailed));
    assert!(contract.view_tokens_for_project("p1".to_string(), None, None).is_empty());
}

#[test]
fn a_successful_deployment_registers_the_account_once() {
    let context = get_context(accounts(0));
    let mut contract = Contract::new(accounts(0));
    contract.add_new_municipality(&context, "m1".to_string(), None).unwrap();
    contract.add_new_project(&context, "m1".to_string(), "p1".to_string(), None).unwrap();
    let log = contract
        .resolve_deploy(
            &callback(),
            PromiseOutcome::Successful,
            "m1".to_string(),
            "p1".to_string(),
            "bond.factory.near".to_string(),
            Some("done".to_string()),
        )
        .unwrap();
    assert_eq!(
        log.event,
        EventLogVariant::AddProjectToken(vec![AddProjectTokenLog {
            municipality_id: "m1".to_string(),
            project_id: "p1".to_string(),
            token_id: "bond.factory.near".to_string(),
            memo: Some("done".to_string()),
        }])
    );
    assert_eq!(log.version, "1.0.0");
    let again = contract.resolve_deploy(
        &callback(),
        PromiseOutcome::Successful,
        "m1".to_string(),
        "p1".to_string(),
        "bond.factory.near".to_string(),
        None,
    );
    assert_eq!(again, Err(Error::TokenExists));
    let unknown = contract.resolve_deploy(
        &callback(),
        PromiseOutcome::Successful,
        "m1".to_string(),
        "p2".to_string(),
        "bond.factory.near".to_string(),
        None,
    );
    assert_eq!(unknown, Err(Error::ProjectNotFound));
    assert_eq!(
        contract.view_tokens_for_project("p1".to_string(), None, None),
        vec!["bond.factory.near".to_string()]
    );
}

#[test]
fn only_the_factory_resolves_its_deployments() {
    let context = get_context(accounts(0));
    let mut contract = Contract::new(accounts(0));
    contract.add_new_municipality(&context, "m1".to_string(), None).unwrap();
    contract.add_new_project(&context, "m1".to_string(), "p1".to_string(), None).unwrap();
    let r = contract.resolve_deploy(
        &context,
        PromiseOutcome::Successful,
        "m1".to_string(),
        "p1".to_string(),
        "bond.factory.near".to_string(),
        None,
    );
    assert_eq!(r, Err(Error::NotCallback));
    assert!(contract.view_tokens_for_project("p1".to_string(), None, None).is_empty());
}

#[test]
fn refusals_are_reported_in_words() {
    assert_eq!(Error::CallerNotOwner.message(), "Caller not owner");
    assert_eq!(Error::MunicipalityExists.message(), "Municipality already exists");
    assert_eq!(
        Error::InsufficientDeposit { required: 20_000_000_000_000_000_000 }.message(),
        "Attach at least 20000000000000000000 yoctoNEAR to deploy the contract"
    );
    assert_eq!(Error::CallerNotOwner.kind(), ErrorKind::Authorization);
    assert_eq!(Error::ProjectNotFound.kind(), ErrorKind::NotFound);
    assert_eq!(Error::TokenExists.kind(), ErrorKind::Duplicate);
    assert_eq!(Error::InsufficientDeposit { required: 1 }.kind(), ErrorKind::InsufficientValue);
    assert_eq!(Error::DeployFailed.kind(), ErrorKind::RemoteCall);
    assert_eq!(Error::InvalidSubaccount.kind(), ErrorKind::InvalidArgument);
}

#[test]
fn pages_are_windows_and_repeat() {
    let context = get_context(accounts(0));
    let mut contract = Contract::new(accounts(0));
    for i in 0..60u32 {
        contract.add_new_municipality(&context, format!("m{}", i), None).unwrap();
    }
    let all: Vec<String> = (0..60u32).map(|i| format!("m{}", i)).collect();
    assert_eq!(contract.view_municipalities(None, None), all[0..50].to_vec());
    assert_eq!(contract.view_municipalities(Some(55), None), all[55..60].to_vec());
    assert_eq!(contract.view_municipalities(Some(10), Some(3)), all[10..13].to_vec());
    assert_eq!(contract.view_municipalities(Some(0), Some(u64::MAX)), all);
    assert!(contract.view_municipalities(Some(60), Some(5)).is_empty());
    assert!(contract.view_municipalities(Some(u128::MAX), None).is_empty());
    assert!(contract.view_municipalities(Some(1u128 << 64), Some(5)).is_empty());
    assert!(contract.view_municipalities(Some(3), Some(0)).is_empty());
    let first = contract.view_municipalities(Some(7), Some(9));
    let second = contract.view_municipalities(Some(7), Some(9));
    assert_eq!(first, second);
    assert!(contract.view_projects_for_municipality("nowhere".to_string(), None, None).is_empty());
    assert!(contract.view_tokens_for_project("nothing".to_string(), None, None).is_empty());
}

#[test]
fn deploying_a_token_for_a_project_end_to_end() {
    let mut context = get_context(accounts(0));
    let mut contract = Contract::new(accounts(0));
    contract.add_new_municipality(&context, "m1".to_string(), None).unwrap();
    contract.add_new_project(&context, "m1".to_string(), "p1".to_string(), None).unwrap();
    contract.add_token_version(&context, vec![0, 97, 115, 109]).unwrap();
    context.attached_deposit = contract.get_deployment_cost("0".to_string()).unwrap();
    let request = deploy(&contract, &context, "m1", "p1", "0", "bond").unwrap();
    contract
        .resolve_deploy(
            &callback(),
            PromiseOutcome::Successful,
            request.municipality_id,
            request.project_id,
            request.new_token_account_id.clone(),
            request.memo,
        )
        .unwrap();
    let tokens = contract.view_tokens_for_project("p1".to_string(), None, None);
    assert_eq!(tokens, vec!["bond.factory.near".to_string()]);
    assert_eq!(tokens[0], request.new_token_account_id);
}
