use offspring_factory::context::EnvInfo;
use offspring_factory::error::ContractError;
use offspring_factory::factory::contract as factory_contract;
use offspring_factory::factory::msg::{
    ExecuteMsg as FactoryMsg, HandleAnswer, InstantiateMsg as FactoryInstantiateMsg, QueryAnswer,
    QueryMsg as FactoryQuery, RegisterOffspringInfo,
};
use offspring_factory::factory::state::FactoryState;
use offspring_factory::factory::structs::CodeInfo;
use offspring_factory::offspring::contract::{
    enforce_active, enforce_valid_viewing_key, execute, instantiate, key_validation_request,
    query, query_count, try_deactivate, try_increment, try_reset, Offspring,
};
use offspring_factory::offspring::factory_msg::{
    FactoryExecuteMsg, FactoryQueryMsg, IsKeyValid, IsKeyValidWrapper,
};
use offspring_factory::offspring::msg::{
    ContractInfo, ExecuteMsg, InstantiateMsg, QueryAnswer as OffspringAnswer, QueryMsg,
};

fn env(sender: &str) -> EnvInfo {
    EnvInfo {
        block_height: 12_345,
        block_time: 1_571_797_419,
        sender: sender.to_string(),
        contract_address: "offspring_contract".to_string(),
        contract_code_hash: "offspring_code_hash".to_string(),
    }
}

fn new_offspring(owner: &str, count: i32, password: Vec<u8>) -> (Offspring, FactoryExecuteMsg) {
    instantiate(
        &env("factory_contract"),
        InstantiateMsg {
            factory: ContractInfo {
                code_hash: "factory_code_hash".to_string(),
                address: "factory_contract".to_string(),
            },
            label: "counter".to_string(),
            description: Some("a toy counter".to_string()),
            owner: owner.to_string(),
            password,
            count,
        },
    )
}

#[test]
fn instantiate_emits_the_registration_call() {
    let password = vec![9u8; 32];
    let (off, register) = new_offspring("alice", 3, password.clone());
    assert!(off.is_active);
    assert_eq!(off.owner, "alice");
    assert_eq!(off.state.count, 3);
    assert_eq!(
        register,
        FactoryExecuteMsg::RegisterOffspring {
            owner: "alice".to_string(),
            label: "counter".to_string(),
            password,
        }
    );
}

#[test]
fn increment_and_reset_require_active() {
    let (mut off, _) = new_offspring("alice", 0, vec![0u8; 32]);
    try_increment(&mut off).expect("active");
    assert_eq!(off.state.count, 1);
    try_reset(&mut off, &env("alice"), 10).expect("owner resets");
    assert_eq!(off.state.count, 10);

    try_deactivate(&mut off, &env("alice")).expect("owner deactivates");
    assert_eq!(try_increment(&mut off).unwrap_err(), ContractError::InvalidState);
    assert_eq!(try_reset(&mut off, &env("alice"), 0).unwrap_err(), ContractError::InvalidState);
    assert_eq!(off.state.count, 10);
}

#[test]
fn increment_wraps_at_the_numeric_limit() {
    let (mut off, _) = new_offspring("alice", i32::MAX, vec![0u8; 32]);
    try_increment(&mut off).expect("active");
    assert_eq!(off.state.count, i32::MIN);
}

#[test]
fn reset_is_owner_only() {
    let (mut off, _) = new_offspring("alice", 5, vec![0u8; 32]);
    assert_eq!(try_reset(&mut off, &env("mallory"), 0).unwrap_err(), ContractError::Unauthorized);
    assert_eq!(off.state.count, 5);
}

#[test]
fn deactivation_is_owner_only_and_terminal() {
    let (mut off, _) = new_offspring("alice", 0, vec![0u8; 32]);
    assert_eq!(try_deactivate(&mut off, &env("mallory")).unwrap_err(), ContractError::Unauthorized);
    assert!(off.is_active);

    let note = try_deactivate(&mut off, &env("alice")).expect("owner deactivates");
    assert_eq!(note, FactoryExecuteMsg::DeactivateOffspring { owner: "alice".to_string() });
    assert!(!off.is_active);
    assert!(enforce_active(&off).is_err());

    // terminal: a repeat attempt reports the state error, not success
    assert_eq!(try_deactivate(&mut off, &env("alice")).unwrap_err(), ContractError::InvalidState);
}

#[test]
fn execute_routes_and_returns_the_factory_notification() {
    let (mut off, _) = new_offspring("alice", 0, vec![0u8; 32]);
    assert_eq!(execute(&mut off, &env("anyone"), ExecuteMsg::Increment).unwrap(), None);
    assert_eq!(
        execute(&mut off, &env("alice"), ExecuteMsg::Reset { count: 2 }).unwrap(),
        None
    );
    let note = execute(&mut off, &env("alice"), ExecuteMsg::Deactivate).unwrap();
    assert_eq!(
        note,
        Some(FactoryExecuteMsg::DeactivateOffspring { owner: "alice".to_string() })
    );
}

#[test]
fn query_count_requires_a_validated_key_and_the_owner() {
    let (off, _) = new_offspring("alice", 42, vec![0u8; 32]);
    let valid = IsKeyValidWrapper { is_key_valid: IsKeyValid { is_valid: true } };
    let invalid = IsKeyValidWrapper { is_key_valid: IsKeyValid { is_valid: false } };

    assert!(enforce_valid_viewing_key(&valid).is_ok());
    assert_eq!(
        enforce_valid_viewing_key(&invalid).unwrap_err(),
        ContractError::AuthenticationFailed
    );

    assert_eq!(
        query_count(&off, &"alice".to_string(), &valid).unwrap(),
        OffspringAnswer::CountResponse { count: 42 }
    );
    assert_eq!(
        query_count(&off, &"alice".to_string(), &invalid).unwrap_err(),
        ContractError::AuthenticationFailed
    );
    assert_eq!(
        query_count(&off, &"mallory".to_string(), &valid).unwrap_err(),
        ContractError::Unauthorized
    );
}

/// The whole two-process flow wired together in one process: create,
/// spawn, register, mint a viewing key, and run the delegated validation
/// round trip for the count query.
#[test]
fn full_handshake_and_delegated_key_validation() {
    let factory_env = |sender: &str| EnvInfo {
        block_height: 100,
        block_time: 200,
        sender: sender.to_string(),
        contract_address: "factory_contract".to_string(),
        contract_code_hash: "factory_code_hash".to_string(),
    };
    let mut factory = factory_contract::init(
        &factory_env("admin"),
        FactoryInstantiateMsg {
            offspring_code_info: CodeInfo {
                code_id: 1,
                code_hash: "offspring_code_hash".to_string(),
            },
            entropy: "seed entropy".to_string(),
        },
    );

    // create: the factory mints a password and returns the spawn instruction
    let resp = factory_contract::handle(
        &mut factory,
        &factory_env("alice"),
        FactoryMsg::CreateOffspring {
            label: "counter".to_string(),
            entropy: "spawn entropy".to_string(),
            owner: "alice".to_string(),
            count: 40,
            description: None,
        },
    )
    .expect("create");
    let spawn = &resp.messages[0];

    // the platform instantiates the offspring with the spawn instruction
    let (mut off, register_msg) = instantiate(
        &env("factory_contract"),
        InstantiateMsg {
            factory: ContractInfo {
                code_hash: spawn.init_msg.factory.code_hash.clone(),
                address: spawn.init_msg.factory.address.clone(),
            },
            label: spawn.init_msg.label.clone(),
            description: spawn.init_msg.description.clone(),
            owner: spawn.init_msg.owner.clone(),
            password: spawn.init_msg.password.clone(),
            count: spawn.init_msg.count,
        },
    );

    // the transport delivers the registration call to the factory
    let FactoryExecuteMsg::RegisterOffspring { owner, label, password } = register_msg else {
        panic!("expected a registration call");
    };
    factory_contract::handle(
        &mut factory,
        &factory_env("offspring_contract"),
        FactoryMsg::RegisterOffspring {
            owner,
            offspring: RegisterOffspringInfo { label, password },
        },
    )
    .expect("register");

    // the owner mints a viewing key at the factory
    let key = match factory_contract::handle(
        &mut factory,
        &factory_env("alice"),
        FactoryMsg::CreateViewingKey { entropy: "key entropy".to_string() },
    )
    .expect("create key")
    .data
    {
        Some(HandleAnswer::ViewingKey { key }) => key,
        other => panic!("unexpected answer: {:?}", other),
    };

    // the offspring delegates validation of the count query to the factory
    let request = key_validation_request(&off, &"alice".to_string(), &key);
    let FactoryQueryMsg::IsKeyValid { address, viewing_key } = request;
    let wrapper = match factory_contract::query(
        &factory,
        FactoryQuery::IsKeyValid { address, viewing_key },
    )
    .expect("validate")
    {
        QueryAnswer::IsKeyValid { is_valid } => {
            IsKeyValidWrapper { is_key_valid: IsKeyValid { is_valid } }
        }
        other => panic!("unexpected answer: {:?}", other),
    };
    assert_eq!(
        query(
            &off,
            QueryMsg::GetCount { address: "alice".to_string(), viewing_key: key.clone() },
            &wrapper,
        )
        .unwrap(),
        OffspringAnswer::CountResponse { count: 40 }
    );

    // an altered key comes back invalid from the factory and is refused
    let mut altered = key.clone();
    altered.push('!');
    let wrapper = match factory_contract::query(
        &factory,
        FactoryQuery::IsKeyValid { address: "alice".to_string(), viewing_key: altered },
    )
    .expect("validate")
    {
        QueryAnswer::IsKeyValid { is_valid } => {
            IsKeyValidWrapper { is_key_valid: IsKeyValid { is_valid } }
        }
        other => panic!("unexpected answer: {:?}", other),
    };
    assert!(!wrapper.is_key_valid.is_valid);

    // the offspring deactivates itself and notifies the factory
    let note = execute(&mut off, &env("alice"), ExecuteMsg::Deactivate).unwrap().unwrap();
    let FactoryExecuteMsg::DeactivateOffspring { owner } = note else {
        panic!("expected a deactivation call");
    };
    factory_contract::handle(
        &mut factory,
        &factory_env("offspring_contract"),
        FactoryMsg::DeactivateOffspring { owner },
    )
    .expect("deactivate at the factory");
}
