use offspring_factory::context::EnvInfo;
use offspring_factory::error::ContractError;
use offspring_factory::factory::contract::{
    display_active_or_inactive_list, handle, init, is_key_valid, query, try_create_key,
    try_create_offspring, try_deactivate_offspring, try_list_active, try_list_inactive,
    try_list_my, try_new_contract, try_register_offspring, try_set_key, try_set_status,
};
use offspring_factory::factory::msg::{
    pad_bytes_to_block, ExecuteMsg, FilterTypes, HandleAnswer, InstantiateMsg, QueryAnswer,
    QueryMsg, RegisterOffspringInfo,
};
use offspring_factory::factory::state::FactoryState;
use offspring_factory::factory::structs::CodeInfo;

fn env(sender: &str) -> EnvInfo {
    EnvInfo {
        block_height: 12_345,
        block_time: 1_571_797_419,
        sender: sender.to_string(),
        contract_address: "factory_contract".to_string(),
        contract_code_hash: "factory_code_hash".to_string(),
    }
}

fn new_factory() -> FactoryState {
    init(
        &env("admin"),
        InstantiateMsg {
            offspring_code_info: CodeInfo {
                code_id: 7,
                code_hash: "offspring_code_hash".to_string(),
            },
            entropy: "initial entropy".to_string(),
        },
    )
}

/// Creates an offspring and returns the one-time password from the spawn
/// instruction.
fn create(state: &mut FactoryState, owner: &str, label: &str) -> Vec<u8> {
    let resp = try_create_offspring(
        state,
        &env(owner),
        label.to_string(),
        "some entropy".to_string(),
        owner.to_string(),
        0,
        None,
    )
    .expect("create should succeed");
    assert_eq!(resp.messages.len(), 1);
    let spawn = &resp.messages[0];
    assert_eq!(spawn.label, label);
    assert_eq!(spawn.code_info.code_id, 7);
    assert_eq!(spawn.init_msg.owner, owner);
    spawn.init_msg.password.clone()
}

fn register(state: &mut FactoryState, sender: &str, owner: &str, label: &str, password: Vec<u8>)
    -> Result<(), ContractError>
{
    let reg = RegisterOffspringInfo { label: label.to_string(), password };
    try_register_offspring(state, &env(sender), owner.to_string(), &reg).map(|resp| {
        assert_eq!(resp.log.len(), 1);
        assert_eq!(resp.log[0].key, "offspring_address");
        assert_eq!(resp.log[0].value, sender);
    })
}

fn active_addresses(state: &FactoryState) -> Vec<String> {
    match try_list_active(state, None, None).unwrap() {
        QueryAnswer::ListActiveOffspring { active } => {
            active.iter().map(|o| o.contract.address.clone()).collect()
        }
        other => panic!("unexpected answer: {:?}", other),
    }
}

fn inactive_addresses(state: &FactoryState) -> Vec<String> {
    match try_list_inactive(state, None, None).unwrap() {
        QueryAnswer::ListInactiveOffspring { inactive } => {
            inactive.iter().map(|o| o.contract.address.clone()).collect()
        }
        other => panic!("unexpected answer: {:?}", other),
    }
}

#[test]
fn create_then_register_appears_once_in_lists() {
    let mut state = new_factory();
    let password = create(&mut state, "alice", "first");
    assert_eq!(password.len(), 32);
    register(&mut state, "offspring1", "alice", "first", password).expect("register");

    // the pending slot is consumed exactly once
    assert!(state.pending_password.is_none());

    // exactly once in the global active list
    let addrs = active_addresses(&state);
    assert_eq!(addrs, vec!["offspring1".to_string()]);

    // and exactly once in the owner's active list, behind the viewing key
    let key = match try_create_key(&mut state, &env("alice"), "key entropy".to_string())
        .unwrap()
        .data
    {
        Some(HandleAnswer::ViewingKey { key }) => key,
        other => panic!("unexpected answer: {:?}", other),
    };
    match try_list_my(&state, &"alice".to_string(), &key, Some(FilterTypes::Active), None, None)
        .unwrap()
    {
        QueryAnswer::ListMyOffspring { active, inactive } => {
            let active = active.expect("active list requested");
            assert!(inactive.is_none(), "inactive list was not requested");
            assert_eq!(active.len(), 1);
            assert_eq!(active[0].contract.address, "offspring1");
            assert_eq!(active[0].label, "first");
        }
        other => panic!("unexpected answer: {:?}", other),
    }
}

#[test]
fn register_with_altered_password_fails_without_mutation() {
    let mut state = new_factory();
    let mut password = create(&mut state, "alice", "first");
    let good = password.clone();
    password[7] ^= 0x01;
    let err = register(&mut state, "offspring1", "alice", "first", password).unwrap_err();
    assert_eq!(err, ContractError::AuthenticationFailed);
    // no mutation: nothing was registered and the pending slot survives,
    // so the exact password still works
    assert!(active_addresses(&state).is_empty());
    assert!(state.pending_password.is_some());
    register(&mut state, "offspring1", "alice", "first", good).expect("exact password");
}

#[test]
fn second_registration_with_consumed_password_fails() {
    let mut state = new_factory();
    let password = create(&mut state, "alice", "first");
    register(&mut state, "offspring1", "alice", "first", password.clone()).expect("first");
    // reusing the consumed password fails, even from another sender
    let err = register(&mut state, "offspring2", "alice", "first", password).unwrap_err();
    assert_eq!(err, ContractError::AuthenticationFailed);
    assert_eq!(active_addresses(&state), vec!["offspring1".to_string()]);
}

#[test]
fn registering_an_already_registered_address_is_refused() {
    let mut state = new_factory();
    let p1 = create(&mut state, "alice", "first");
    register(&mut state, "offspring1", "alice", "first", p1).expect("first");
    let p2 = create(&mut state, "alice", "second");
    let err = register(&mut state, "offspring1", "alice", "second", p2).unwrap_err();
    assert_eq!(err, ContractError::InvalidState);
}

#[test]
fn a_new_create_invalidates_the_prior_password() {
    let mut state = new_factory();
    let p1 = create(&mut state, "alice", "first");
    let p2 = create(&mut state, "alice", "second");
    // the generator advances, so the passwords differ
    assert_ne!(p1, p2);
    let err = register(&mut state, "offspring1", "alice", "first", p1).unwrap_err();
    assert_eq!(err, ContractError::AuthenticationFailed);
    register(&mut state, "offspring2", "alice", "second", p2).expect("latest password");
}

#[test]
fn deactivate_moves_between_lists_and_repeat_fails() {
    let mut state = new_factory();
    let p = create(&mut state, "alice", "first");
    register(&mut state, "offspring1", "alice", "first", p).expect("register");

    let resp = try_deactivate_offspring(&mut state, &env("offspring1"), &"alice".to_string())
        .expect("deactivate");
    assert!(resp.data.is_none());

    // moved out of the active and into the inactive list, globally
    assert!(active_addresses(&state).is_empty());
    assert_eq!(inactive_addresses(&state), vec!["offspring1".to_string()]);

    // and in the owner-scoped views
    let key = match try_create_key(&mut state, &env("alice"), "e".to_string()).unwrap().data {
        Some(HandleAnswer::ViewingKey { key }) => key,
        other => panic!("unexpected answer: {:?}", other),
    };
    match try_list_my(&state, &"alice".to_string(), &key, None, None, None).unwrap() {
        QueryAnswer::ListMyOffspring { active, inactive } => {
            assert_eq!(active.expect("both requested").len(), 0);
            let inactive = inactive.expect("both requested");
            assert_eq!(inactive.len(), 1);
            assert_eq!(inactive[0].contract.address, "offspring1");
        }
        other => panic!("unexpected answer: {:?}", other),
    }

    // a second deactivation of the same identity fails
    let err = try_deactivate_offspring(&mut state, &env("offspring1"), &"alice".to_string())
        .unwrap_err();
    assert_eq!(err, ContractError::InvalidState);
}

#[test]
fn deactivate_with_wrong_owner_is_unauthorized() {
    let mut state = new_factory();
    let p = create(&mut state, "alice", "first");
    register(&mut state, "offspring1", "alice", "first", p).expect("register");
    let err = try_deactivate_offspring(&mut state, &env("offspring1"), &"mallory".to_string())
        .unwrap_err();
    assert_eq!(err, ContractError::Unauthorized);
    assert_eq!(active_addresses(&state), vec!["offspring1".to_string()]);
}

#[test]
fn three_registered_page_one_size_one_returns_the_second() {
    let mut state = new_factory();
    for (sender, label) in [("x", "lx"), ("y", "ly"), ("z", "lz")] {
        let p = create(&mut state, "alice", label);
        register(&mut state, sender, "alice", label, p).expect("register");
    }
    match try_list_active(&state, Some(1), Some(1)).unwrap() {
        QueryAnswer::ListActiveOffspring { active } => {
            assert_eq!(active.len(), 1);
            assert_eq!(active[0].contract.address, "y");
            assert_eq!(active[0].label, "ly");
        }
        other => panic!("unexpected answer: {:?}", other),
    }
}

#[test]
fn paging_edge_cases_yield_empty_pages() {
    let mut state = new_factory();
    let p = create(&mut state, "alice", "first");
    register(&mut state, "offspring1", "alice", "first", p).expect("register");
    // zero page size
    match try_list_active(&state, Some(0), Some(0)).unwrap() {
        QueryAnswer::ListActiveOffspring { active } => assert!(active.is_empty()),
        other => panic!("unexpected answer: {:?}", other),
    }
    // page beyond the range
    match try_list_active(&state, Some(5), Some(200)).unwrap() {
        QueryAnswer::ListActiveOffspring { active } => assert!(active.is_empty()),
        other => panic!("unexpected answer: {:?}", other),
    }
}

#[test]
fn listing_with_filter_all_is_a_bad_request() {
    let state = new_factory();
    let err =
        display_active_or_inactive_list(&state, None, FilterTypes::All, None, None).unwrap_err();
    assert_eq!(err, ContractError::BadRequest);
}

#[test]
fn set_stopped_by_non_admin_fails_then_admin_stops_creation() {
    let mut state = new_factory();
    let err = try_set_status(&mut state, &env("mallory"), true).unwrap_err();
    assert_eq!(err, ContractError::Unauthorized);
    assert!(!state.stopped);

    try_set_status(&mut state, &env("admin"), true).expect("admin may stop");
    assert!(state.stopped);

    let err = try_create_offspring(
        &mut state,
        &env("alice"),
        "label".to_string(),
        "entropy".to_string(),
        "alice".to_string(),
        0,
        None,
    )
    .unwrap_err();
    assert_eq!(err, ContractError::InvalidState);
}

#[test]
fn new_contract_is_admin_only() {
    let mut state = new_factory();
    let replacement = CodeInfo { code_id: 8, code_hash: "new_hash".to_string() };
    let err = try_new_contract(
        &mut state,
        &env("mallory"),
        CodeInfo { code_id: 8, code_hash: "new_hash".to_string() },
    )
    .unwrap_err();
    assert_eq!(err, ContractError::Unauthorized);
    assert_eq!(state.offspring_code.code_id, 7);

    try_new_contract(&mut state, &env("admin"), replacement).expect("admin may replace");
    assert_eq!(state.offspring_code.code_id, 8);
    assert_eq!(state.offspring_code.code_hash, "new_hash");
}

#[test]
fn created_viewing_key_validates_and_altered_key_does_not() {
    let mut state = new_factory();
    let key = match try_create_key(&mut state, &env("alice"), "entropy".to_string())
        .unwrap()
        .data
    {
        Some(HandleAnswer::ViewingKey { key }) => key,
        other => panic!("unexpected answer: {:?}", other),
    };
    // a minted key is the fixed prefix plus 44 base64 characters for a
    // 32-byte digest
    assert!(key.starts_with("api_key_"));
    assert_eq!(key.len(), "api_key_".len() + 44);

    let alice = "alice".to_string();
    assert!(is_key_valid(&state, &alice, &key));
    let mut altered = key.clone();
    altered.push('x');
    assert!(!is_key_valid(&state, &alice, &altered));
    // an identity that never created a key is always invalid
    assert!(!is_key_valid(&state, &"bob".to_string(), &key));
}

#[test]
fn is_key_valid_is_deterministic_and_effect_free() {
    let mut state = new_factory();
    try_set_key(&mut state, &env("alice"), &"my viewing key".to_string()).expect("set key");
    let alice = "alice".to_string();
    let key = "my viewing key".to_string();
    let first = is_key_valid(&state, &alice, &key);
    let second = is_key_valid(&state, &alice, &key);
    assert!(first && second);
    // still present, still the same answer through the query surface
    match query(
        &state,
        QueryMsg::IsKeyValid { address: "alice".to_string(), viewing_key: key.clone() },
    )
    .unwrap()
    {
        QueryAnswer::IsKeyValid { is_valid } => assert!(is_valid),
        other => panic!("unexpected answer: {:?}", other),
    }
}

#[test]
fn set_key_overwrites_the_prior_key() {
    let mut state = new_factory();
    try_set_key(&mut state, &env("alice"), &"first key".to_string()).expect("set");
    try_set_key(&mut state, &env("alice"), &"second key".to_string()).expect("overwrite");
    let alice = "alice".to_string();
    assert!(!is_key_valid(&state, &alice, &"first key".to_string()));
    assert!(is_key_valid(&state, &alice, &"second key".to_string()));
}

#[test]
fn wrong_viewing_key_hides_list_contents() {
    let mut state = new_factory();
    let p = create(&mut state, "alice", "first");
    register(&mut state, "offspring1", "alice", "first", p).expect("register");
    match try_list_my(&state, &"alice".to_string(), &"guess".to_string(), None, None, None)
        .unwrap()
    {
        QueryAnswer::ViewingKeyError { error } => {
            assert_eq!(error, "Wrong viewing key for this address or viewing key not set");
        }
        other => panic!("unexpected answer: {:?}", other),
    }
}

#[test]
fn owner_scoping_does_not_leak_across_owners() {
    let mut state = new_factory();
    let p = create(&mut state, "alice", "first");
    register(&mut state, "offspring1", "alice", "first", p).expect("register");
    let p = create(&mut state, "bob", "second");
    register(&mut state, "offspring2", "bob", "second", p).expect("register");

    let key = match try_create_key(&mut state, &env("bob"), "e".to_string()).unwrap().data {
        Some(HandleAnswer::ViewingKey { key }) => key,
        other => panic!("unexpected answer: {:?}", other),
    };
    match try_list_my(&state, &"bob".to_string(), &key, Some(FilterTypes::Active), None, None)
        .unwrap()
    {
        QueryAnswer::ListMyOffspring { active, .. } => {
            let active = active.expect("requested");
            assert_eq!(active.len(), 1);
            assert_eq!(active[0].contract.address, "offspring2");
        }
        other => panic!("unexpected answer: {:?}", other),
    }
}

#[test]
fn error_messages_are_nonempty() {
    for e in [
        ContractError::Unauthorized,
        ContractError::AuthenticationFailed,
        ContractError::InvalidState,
        ContractError::InternalConsistency,
        ContractError::BadRequest,
    ] {
        assert!(!e.message().is_empty());
    }
}

#[test]
fn handle_set_viewing_key_installs_the_exact_key() {
    let mut state = new_factory();
    let resp = handle(
        &mut state,
        &env("alice"),
        ExecuteMsg::SetViewingKey { key: "chosen key".to_string(), padding: None },
    )
    .expect("set key");
    match resp.data {
        Some(HandleAnswer::ViewingKey { key }) => assert_eq!(key, "chosen key"),
        other => panic!("unexpected answer: {:?}", other),
    }
    assert!(is_key_valid(&state, &"alice".to_string(), &"chosen key".to_string()));
}

#[test]
fn pagination_skips_start_page_times_page_size() {
    let mut state = new_factory();
    for sender in ["a", "b", "c", "d", "e"] {
        let p = create(&mut state, "alice", sender);
        register(&mut state, sender, "alice", sender, p).expect("register");
    }
    // skip 1 * 2 = 2 entries, then yield up to 2
    match try_list_active(&state, Some(1), Some(2)).unwrap() {
        QueryAnswer::ListActiveOffspring { active } => {
            let addrs: Vec<String> = active.iter().map(|o| o.contract.address.clone()).collect();
            assert_eq!(addrs, vec!["c".to_string(), "d".to_string()]);
        }
        other => panic!("unexpected answer: {:?}", other),
    }
    // the last, short page
    match try_list_active(&state, Some(2), Some(2)).unwrap() {
        QueryAnswer::ListActiveOffspring { active } => {
            let addrs: Vec<String> = active.iter().map(|o| o.contract.address.clone()).collect();
            assert_eq!(addrs, vec!["e".to_string()]);
        }
        other => panic!("unexpected answer: {:?}", other),
    }
}

#[test]
fn responses_pad_to_whole_blocks_with_spaces() {
    let mut data: Vec<u8> = b"{\"status\":\"success\"}".to_vec();
    let original = data.clone();
    pad_bytes_to_block(&mut data);
    assert_eq!(data.len(), 256);
    assert_eq!(&data[..original.len()], &original[..]);
    assert!(data[original.len()..].iter().all(|b| *b == b' '));

    // data already on a block boundary is left as it is
    let mut exact: Vec<u8> = vec![7u8; 512];
    pad_bytes_to_block(&mut exact);
    assert_eq!(exact.len(), 512);
    assert!(exact.iter().all(|b| *b == 7));
    let mut empty: Vec<u8> = Vec::new();
    pad_bytes_to_block(&mut empty);
    assert!(empty.is_empty());
}
