use counter::contract::{execute, instantiate, migrate, query, query_counter, try_increase_counter,
    try_reset_counter};
use counter::msg::{ContractError, ExecuteMsg, InstantiateMsg, MigrateMsg, QueryMsg, QueryResponse};
use counter::state::{ContractState, ContractVersion};

fn fresh() -> ContractState {
    instantiate(InstantiateMsg {}).0
}

#[test]
fn instantiate_starts_at_zero_with_init_attribute() {
    let (state, resp) = instantiate(InstantiateMsg {});
    assert_eq!(state.counter, 0);
    assert_eq!(state.version.contract, "counter");
    assert_eq!(state.version.version, "0.1.0");
    assert_eq!(resp.messages.len(), 0);
    assert_eq!(resp.events.len(), 0);
    assert_eq!(resp.attributes.len(), 1);
    assert_eq!(resp.attributes[0].key, "action");
    assert_eq!(resp.attributes[0].value, "counter_contract_init");
}

#[test]
fn increase_sequence_sums_the_values() {
    let mut state = fresh();
    let values: [u32; 5] = [1, 2, 3, 10, 100];
    for v in values {
        let r = execute(&mut state, ExecuteMsg::IncreaseBy { value: v });
        assert!(r.is_ok());
    }
    assert_eq!(query_counter(&state), 116);
}

#[test]
fn increase_records_the_applied_delta() {
    let mut state = fresh();
    let resp = try_increase_counter(&mut state, 5).unwrap();
    assert_eq!(resp.attributes.len(), 1);
    assert_eq!(resp.attributes[0].key, "value");
    assert_eq!(resp.attributes[0].value, "5");
    let resp = try_increase_counter(&mut state, 41007).unwrap();
    assert_eq!(resp.attributes[0].value, "41007");
}

#[test]
fn increase_by_zero_keeps_the_counter() {
    let mut state = fresh();
    try_increase_counter(&mut state, 7).unwrap();
    try_increase_counter(&mut state, 0).unwrap();
    assert_eq!(state.counter, 7);
}

#[test]
fn increase_overflow_is_surfaced_and_mutates_nothing() {
    let mut state = fresh();
    try_increase_counter(&mut state, u32::MAX).unwrap();
    let r = execute(&mut state, ExecuteMsg::IncreaseBy { value: 1 });
    assert_eq!(r.unwrap_err(), ContractError::ArithmeticOverflow);
    assert_eq!(state.counter, u32::MAX);
}

#[test]
fn increase_to_exactly_the_maximum_succeeds() {
    let mut state = fresh();
    try_increase_counter(&mut state, 1).unwrap();
    let r = try_increase_counter(&mut state, u32::MAX - 1);
    assert!(r.is_ok());
    assert_eq!(state.counter, u32::MAX);
}

#[test]
fn reset_always_yields_zero() {
    let mut state = fresh();
    let resp = try_reset_counter(&mut state);
    assert_eq!(state.counter, 0);
    try_increase_counter(&mut state, 12345).unwrap();
    let resp2 = execute(&mut state, ExecuteMsg::Reset {}).unwrap();
    assert_eq!(state.counter, 0);
    assert_eq!(resp.attributes.len(), 1);
    assert_eq!(resp.attributes[0].key, "counter_reset");
    assert_eq!(resp.attributes[0].value, "0");
    assert_eq!(resp2.attributes[0].key, "counter_reset");
}

#[test]
fn repeated_queries_answer_alike() {
    let mut state = fresh();
    try_increase_counter(&mut state, 9).unwrap();
    let a = query_counter(&state);
    let b = query_counter(&state);
    let c = query_counter(&state);
    assert_eq!(a, 9);
    assert_eq!(b, 9);
    assert_eq!(c, 9);
    match query(&state, QueryMsg::GetContractVersion {}) {
        QueryResponse::Version { contract, version } => {
            assert_eq!(contract, "counter");
            assert_eq!(version, "0.1.0");
        },
        _ => panic!("wrong variant"),
    }
}

#[test]
fn scenario_increase_fetch_reset_fetch() {
    let (mut state, _resp) = instantiate(InstantiateMsg {});
    execute(&mut state, ExecuteMsg::IncreaseBy { value: 5 }).unwrap();
    execute(&mut state, ExecuteMsg::IncreaseBy { value: 3 }).unwrap();
    match query(&state, QueryMsg::FetchCounter {}) {
        QueryResponse::Counter(n) => assert_eq!(n, 8),
        _ => panic!("wrong variant"),
    }
    execute(&mut state, ExecuteMsg::Reset {}).unwrap();
    match query(&state, QueryMsg::FetchCounter {}) {
        QueryResponse::Counter(n) => assert_eq!(n, 0),
        _ => panic!("wrong variant"),
    }
}

fn state_at(contract: &str, version: &str, counter: u32) -> ContractState {
    ContractState {
        version: ContractVersion {
            contract: contract.to_string(),
            version: version.to_string(),
        },
        counter,
    }
}

#[test]
fn scenario_migrate_from_equal_version_is_rejected() {
    let (mut state, _resp) = instantiate(InstantiateMsg {});
    let r = migrate(&mut state, MigrateMsg {});
    assert_eq!(r.unwrap_err(), ContractError::DowngradeRejected);
    assert_eq!(state.version.version, "0.1.0");
}

#[test]
fn migrate_from_older_version_advances_the_tag() {
    let mut state = state_at("counter", "0.0.9", 42);
    let resp = migrate(&mut state, MigrateMsg {}).unwrap();
    assert_eq!(resp.messages.len(), 0);
    assert_eq!(resp.attributes.len(), 0);
    assert_eq!(resp.events.len(), 0);
    assert_eq!(state.counter, 42);
    match query(&state, QueryMsg::GetContractVersion {}) {
        QueryResponse::Version { contract, version } => {
            assert_eq!(contract, "counter");
            assert_eq!(version, "0.1.0");
        },
        _ => panic!("wrong variant"),
    }
}

#[test]
fn migrate_from_newer_version_is_rejected() {
    let mut state = state_at("counter", "0.2.0", 0);
    let r = migrate(&mut state, MigrateMsg {});
    assert_eq!(r.unwrap_err(), ContractError::DowngradeRejected);
    assert_eq!(state.version.version, "0.2.0");
}

#[test]
fn migrate_across_names_is_rejected_whatever_the_versions() {
    for v in ["0.0.1", "0.1.0", "9.9.9", "not-a-version"] {
        let mut state = state_at("other-contract", v, 3);
        let r = migrate(&mut state, MigrateMsg {});
        assert_eq!(r.unwrap_err(), ContractError::TypeMismatch);
        assert_eq!(state.version.contract, "other-contract");
        assert_eq!(state.version.version, v);
        assert_eq!(state.counter, 3);
    }
}

#[test]
fn migrate_from_unparseable_version_is_rejected() {
    let mut state = state_at("counter", "0.1", 0);
    assert_eq!(
        migrate(&mut state, MigrateMsg {}).unwrap_err(),
        ContractError::DowngradeRejected
    );
}

#[test]
fn error_messages_match_their_variants() {
    assert_eq!(
        ContractError::TypeMismatch.message(),
        "Can only upgrade from same type"
    );
    assert_eq!(
        ContractError::DowngradeRejected.message(),
        "Cannot upgrade from a newer version"
    );
    assert_eq!(ContractError::ArithmeticOverflow.message(), "counter overflow");
}
