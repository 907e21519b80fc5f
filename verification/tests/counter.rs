use counter_contract::contract::{
    execute, instantiate, new_store, query, transition_execute, transition_init, transition_query,
};
use counter_contract::error::ContractError;
use counter_contract::msg::{CounterResponse, ExecuteMsg, InstantiateMsg, QueryMsg};

use cosmwasm_std::Storage;

#[test]
fn initialize_set_then_query_reads_it_back() {
    for v in [0u8, 1, 7, 254, 255] {
        let mut store = new_store();
        instantiate(&mut store, InstantiateMsg::SetTo { value: v }).unwrap();
        let answer = query(&store, QueryMsg::Value {}).unwrap();
        assert_eq!(answer, CounterResponse { value: v });
    }
}

#[test]
fn initialize_zero_then_query_reads_zero() {
    let mut store = new_store();
    instantiate(&mut store, InstantiateMsg::Zero {}).unwrap();
    let answer = query(&store, QueryMsg::Value {}).unwrap();
    assert_eq!(answer, CounterResponse { value: 0 });
}

#[test]
fn initialize_overwrites_prior_value() {
    let mut store = new_store();
    instantiate(&mut store, InstantiateMsg::SetTo { value: 200 }).unwrap();
    instantiate(&mut store, InstantiateMsg::Zero {}).unwrap();
    let answer = query(&store, QueryMsg::Value {}).unwrap();
    assert_eq!(answer, CounterResponse { value: 0 });
}

#[test]
fn increment_adds_one() {
    let mut store = new_store();
    instantiate(&mut store, InstantiateMsg::SetTo { value: 41 }).unwrap();
    execute(&mut store, ExecuteMsg::Inc {}).unwrap();
    let answer = query(&store, QueryMsg::Value {}).unwrap();
    assert_eq!(answer, CounterResponse { value: 42 });
}

#[test]
fn increment_saturates_at_top() {
    let mut store = new_store();
    instantiate(&mut store, InstantiateMsg::SetTo { value: 254 }).unwrap();
    execute(&mut store, ExecuteMsg::Inc {}).unwrap();
    assert_eq!(query(&store, QueryMsg::Value {}).unwrap(), CounterResponse { value: 255 });
    execute(&mut store, ExecuteMsg::Inc {}).unwrap();
    assert_eq!(query(&store, QueryMsg::Value {}).unwrap(), CounterResponse { value: 255 });
}

#[test]
fn decrement_subtracts_one() {
    let mut store = new_store();
    instantiate(&mut store, InstantiateMsg::SetTo { value: 43 }).unwrap();
    execute(&mut store, ExecuteMsg::Dec {}).unwrap();
    let answer = query(&store, QueryMsg::Value {}).unwrap();
    assert_eq!(answer, CounterResponse { value: 42 });
}

#[test]
fn decrement_saturates_at_bottom() {
    let mut store = new_store();
    instantiate(&mut store, InstantiateMsg::SetTo { value: 1 }).unwrap();
    execute(&mut store, ExecuteMsg::Dec {}).unwrap();
    assert_eq!(query(&store, QueryMsg::Value {}).unwrap(), CounterResponse { value: 0 });
    execute(&mut store, ExecuteMsg::Dec {}).unwrap();
    assert_eq!(query(&store, QueryMsg::Value {}).unwrap(), CounterResponse { value: 0 });
}

#[test]
fn set_overwrites_any_prior_value() {
    for v in [0u8, 17, 255] {
        let mut store = new_store();
        instantiate(&mut store, InstantiateMsg::SetTo { value: 99 }).unwrap();
        execute(&mut store, ExecuteMsg::SetTo { value: v }).unwrap();
        let answer = query(&store, QueryMsg::Value {}).unwrap();
        assert_eq!(answer, CounterResponse { value: v });
    }
}

#[test]
fn execute_before_initialize_is_state_missing() {
    let mut store = new_store();
    let err = execute(&mut store, ExecuteMsg::Inc {}).unwrap_err();
    assert_eq!(err, ContractError::StateMissing);
    let err = execute(&mut store, ExecuteMsg::SetTo { value: 5 }).unwrap_err();
    assert_eq!(err, ContractError::StateMissing);
}

#[test]
fn query_before_initialize_is_state_missing() {
    let store = new_store();
    let err = query(&store, QueryMsg::Value {}).unwrap_err();
    assert_eq!(err, ContractError::StateMissing);
}

#[test]
fn unreadable_stored_bytes_are_a_storage_error() {
    let mut store = new_store();
    store.set(b"value", b"not a number");
    let err = query(&store, QueryMsg::Value {}).unwrap_err();
    assert_eq!(err, ContractError::StorageError);
    let err = execute(&mut store, ExecuteMsg::Inc {}).unwrap_err();
    assert_eq!(err, ContractError::StorageError);
}

#[test]
fn counting_scenario() {
    let mut store = new_store();
    instantiate(&mut store, InstantiateMsg::Zero {}).unwrap();
    for _ in 0..3 {
        execute(&mut store, ExecuteMsg::Inc {}).unwrap();
    }
    assert_eq!(query(&store, QueryMsg::Value {}).unwrap(), CounterResponse { value: 3 });

    execute(&mut store, ExecuteMsg::SetTo { value: 250 }).unwrap();
    for _ in 0..10 {
        execute(&mut store, ExecuteMsg::Inc {}).unwrap();
    }
    assert_eq!(query(&store, QueryMsg::Value {}).unwrap(), CounterResponse { value: 255 });

    for _ in 0..300 {
        execute(&mut store, ExecuteMsg::Dec {}).unwrap();
    }
    assert_eq!(query(&store, QueryMsg::Value {}).unwrap(), CounterResponse { value: 0 });
}

#[test]
fn transitions_match_the_handlers() {
    assert_eq!(transition_init(InstantiateMsg::Zero {}), 0);
    assert_eq!(transition_init(InstantiateMsg::SetTo { value: 9 }), 9);

    assert_eq!(transition_execute(Some(9), ExecuteMsg::Inc {}), Ok(10));
    assert_eq!(transition_execute(Some(255), ExecuteMsg::Inc {}), Ok(255));
    assert_eq!(transition_execute(Some(0), ExecuteMsg::Dec {}), Ok(0));
    assert_eq!(transition_execute(Some(9), ExecuteMsg::SetTo { value: 1 }), Ok(1));
    assert_eq!(
        transition_execute(None, ExecuteMsg::Inc {}),
        Err(ContractError::StateMissing)
    );

    assert_eq!(
        transition_query(Some(9), QueryMsg::Value {}),
        Ok(CounterResponse { value: 9 })
    );
    assert_eq!(
        transition_query(None, QueryMsg::Value {}),
        Err(ContractError::StateMissing)
    );
}
