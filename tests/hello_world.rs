use cw_contracts::error::ContractError;
use cw_contracts::hello_world::contract::{
    execute, get_message, instantiate, query, update_greeting_message,
};
use cw_contracts::hello_world::msg::{ExecuteMsg, GetMessageResponse, InstantiateMsg, QueryMsg};
use cw_contracts::hello_world::state::{greeting, State};

fn attrs(pairs: &[(&str, &str)]) -> Vec<(String, String)> {
    pairs.iter().map(|(k, v)| (k.to_string(), v.to_string())).collect()
}

#[test]
fn proper_initialization() {
    let msg = InstantiateMsg {
        message: format!("Hello Wolrd! Cosmwasm"),
    };
    let (state, res) = instantiate(&"creator".to_string(), msg);
    assert_eq!(3, res.attributes.len());

    let value: GetMessageResponse = query(Some(state), QueryMsg::GetMessage {}).unwrap();
    assert_eq!(format!("Hello World! Hello Wolrd! Cosmwasm"), value.message);
}

#[test]
fn update_message() {
    let msg = InstantiateMsg {
        message: format!("Hello Wolrd! Cosmwasm"),
    };
    let (state, _res) = instantiate(&"creator".to_string(), msg);

    let msg = ExecuteMsg::Update {
        message: "Max".to_string(),
    };
    let (state, _res) = execute(Some(state), &"creator".to_string(), msg).unwrap();

    let value: GetMessageResponse = query(Some(state), QueryMsg::GetMessage {}).unwrap();
    assert_eq!(format!("Hello World! Max"), value.message);
}

#[test]
fn instantiate_records_caller_as_owner() {
    let (state, res) = instantiate(
        &"alice".to_string(),
        InstantiateMsg {
            message: "there".to_string(),
        },
    );
    assert_eq!(state.owner, "alice");
    assert_eq!(state.greeting_message, "Hello World! there");
    assert_eq!(
        res.attributes,
        attrs(&[
            ("method", "instantiate"),
            ("owner", "alice"),
            ("greeting_message", "there"),
        ])
    );
}

#[test]
fn greeting_prefixes_template() {
    assert_eq!(greeting(""), "Hello World! ");
    assert_eq!(greeting("Max"), "Hello World! Max");
}

#[test]
fn update_by_stranger_is_unauthorized_and_changes_nothing() {
    let (mut state, _) = instantiate(
        &"owner".to_string(),
        InstantiateMsg {
            message: "a".to_string(),
        },
    );
    let before = state.clone();
    let r = update_greeting_message(&mut state, &"mallory".to_string(), "b".to_string());
    assert_eq!(r, Err(ContractError::Unauthorized));
    assert_eq!(state, before);

    let r = execute(
        Some(state),
        &"mallory".to_string(),
        ExecuteMsg::Update {
            message: "b".to_string(),
        },
    );
    assert_eq!(r, Err(ContractError::Unauthorized));
}

#[test]
fn update_reports_action() {
    let mut state = State {
        greeting_message: "Hello World! a".to_string(),
        owner: "owner".to_string(),
    };
    let r = update_greeting_message(&mut state, &"owner".to_string(), "b".to_string()).unwrap();
    assert_eq!(r.attributes, attrs(&[("action", "update_greeting_message")]));
    assert_eq!(get_message(&state).message, "Hello World! b");
}

#[test]
fn update_twice_equals_update_once() {
    let (state, _) = instantiate(
        &"owner".to_string(),
        InstantiateMsg {
            message: "a".to_string(),
        },
    );
    let msg = ExecuteMsg::Update {
        message: "m".to_string(),
    };
    let (once, _) = execute(Some(state), &"owner".to_string(), msg.clone()).unwrap();
    let (twice, _) = execute(Some(once.clone()), &"owner".to_string(), msg).unwrap();
    assert_eq!(once, twice);
    assert_eq!(get_message(&twice).message, "Hello World! m");
}

#[test]
fn greeting_missing_aggregate_is_not_found() {
    let r = execute(
        None,
        &"owner".to_string(),
        ExecuteMsg::Update {
            message: "m".to_string(),
        },
    );
    assert_eq!(r, Err(ContractError::NotFound));
    assert_eq!(query(None, QueryMsg::GetMessage {}), Err(ContractError::NotFound));
}
