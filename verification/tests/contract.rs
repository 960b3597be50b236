use cosmwasm_std::testing::{mock_dependencies, mock_env, MockApi};
use cosmwasm_std::{coins, Api, Env};
use reencryption_contract::contract::{handle, init, query};
use reencryption_contract::error::ContractError;
use reencryption_contract::msg::{HandleMsg, InitMsg, QueryMsg, ReencryptionKeyResponse};
use reencryption_contract::state::Store;

/// The canonical address of the account that sent the message of `env`.
fn sender(api: &MockApi, env: &Env) -> Vec<u8> {
    api.canonical_address(&env.message.sender)
        .unwrap()
        .as_slice()
        .to_vec()
}

#[test]
fn proper_initialization() {
    let deps = mock_dependencies(20, &[]);
    let mut store = Store::new();

    let msg = InitMsg {};
    let env = mock_env("creator", &coins(1000, "earth"));

    // we can just call .unwrap() to assert this was a success
    let res = init(&mut store, sender(&deps.api, &env), msg).unwrap();
    assert_eq!(0, res.messages.len());

    // it worked, let's query the state
    let value: ReencryptionKeyResponse =
        query(&store, QueryMsg::GetReencryptionKey {}).unwrap();
    assert_eq!([0; 32], value.reencryption_key);
}

#[test]
fn set() {
    let deps = mock_dependencies(20, &coins(2, "token"));
    let mut store = Store::new();

    let msg = InitMsg {};
    let env = mock_env("creator", &coins(2, "token"));
    let _res = init(&mut store, sender(&deps.api, &env), msg).unwrap();

    // anyone can set
    let env = mock_env("anyone", &coins(2, "token"));
    let msg = HandleMsg::SetKey {
        reencryption_key: [1; 32],
    };
    let _res = handle(&mut store, sender(&deps.api, &env), msg).unwrap();

    // should be set
    let value: ReencryptionKeyResponse =
        query(&store, QueryMsg::GetReencryptionKey {}).unwrap();
    assert_eq!([1; 32], value.reencryption_key);
}

#[test]
fn reset() {
    let deps = mock_dependencies(20, &coins(2, "token"));
    let mut store = Store::new();

    let msg = InitMsg {};
    let env = mock_env("creator", &coins(2, "token"));
    let _res = init(&mut store, sender(&deps.api, &env), msg).unwrap();

    // not anyone can reset
    let unauth_env = mock_env("anyone", &coins(2, "token"));
    let msg = HandleMsg::Reset {};
    let res = handle(&mut store, sender(&deps.api, &unauth_env), msg);
    match res {
        Err(ContractError::Unauthorized) => {}
        _ => panic!("Must return unauthorized error"),
    }

    // only the creator can reset the key
    let auth_env = mock_env("creator", &coins(2, "token"));
    let set_msg = HandleMsg::SetKey {
        reencryption_key: [55; 32],
    };
    let _set_res = handle(&mut store, sender(&deps.api, &auth_env), set_msg).unwrap();

    // should now be 55
    let value: ReencryptionKeyResponse =
        query(&store, QueryMsg::GetReencryptionKey {}).unwrap();
    assert_eq!([55; 32], value.reencryption_key);

    // reset it now
    let auth_env = mock_env("creator", &coins(2, "token"));
    let reset_msg = HandleMsg::Reset {};
    let _reset_res = handle(&mut store, sender(&deps.api, &auth_env), reset_msg).unwrap();

    // should now be 0
    let value: ReencryptionKeyResponse =
        query(&store, QueryMsg::GetReencryptionKey {}).unwrap();
    assert_eq!([0; 32], value.reencryption_key);
}
