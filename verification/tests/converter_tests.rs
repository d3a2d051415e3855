use stluna_bluna_converter::contract::{
    execute, instantiate, query_config, reply, swap, Attribute, Cw20HookMsg, Event, ExecuteMsg,
    ReplyResult,
};
use stluna_bluna_converter::error::ContractError;
use stluna_bluna_converter::msgs::InstantiateMsg;
use stluna_bluna_converter::state::Config;

const MOCK_HUB_CONTRACT_ADDR: &str = "hub";
const MOCK_STLUNA_TOKEN_CONTRACT_ADDR: &str = "stluna_token";
const MOCK_BLUNA_TOKEN_CONTRACT_ADDR: &str = "bluna_token";

pub fn initialize() -> Config {
    let msg = InstantiateMsg {
        stluna_address: MOCK_STLUNA_TOKEN_CONTRACT_ADDR.to_string(),
        bluna_address: MOCK_BLUNA_TOKEN_CONTRACT_ADDR.to_string(),
        hub_address: MOCK_HUB_CONTRACT_ADDR.to_string(),
    };
    instantiate(msg, "owner".to_string()).unwrap()
}

#[test]
fn proper_swap_stluna_bluna() {
    let config = initialize();

    let sender = "addr";
    let amount: u128 = 100;

    let receive = ExecuteMsg::Receive {
        sender_token: MOCK_STLUNA_TOKEN_CONTRACT_ADDR.to_string(),
        initiator: sender.to_string(),
        amount,
        msg: Cw20HookMsg::Swap { belief_price: None, max_spread: None, to: None },
    };
    let res = execute(&config, &receive).unwrap();

    assert_eq!(res.instruction.token_addr, MOCK_STLUNA_TOKEN_CONTRACT_ADDR);
    assert_eq!(res.instruction.hub_addr, MOCK_HUB_CONTRACT_ADDR);
    assert_eq!(res.instruction.amount, amount);
    assert_eq!(res.request.ask_addr, MOCK_BLUNA_TOKEN_CONTRACT_ADDR);
    assert_eq!(res.request.recipient, sender);
}

#[test]
fn proper_swap_bluna_stluna() {
    let config = initialize();

    let sender = "addr";
    let amount: u128 = 100;

    let receive = ExecuteMsg::Receive {
        sender_token: MOCK_BLUNA_TOKEN_CONTRACT_ADDR.to_string(),
        initiator: sender.to_string(),
        amount,
        msg: Cw20HookMsg::Swap { belief_price: None, max_spread: None, to: None },
    };
    let res = execute(&config, &receive).unwrap();

    assert_eq!(res.instruction.token_addr, MOCK_BLUNA_TOKEN_CONTRACT_ADDR);
    assert_eq!(res.instruction.hub_addr, MOCK_HUB_CONTRACT_ADDR);
    assert_eq!(res.instruction.amount, amount);
    assert_eq!(res.request.ask_addr, MOCK_STLUNA_TOKEN_CONTRACT_ADDR);
    assert_eq!(res.request.recipient, sender);
}

#[test]
fn swap_to_explicit_recipient() {
    let config = initialize();

    let res = swap(
        &config,
        &MOCK_BLUNA_TOKEN_CONTRACT_ADDR.to_string(),
        &"addr".to_string(),
        42,
        &Some("friend".to_string()),
    )
    .unwrap();

    assert_eq!(res.request.recipient, "friend");
    assert_eq!(res.request.ask_addr, MOCK_STLUNA_TOKEN_CONTRACT_ADDR);
}

#[test]
fn swap_from_unregistered_token_is_unauthorized() {
    let config = initialize();

    let receive = ExecuteMsg::Receive {
        sender_token: "intruder_token".to_string(),
        initiator: "addr".to_string(),
        amount: 100,
        msg: Cw20HookMsg::Swap { belief_price: None, max_spread: None, to: None },
    };
    let res = execute(&config, &receive);
    assert_eq!(res.unwrap_err(), ContractError::Unauthorized);
}

#[test]
fn unsupported_execute_messages_are_rejected() {
    let config = initialize();

    assert_eq!(execute(&config, &ExecuteMsg::UpdateConfig).unwrap_err(), ContractError::NonSupported);
    assert_eq!(
        execute(&config, &ExecuteMsg::ProvideLiquidity).unwrap_err(),
        ContractError::NonSupported
    );
    assert_eq!(execute(&config, &ExecuteMsg::Swap).unwrap_err(), ContractError::Unauthorized);

    let withdraw = ExecuteMsg::Receive {
        sender_token: MOCK_STLUNA_TOKEN_CONTRACT_ADDR.to_string(),
        initiator: "addr".to_string(),
        amount: 100,
        msg: Cw20HookMsg::WithdrawLiquidity,
    };
    assert_eq!(execute(&config, &withdraw).unwrap_err(), ContractError::NonSupported);
}

#[test]
fn instantiate_rejects_identical_token_addresses() {
    let msg = InstantiateMsg {
        stluna_address: "same_token".to_string(),
        bluna_address: "same_token".to_string(),
        hub_address: MOCK_HUB_CONTRACT_ADDR.to_string(),
    };
    let res = instantiate(msg, "owner".to_string());
    assert_eq!(res.unwrap_err(), ContractError::InvalidAsset);
}

#[test]
fn proper_config_query() {
    let config = initialize();
    let res = query_config(&config);
    assert_eq!(res.hub_address, MOCK_HUB_CONTRACT_ADDR);
    assert_eq!(res.stluna_address, MOCK_STLUNA_TOKEN_CONTRACT_ADDR);
    assert_eq!(res.bluna_address, MOCK_BLUNA_TOKEN_CONTRACT_ADDR);
    assert_eq!(res.owner, "owner");
    assert_eq!(res.block_time_last, 0);
}

fn convert_events(key: &str, value: &str) -> Vec<Event> {
    vec![
        Event { ty: "execute".to_string(), attributes: vec![] },
        Event {
            ty: "wasm".to_string(),
            attributes: vec![
                Attribute { key: "action".to_string(), value: "convert".to_string() },
                Attribute { key: key.to_string(), value: value.to_string() },
            ],
        },
    ]
}

#[test]
fn reply_settles_to_recorded_recipient() {
    let config = initialize();
    let plan = swap(
        &config,
        &MOCK_BLUNA_TOKEN_CONTRACT_ADDR.to_string(),
        &"addr".to_string(),
        150,
        &None,
    )
    .unwrap();

    let result = ReplyResult::Success { events: convert_events("stluna_amount", "90") };
    let transfer = reply(&config, &plan.request, &result).unwrap();

    assert_eq!(transfer.token_addr, MOCK_STLUNA_TOKEN_CONTRACT_ADDR);
    assert_eq!(transfer.recipient, "addr");
    assert_eq!(transfer.amount, 90);
}

#[test]
fn reply_on_failure_settles_nothing() {
    let config = initialize();
    let plan = swap(
        &config,
        &MOCK_STLUNA_TOKEN_CONTRACT_ADDR.to_string(),
        &"addr".to_string(),
        100,
        &None,
    )
    .unwrap();
    let request_before = plan.request.clone();

    let res = reply(&config, &plan.request, &ReplyResult::Failure);
    assert_eq!(res.unwrap_err(), ContractError::QueryFailure);

    // The pending record is untouched: settling is pure, and the error
    // aborts the transaction before anything could overwrite it.
    assert_eq!(plan.request.recipient, request_before.recipient);
    assert_eq!(plan.request.ask_addr, request_before.ask_addr);
}

#[test]
fn reply_without_amount_attribute_fails() {
    let config = initialize();
    let plan = swap(
        &config,
        &MOCK_STLUNA_TOKEN_CONTRACT_ADDR.to_string(),
        &"addr".to_string(),
        100,
        &None,
    )
    .unwrap();

    // The hub reported a stluna amount, but a bluna amount is owed.
    let result = ReplyResult::Success { events: convert_events("stluna_amount", "90") };
    let res = reply(&config, &plan.request, &result);
    assert_eq!(res.unwrap_err(), ContractError::CallbackDataMissing);
}

#[test]
fn reply_with_unparseable_amount_fails() {
    let config = initialize();
    let plan = swap(
        &config,
        &MOCK_BLUNA_TOKEN_CONTRACT_ADDR.to_string(),
        &"addr".to_string(),
        150,
        &None,
    )
    .unwrap();

    let result = ReplyResult::Success { events: convert_events("stluna_amount", "ninety") };
    let res = reply(&config, &plan.request, &result);
    assert_eq!(res.unwrap_err(), ContractError::CallbackDataMissing);
}
