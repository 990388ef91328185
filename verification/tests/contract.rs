use deadman_switch_vault::contract::{
    execute_claim, execute_deposit, execute_heartbeat, execute_update_config, instantiate,
    query_config, query_status,
};
use deadman_switch_vault::cosmos::{BankSend, Coin, MessageInfo};
use deadman_switch_vault::error::ContractError;
use deadman_switch_vault::msg::InstantiateMsg;
use deadman_switch_vault::state::VaultState;

fn info(sender: &str, funds: Vec<Coin>) -> MessageInfo {
    MessageInfo { sender: sender.to_string(), funds }
}

fn coins(amount: u128, denom: &str) -> Vec<Coin> {
    vec![Coin { denom: denom.to_string(), amount }]
}

fn instantiate_default(height: u64) -> VaultState {
    let msg = InstantiateMsg {
        owner: None,
        beneficiary: "beneficiary".to_string(),
        denom: "utest".to_string(),
        heartbeat_window: 10,
    };
    let (state, _) = instantiate(height, &info("owner", vec![]), &msg, Ok(()), Ok(())).unwrap();
    state
}

#[test]
fn proper_initialization() {
    let state = instantiate_default(20);

    let config = query_config(&state);
    assert_eq!(config.owner, "owner");
    assert_eq!(config.beneficiary, "beneficiary");
    assert_eq!(config.denom, "utest");
    assert_eq!(config.heartbeat_window, 10);
}

#[test]
fn deposit_requires_configured_denom() {
    let state = instantiate_default(20);

    let err = execute_deposit(&state.config, &info("depositor", coins(10, "wrong"))).unwrap_err();
    match err {
        ContractError::MissingDeposit { denom } => assert_eq!(denom, "utest"),
        _ => panic!("unexpected error: {err:?}"),
    }

    let res = execute_deposit(&state.config, &info("depositor", coins(10, "utest"))).unwrap();
    assert_eq!(res.attributes[0].value, "deposit");
}

#[test]
fn heartbeat_extends_liveness() {
    let state = instantiate_default(20);

    let (state, _) = execute_heartbeat(&state, 25, &info("owner", vec![])).unwrap();

    let status = query_status(&state, 34);
    assert_eq!(status.last_heartbeat, 25);
    assert_eq!(status.expires_at, 35);
    assert!(!status.expired);

    let status = query_status(&state, 36);
    assert!(status.expired);
}

#[test]
fn only_owner_updates_config() {
    let state = instantiate_default(20);

    let err = execute_update_config(
        &state,
        &info("other", vec![]),
        None,
        Some("new_beneficiary".to_string()),
        Some(25),
        Ok(()),
        Ok(()),
    )
    .unwrap_err();
    match err {
        ContractError::Unauthorized {} => {}
        _ => panic!("unexpected error: {err:?}"),
    }

    let (state, _) = execute_update_config(
        &state,
        &info("owner", vec![]),
        None,
        Some("new_beneficiary".to_string()),
        Some(25),
        Ok(()),
        Ok(()),
    )
    .unwrap();
    let config = query_config(&state);
    assert_eq!(config.beneficiary, "new_beneficiary");
    assert_eq!(config.heartbeat_window, 25);
}

#[test]
fn beneficiary_can_claim_after_expiration() {
    let state = instantiate_default(20);
    let balance: u128 = 175;

    let err = execute_claim(&state, 30, &info("beneficiary", vec![]), None, None, Ok(()), Ok(balance))
        .unwrap_err();
    match err {
        ContractError::NotExpired {} => {}
        _ => panic!("unexpected error: {err:?}"),
    }

    let res = execute_claim(
        &state,
        31,
        &info("beneficiary", vec![]),
        Some("recipient".to_string()),
        Some(125),
        Ok(()),
        Ok(balance),
    )
    .unwrap();

    assert_eq!(res.messages.len(), 1);
    match &res.messages[0] {
        BankSend { to_address, amount } => {
            assert_eq!(to_address, "recipient");
            assert_eq!(amount, &coins(125, "utest"));
        }
    }
}
