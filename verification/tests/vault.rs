use cosmwasm_std::StdError;
use deadman_switch_vault::contract::{
    amount_sent, assert_beneficiary, assert_owner, execute_claim, execute_deposit,
    execute_heartbeat, execute_update_config, instantiate, is_expired, query, query_config,
    query_status, sent_total_fits, validate_denom, validate_window,
};
use deadman_switch_vault::cosmos::{Attribute, BankSend, Coin, MessageInfo, Response};
use deadman_switch_vault::error::ContractError;
use deadman_switch_vault::msg::{InstantiateMsg, QueryAnswer, QueryMsg};
use deadman_switch_vault::state::{Config, VaultState};

fn info(sender: &str, funds: Vec<Coin>) -> MessageInfo {
    MessageInfo { sender: sender.to_string(), funds }
}

fn coin(amount: u128, denom: &str) -> Coin {
    Coin { denom: denom.to_string(), amount }
}

fn vault(last_heartbeat: u64, window: u64) -> VaultState {
    VaultState {
        config: Config {
            owner: "owner".to_string(),
            beneficiary: "beneficiary".to_string(),
            denom: "utest".to_string(),
            heartbeat_window: window,
        },
        last_heartbeat,
    }
}

fn attrs(resp: &Response) -> Vec<(String, String)> {
    resp.attributes.iter().map(|a: &Attribute| (a.key.clone(), a.value.clone())).collect()
}

fn pairs(items: &[(&str, &str)]) -> Vec<(String, String)> {
    items.iter().map(|(k, v)| (k.to_string(), v.to_string())).collect()
}

fn bad(msg: &str) -> StdError {
    StdError::generic_err(msg)
}

#[test]
fn denom_validation() {
    assert!(matches!(validate_denom(""), Err(ContractError::InvalidDenom {})));
    assert!(matches!(validate_denom(" \t\n"), Err(ContractError::InvalidDenom {})));
    assert!(matches!(validate_denom("\u{3000}\u{a0}"), Err(ContractError::InvalidDenom {})));
    assert!(validate_denom("utest").is_ok());
    assert!(validate_denom("  uatom ").is_ok());
}

#[test]
fn white_space_is_trimmed_and_numbers_are_decimal() {
    // Trimming happens inside the denomination check.
    assert!(matches!(validate_denom("\u{85}\u{2003}\u{2028}\u{205f}"), Err(ContractError::InvalidDenom {})));
    assert!(validate_denom("\u{2003}x\u{3000}").is_ok());
    assert!(validate_denom("\u{200b}").is_ok());
    // Numbers in attributes are written in decimal.
    let big = vault(u64::MAX - 1, 1);
    let (_, resp) = execute_heartbeat(&big, 0, &info("owner", vec![])).unwrap();
    assert_eq!(resp.attributes[2].value, "0");
    let (_, resp) = execute_heartbeat(&big, u64::MAX, &info("owner", vec![])).unwrap();
    assert_eq!(resp.attributes[2].value, "18446744073709551615");
    let resp = execute_deposit(&big.config, &info("d", vec![coin(u128::MAX, "utest")])).unwrap();
    assert_eq!(resp.attributes[2].value, "340282366920938463463374607431768211455");
}

#[test]
fn window_validation() {
    assert!(matches!(validate_window(0), Err(ContractError::InvalidHeartbeatWindow {})));
    assert!(validate_window(1).is_ok());
    assert!(validate_window(u64::MAX).is_ok());
}

#[test]
fn owner_and_beneficiary_checks() {
    let state = vault(20, 10);
    assert!(assert_owner(&info("owner", vec![]), &state.config).is_ok());
    assert!(matches!(
        assert_owner(&info("beneficiary", vec![]), &state.config),
        Err(ContractError::Unauthorized {})
    ));
    assert!(assert_beneficiary(&info("beneficiary", vec![]), &state.config).is_ok());
    assert!(matches!(
        assert_beneficiary(&info("owner", vec![]), &state.config),
        Err(ContractError::Unauthorized {})
    ));
}

#[test]
fn amount_sent_sums_only_the_denom() {
    let funds = vec![coin(10, "utest"), coin(5, "wrong"), coin(7, "utest")];
    assert_eq!(amount_sent(&funds, &"utest".to_string()), 17);
    assert_eq!(amount_sent(&funds, &"wrong".to_string()), 5);
    assert_eq!(amount_sent(&funds, &"none".to_string()), 0);
    assert_eq!(amount_sent(&vec![], &"utest".to_string()), 0);
    assert!(sent_total_fits(&funds, &"utest".to_string()));
    let huge = vec![coin(u128::MAX, "utest"), coin(1, "utest")];
    assert!(!sent_total_fits(&huge, &"utest".to_string()));
    assert!(sent_total_fits(&huge, &"wrong".to_string()));
}

#[test]
fn instantiate_sets_up_vault_and_reports_it() {
    let msg = InstantiateMsg {
        owner: Some("boss".to_string()),
        beneficiary: "heir".to_string(),
        denom: "uatom".to_string(),
        heartbeat_window: 10000,
    };
    let (state, resp) = instantiate(42, &info("creator", vec![]), &msg, Ok(()), Ok(())).unwrap();
    assert_eq!(state, VaultState {
        config: Config {
            owner: "boss".to_string(),
            beneficiary: "heir".to_string(),
            denom: "uatom".to_string(),
            heartbeat_window: 10000,
        },
        last_heartbeat: 42,
    });
    assert!(resp.messages.is_empty());
    assert_eq!(
        attrs(&resp),
        pairs(&[
            ("action", "instantiate"),
            ("owner", "boss"),
            ("beneficiary", "heir"),
            ("denom", "uatom"),
            ("heartbeat_window", "10000"),
            ("last_heartbeat", "42"),
        ])
    );
}

#[test]
fn instantiate_defaults_owner_to_sender() {
    let msg = InstantiateMsg {
        owner: None,
        beneficiary: "heir".to_string(),
        denom: "uatom".to_string(),
        heartbeat_window: 5,
    };
    // A failing owner verdict is ignored when no owner is given.
    let (state, _) =
        instantiate(1, &info("creator", vec![]), &msg, Err(bad("unused")), Ok(())).unwrap();
    assert_eq!(state.config.owner, "creator");
}

#[test]
fn instantiate_errors_in_order() {
    let msg = |denom: &str, window: u64| InstantiateMsg {
        owner: Some("boss".to_string()),
        beneficiary: "heir".to_string(),
        denom: denom.to_string(),
        heartbeat_window: window,
    };
    let sender = info("creator", vec![]);
    assert!(matches!(
        instantiate(1, &sender, &msg(" ", 0), Err(bad("o")), Err(bad("b"))),
        Err(ContractError::InvalidDenom {})
    ));
    assert!(matches!(
        instantiate(1, &sender, &msg("uatom", 0), Err(bad("o")), Err(bad("b"))),
        Err(ContractError::InvalidHeartbeatWindow {})
    ));
    match instantiate(1, &sender, &msg("uatom", 3), Err(bad("o")), Err(bad("b"))) {
        Err(ContractError::Std(e)) => assert_eq!(e, bad("o")),
        other => panic!("unexpected: {other:?}"),
    }
    match instantiate(1, &sender, &msg("uatom", 3), Ok(()), Err(bad("b"))) {
        Err(ContractError::Std(e)) => assert_eq!(e, bad("b")),
        other => panic!("unexpected: {other:?}"),
    }
}

#[test]
fn deposit_reports_amount() {
    let state = vault(20, 10);
    let funds = vec![coin(10, "utest"), coin(3, "other"), coin(7, "utest")];
    let resp = execute_deposit(&state.config, &info("depositor", funds)).unwrap();
    assert!(resp.messages.is_empty());
    assert_eq!(
        attrs(&resp),
        pairs(&[("action", "deposit"), ("sender", "depositor"), ("amount", "17"), ("denom", "utest")])
    );
    match execute_deposit(&state.config, &info("depositor", vec![])) {
        Err(ContractError::MissingDeposit { denom }) => assert_eq!(denom, "utest"),
        other => panic!("unexpected: {other:?}"),
    }
    assert!(matches!(
        execute_deposit(&state.config, &info("depositor", vec![coin(0, "utest")])),
        Err(ContractError::MissingDeposit { .. })
    ));
}

#[test]
fn heartbeat_by_owner_only() {
    let state = vault(20, 10);
    assert!(matches!(
        execute_heartbeat(&state, 25, &info("beneficiary", vec![])),
        Err(ContractError::Unauthorized {})
    ));
    let (next, resp) = execute_heartbeat(&state, 25, &info("owner", vec![])).unwrap();
    assert_eq!(next.last_heartbeat, 25);
    assert_eq!(next.config, state.config);
    assert_eq!(
        attrs(&resp),
        pairs(&[("action", "heartbeat"), ("owner", "owner"), ("last_heartbeat", "25")])
    );
}

#[test]
fn update_config_fields_are_optional() {
    let state = vault(20, 10);
    let owner = info("owner", vec![]);
    let (same, resp) =
        execute_update_config(&state, &owner, None, None, None, Ok(()), Ok(())).unwrap();
    assert_eq!(same, state);
    assert_eq!(attrs(&resp), pairs(&[("action", "update_config")]));

    let (moved, _) = execute_update_config(
        &state,
        &owner,
        Some("new_owner".to_string()),
        None,
        None,
        Ok(()),
        Err(bad("unused")),
    )
    .unwrap();
    assert_eq!(moved.config.owner, "new_owner");
    assert_eq!(moved.config.beneficiary, "beneficiary");
    assert_eq!(moved.config.heartbeat_window, 10);
    assert_eq!(moved.last_heartbeat, 20);
    // The former owner has lost control, the new one has it.
    assert!(matches!(
        execute_heartbeat(&moved, 30, &owner),
        Err(ContractError::Unauthorized {})
    ));
    assert!(execute_heartbeat(&moved, 30, &info("new_owner", vec![])).is_ok());
}

#[test]
fn update_config_errors_in_order() {
    let state = vault(20, 10);
    let owner = info("owner", vec![]);
    let call = |o: Option<&str>, b: Option<&str>, w: Option<u64>, oc, bc| {
        execute_update_config(
            &state,
            &owner,
            o.map(|s| s.to_string()),
            b.map(|s| s.to_string()),
            w,
            oc,
            bc,
        )
    };
    match call(Some("x"), Some("y"), Some(0), Err(bad("o")), Err(bad("b"))) {
        Err(ContractError::Std(e)) => assert_eq!(e, bad("o")),
        other => panic!("unexpected: {other:?}"),
    }
    match call(Some("x"), Some("y"), Some(0), Ok(()), Err(bad("b"))) {
        Err(ContractError::Std(e)) => assert_eq!(e, bad("b")),
        other => panic!("unexpected: {other:?}"),
    }
    assert!(matches!(
        call(Some("x"), Some("y"), Some(0), Ok(()), Ok(())),
        Err(ContractError::InvalidHeartbeatWindow {})
    ));
    assert!(matches!(
        execute_update_config(&state, &info("x", vec![]), None, None, Some(0), Ok(()), Ok(())),
        Err(ContractError::Unauthorized {})
    ));
}

#[test]
fn claim_whole_balance_to_beneficiary() {
    let state = vault(20, 10);
    let resp =
        execute_claim(&state, 31, &info("beneficiary", vec![]), None, None, Ok(()), Ok(175))
            .unwrap();
    assert_eq!(
        resp.messages,
        vec![BankSend { to_address: "beneficiary".to_string(), amount: vec![coin(175, "utest")] }]
    );
    assert_eq!(
        attrs(&resp),
        pairs(&[
            ("action", "claim"),
            ("beneficiary", "beneficiary"),
            ("recipient", "beneficiary"),
            ("amount", "175"),
            ("denom", "utest"),
        ])
    );
}

#[test]
fn claim_errors() {
    let state = vault(20, 10);
    let ben = info("beneficiary", vec![]);
    assert!(matches!(
        execute_claim(&state, 100, &info("owner", vec![]), None, None, Ok(()), Ok(175)),
        Err(ContractError::Unauthorized {})
    ));
    assert!(matches!(
        execute_claim(&state, 30, &ben, None, None, Err(bad("r")), Err(bad("q"))),
        Err(ContractError::NotExpired {})
    ));
    match execute_claim(&state, 31, &ben, Some("BAD".to_string()), None, Err(bad("r")), Err(bad("q"))) {
        Err(ContractError::Std(e)) => assert_eq!(e, bad("r")),
        other => panic!("unexpected: {other:?}"),
    }
    match execute_claim(&state, 31, &ben, None, None, Err(bad("r")), Err(bad("q"))) {
        Err(ContractError::Std(e)) => assert_eq!(e, bad("q")),
        other => panic!("unexpected: {other:?}"),
    }
    assert!(matches!(
        execute_claim(&state, 31, &ben, None, None, Ok(()), Ok(0)),
        Err(ContractError::ZeroAmount {})
    ));
    assert!(matches!(
        execute_claim(&state, 31, &ben, None, Some(0), Ok(()), Ok(175)),
        Err(ContractError::ZeroAmount {})
    ));
    assert!(matches!(
        execute_claim(&state, 31, &ben, None, Some(200), Ok(()), Ok(175)),
        Err(ContractError::InsufficientBalance { available: 175, amount: 200 })
    ));
    assert!(execute_claim(&state, 31, &ben, None, Some(175), Ok(()), Ok(175)).is_ok());
}

#[test]
fn expiry_and_status() {
    let state = vault(20, 10);
    assert!(!is_expired(&state, 30));
    assert!(is_expired(&state, 31));
    assert!(state.expiry_fits());
    assert!(!vault(u64::MAX, 1).expiry_fits());
    assert!(vault(u64::MAX - 1, 1).expiry_fits());

    let status = query_status(&state, 31);
    assert_eq!(status.owner, "owner");
    assert_eq!(status.beneficiary, "beneficiary");
    assert_eq!(status.denom, "utest");
    assert_eq!(status.heartbeat_window, 10);
    assert_eq!(status.last_heartbeat, 20);
    assert_eq!(status.expires_at, 30);
    assert!(status.expired);

    match query(&state, 25, QueryMsg::Status {}) {
        QueryAnswer::Status(s) => assert!(!s.expired),
        other => panic!("unexpected: {other:?}"),
    }
    match query(&state, 25, QueryMsg::Config {}) {
        QueryAnswer::Config(c) => assert_eq!(c, query_config(&state)),
        other => panic!("unexpected: {other:?}"),
    }
}

#[test]
fn heartbeat_holds_off_claims_until_window_lapses() {
    let state = vault(20, 10);
    let (state, _) = execute_heartbeat(&state, 40, &info("owner", vec![])).unwrap();
    let ben = info("beneficiary", vec![]);
    for height in [31, 40, 45, 50] {
        assert!(matches!(
            execute_claim(&state, height, &ben, None, None, Ok(()), Ok(5)),
            Err(ContractError::NotExpired {})
        ));
        assert!(!query_status(&state, height).expired);
    }
    assert!(execute_claim(&state, 51, &ben, None, None, Ok(()), Ok(5)).is_ok());
    assert!(query_status(&state, 51).expired);
}

#[test]
fn denom_survives_every_change() {
    let state = vault(20, 10);
    let owner = info("owner", vec![]);
    let (state, _) = execute_heartbeat(&state, 22, &owner).unwrap();
    let (state, _) = execute_update_config(
        &state,
        &owner,
        Some("o2".to_string()),
        Some("b2".to_string()),
        Some(99),
        Ok(()),
        Ok(()),
    )
    .unwrap();
    assert_eq!(state.config.denom, "utest");
    assert_eq!(state.last_heartbeat, 22);
    assert_eq!(state.config.heartbeat_window, 99);
}

#[test]
fn amount_sent_is_additive_and_ignores_order() {
    let d = "utest".to_string();
    let f1 = vec![coin(10, "utest"), coin(4, "other"), coin(1, "utest")];
    let f2 = vec![coin(7, "utest"), coin(2, "utest")];
    let joined: Vec<Coin> = f1.iter().chain(f2.iter()).cloned().collect();
    assert_eq!(amount_sent(&joined, &d), amount_sent(&f1, &d) + amount_sent(&f2, &d));
    assert_eq!(amount_sent(&joined, &d), 20);
    let permuted = vec![coin(2, "utest"), coin(1, "utest"), coin(4, "other"), coin(10, "utest"), coin(7, "utest")];
    assert_eq!(amount_sent(&permuted, &d), amount_sent(&joined, &d));
}
