use vstd::prelude::*;

use cosmwasm_std::StdError;

use crate::cosmos::{BankSend, Coin, CoinView, MessageInfo, Response, ResponseView, SendView};
use crate::error::ContractError;
use crate::msg::{ConfigResponse, InstantiateMsg, QueryAnswer, QueryMsg, StatusResponse};
use crate::state::{opt_view, Config, ConfigView, VaultState, VaultView};
use crate::text::{decimal, decimal_string, is_blank, lemma_trimmed_empty_iff_blank, trim};

verus! {

// ---------------------------------------------------------------------------
// What the operations answer
// ---------------------------------------------------------------------------

/// The total amount of `denom` among `funds`.
pub open spec fn sent_total(funds: Seq<Coin>, denom: Seq<char>) -> nat
    decreases funds.len(),
{
    if funds.len() == 0 {
        0
    } else {
        sent_total(funds.drop_last(), denom) + if funds.last().denom@ == denom {
            funds.last().amount as nat
        } else {
            0nat
        }
    }
}

/// The vault that `instantiate` sets up for `msg`, sent by `sender` at block `height`.
pub open spec fn initial_vault(msg: InstantiateMsg, sender: Seq<char>, height: u64) -> VaultView {
    VaultView {
        config: ConfigView {
            owner: match msg.owner {
                Some(o) => o@,
                None => sender,
            },
            beneficiary: msg.beneficiary@,
            denom: msg.denom@,
            heartbeat_window: msg.heartbeat_window,
        },
        last_heartbeat: height,
    }
}

pub open spec fn instantiate_response(v: VaultView) -> ResponseView {
    ResponseView {
        messages: seq![],
        attributes: seq![
            ("action"@, "instantiate"@),
            ("owner"@, v.config.owner),
            ("beneficiary"@, v.config.beneficiary),
            ("denom"@, v.config.denom),
            ("heartbeat_window"@, decimal(v.config.heartbeat_window as nat)),
            ("last_heartbeat"@, decimal(v.last_heartbeat as nat)),
        ],
    }
}

pub open spec fn deposit_response(sender: Seq<char>, amount: nat, denom: Seq<char>) -> ResponseView {
    ResponseView {
        messages: seq![],
        attributes: seq![
            ("action"@, "deposit"@),
            ("sender"@, sender),
            ("amount"@, decimal(amount)),
            ("denom"@, denom),
        ],
    }
}

pub open spec fn heartbeat_response(owner: Seq<char>, height: u64) -> ResponseView {
    ResponseView {
        messages: seq![],
        attributes: seq![
            ("action"@, "heartbeat"@),
            ("owner"@, owner),
            ("last_heartbeat"@, decimal(height as nat)),
        ],
    }
}

pub open spec fn update_config_response() -> ResponseView {
    ResponseView { messages: seq![], attributes: seq![("action"@, "update_config"@)] }
}

pub open spec fn claim_response(
    beneficiary: Seq<char>,
    recipient: Seq<char>,
    amount: u128,
    denom: Seq<char>,
) -> ResponseView {
    ResponseView {
        messages: seq![
            SendView { to_address: recipient, amount: seq![CoinView { denom, amount }] },
        ],
        attributes: seq![
            ("action"@, "claim"@),
            ("beneficiary"@, beneficiary),
            ("recipient"@, recipient),
            ("amount"@, decimal(amount as nat)),
            ("denom"@, denom),
        ],
    }
}

/// Why the vault refuses a claim by `sender` at block `height` before looking at
/// the recipient or the balance: only the beneficiary may claim, and only once the
/// heartbeat window has lapsed.
pub open spec fn claim_refusal(v: VaultView, sender: Seq<char>, height: u64) -> Option<
    ContractError,
> {
    if sender != v.config.beneficiary {
        Some(ContractError::Unauthorized {  })
    } else if !v.expired_at(height) {
        Some(ContractError::NotExpired {  })
    } else {
        None
    }
}

/// The amount a claim asks for: the one given, else the whole balance.
pub open spec fn claim_amount(amount: Option<u128>, balance: u128) -> u128 {
    match amount {
        Some(a) => a,
        None => balance,
    }
}

// ---------------------------------------------------------------------------
// Checks
// ---------------------------------------------------------------------------

/// A denomination that is empty or only white space is refused.
pub fn validate_denom(denom: &str) -> (r: Result<(), ContractError>)
    ensures
        is_blank(denom@) ==> r matches Err(ContractError::InvalidDenom {  }),
        !is_blank(denom@) ==> r is Ok,
{
    proof {
        lemma_trimmed_empty_iff_blank(denom@);
    }
    if trim(denom).is_empty() {
        return Err(ContractError::InvalidDenom {  });
    }
    Ok(())
}

/// A heartbeat window of zero blocks is refused.
pub fn validate_window(heartbeat_window: u64) -> (r: Result<(), ContractError>)
    ensures
        heartbeat_window == 0 ==> r matches Err(ContractError::InvalidHeartbeatWindow {  }),
        heartbeat_window != 0 ==> r is Ok,
{
    if heartbeat_window == 0 {
        return Err(ContractError::InvalidHeartbeatWindow {  });
    }
    Ok(())
}

/// Only the owner passes.
pub fn assert_owner(info: &MessageInfo, config: &Config) -> (r: Result<(), ContractError>)
    ensures
        info.sender@ != config.owner@ ==> r matches Err(ContractError::Unauthorized {  }),
        info.sender@ == config.owner@ ==> r is Ok,
{
    if info.sender != config.owner {
        return Err(ContractError::Unauthorized {  });
    }
    Ok(())
}

/// Only the beneficiary passes.
pub fn assert_beneficiary(info: &MessageInfo, config: &Config) -> (r: Result<(), ContractError>)
    ensures
        info.sender@ != config.beneficiary@ ==> r matches Err(ContractError::Unauthorized {  }),
        info.sender@ == config.beneficiary@ ==> r is Ok,
{
    if info.sender != config.beneficiary {
        return Err(ContractError::Unauthorized {  });
    }
    Ok(())
}

proof fn lemma_prefix_total_le(funds: Seq<Coin>, denom: Seq<char>, i: int)
    requires
        0 <= i <= funds.len(),
    ensures
        sent_total(funds.take(i), denom) <= sent_total(funds, denom),
    decreases funds.len(),
{
    if i < funds.len() {
        assert(funds.take(i) =~= funds.drop_last().take(i));
        lemma_prefix_total_le(funds.drop_last(), denom, i);
    } else {
        assert(funds.take(i) =~= funds);
    }
}

/// The total amount of `denom` attached to a message.
pub fn amount_sent(funds: &Vec<Coin>, denom: &String) -> (r: u128)
    requires
        sent_total(funds@, denom@) <= u128::MAX,
    ensures
        r == sent_total(funds@, denom@),
{
    let mut total: u128 = 0;
    let mut i: usize = 0;
    while i < funds.len()
        invariant
            i <= funds.len(),
            total == sent_total(funds@.take(i as int), denom@),
            sent_total(funds@, denom@) <= u128::MAX,
        decreases funds.len() - i,
    {
        proof {
            assert(funds@.take(i + 1).drop_last() =~= funds@.take(i as int));
            lemma_prefix_total_le(funds@, denom@, i + 1);
        }
        if funds[i].denom == *denom {
            total = total + funds[i].amount;
        }
        i = i + 1;
    }
    assert(funds@.take(funds.len() as int) =~= funds@);
    total
}

/// Whether the total amount of `denom` attached to a message fits in a `u128`.
pub fn sent_total_fits(funds: &Vec<Coin>, denom: &String) -> (r: bool)
    ensures
        r == (sent_total(funds@, denom@) <= u128::MAX),
{
    let mut total: u128 = 0;
    let mut i: usize = 0;
    while i < funds.len()
        invariant
            i <= funds.len(),
            total == sent_total(funds@.take(i as int), denom@),
        decreases funds.len() - i,
    {
        proof {
            assert(funds@.take(i + 1).drop_last() =~= funds@.take(i as int));
            lemma_prefix_total_le(funds@, denom@, i + 1);
        }
        if funds[i].denom == *denom {
            match total.checked_add(funds[i].amount) {
                Some(t) => {
                    total = t;
                },
                None => {
                    return false;
                },
            }
        }
        i = i + 1;
    }
    assert(funds@.take(funds.len() as int) =~= funds@);
    true
}

/// Whether the heartbeat window has lapsed at block `height`.
pub fn is_expired(state: &VaultState, height: u64) -> (r: bool)
    requires
        state@.expiry_fits(),
    ensures
        r == state@.expired_at(height),
        r == (height > state.last_heartbeat + state.config.heartbeat_window),
{
    height > state.last_heartbeat + state.config.heartbeat_window
}

// ---------------------------------------------------------------------------
// Operations
// ---------------------------------------------------------------------------

/// The beneficiary claims funds once the heartbeat window has lapsed: `amount` of the
/// contract's `balance` (all of it when `amount` is `None`), sent to `recipient` (the
/// beneficiary when `None`). `recipient_check` is the chain's verdict on `recipient`,
/// `balance` the answer of the bank query for the vault's denomination; each is used
/// only where the checks before it have passed.
pub fn execute_claim(
    state: &VaultState,
    height: u64,
    info: &MessageInfo,
    recipient: Option<String>,
    amount: Option<u128>,
    recipient_check: Result<(), StdError>,
    balance: Result<u128, StdError>,
) -> (r: Result<Response, ContractError>)
    requires
        info.sender@ == state.config.beneficiary@ ==> state@.expiry_fits(),
    ensures
        claim_refusal(state@, info.sender@, height) matches Some(e) ==> r == Err::<
            Response,
            ContractError,
        >(e),
        claim_refusal(state@, info.sender@, height) is None ==> {
            if recipient is Some && recipient_check is Err {
                r == Err::<Response, ContractError>(ContractError::Std(recipient_check->Err_0))
            } else if balance is Err {
                r == Err::<Response, ContractError>(ContractError::Std(balance->Err_0))
            } else {
                let available = balance->Ok_0;
                let wanted = claim_amount(amount, available);
                if wanted == 0 {
                    r matches Err(ContractError::ZeroAmount {  })
                } else if wanted > available {
                    r == Err::<Response, ContractError>(
                        ContractError::InsufficientBalance { available, amount: wanted },
                    )
                } else {
                    r matches Ok(resp) && resp@ == claim_response(
                        info.sender@,
                        match recipient {
                            Some(to) => to@,
                            None => state.config.beneficiary@,
                        },
                        wanted,
                        state.config.denom@,
                    )
                }
            }
        },
        r matches Ok(resp) ==> {
            let paid = match amount {
                Some(a) => a,
                None => balance->Ok_0,
            };
            &&& info.sender@ == state.config.beneficiary@
            &&& height > state.last_heartbeat + state.config.heartbeat_window
            &&& balance is Ok
            &&& 0 < paid <= balance->Ok_0
            &&& resp@.messages.len() == 1
            &&& resp@.messages[0].to_address == match recipient {
                Some(to) => to@,
                None => state.config.beneficiary@,
            }
            &&& resp@.messages[0].amount.len() == 1
            &&& resp@.messages[0].amount[0].denom == state.config.denom@
            &&& resp@.messages[0].amount[0].amount == paid
            &&& resp@.attributes.len() == 5
            &&& resp@.attributes[0] == ("action"@, "claim"@)
            &&& resp@.attributes[1] == ("beneficiary"@, info.sender@)
            &&& resp@.attributes[2] == ("recipient"@, resp@.messages[0].to_address)
            &&& resp@.attributes[3] == ("amount"@, decimal(paid as nat))
            &&& resp@.attributes[4] == ("denom"@, state.config.denom@)
        },
{
    let config = &state.config;
    assert_beneficiary(info, config)?;
    if !is_expired(state, height) {
        return Err(ContractError::NotExpired {  });
    }
    let recipient = match recipient {
        Some(recipient) => {
            match recipient_check {
                Ok(()) => recipient,
                Err(e) => {
                    return Err(ContractError::Std(e));
                },
            }
        },
        None => config.beneficiary.clone(),
    };
    let balance = match balance {
        Ok(b) => b,
        Err(e) => {
            return Err(ContractError::Std(e));
        },
    };
    let amount = match amount {
        Some(a) => a,
        None => balance,
    };
    if amount == 0 {
        return Err(ContractError::ZeroAmount {  });
    }
    if amount > balance {
        return Err(ContractError::InsufficientBalance { available: balance, amount });
    }
    let mut coins: Vec<Coin> = Vec::new();
    coins.push(Coin { amount, denom: config.denom.clone() });
    let msg = BankSend { to_address: recipient.clone(), amount: coins };
    proof {
        assert(msg@.amount =~= seq![CoinView { denom: config.denom@, amount }]);
    }
    let resp = Response::new().add_message(msg).add_attribute("action", String::from_str("claim"))
        .add_attribute("beneficiary", info.sender.clone()).add_attribute("recipient", recipient)
        .add_attribute("amount", decimal_string(amount)).add_attribute(
        "denom",
        config.denom.clone(),
    );
    proof {
        let want = claim_response(
            info.sender@,
            msg@.to_address,
            amount,
            config.denom@,
        );
        assert(resp@.messages =~= want.messages);
        assert(resp@.attributes =~= want.attributes);
    }
    Ok(resp)
}

/// Sets up a vault at block `height`; the heartbeat clock starts there.
/// `owner_check` is the chain's verdict on `msg.owner` (looked at only when an owner
/// is given), `beneficiary_check` its verdict on `msg.beneficiary`.
pub fn instantiate(
    height: u64,
    info: &MessageInfo,
    msg: &InstantiateMsg,
    owner_check: Result<(), StdError>,
    beneficiary_check: Result<(), StdError>,
) -> (r: Result<(VaultState, Response), ContractError>)
    ensures
        is_blank(msg.denom@) ==> r matches Err(ContractError::InvalidDenom {  }),
        !is_blank(msg.denom@) ==> {
            if msg.heartbeat_window == 0 {
                r matches Err(ContractError::InvalidHeartbeatWindow {  })
            } else if msg.owner is Some && owner_check is Err {
                r == Err::<(VaultState, Response), ContractError>(
                    ContractError::Std(owner_check->Err_0),
                )
            } else if beneficiary_check is Err {
                r == Err::<(VaultState, Response), ContractError>(
                    ContractError::Std(beneficiary_check->Err_0),
                )
            } else {
                r matches Ok((st, resp)) && st@ == initial_vault(*msg, info.sender@, height)
                    && resp@ == instantiate_response(st@)
            }
        },
        r matches Ok((st, _)) ==> st@.wf(),
        r matches Ok((st, resp)) ==> {
            &&& st.config.owner@ == match msg.owner {
                Some(o) => o@,
                None => info.sender@,
            }
            &&& st.config.beneficiary@ == msg.beneficiary@
            &&& st.config.denom@ == msg.denom@
            &&& st.config.heartbeat_window == msg.heartbeat_window
            &&& st.last_heartbeat == height
            &&& resp@.messages.len() == 0
            &&& resp@.attributes.len() == 6
            &&& resp@.attributes[0] == ("action"@, "instantiate"@)
            &&& resp@.attributes[1] == ("owner"@, st.config.owner@)
            &&& resp@.attributes[2] == ("beneficiary"@, st.config.beneficiary@)
            &&& resp@.attributes[3] == ("denom"@, st.config.denom@)
            &&& resp@.attributes[4] == ("heartbeat_window"@, decimal(msg.heartbeat_window as nat))
            &&& resp@.attributes[5] == ("last_heartbeat"@, decimal(height as nat))
        },
{
    validate_denom(msg.denom.as_str())?;
    validate_window(msg.heartbeat_window)?;
    let owner = match &msg.owner {
        Some(owner) => {
            match owner_check {
                Ok(()) => owner.clone(),
                Err(e) => {
                    return Err(ContractError::Std(e));
                },
            }
        },
        None => info.sender.clone(),
    };
    match beneficiary_check {
        Ok(()) => {},
        Err(e) => {
            return Err(ContractError::Std(e));
        },
    }
    let config = Config {
        owner,
        beneficiary: msg.beneficiary.clone(),
        denom: msg.denom.clone(),
        heartbeat_window: msg.heartbeat_window,
    };
    let state = VaultState { config, last_heartbeat: height };
    let resp = Response::new().add_attribute("action", String::from_str("instantiate"))
        .add_attribute("owner", state.config.owner.clone()).add_attribute(
        "beneficiary",
        state.config.beneficiary.clone(),
    ).add_attribute("denom", state.config.denom.clone()).add_attribute(
        "heartbeat_window",
        decimal_string(state.config.heartbeat_window as u128),
    ).add_attribute("last_heartbeat", decimal_string(height as u128));
    proof {
        let want = instantiate_response(state@);
        assert(resp@.messages =~= want.messages);
        assert(resp@.attributes =~= want.attributes);
    }
    Ok((state, resp))
}

/// Anyone may deposit, as long as the message carries a positive amount of the
/// vault's denomination. The vault itself does not change.
pub fn execute_deposit(config: &Config, info: &MessageInfo) -> (r: Result<Response, ContractError>)
    requires
        sent_total(info.funds@, config.denom@) <= u128::MAX,
    ensures
        sent_total(info.funds@, config.denom@) == 0 ==> (r matches Err(
            ContractError::MissingDeposit { denom },
        ) && denom@ == config.denom@),
        sent_total(info.funds@, config.denom@) > 0 ==> (r matches Ok(resp) && resp@
            == deposit_response(
            info.sender@,
            sent_total(info.funds@, config.denom@),
            config.denom@,
        )),
        r matches Ok(resp) ==> {
            &&& sent_total(info.funds@, config.denom@) > 0
            &&& resp@.messages.len() == 0
            &&& resp@.attributes.len() == 4
            &&& resp@.attributes[0] == ("action"@, "deposit"@)
            &&& resp@.attributes[1] == ("sender"@, info.sender@)
            &&& resp@.attributes[2] == ("amount"@, decimal(sent_total(info.funds@, config.denom@)))
            &&& resp@.attributes[3] == ("denom"@, config.denom@)
        },
{
    let deposited = amount_sent(&info.funds, &config.denom);
    if deposited == 0 {
        return Err(ContractError::MissingDeposit { denom: config.denom.clone() });
    }
    let resp = Response::new().add_attribute("action", String::from_str("deposit")).add_attribute(
        "sender",
        info.sender.clone(),
    ).add_attribute("amount", decimal_string(deposited)).add_attribute(
        "denom",
        config.denom.clone(),
    );
    proof {
        let want = deposit_response(info.sender@, deposited as nat, config.denom@);
        assert(resp@.messages =~= want.messages);
        assert(resp@.attributes =~= want.attributes);
    }
    Ok(resp)
}

/// The owner keeps the vault alive: the last heartbeat becomes `height`.
pub fn execute_heartbeat(state: &VaultState, height: u64, info: &MessageInfo) -> (r: Result<
    (VaultState, Response),
    ContractError,
>)
    ensures
        info.sender@ != state.config.owner@ ==> r matches Err(ContractError::Unauthorized {  }),
        info.sender@ == state.config.owner@ ==> (r matches Ok((st, resp)) && st@
            == state@.with_heartbeat(height) && resp@ == heartbeat_response(info.sender@, height)),
        r matches Ok((st, _)) ==> (state@.wf() ==> st@.wf()),
        r matches Ok((st, resp)) ==> {
            &&& info.sender@ == state.config.owner@
            &&& st.last_heartbeat == height
            &&& st.config@ == state.config@
            &&& resp@.messages.len() == 0
            &&& resp@.attributes.len() == 3
            &&& resp@.attributes[0] == ("action"@, "heartbeat"@)
            &&& resp@.attributes[1] == ("owner"@, info.sender@)
            &&& resp@.attributes[2] == ("last_heartbeat"@, decimal(height as nat))
        },
{
    assert_owner(info, &state.config)?;
    let new_state = VaultState { config: state.config.duplicate(), last_heartbeat: height };
    let resp = Response::new().add_attribute("action", String::from_str("heartbeat")).add_attribute(
        "owner",
        info.sender.clone(),
    ).add_attribute("last_heartbeat", decimal_string(height as u128));
    proof {
        let want = heartbeat_response(info.sender@, height);
        assert(resp@.messages =~= want.messages);
        assert(resp@.attributes =~= want.attributes);
    }
    Ok((new_state, resp))
}

/// The owner replaces any of owner, beneficiary and heartbeat window; each `None`
/// keeps the current value. `owner_check` and `beneficiary_check` are the chain's
/// verdicts on the new owner and beneficiary, looked at only where one is given.
pub fn execute_update_config(
    state: &VaultState,
    info: &MessageInfo,
    owner: Option<String>,
    beneficiary: Option<String>,
    heartbeat_window: Option<u64>,
    owner_check: Result<(), StdError>,
    beneficiary_check: Result<(), StdError>,
) -> (r: Result<(VaultState, Response), ContractError>)
    ensures
        info.sender@ != state.config.owner@ ==> r matches Err(ContractError::Unauthorized {  }),
        info.sender@ == state.config.owner@ ==> {
            if owner is Some && owner_check is Err {
                r == Err::<(VaultState, Response), ContractError>(
                    ContractError::Std(owner_check->Err_0),
                )
            } else if beneficiary is Some && beneficiary_check is Err {
                r == Err::<(VaultState, Response), ContractError>(
                    ContractError::Std(beneficiary_check->Err_0),
                )
            } else if heartbeat_window == Some(0u64) {
                r matches Err(ContractError::InvalidHeartbeatWindow {  })
            } else {
                r matches Ok((st, resp)) && st@ == state@.with_update(
                    opt_view(owner),
                    opt_view(beneficiary),
                    heartbeat_window,
                ) && resp@ == update_config_response()
            }
        },
        r matches Ok((st, _)) ==> (state@.wf() ==> st@.wf()),
        r matches Ok((st, resp)) ==> {
            &&& info.sender@ == state.config.owner@
            &&& st.config.owner@ == match owner {
                Some(o) => o@,
                None => state.config.owner@,
            }
            &&& st.config.beneficiary@ == match beneficiary {
                Some(b) => b@,
                None => state.config.beneficiary@,
            }
            &&& st.config.heartbeat_window == match heartbeat_window {
                Some(w) => w,
                None => state.config.heartbeat_window,
            }
            &&& st.config.heartbeat_window > 0 || heartbeat_window is None
            &&& st.config.denom@ == state.config.denom@
            &&& st.last_heartbeat == state.last_heartbeat
            &&& resp@.messages.len() == 0
            &&& resp@.attributes == seq![("action"@, "update_config"@)]
        },
{
    let mut config = state.config.duplicate();
    assert_owner(info, &config)?;
    if let Some(owner) = owner {
        match owner_check {
            Ok(()) => {
                config.owner = owner;
            },
            Err(e) => {
                return Err(ContractError::Std(e));
            },
        }
    }
    if let Some(beneficiary) = beneficiary {
        match beneficiary_check {
            Ok(()) => {
                config.beneficiary = beneficiary;
            },
            Err(e) => {
                return Err(ContractError::Std(e));
            },
        }
    }
    if let Some(heartbeat_window) = heartbeat_window {
        validate_window(heartbeat_window)?;
        config.heartbeat_window = heartbeat_window;
    }
    let new_state = VaultState { config, last_heartbeat: state.last_heartbeat };
    let resp = Response::new().add_attribute("action", String::from_str("update_config"));
    proof {
        let want = update_config_response();
        assert(resp@.messages =~= want.messages);
        assert(resp@.attributes =~= want.attributes);
    }
    Ok((new_state, resp))
}

// ---------------------------------------------------------------------------
// Queries
// ---------------------------------------------------------------------------

/// The vault's configuration.
pub fn query_config(state: &VaultState) -> (r: ConfigResponse)
    ensures
        r.owner@ == state.config.owner@,
        r.beneficiary@ == state.config.beneficiary@,
        r.denom@ == state.config.denom@,
        r.heartbeat_window == state.config.heartbeat_window,
{
    ConfigResponse {
        owner: state.config.owner.clone(),
        beneficiary: state.config.beneficiary.clone(),
        denom: state.config.denom.clone(),
        heartbeat_window: state.config.heartbeat_window,
    }
}

/// The vault's configuration, its last heartbeat, the last height at which it is
/// alive, and whether it has expired at block `height`.
pub fn query_status(state: &VaultState, height: u64) -> (r: StatusResponse)
    requires
        state@.expiry_fits(),
    ensures
        r.owner@ == state.config.owner@,
        r.beneficiary@ == state.config.beneficiary@,
        r.denom@ == state.config.denom@,
        r.heartbeat_window == state.config.heartbeat_window,
        r.last_heartbeat == state.last_heartbeat,
        r.expires_at == state@.expires_at(),
        r.expired == state@.expired_at(height),
        r.expires_at == state.last_heartbeat + state.config.heartbeat_window,
        r.expired == (height > r.expires_at),
{
    let last_heartbeat = state.last_heartbeat;
    let expires_at = last_heartbeat + state.config.heartbeat_window;
    StatusResponse {
        owner: state.config.owner.clone(),
        beneficiary: state.config.beneficiary.clone(),
        denom: state.config.denom.clone(),
        heartbeat_window: state.config.heartbeat_window,
        last_heartbeat,
        expires_at,
        expired: height > expires_at,
    }
}

/// Answers `msg` about the vault at block `height`.
pub fn query(state: &VaultState, height: u64, msg: QueryMsg) -> (r: QueryAnswer)
    requires
        msg is Status ==> state@.expiry_fits(),
    ensures
        msg is Config ==> (r matches QueryAnswer::Config(c) && c.owner@ == state.config.owner@
            && c.beneficiary@ == state.config.beneficiary@ && c.denom@ == state.config.denom@
            && c.heartbeat_window == state.config.heartbeat_window),
        msg is Status ==> (r matches QueryAnswer::Status(s) && s.owner@ == state.config.owner@
            && s.beneficiary@ == state.config.beneficiary@ && s.denom@ == state.config.denom@
            && s.heartbeat_window == state.config.heartbeat_window && s.last_heartbeat
            == state.last_heartbeat && s.expires_at == state@.expires_at() && s.expired
            == state@.expired_at(height)),
{
    match msg {
        QueryMsg::Config {  } => QueryAnswer::Config(query_config(state)),
        QueryMsg::Status {  } => QueryAnswer::Status(query_status(state, height)),
    }
}

} // verus!
