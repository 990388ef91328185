use vstd::prelude::*;

verus! {

/// How a vault is set up. Without an `owner`, the sender of this message owns the vault.
#[derive(Clone, Debug, PartialEq, Eq)]
pub struct InstantiateMsg {
    pub owner: Option<String>,
    pub beneficiary: String,
    pub denom: String,
    pub heartbeat_window: u64,
}

/// The operations that change or use the vault.
#[derive(Clone, Debug, PartialEq, Eq)]
pub enum ExecuteMsg {
    Deposit {},
    Heartbeat {},
    UpdateConfig {
        owner: Option<String>,
        beneficiary: Option<String>,
        heartbeat_window: Option<u64>,
    },
    Claim { recipient: Option<String>, amount: Option<u128> },
}

/// The read-only questions the vault answers.
#[derive(Clone, Copy, Debug, PartialEq, Eq, Structural)]
pub enum QueryMsg {
    Config {},
    Status {},
}

/// The answer to `QueryMsg::Config`.
#[derive(Clone, Debug, PartialEq, Eq)]
pub struct ConfigResponse {
    pub owner: String,
    pub beneficiary: String,
    pub denom: String,
    pub heartbeat_window: u64,
}

/// The answer to `QueryMsg::Status`.
#[derive(Clone, Debug, PartialEq, Eq)]
pub struct StatusResponse {
    pub owner: String,
    pub beneficiary: String,
    pub denom: String,
    pub heartbeat_window: u64,
    pub last_heartbeat: u64,
    pub expires_at: u64,
    pub expired: bool,
}

/// The answer to a query, one variant per question.
#[derive(Clone, Debug, PartialEq, Eq)]
pub enum QueryAnswer {
    Config(ConfigResponse),
    Status(StatusResponse),
}

} // verus!
