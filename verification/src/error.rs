use vstd::prelude::*;

verus! {

/// `cosmwasm_std::StdError`, the chain library's error type. The vault never looks
/// inside one: it carries the error of a failed address check or balance query,
/// unchanged, into `ContractError::Std`.
#[verifier::external_type_specification]
#[verifier::external_body]
pub struct ExStdError(cosmwasm_std::StdError);

/// Why a vault operation was refused.
#[derive(Debug)]
pub enum ContractError {
    Std(cosmwasm_std::StdError),
    Unauthorized {},
    InvalidDenom {},
    InvalidHeartbeatWindow {},
    MissingDeposit { denom: String },
    NotExpired {},
    ZeroAmount {},
    InsufficientBalance { available: u128, amount: u128 },
}

} // verus!
