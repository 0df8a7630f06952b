//! The configuration store.
//!
//! A singleton configuration holds the identity of the messaging gateway
//! this receiver trusts. It is created once at initialization, changed only
//! by an explicit, admin-guarded reconfiguration, and never deleted; it
//! always holds a validated identity.

use vstd::prelude::*;

use crate::errors::ContractError;
use crate::identity::{valid_identity, validate_identity};

verus! {

/// The stored configuration: the trusted gateway identity.
#[derive(Debug)]
pub struct State {
    pub axelar_gateway: String,
}

impl State {
    /// The configuration invariant: the stored gateway is a validated
    /// identity of the local chain.
    pub open spec fn wf(self) -> bool {
        valid_identity(self.axelar_gateway@)
    }
}

/// The initialization input: the gateway identity in string form, validated
/// to the canonical identity format before storage.
#[derive(Debug)]
pub struct InstantiateMsg {
    pub axelar_gateway: String,
}

/// The query surface of the receiver.
#[derive(Debug)]
pub enum QueryMsg {
    GetConfig {},
}

/// What `GetConfig` reports: the trusted gateway identity.
#[derive(Debug)]
pub struct ConfigResponse {
    pub axelar_gateway: String,
}

/// Initializes the configuration. The gateway identity is validated; a
/// malformed one is rejected and nothing is created.
pub fn instantiate(msg: InstantiateMsg) -> (r: Result<State, ContractError>)
    ensures
        valid_identity(msg.axelar_gateway@) ==> (r matches Ok(s) && s.axelar_gateway@
            == msg.axelar_gateway@ && s.wf()),
        !valid_identity(msg.axelar_gateway@) ==> r == Err::<State, ContractError>(
            ContractError::ConfigError,
        ),
{
    if !validate_identity(msg.axelar_gateway.as_str()) {
        return Err(ContractError::ConfigError);
    }
    Ok(State { axelar_gateway: msg.axelar_gateway })
}

/// Replaces the trusted gateway. Only the designated administrator may do
/// so, and the new identity is validated; on any failure the configuration
/// is untouched.
pub fn reconfigure(state: &mut State, admin: &String, caller: &String, new_gateway: &String) -> (r:
    Result<(), ContractError>)
    ensures
        caller@ != admin@ ==> r == Err::<(), ContractError>(ContractError::Unauthorized)
            && *final(state) == *old(state),
        caller@ == admin@ && !valid_identity(new_gateway@) ==> r == Err::<(), ContractError>(
            ContractError::ConfigError,
        ) && *final(state) == *old(state),
        caller@ == admin@ && valid_identity(new_gateway@) ==> r == Ok::<(), ContractError>(())
            && final(state).axelar_gateway@ == new_gateway@ && final(state).wf(),
{
    if !(*caller == *admin) {
        return Err(ContractError::Unauthorized);
    }
    if !validate_identity(new_gateway.as_str()) {
        return Err(ContractError::ConfigError);
    }
    state.axelar_gateway = new_gateway.clone();
    Ok(())
}

/// Answers a query from the stored configuration, without touching it.
pub fn query(state: &State, msg: &QueryMsg) -> (r: ConfigResponse)
    ensures
        r.axelar_gateway@ == state.axelar_gateway@,
{
    match msg {
        QueryMsg::GetConfig {  } => ConfigResponse {
            axelar_gateway: state.axelar_gateway.clone(),
        },
    }
}

} // verus!
