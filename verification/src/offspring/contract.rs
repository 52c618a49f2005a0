//! The offspring's lifecycle state machine: Created, then Active, then
//! (terminally) Inactive. Every business-mutating operation first checks
//! that the offspring is still active.

use vstd::prelude::*;
use crate::context::EnvInfo;
use crate::error::ContractError;
use crate::offspring::factory_msg::{FactoryExecuteMsg, FactoryQueryMsg, IsKeyValidWrapper};
use crate::offspring::msg::{ContractInfo, ExecuteMsg, InstantiateMsg, QueryAnswer, QueryMsg};
use crate::offspring::state::State;

verus! {

/// One spawned offspring: its link back to the factory, its owner, its
/// lifecycle flag, and its business state.
#[derive(Debug, PartialEq, Eq)]
pub struct Offspring {
    /// The factory's code hash and address, resolved per call through the
    /// transport, never a live reference.
    pub factory: ContractInfo,
    /// The owner associated to this offspring.
    pub owner: String,
    /// Whether the offspring is still active. Once false, it never
    /// becomes true again: no operation reactivates an offspring.
    pub is_active: bool,
    /// The business state of the counter.
    pub state: State,
}

/// Initializes the offspring and emits its registration call: the message
/// carries the owner, the label, and the one-time password, and is sent
/// fire-and-forget — the offspring proceeds as if active regardless of
/// the factory's acceptance.
pub fn instantiate(_env: &EnvInfo, msg: InstantiateMsg) -> (r: (Offspring, FactoryExecuteMsg))
    ensures
        r.0.factory == msg.factory,
        r.0.owner == msg.owner,
        r.0.is_active == true,
        r.0.state.label == msg.label,
        r.0.state.description == msg.description,
        r.0.state.count == msg.count,
        r.1 == (FactoryExecuteMsg::RegisterOffspring {
            owner: msg.owner,
            label: msg.label,
            password: msg.password,
        }),
{
    let offspring = Offspring {
        factory: msg.factory,
        owner: msg.owner.clone(),
        is_active: true,
        state: State { label: msg.label.clone(), description: msg.description, count: msg.count },
    };
    let register = FactoryExecuteMsg::RegisterOffspring {
        owner: msg.owner,
        label: msg.label,
        password: msg.password,
    };
    (offspring, register)
}

/// Checks that the offspring is still active.
pub fn enforce_active(c: &Offspring) -> (r: Result<(), ContractError>)
    ensures
        r is Ok <==> c.is_active,
        r is Err ==> r->Err_0 == ContractError::InvalidState,
{
    if c.is_active {
        Ok(())
    } else {
        Err(ContractError::InvalidState)
    }
}

/// Deactivates the offspring and returns the notification for the
/// factory. Requires the offspring to still be active, and only the owner
/// may call it. Deactivation is terminal.
pub fn try_deactivate(c: &mut Offspring, env: &EnvInfo) -> (r: Result<
    FactoryExecuteMsg,
    ContractError,
>)
    ensures
        !old(c).is_active ==> r == Err::<FactoryExecuteMsg, ContractError>(
            ContractError::InvalidState,
        ) && *final(c) == *old(c),
        old(c).is_active && env.sender@ != old(c).owner@ ==> r == Err::<
            FactoryExecuteMsg,
            ContractError,
        >(ContractError::Unauthorized) && *final(c) == *old(c),
        old(c).is_active && env.sender@ == old(c).owner@ ==> ({
            &&& final(c).is_active == false
            &&& final(c).factory == old(c).factory
            &&& final(c).owner == old(c).owner
            &&& final(c).state == old(c).state
            &&& r matches Ok(m) && m == (FactoryExecuteMsg::DeactivateOffspring {
                owner: old(c).owner,
            })
        }),
{
    if !c.is_active {
        return Err(ContractError::InvalidState);
    }
    if !(env.sender == c.owner) {
        return Err(ContractError::Unauthorized);
    }
    c.is_active = false;
    Ok(FactoryExecuteMsg::DeactivateOffspring { owner: c.owner.clone() })
}

/// Increments the counter, wrapping at the numeric limit; anyone may call
/// it, but only while the offspring is active.
pub fn try_increment(c: &mut Offspring) -> (r: Result<(), ContractError>)
    ensures
        !old(c).is_active ==> r == Err::<(), ContractError>(ContractError::InvalidState) && *final(c) == *old(c),
        old(c).is_active ==> ({
            &&& r is Ok
            &&& final(c).state.count == (if old(c).state.count == i32::MAX {
                i32::MIN
            } else {
                (old(c).state.count + 1) as i32
            })
            &&& final(c).state.label == old(c).state.label
            &&& final(c).state.description == old(c).state.description
            &&& final(c).factory == old(c).factory
            &&& final(c).owner == old(c).owner
            &&& final(c).is_active == old(c).is_active
        }),
{
    enforce_active(c)?;
    if c.state.count == i32::MAX {
        c.state.count = i32::MIN;
    } else {
        c.state.count = c.state.count + 1;
    }
    Ok(())
}

/// Resets the counter to `count`; owner only, and only while active.
pub fn try_reset(c: &mut Offspring, env: &EnvInfo, count: i32) -> (r: Result<(), ContractError>)
    ensures
        !old(c).is_active ==> r == Err::<(), ContractError>(ContractError::InvalidState) && *final(c) == *old(c),
        old(c).is_active && env.sender@ != old(c).owner@ ==> r == Err::<(), ContractError>(
            ContractError::Unauthorized,
        ) && *final(c) == *old(c),
        old(c).is_active && env.sender@ == old(c).owner@ ==> ({
            &&& r is Ok
            &&& final(c).state.count == count
            &&& final(c).state.label == old(c).state.label
            &&& final(c).state.description == old(c).state.description
            &&& final(c).factory == old(c).factory
            &&& final(c).owner == old(c).owner
            &&& final(c).is_active == old(c).is_active
        }),
{
    enforce_active(c)?;
    if !(env.sender == c.owner) {
        return Err(ContractError::Unauthorized);
    }
    c.state.count = count;
    Ok(())
}

/// Routes an execute message to its handler. Only `Deactivate` produces a
/// message for the factory.
pub fn execute(c: &mut Offspring, env: &EnvInfo, msg: ExecuteMsg) -> (r: Result<
    Option<FactoryExecuteMsg>,
    ContractError,
>)
    ensures
        !old(c).is_active ==> r == Err::<Option<FactoryExecuteMsg>, ContractError>(
            ContractError::InvalidState,
        ) && *final(c) == *old(c),
        match msg {
            ExecuteMsg::Increment => {
                &&& (r is Ok <==> old(c).is_active)
                &&& (r is Ok ==> r->Ok_0 is None && final(c).is_active && final(c).state.count == (
                if old(c).state.count == i32::MAX {
                    i32::MIN
                } else {
                    (old(c).state.count + 1) as i32
                }))
            },
            ExecuteMsg::Reset { count } => {
                &&& (r is Ok <==> old(c).is_active && env.sender@ == old(c).owner@)
                &&& (!(r is Ok) ==> *final(c) == *old(c))
                &&& (r is Ok ==> r->Ok_0 is None && final(c).is_active && final(c).state.count
                    == count)
            },
            ExecuteMsg::Deactivate => {
                &&& (r is Ok <==> old(c).is_active && env.sender@ == old(c).owner@)
                &&& (!(r is Ok) ==> *final(c) == *old(c))
                &&& (r is Ok ==> final(c).is_active == false && r->Ok_0 == Some(
                    FactoryExecuteMsg::DeactivateOffspring { owner: old(c).owner },
                ))
            },
        },
{
    match msg {
        ExecuteMsg::Increment => {
            try_increment(c)?;
            Ok(None)
        },
        ExecuteMsg::Reset { count } => {
            try_reset(c, env, count)?;
            Ok(None)
        },
        ExecuteMsg::Deactivate => {
            let m = try_deactivate(c, env)?;
            Ok(Some(m))
        },
    }
}

/// Builds the delegated validation query the offspring sends to the
/// factory for an address/viewing-key pair.
pub fn key_validation_request(c: &Offspring, address: &String, viewing_key: &String) -> (r:
    FactoryQueryMsg)
    ensures
        r == (FactoryQueryMsg::IsKeyValid { address: *address, viewing_key: *viewing_key }),
{
    FactoryQueryMsg::IsKeyValid { address: address.clone(), viewing_key: viewing_key.clone() }
}

/// Checks the factory's answer to a delegated key validation.
pub fn enforce_valid_viewing_key(resp: &IsKeyValidWrapper) -> (r: Result<(), ContractError>)
    ensures
        r is Ok <==> resp.is_key_valid.is_valid,
        r is Err ==> r->Err_0 == ContractError::AuthenticationFailed,
{
    if resp.is_key_valid.is_valid {
        Ok(())
    } else {
        Err(ContractError::AuthenticationFailed)
    }
}

/// Answers the count query. The caller's address/key pair must have been
/// validated by the factory (the answer is taken as an argument, since
/// only the transport can obtain it), and only the owner may see the
/// count.
pub fn query_count(c: &Offspring, viewer: &String, key_response: &IsKeyValidWrapper) -> (r: Result<
    QueryAnswer,
    ContractError,
>)
    ensures
        !key_response.is_key_valid.is_valid ==> r == Err::<QueryAnswer, ContractError>(
            ContractError::AuthenticationFailed,
        ),
        key_response.is_key_valid.is_valid && viewer@ != c.owner@ ==> r == Err::<
            QueryAnswer,
            ContractError,
        >(ContractError::Unauthorized),
        key_response.is_key_valid.is_valid && viewer@ == c.owner@ ==> r == Ok::<
            QueryAnswer,
            ContractError,
        >(QueryAnswer::CountResponse { count: c.state.count }),
{
    enforce_valid_viewing_key(key_response)?;
    if c.owner == *viewer {
        Ok(QueryAnswer::CountResponse { count: c.state.count })
    } else {
        Err(ContractError::Unauthorized)
    }
}

/// Routes a query to its handler, pairing it with the factory's answer to
/// the delegated key validation.
pub fn query(c: &Offspring, msg: QueryMsg, key_response: &IsKeyValidWrapper) -> (r: Result<
    QueryAnswer,
    ContractError,
>)
    ensures
        match msg {
            QueryMsg::GetCount { address, viewing_key } => {
                &&& (!key_response.is_key_valid.is_valid ==> r == Err::<
                    QueryAnswer,
                    ContractError,
                >(ContractError::AuthenticationFailed))
                &&& (key_response.is_key_valid.is_valid && address@ != c.owner@ ==> r == Err::<
                    QueryAnswer,
                    ContractError,
                >(ContractError::Unauthorized))
                &&& (key_response.is_key_valid.is_valid && address@ == c.owner@ ==> r == Ok::<
                    QueryAnswer,
                    ContractError,
                >(QueryAnswer::CountResponse { count: c.state.count }))
            },
        },
{
    match msg {
        QueryMsg::GetCount { address, viewing_key: _ } => query_count(c, &address, key_response),
    }
}

} // verus!
