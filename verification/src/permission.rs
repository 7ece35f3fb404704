use vstd::prelude::*;

use crate::error::ContractError;
use crate::state::{contains_principal, is_member, State};
use crate::types::{Env, MessageInfo};

verus! {

/// Operator gate: fails closed with `Unauthorized` for anyone not in the
/// operator table.
pub fn authorize_op(state: &State, caller: &String) -> (r: Result<(), ContractError>)
    ensures
        r == if contains_principal(state.ops@, caller@) {
            Ok::<(), ContractError>(())
        } else {
            Err::<(), ContractError>(ContractError::Unauthorized {})
        },
{
    if is_member(&state.ops, caller) {
        Ok(())
    } else {
        Err(ContractError::Unauthorized {})
    }
}

/// Administrator gate: fails closed with `Unauthorized` for anyone not in the
/// administrator table.
pub fn authorize_admin(state: &State, caller: &String) -> (r: Result<(), ContractError>)
    ensures
        r == if contains_principal(state.admins@, caller@) {
            Ok::<(), ContractError>(())
        } else {
            Err::<(), ContractError>(ContractError::Unauthorized {})
        },
{
    if is_member(&state.admins, caller) {
        Ok(())
    } else {
        Err(ContractError::Unauthorized {})
    }
}

/// Self-call gate: only a command whose sender is this contract's own address
/// passes. Passed proposals are dispatched as such self-calls, so this gate is
/// what makes the internal entry points reachable only through governance.
pub fn authorize_self_call(env: &Env, info: &MessageInfo) -> (r: Result<(), ContractError>)
    ensures
        r == if env.contract_address@ == info.sender@ {
            Ok::<(), ContractError>(())
        } else {
            Err::<(), ContractError>(ContractError::Unauthorized {})
        },
{
    if env.contract_address == info.sender {
        Ok(())
    } else {
        Err(ContractError::Unauthorized {})
    }
}

} // verus!
