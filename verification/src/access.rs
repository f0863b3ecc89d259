//! The authorization guard: the check that the principal on whose authority a
//! call is made holds the role that the operation asks for.

use vstd::prelude::*;
use crate::errors::ContractError;
use crate::types::{Principal, PrincipalId};

verus! {

/// The guard's answer: `holder` is the principal recorded for the required
/// role, `None` while the instance has no role record; `caller` is the
/// principal whose authorization of the call the platform has verified.
pub open spec fn authorization(holder: Option<Principal>, caller: Principal) -> Result<
    (),
    ContractError,
> {
    match holder {
        None => Err(ContractError::NotInitialized),
        Some(expected) => if expected == caller {
            Ok(())
        } else {
            Err(ContractError::NotAuthorized)
        },
    }
}

/// Checks `caller` against the recorded holder of a role. Changes nothing.
pub fn require_role(holder: Option<&PrincipalId>, caller: &PrincipalId) -> (granted: Result<
    (),
    ContractError,
>)
    ensures
        granted == authorization(
            match holder {
                Some(expected) => Some(expected@),
                None => None,
            },
            caller@,
        ),
{
    match holder {
        None => Err(ContractError::NotInitialized),
        Some(expected) => if *expected == *caller {
            Ok(())
        } else {
            Err(ContractError::NotAuthorized)
        },
    }
}

} // verus!
