//! The upgrade controller: the admin's decision to replace the running
//! program's code. There is no way back but a later upgrade to earlier code.

use vstd::prelude::*;
use crate::access::authorization;
use crate::errors::ContractError;
use crate::events::{announced, Event, EventView};
use crate::shade::Shade;
use crate::types::{CodeReference, Principal, PrincipalId};

verus! {

/// The decision on a request by `caller` to run `new_code` from the time `now`
/// on, where `admin` is the recorded admin: the event that orders and records
/// the replacement, or the guard's refusal.
pub open spec fn upgrade_decision(
    admin: Option<Principal>,
    caller: Principal,
    new_code: Seq<u8>,
    now: u64,
) -> Result<EventView, ContractError> {
    match authorization(admin, caller) {
        Err(error) => Err(error),
        Ok(()) => Ok(EventView::ContractUpgraded { new_code_reference: new_code, timestamp: now }),
    }
}

/// Decides a code replacement on the admin's authority. The registry's own
/// state does not change: on success the host replaces the running program's
/// code with the one the event names, and logs the event.
pub fn upgrade(
    registry: &Shade,
    caller: &PrincipalId,
    new_code: CodeReference,
    now: u64,
) -> (outcome: Result<Event, ContractError>)
    ensures
        announced(outcome) == upgrade_decision(registry@.admin, caller@, new_code@, now),
{
    match registry.assert_admin(caller) {
        Err(error) => Err(error),
        Ok(()) => Ok(Event::ContractUpgraded { new_code_reference: new_code, timestamp: now }),
    }
}

} // verus!
