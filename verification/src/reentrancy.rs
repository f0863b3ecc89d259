//! The reentrancy guard: a marker that is set for the duration of one mutating
//! call and that refuses a second call made before the first has finished.

use vstd::prelude::*;
use crate::errors::ContractError;

verus! {

/// Whether a mutating call is in flight on an instance.
#[derive(Clone, Copy, Debug, PartialEq, Eq, Structural)]
pub enum ReentrancyGuard {
    /// No mutating call is in flight: the marker is absent.
    Idle,
    /// A mutating call is in flight: the marker is present.
    InCall,
}

impl ReentrancyGuard {
    /// Whether the marker is present.
    pub fn is_set(&self) -> (set: bool)
        ensures
            set == (*self == ReentrancyGuard::InCall),
    {
        match self {
            ReentrancyGuard::Idle => false,
            ReentrancyGuard::InCall => true,
        }
    }
}

/// What `enter` answers on a guard in state `guard`.
pub open spec fn entry(guard: ReentrancyGuard) -> Result<(), ContractError> {
    match guard {
        ReentrancyGuard::Idle => Ok(()),
        ReentrancyGuard::InCall => Err(ContractError::Reentrancy),
    }
}

/// Marks the start of a mutating call. Fails with `Reentrancy`, leaving the
/// marker set, when a call is already in flight.
pub fn enter(guard: &mut ReentrancyGuard) -> (entered: Result<(), ContractError>)
    ensures
        entered == entry(*old(guard)),
        *final(guard) == ReentrancyGuard::InCall,
{
    match *guard {
        ReentrancyGuard::InCall => Err(ContractError::Reentrancy),
        ReentrancyGuard::Idle => {
            *guard = ReentrancyGuard::InCall;
            Ok(())
        },
    }
}

/// Marks the end of a mutating call: removes the marker, whatever the state.
pub fn exit(guard: &mut ReentrancyGuard)
    ensures
        *final(guard) == ReentrancyGuard::Idle,
{
    *guard = ReentrancyGuard::Idle;
}

} // verus!
