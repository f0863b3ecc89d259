//! The failures an entry point can report.

use vstd::prelude::*;

verus! {

/// Why a call was refused. Every failure ends the call; the state it was made
/// on is left as it was.
#[derive(Clone, Copy, Debug, PartialEq, Eq, Structural)]
pub enum ContractError {
    /// `initialize` was called on an instance that already has its roles.
    AlreadyInitialized,
    /// The instance has no role record yet.
    NotInitialized,
    /// The caller is not the principal that holds the required role.
    NotAuthorized,
    /// No merchant is registered under the id.
    MerchantNotFound,
    /// The address does not resolve to a usable asset.
    InvalidToken,
    /// A mutating call was made while another one was in flight.
    Reentrancy,
}

impl ContractError {
    /// The failure code under which the host reports the error.
    pub open spec fn spec_code(self) -> u32 {
        match self {
            ContractError::AlreadyInitialized => 1,
            ContractError::NotInitialized => 2,
            ContractError::NotAuthorized => 3,
            ContractError::MerchantNotFound => 4,
            ContractError::InvalidToken => 5,
            ContractError::Reentrancy => 6,
        }
    }

    /// The failure code under which the host reports the error.
    pub fn code(&self) -> (code: u32)
        ensures
            code == self.spec_code(),
    {
        match self {
            ContractError::AlreadyInitialized => 1,
            ContractError::NotInitialized => 2,
            ContractError::NotAuthorized => 3,
            ContractError::MerchantNotFound => 4,
            ContractError::InvalidToken => 5,
            ContractError::Reentrancy => 6,
        }
    }

    /// Distinct errors are reported under distinct codes.
    pub proof fn lemma_codes_distinguish(a: ContractError, b: ContractError)
        ensures
            a.spec_code() == b.spec_code() <==> a == b,
    {
    }
}

} // verus!
