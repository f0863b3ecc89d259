//! Merchant payment infrastructure as explicit state machines: an operator
//! registry (accepted-token whitelist and merchant directory) and a
//! per-merchant ledger account, both protected by an authorization guard and a
//! reentrancy guard.
//!
//! Every operation works on a state value handed in by the caller. What the
//! hosting platform alone can know (who authorized a call, the ledger time,
//! whether an address is a usable asset, the balance an asset ledger reports)
//! reaches the operations as plain arguments.

pub mod errors;
pub mod types;
pub mod token_list;
pub mod reentrancy;
pub mod access;
pub mod events;
pub mod directory;
pub mod upgrade;
pub mod shade;
pub mod account;
pub mod laws;
