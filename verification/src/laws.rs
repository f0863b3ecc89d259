//! What holds of the two components across calls, stated over the views and
//! transition functions that the entry points' contracts use.

use vstd::prelude::*;
use crate::account::AccountView;
use crate::directory::{lemma_lookup, lookup, registered};
use crate::errors::ContractError;
use crate::events::EventView;
use crate::reentrancy::ReentrancyGuard;
use crate::shade::RegistryView;
use crate::token_list::{lemma_first_occurrence, lemma_with_tokens, with_tokens};
use crate::types::{MerchantView, Principal};

verus! {

/// Adding a token is idempotent: a second `add_accepted_token` with the same
/// token answers as the first did whenever the first was refused, and
/// otherwise succeeds without an event and without a change. After a
/// successful call the token is a member, and the whitelist has grown by one
/// if the token is new and not at all if it was already accepted.
pub proof fn lemma_add_accepted_token_twice(
    registry: RegistryView,
    caller: Principal,
    token: Principal,
    usable: bool,
    first: u64,
    second: u64,
)
    requires
        registry.wf(),
    ensures
        ({
            let once = registry.add_accepted_token(caller, token, usable, first);
            let twice = once.0.add_accepted_token(caller, token, usable, second);
            &&& once.1 is Err ==> once.0 == registry && twice == once
            &&& once.1 is Ok ==> {
                &&& once.0.accepted == registry.accepted.insert(token)
                &&& registry.accepted.contains(token) ==> once.0.accepted.len()
                    == registry.accepted.len()
                &&& !registry.accepted.contains(token) ==> once.0.accepted.len()
                    == registry.accepted.len() + 1
                &&& twice == (once.0, Ok::<Option<EventView>, ContractError>(None))
            }
        }),
{
    let once = registry.add_accepted_token(caller, token, usable, first);
    if once.1 is Ok {
        assert(once.0.accepted =~= registry.accepted.insert(token));
    }
}

/// Removing a token is idempotent in the same way, and after a successful
/// call the token is no member.
pub proof fn lemma_remove_accepted_token_twice(
    registry: RegistryView,
    caller: Principal,
    token: Principal,
    first: u64,
    second: u64,
)
    requires
        registry.wf(),
    ensures
        ({
            let once = registry.remove_accepted_token(caller, token, first);
            let twice = once.0.remove_accepted_token(caller, token, second);
            &&& once.1 is Err ==> once.0 == registry && twice == once
            &&& once.1 is Ok ==> {
                &&& once.0.accepted == registry.accepted.remove(token)
                &&& twice == (once.0, Ok::<Option<EventView>, ContractError>(None))
            }
        }),
{
    let once = registry.remove_accepted_token(caller, token, first);
    if once.1 is Ok {
        assert(once.0.accepted =~= registry.accepted.remove(token));
    }
}

/// A merchant lookup never answers with a default: under the id zero, and
/// under any id that no registration handed out, `get_merchant` and
/// `is_merchant_active` fail with `MerchantNotFound`; under every other id they
/// answer with the record that carries the id.
pub proof fn lemma_merchant_lookup(registry: RegistryView, id: u64)
    requires
        registry.wf(),
    ensures
        !registered(registry.merchants, 0),
        !registered(registry.merchants, id) ==> {
            &&& lookup(registry.merchants, id) == Err::<MerchantView, _>(
                ContractError::MerchantNotFound,
            )
            &&& registry.is_merchant_active(id) == Err::<bool, _>(ContractError::MerchantNotFound)
        },
        registered(registry.merchants, id) ==> {
            &&& lookup(registry.merchants, id) is Ok
            &&& lookup(registry.merchants, id)->Ok_0.id == id
            &&& registry.is_merchant_active(id) == Ok::<bool, ContractError>(
                lookup(registry.merchants, id)->Ok_0.active,
            )
        },
{
    lemma_lookup(registry.merchants, id);
}

/// A registered merchant is found under the id that `register_merchant`
/// answered, and is active.
pub proof fn lemma_registered_merchant_is_found(registry: RegistryView, address: Principal)
    requires
        registry.wf(),
        registry.guard == ReentrancyGuard::Idle,
        registry.merchants.len() < u64::MAX,
    ensures
        ({
            let (after, outcome) = registry.register_merchant(address);
            &&& after.wf()
            &&& outcome == Ok::<u64, ContractError>((registry.merchants.len() + 1) as u64)
            &&& lookup(after.merchants, outcome->Ok_0) == Ok::<_, ContractError>(
                MerchantView { id: outcome->Ok_0, address, active: true },
            )
            &&& forall|id: u64|
                registered(registry.merchants, id) ==> lookup(after.merchants, id) == lookup(
                    registry.merchants,
                    id,
                )
        }),
{
    let (after, outcome) = registry.register_merchant(address);
    assert forall|id: u64| registered(registry.merchants, id) implies lookup(after.merchants, id)
        == lookup(registry.merchants, id) by {
        lemma_lookup(registry.merchants, id);
    }
}

/// While the marker is set, every mutating entry point of the registry fails
/// with `Reentrancy` and changes nothing, whichever operation is attempted.
pub proof fn lemma_registry_refuses_reentry(
    registry: RegistryView,
    caller: Principal,
    subject: Principal,
    id: u64,
    active: bool,
    usable: bool,
    new_code: Seq<u8>,
    now: u64,
)
    requires
        registry.guard == ReentrancyGuard::InCall,
    ensures
        registry.initialize(subject) == (registry, Err::<(), _>(ContractError::Reentrancy)),
        registry.add_accepted_token(caller, subject, usable, now) == (
            registry,
            Err::<Option<EventView>, _>(ContractError::Reentrancy),
        ),
        registry.remove_accepted_token(caller, subject, now) == (
            registry,
            Err::<Option<EventView>, _>(ContractError::Reentrancy),
        ),
        registry.register_merchant(subject) == (registry, Err::<u64, _>(ContractError::Reentrancy)),
        registry.set_merchant_status(caller, id, active, now) == (
            registry,
            Err::<EventView, _>(ContractError::Reentrancy),
        ),
        registry.upgrade(caller, new_code, now) == Err::<EventView, _>(ContractError::Reentrancy),
{
}

/// A mutating entry point of the registry that starts with the marker absent
/// leaves it absent, whether it succeeds or fails, and is never refused for
/// reentrancy: the next independent call finds the guard open.
pub proof fn lemma_registry_clears_marker(
    registry: RegistryView,
    caller: Principal,
    subject: Principal,
    id: u64,
    active: bool,
    usable: bool,
    new_code: Seq<u8>,
    now: u64,
)
    requires
        registry.guard == ReentrancyGuard::Idle,
    ensures
        registry.initialize(subject).0.guard == ReentrancyGuard::Idle,
        registry.initialize(subject).1 != Err::<(), _>(ContractError::Reentrancy),
        registry.add_accepted_token(caller, subject, usable, now).0.guard == ReentrancyGuard::Idle,
        registry.add_accepted_token(caller, subject, usable, now).1 != Err::<Option<EventView>, _>(
            ContractError::Reentrancy,
        ),
        registry.remove_accepted_token(caller, subject, now).0.guard == ReentrancyGuard::Idle,
        registry.remove_accepted_token(caller, subject, now).1 != Err::<Option<EventView>, _>(
            ContractError::Reentrancy,
        ),
        registry.register_merchant(subject).0.guard == ReentrancyGuard::Idle,
        registry.register_merchant(subject).1 is Ok,
        registry.set_merchant_status(caller, id, active, now).0.guard == ReentrancyGuard::Idle,
        registry.set_merchant_status(caller, id, active, now).1 != Err::<EventView, _>(
            ContractError::Reentrancy,
        ),
        registry.upgrade(caller, new_code, now) != Err::<EventView, _>(ContractError::Reentrancy),
{
}

/// While the marker is set, every mutating entry point of an account fails
/// with `Reentrancy` and changes nothing.
pub proof fn lemma_account_refuses_reentry(
    account: AccountView,
    caller: Principal,
    merchant: Principal,
    manager: Principal,
    merchant_id: u64,
    token: Principal,
)
    requires
        account.guard == ReentrancyGuard::InCall,
    ensures
        account.initialize(merchant, manager, merchant_id) == (
            account,
            Err::<(), _>(ContractError::Reentrancy),
        ),
        account.add_token(caller, token) == (account, Err::<(), _>(ContractError::Reentrancy)),
{
}

/// A mutating entry point of an account that starts with the marker absent
/// leaves it absent, whether it succeeds or fails, and is never refused for
/// reentrancy.
pub proof fn lemma_account_clears_marker(
    account: AccountView,
    caller: Principal,
    merchant: Principal,
    manager: Principal,
    merchant_id: u64,
    token: Principal,
)
    requires
        account.guard == ReentrancyGuard::Idle,
    ensures
        account.initialize(merchant, manager, merchant_id).0.guard == ReentrancyGuard::Idle,
        account.initialize(merchant, manager, merchant_id).1 != Err::<(), _>(
            ContractError::Reentrancy,
        ),
        account.add_token(caller, token).0.guard == ReentrancyGuard::Idle,
        account.add_token(caller, token).1 != Err::<(), _>(ContractError::Reentrancy),
{
}

/// On an initialized registry with no call in flight, the admin-gated
/// operations fail with `NotAuthorized` for every caller but the admin, and
/// leave the state unchanged.
pub proof fn lemma_non_admin_is_refused(
    registry: RegistryView,
    caller: Principal,
    token: Principal,
    id: u64,
    active: bool,
    usable: bool,
    new_code: Seq<u8>,
    now: u64,
)
    requires
        registry.guard == ReentrancyGuard::Idle,
        registry.admin is Some,
        registry.admin != Some(caller),
    ensures
        registry.set_merchant_status(caller, id, active, now) == (
            registry,
            Err::<EventView, _>(ContractError::NotAuthorized),
        ),
        registry.add_accepted_token(caller, token, usable, now) == (
            registry,
            Err::<Option<EventView>, _>(ContractError::NotAuthorized),
        ),
        registry.remove_accepted_token(caller, token, now) == (
            registry,
            Err::<Option<EventView>, _>(ContractError::NotAuthorized),
        ),
        registry.upgrade(caller, new_code, now) == Err::<EventView, _>(
            ContractError::NotAuthorized,
        ),
{
}

/// On an initialized account with no call in flight, `add_token` fails with
/// `NotAuthorized` for every caller but the manager, and leaves the state
/// unchanged.
pub proof fn lemma_non_manager_is_refused(account: AccountView, caller: Principal, token: Principal)
    requires
        account.guard == ReentrancyGuard::Idle,
        account.identity is Some,
        account.manager() != Some(caller),
    ensures
        account.add_token(caller, token) == (account, Err::<(), _>(ContractError::NotAuthorized)),
{
}

/// With no call in flight, whatever a first `initialize` of a registry
/// answered, a second one fails with `AlreadyInitialized` and leaves the state,
/// and with it the role record, untouched. The role record is then the one that
/// was there before the first call, or else the one that the first call set.
pub proof fn lemma_registry_initialize_once(
    registry: RegistryView,
    first: Principal,
    second: Principal,
)
    requires
        registry.guard == ReentrancyGuard::Idle,
    ensures
        ({
            let once = registry.initialize(first);
            let twice = once.0.initialize(second);
            &&& twice == (once.0, Err::<(), _>(ContractError::AlreadyInitialized))
            &&& once.0.admin == if registry.admin is Some {
                registry.admin
            } else {
                Some(first)
            }
            &&& once.1 is Ok <==> registry.admin is None
        }),
{
}

/// The same of an account: its second `initialize` fails with
/// `AlreadyInitialized` and leaves the merchant, the manager and the merchant
/// id as they were.
pub proof fn lemma_account_initialize_once(
    account: AccountView,
    first: (Principal, Principal, u64),
    second: (Principal, Principal, u64),
)
    requires
        account.guard == ReentrancyGuard::Idle,
    ensures
        ({
            let once = account.initialize(first.0, first.1, first.2);
            let twice = once.0.initialize(second.0, second.1, second.2);
            &&& twice == (once.0, Err::<(), _>(ContractError::AlreadyInitialized))
            &&& once.1 is Ok <==> account.identity is None
            &&& once.1 is Ok ==> once.0.get_merchant() == Ok::<Principal, ContractError>(first.0)
            &&& once.1 is Err ==> once.0 == account
        }),
{
}

/// What every entry point of a registry keeps of the state `before` it: the
/// admin, once there is one, and the merchant `merchant` under its id and with
/// its address.
pub open spec fn keeps_records(before: RegistryView, after: RegistryView, merchant: u64) -> bool {
    &&& after.wf()
    &&& before.admin is Some ==> after.admin == before.admin
    &&& lookup(after.merchants, merchant) is Ok
    &&& lookup(after.merchants, merchant)->Ok_0.id == merchant
    &&& lookup(after.merchants, merchant)->Ok_0.address == lookup(
        before.merchants,
        merchant,
    )->Ok_0.address
}

/// Once set, the role record of a registry stays as it is, and no operation
/// deletes a merchant, gives it another id or another owner.
pub proof fn lemma_registry_keeps_records(
    registry: RegistryView,
    caller: Principal,
    subject: Principal,
    id: u64,
    active: bool,
    usable: bool,
    now: u64,
    merchant: u64,
)
    requires
        registry.wf(),
        registry.merchants.len() < u64::MAX,
        registered(registry.merchants, merchant),
    ensures
        keeps_records(registry, registry.initialize(subject).0, merchant),
        keeps_records(
            registry,
            registry.add_accepted_token(caller, subject, usable, now).0,
            merchant,
        ),
        keeps_records(registry, registry.remove_accepted_token(caller, subject, now).0, merchant),
        keeps_records(registry, registry.register_merchant(subject).0, merchant),
        keeps_records(
            registry,
            registry.set_merchant_status(caller, id, active, now).0,
            merchant,
        ),
{
    lemma_lookup(registry.merchants, merchant);
    lemma_lookup(registry.merchants, id);
}

/// Once set, the record of an account's `initialize` stays as it is, and the
/// account's own address never changes.
pub proof fn lemma_account_keeps_identity(
    account: AccountView,
    caller: Principal,
    merchant: Principal,
    manager: Principal,
    merchant_id: u64,
    token: Principal,
)
    requires
        account.identity is Some,
    ensures
        account.initialize(merchant, manager, merchant_id).0.identity == account.identity,
        account.initialize(merchant, manager, merchant_id).0.address == account.address,
        account.add_token(caller, token).0.identity == account.identity,
        account.add_token(caller, token).0.address == account.address,
{
}

/// The account after the manager's calls `add_token(tokens[0])`,
/// `add_token(tokens[1])` and so on.
pub open spec fn after_add_tokens(
    account: AccountView,
    caller: Principal,
    tokens: Seq<Principal>,
) -> AccountView
    decreases tokens.len(),
{
    if tokens.len() == 0 {
        account
    } else {
        after_add_tokens(account, caller, tokens.drop_last()).add_token(caller, tokens.last()).0
    }
}

/// A sequence of `add_token` calls by the manager changes the list of tokens
/// alone, and adds each new token at the end when it first occurs.
pub proof fn lemma_add_token_sequence(
    account: AccountView,
    caller: Principal,
    tokens: Seq<Principal>,
)
    requires
        account.wf(),
        account.guard == ReentrancyGuard::Idle,
        account.manager() == Some(caller),
    ensures
        after_add_tokens(account, caller, tokens) == (AccountView {
            tokens: with_tokens(account.tokens, tokens),
            ..account
        }),
        after_add_tokens(account, caller, tokens).wf(),
    decreases tokens.len(),
{
    lemma_with_tokens(account.tokens, tokens);
    if tokens.len() > 0 {
        lemma_add_token_sequence(account, caller, tokens.drop_last());
    }
}

/// However often `add_token` is called with a token, the list of tokens, and
/// so every answer of `get_balances`, which reports on the tokens one for one
/// and in their order, holds exactly one entry for it, and that entry stands
/// where the token's first occurrence put it: at the end of the list as it was
/// then. On an account that had no tokens before, that position counts the
/// distinct tokens added before the first occurrence.
pub proof fn lemma_repeated_add_token(
    account: AccountView,
    caller: Principal,
    tokens: Seq<Principal>,
    first: int,
)
    requires
        account.wf(),
        account.guard == ReentrancyGuard::Idle,
        account.manager() == Some(caller),
        0 <= first < tokens.len(),
        !account.tokens.contains(tokens[first]),
        forall|j: int| 0 <= j < first ==> tokens[j] != tokens[first],
    ensures
        ({
            let after = after_add_tokens(account, caller, tokens).tokens;
            let at = after_add_tokens(account, caller, tokens.take(first)).tokens.len() as int;
            &&& 0 <= at < after.len()
            &&& after[at] == tokens[first]
            &&& forall|i: int| 0 <= i < after.len() && after[i] == tokens[first] ==> i == at
            &&& account.tokens.len() == 0 ==> at == tokens.take(first).to_set().len()
        }),
{
    lemma_add_token_sequence(account, caller, tokens);
    lemma_add_token_sequence(account, caller, tokens.take(first));
    lemma_first_occurrence(account.tokens, tokens, first);
}

} // verus!
