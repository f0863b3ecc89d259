//! The operator registry: the whitelist of accepted tokens and the merchant
//! directory, both governed by one admin.

use vstd::prelude::*;
use crate::access::{authorization, require_role};
use crate::directory::{ids_in_sequence, lookup, with_merchant, with_status, MerchantDirectory};
use crate::errors::ContractError;
use crate::events::{announced, emitted, Event, EventView};
use crate::reentrancy::{enter, entry, exit, ReentrancyGuard};
use crate::token_list::{lemma_with_token, lemma_without_token, TokenList};
use crate::types::{
    found, named, record_views, text_of, texts, CodeReference, MerchantRecord, MerchantView,
    Principal, PrincipalId,
};
use crate::upgrade::{upgrade, upgrade_decision};

verus! {

/// A registry's state, as contracts see it.
pub struct RegistryView {
    /// The reentrancy marker.
    pub guard: ReentrancyGuard,
    /// The role record: the admin, once `initialize` has set it.
    pub admin: Option<Principal>,
    /// The accepted tokens. Their order means nothing.
    pub accepted: Set<Principal>,
    /// The merchants, in the order of registration.
    pub merchants: Seq<MerchantView>,
}

impl RegistryView {
    /// The whitelist is finite and merchant ids do not collide.
    pub open spec fn wf(self) -> bool {
        self.accepted.finite() && ids_in_sequence(self.merchants)
    }

    /// What the two guards answer to a mutating call that `caller` makes on
    /// the admin's authority: the reentrancy guard is asked first.
    pub open spec fn admin_call(self, caller: Principal) -> Result<(), ContractError> {
        match entry(self.guard) {
            Err(error) => Err(error),
            Ok(()) => authorization(self.admin, caller),
        }
    }

    /// The state after `initialize(admin)`, and its answer.
    pub open spec fn initialize(self, admin: Principal) -> (
        RegistryView,
        Result<(), ContractError>,
    ) {
        if entry(self.guard) is Err {
            (self, Err(ContractError::Reentrancy))
        } else if self.admin is Some {
            (self, Err(ContractError::AlreadyInitialized))
        } else {
            (RegistryView { admin: Some(admin), ..self }, Ok(()))
        }
    }

    /// The state after `add_accepted_token`, and its answer. `usable` says
    /// whether the platform resolves `token` to a usable asset.
    pub open spec fn add_accepted_token(
        self,
        caller: Principal,
        token: Principal,
        usable: bool,
        now: u64,
    ) -> (RegistryView, Result<Option<EventView>, ContractError>) {
        match self.admin_call(caller) {
            Err(error) => (self, Err(error)),
            Ok(()) => if !usable {
                (self, Err(ContractError::InvalidToken))
            } else if self.accepted.contains(token) {
                (self, Ok(None))
            } else {
                (
                    RegistryView { accepted: self.accepted.insert(token), ..self },
                    Ok(Some(EventView::TokenAdded { token, timestamp: now })),
                )
            },
        }
    }

    /// The state after `remove_accepted_token`, and its answer.
    pub open spec fn remove_accepted_token(self, caller: Principal, token: Principal, now: u64) -> (
        RegistryView,
        Result<Option<EventView>, ContractError>,
    ) {
        match self.admin_call(caller) {
            Err(error) => (self, Err(error)),
            Ok(()) => if !self.accepted.contains(token) {
                (self, Ok(None))
            } else {
                (
                    RegistryView { accepted: self.accepted.remove(token), ..self },
                    Ok(Some(EventView::TokenRemoved { token, timestamp: now })),
                )
            },
        }
    }

    /// The state after `register_merchant(address)`, and its answer.
    pub open spec fn register_merchant(self, address: Principal) -> (
        RegistryView,
        Result<u64, ContractError>,
    ) {
        match entry(self.guard) {
            Err(error) => (self, Err(error)),
            Ok(()) => {
                let (merchants, id) = with_merchant(self.merchants, address);
                (RegistryView { merchants, ..self }, Ok(id))
            },
        }
    }

    /// The state after `set_merchant_status`, and its answer. The admin's
    /// authority is checked before the merchant is looked up, and the event is
    /// emitted whether or not the state it reports is new.
    pub open spec fn set_merchant_status(
        self,
        caller: Principal,
        id: u64,
        active: bool,
        now: u64,
    ) -> (RegistryView, Result<EventView, ContractError>) {
        match self.admin_call(caller) {
            Err(error) => (self, Err(error)),
            Ok(()) => match with_status(self.merchants, id, active) {
                Err(error) => (self, Err(error)),
                Ok(merchants) => (
                    RegistryView { merchants, ..self },
                    Ok(
                        EventView::MerchantStatusChanged {
                            merchant_id: id,
                            active,
                            timestamp: now,
                        },
                    ),
                ),
            },
        }
    }

    /// The answer of `upgrade`, which leaves the registry's state as it is:
    /// the event names the code that the host is to run from now on.
    pub open spec fn upgrade(self, caller: Principal, new_code: Seq<u8>, now: u64) -> Result<
        EventView,
        ContractError,
    > {
        match entry(self.guard) {
            Err(error) => Err(error),
            Ok(()) => upgrade_decision(self.admin, caller, new_code, now),
        }
    }

    /// Whether the merchant `id` is active, or `MerchantNotFound`.
    pub open spec fn is_merchant_active(self, id: u64) -> Result<bool, ContractError> {
        match lookup(self.merchants, id) {
            Ok(record) => Ok(record.active),
            Err(error) => Err(error),
        }
    }
}

/// The operator registry's state.
pub struct Shade {
    guard: ReentrancyGuard,
    admin: Option<PrincipalId>,
    accepted: TokenList,
    merchants: MerchantDirectory,
}

impl View for Shade {
    type V = RegistryView;

    closed spec fn view(&self) -> RegistryView {
        RegistryView {
            guard: self.guard,
            admin: text_of(self.admin),
            accepted: self.accepted@.to_set(),
            merchants: self.merchants@,
        }
    }
}

/// The greeting interface of the registry.
pub trait CoreTrait {
    /// The words of a greeting to `to`: the salutation, then the name.
    fn hello_world(to: String) -> (words: Vec<String>)
        ensures
            words@.len() == 2,
            words@[0]@ == "Hello World"@,
            words@[1]@ == to@,
    ;
}

impl CoreTrait for Shade {
    fn hello_world(to: String) -> (words: Vec<String>) {
        let mut words: Vec<String> = Vec::new();
        words.push("Hello World".to_owned());
        words.push(to);
        words
    }
}

impl Shade {
    /// No token is listed twice and no two merchants share an id.
    pub closed spec fn wf(&self) -> bool {
        self.accepted.wf() && self.merchants.wf()
    }

    /// A valid registry has a valid view.
    pub proof fn lemma_view(&self)
        requires
            self.wf(),
        ensures
            self@.wf(),
    {
    }

    /// A registry without admin, tokens or merchants, with no call in flight.
    pub fn new() -> (registry: Shade)
        ensures
            registry.wf(),
            registry@ == (RegistryView {
                guard: ReentrancyGuard::Idle,
                admin: None,
                accepted: Set::empty(),
                merchants: Seq::empty(),
            }),
    {
        let registry = Shade {
            guard: ReentrancyGuard::Idle,
            admin: None,
            accepted: TokenList::new(),
            merchants: MerchantDirectory::new(),
        };
        assert(registry@.accepted =~= Set::empty());
        registry
    }

    /// The registry with the given marker, admin, accepted tokens and
    /// merchants, as a store hands them back; `None` where a token occurs twice
    /// or the merchants' ids do not run in sequence from 1.
    pub fn restore(
        guard: ReentrancyGuard,
        admin: Option<PrincipalId>,
        accepted: Vec<PrincipalId>,
        merchants: Vec<MerchantRecord>,
    ) -> (registry: Option<Shade>)
        ensures
            registry is Some <==> texts(accepted@).no_duplicates() && ids_in_sequence(
                record_views(merchants@),
            ),
            match registry {
                Some(registry) => registry.wf() && registry@ == (RegistryView {
                    guard,
                    admin: text_of(admin),
                    accepted: texts(accepted@).to_set(),
                    merchants: record_views(merchants@),
                }),
                None => true,
            },
    {
        let accepted = match TokenList::from_vec(accepted) {
            Some(list) => list,
            None => {
                return None;
            },
        };
        let merchants = match MerchantDirectory::from_records(merchants) {
            Some(directory) => directory,
            None => {
                return None;
            },
        };
        Some(Shade { guard, admin, accepted, merchants })
    }

    /// The accepted tokens, each once.
    pub fn accepted_tokens(&self) -> (tokens: Vec<PrincipalId>)
        requires
            self.wf(),
        ensures
            texts(tokens@).no_duplicates(),
            texts(tokens@).to_set() == self@.accepted,
    {
        self.accepted.to_vec()
    }

    /// The merchants' records in the order of registration.
    pub fn merchants(&self) -> (records: Vec<MerchantRecord>)
        ensures
            record_views(records@) == self@.merchants,
    {
        self.merchants.records()
    }

    /// The words of a greeting to `to`: the salutation, then the name.
    pub fn hello_world(to: String) -> (words: Vec<String>)
        ensures
            words@.len() == 2,
            words@[0]@ == "Hello World"@,
            words@[1]@ == to@,
    {
        <Shade as CoreTrait>::hello_world(to)
    }

    /// Marks the start of a mutating call on this instance: until `exit`,
    /// every mutating entry point fails with `Reentrancy`.
    pub fn enter(&mut self) -> (entered: Result<(), ContractError>)
        requires
            old(self).wf(),
        ensures
            final(self).wf(),
            entered == entry(old(self)@.guard),
            final(self)@ == (RegistryView { guard: ReentrancyGuard::InCall, ..old(self)@ }),
    {
        enter(&mut self.guard)
    }

    /// Marks the end of the mutating call in flight.
    pub fn exit(&mut self)
        requires
            old(self).wf(),
        ensures
            final(self).wf(),
            final(self)@ == (RegistryView { guard: ReentrancyGuard::Idle, ..old(self)@ }),
    {
        exit(&mut self.guard)
    }

    /// Whether a mutating call is in flight.
    pub fn in_call(&self) -> (set: bool)
        ensures
            set == (self@.guard == ReentrancyGuard::InCall),
    {
        self.guard.is_set()
    }

    /// Records `admin` as the registry's admin. This can be done once.
    pub fn initialize(&mut self, admin: PrincipalId) -> (outcome: Result<(), ContractError>)
        requires
            old(self).wf(),
        ensures
            final(self).wf(),
            (final(self)@, outcome) == old(self)@.initialize(admin@),
    {
        match enter(&mut self.guard) {
            Err(error) => {
                return Err(error);
            },
            Ok(()) => {},
        }
        let outcome = if self.admin.is_some() {
            Err(ContractError::AlreadyInitialized)
        } else {
            self.admin = Some(admin);
            Ok(())
        };
        exit(&mut self.guard);
        outcome
    }

    /// The admin.
    pub fn get_admin(&self) -> (outcome: Result<PrincipalId, ContractError>)
        ensures
            named(outcome) == match self@.admin {
                Some(admin) => Ok::<Principal, ContractError>(admin),
                None => Err(ContractError::NotInitialized),
            },
    {
        match &self.admin {
            Some(admin) => Ok(admin.clone()),
            None => Err(ContractError::NotInitialized),
        }
    }

    /// The authorization guard for the admin role: `caller` is the principal
    /// whose authorization of the call the platform has verified.
    pub fn assert_admin(&self, caller: &PrincipalId) -> (granted: Result<(), ContractError>)
        ensures
            granted == authorization(self@.admin, caller@),
    {
        require_role(self.admin.as_ref(), caller)
    }

    /// Puts `token` on the whitelist. Adding a token that is already accepted
    /// succeeds, changes nothing and emits no event.
    pub fn add_accepted_token(
        &mut self,
        caller: &PrincipalId,
        token: PrincipalId,
        usable: bool,
        now: u64,
    ) -> (outcome: Result<Option<Event>, ContractError>)
        requires
            old(self).wf(),
        ensures
            final(self).wf(),
            (final(self)@, emitted(outcome)) == old(self)@.add_accepted_token(
                caller@,
                token@,
                usable,
                now,
            ),
    {
        match enter(&mut self.guard) {
            Err(error) => {
                return Err(error);
            },
            Ok(()) => {},
        }
        let outcome = match self.assert_admin(caller) {
            Err(error) => Err(error),
            Ok(()) => if !usable {
                Err(ContractError::InvalidToken)
            } else {
                proof {
                    lemma_with_token(self.accepted@, token@);
                }
                let listed = token.clone();
                if self.accepted.insert(token) {
                    Ok(Some(Event::TokenAdded { token: listed, timestamp: now }))
                } else {
                    Ok(None)
                }
            },
        };
        exit(&mut self.guard);
        assert(self@.accepted =~= old(self)@.add_accepted_token(
            caller@,
            token@,
            usable,
            now,
        ).0.accepted);
        outcome
    }

    /// Takes `token` off the whitelist. Removing a token that is not accepted
    /// succeeds, changes nothing and emits no event.
    pub fn remove_accepted_token(
        &mut self,
        caller: &PrincipalId,
        token: &PrincipalId,
        now: u64,
    ) -> (outcome: Result<Option<Event>, ContractError>)
        requires
            old(self).wf(),
        ensures
            final(self).wf(),
            (final(self)@, emitted(outcome)) == old(self)@.remove_accepted_token(
                caller@,
                token@,
                now,
            ),
    {
        match enter(&mut self.guard) {
            Err(error) => {
                return Err(error);
            },
            Ok(()) => {},
        }
        let outcome = match self.assert_admin(caller) {
            Err(error) => Err(error),
            Ok(()) => {
                proof {
                    lemma_without_token(self.accepted@, token@);
                }
                if self.accepted.remove(token) {
                    Ok(Some(Event::TokenRemoved { token: token.clone(), timestamp: now }))
                } else {
                    Ok(None)
                }
            },
        };
        exit(&mut self.guard);
        assert(self@.accepted =~= old(self)@.remove_accepted_token(
            caller@,
            token@,
            now,
        ).0.accepted);
        outcome
    }

    /// Whether `token` is on the whitelist.
    pub fn is_accepted_token(&self, token: &PrincipalId) -> (accepted: bool)
        ensures
            accepted == self@.accepted.contains(token@),
    {
        self.accepted.contains(token)
    }

    /// How many tokens are on the whitelist.
    pub fn accepted_count(&self) -> (n: usize)
        requires
            self.wf(),
        ensures
            n == self@.accepted.len(),
    {
        proof {
            self.accepted@.unique_seq_to_set();
        }
        self.accepted.len()
    }

    /// How many merchants are registered.
    pub fn merchant_count(&self) -> (n: usize)
        ensures
            n == self@.merchants.len(),
    {
        self.merchants.len()
    }

    /// Registers `address` as an active merchant and answers its id: ids are
    /// handed out in sequence, starting at 1.
    pub fn register_merchant(&mut self, address: PrincipalId) -> (outcome: Result<
        u64,
        ContractError,
    >)
        requires
            old(self).wf(),
            old(self)@.merchants.len() < u64::MAX,
        ensures
            final(self).wf(),
            (final(self)@, outcome) == old(self)@.register_merchant(address@),
    {
        match enter(&mut self.guard) {
            Err(error) => {
                return Err(error);
            },
            Ok(()) => {},
        }
        let id = self.merchants.register(address);
        exit(&mut self.guard);
        Ok(id)
    }

    /// The record of the merchant `id`.
    pub fn get_merchant(&self, id: u64) -> (outcome: Result<MerchantRecord, ContractError>)
        requires
            self.wf(),
        ensures
            found(outcome) == lookup(self@.merchants, id),
    {
        self.merchants.get(id)
    }

    /// Whether the merchant `id` is active.
    pub fn is_merchant_active(&self, id: u64) -> (outcome: Result<bool, ContractError>)
        requires
            self.wf(),
        ensures
            outcome == self@.is_merchant_active(id),
    {
        match self.merchants.get(id) {
            Ok(record) => Ok(record.active),
            Err(error) => Err(error),
        }
    }

    /// Sets the activation state of the merchant `id`.
    pub fn set_merchant_status(
        &mut self,
        caller: &PrincipalId,
        id: u64,
        active: bool,
        now: u64,
    ) -> (outcome: Result<Event, ContractError>)
        requires
            old(self).wf(),
        ensures
            final(self).wf(),
            (final(self)@, announced(outcome)) == old(self)@.set_merchant_status(
                caller@,
                id,
                active,
                now,
            ),
    {
        match enter(&mut self.guard) {
            Err(error) => {
                return Err(error);
            },
            Ok(()) => {},
        }
        let outcome = match self.assert_admin(caller) {
            Err(error) => Err(error),
            Ok(()) => match self.merchants.set_status(id, active) {
                Err(error) => Err(error),
                Ok(()) => Ok(
                    Event::MerchantStatusChanged { merchant_id: id, active, timestamp: now },
                ),
            },
        };
        exit(&mut self.guard);
        outcome
    }

    /// Decides a code replacement as a guarded entry point. On success the
    /// host replaces the running program's code with the one the event names.
    pub fn upgrade(
        &mut self,
        caller: &PrincipalId,
        new_code: CodeReference,
        now: u64,
    ) -> (outcome: Result<Event, ContractError>)
        requires
            old(self).wf(),
        ensures
            final(self).wf(),
            final(self)@ == old(self)@,
            announced(outcome) == old(self)@.upgrade(caller@, new_code@, now),
    {
        match enter(&mut self.guard) {
            Err(error) => {
                return Err(error);
            },
            Ok(()) => {},
        }
        let outcome = upgrade(&*self, caller, new_code, now);
        exit(&mut self.guard);
        outcome
    }
}

} // verus!
