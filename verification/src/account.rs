//! A merchant's ledger account: the tokens it tracks, in the order in which it
//! began to track them, and balance queries against the asset ledgers.

use vstd::prelude::*;
use crate::access::{authorization, require_role};
use crate::errors::ContractError;
use crate::reentrancy::{enter, entry, exit, ReentrancyGuard};
use crate::token_list::{with_token, TokenList};
use crate::types::{named, texts, Principal, PrincipalId, TokenBalance};

verus! {

/// What `initialize` recorded, as contracts see it.
pub struct IdentityView {
    pub merchant: Principal,
    pub manager: Principal,
    pub merchant_id: u64,
}

/// An account's state, as contracts see it.
pub struct AccountView {
    /// The reentrancy marker.
    pub guard: ReentrancyGuard,
    /// The account's own address, under which the asset ledgers know it.
    pub address: Principal,
    /// The owning merchant and the role record, once `initialize` has set
    /// them.
    pub identity: Option<IdentityView>,
    /// The tracked tokens, in the order in which they were first added.
    pub tokens: Seq<Principal>,
}

impl AccountView {
    /// No token is tracked twice.
    pub open spec fn wf(self) -> bool {
        self.tokens.no_duplicates()
    }

    /// The manager, once there is one.
    pub open spec fn manager(self) -> Option<Principal> {
        match self.identity {
            Some(identity) => Some(identity.manager),
            None => None,
        }
    }

    /// The state after `initialize`, and its answer.
    pub open spec fn initialize(
        self,
        merchant: Principal,
        manager: Principal,
        merchant_id: u64,
    ) -> (AccountView, Result<(), ContractError>) {
        if entry(self.guard) is Err {
            (self, Err(ContractError::Reentrancy))
        } else if self.identity is Some {
            (self, Err(ContractError::AlreadyInitialized))
        } else {
            (
                AccountView {
                    identity: Some(IdentityView { merchant, manager, merchant_id }),
                    ..self
                },
                Ok(()),
            )
        }
    }

    /// The state after `add_token`, and its answer: the reentrancy guard is
    /// asked first, then the authorization guard for the manager's role.
    pub open spec fn add_token(self, caller: Principal, token: Principal) -> (
        AccountView,
        Result<(), ContractError>,
    ) {
        match entry(self.guard) {
            Err(error) => (self, Err(error)),
            Ok(()) => match authorization(self.manager(), caller) {
                Err(error) => (self, Err(error)),
                Ok(()) => (AccountView { tokens: with_token(self.tokens, token), ..self }, Ok(())),
            },
        }
    }

    /// The owning merchant, or `NotInitialized`.
    pub open spec fn get_merchant(self) -> Result<Principal, ContractError> {
        match self.identity {
            Some(identity) => Ok(identity.merchant),
            None => Err(ContractError::NotInitialized),
        }
    }

    /// The manager, or `NotInitialized`.
    pub open spec fn get_manager(self) -> Result<Principal, ContractError> {
        match self.identity {
            Some(identity) => Ok(identity.manager),
            None => Err(ContractError::NotInitialized),
        }
    }
}

/// What `initialize` recorded.
struct Identity {
    merchant: PrincipalId,
    manager: PrincipalId,
    merchant_id: u64,
}

/// The state of one merchant's ledger account.
pub struct MerchantAccount {
    guard: ReentrancyGuard,
    address: PrincipalId,
    identity: Option<Identity>,
    tokens: TokenList,
}

impl View for MerchantAccount {
    type V = AccountView;

    closed spec fn view(&self) -> AccountView {
        AccountView {
            guard: self.guard,
            address: self.address@,
            identity: match self.identity {
                Some(identity) => Some(
                    IdentityView {
                        merchant: identity.merchant@,
                        manager: identity.manager@,
                        merchant_id: identity.merchant_id,
                    },
                ),
                None => None,
            },
            tokens: self.tokens@,
        }
    }
}

impl MerchantAccount {
    /// No token is tracked twice.
    pub closed spec fn wf(&self) -> bool {
        self.tokens.wf()
    }

    /// The identifier under which the account asks the ledgers for its own
    /// balance; `self@.address` is its address text.
    pub closed spec fn holder(&self) -> PrincipalId {
        self.address
    }

    /// The tracked identifiers themselves; `self@.tokens` holds their address
    /// texts.
    pub closed spec fn token_ids(&self) -> Seq<PrincipalId> {
        self.tokens.entries()
    }

    /// A valid account has a valid view, which shows the address texts of its
    /// holder and of its tracked identifiers, one for one.
    pub proof fn lemma_view(&self)
        requires
            self.wf(),
        ensures
            self@.wf(),
            self.holder()@ == self@.address,
            self.token_ids().len() == self@.tokens.len(),
            forall|i: int|
                0 <= i < self@.tokens.len() ==> (#[trigger] self.token_ids()[i])@
                    == self@.tokens[i],
    {
        self.tokens.lemma_entries();
    }

    /// The account at `address`, not yet initialized and tracking nothing.
    pub fn new(address: PrincipalId) -> (account: MerchantAccount)
        ensures
            account.wf(),
            account@ == (AccountView {
                guard: ReentrancyGuard::Idle,
                address: address@,
                identity: None,
                tokens: Seq::empty(),
            }),
    {
        MerchantAccount {
            guard: ReentrancyGuard::Idle,
            address,
            identity: None,
            tokens: TokenList::new(),
        }
    }

    /// The account with the given marker, address, record of `initialize`
    /// (the merchant, the manager and the merchant's id) and tokens, as a store
    /// hands them back; `None` where a token occurs twice.
    pub fn restore(
        guard: ReentrancyGuard,
        address: PrincipalId,
        identity: Option<(PrincipalId, PrincipalId, u64)>,
        tokens: Vec<PrincipalId>,
    ) -> (account: Option<MerchantAccount>)
        ensures
            account is Some <==> texts(tokens@).no_duplicates(),
            match account {
                Some(account) => account.wf() && account@ == (AccountView {
                    guard,
                    address: address@,
                    identity: match identity {
                        Some((merchant, manager, merchant_id)) => Some(
                            IdentityView { merchant: merchant@, manager: manager@, merchant_id },
                        ),
                        None => None,
                    },
                    tokens: texts(tokens@),
                }),
                None => true,
            },
    {
        let tokens = match TokenList::from_vec(tokens) {
            Some(list) => list,
            None => {
                return None;
            },
        };
        let identity = match identity {
            Some((merchant, manager, merchant_id)) => Some(
                Identity { merchant, manager, merchant_id },
            ),
            None => None,
        };
        Some(MerchantAccount { guard, address, identity, tokens })
    }

    /// The account's own address.
    pub fn address(&self) -> (address: PrincipalId)
        ensures
            address@ == self@.address,
    {
        self.address.clone()
    }

    /// The id of the owning merchant.
    pub fn merchant_id(&self) -> (outcome: Result<u64, ContractError>)
        ensures
            outcome == match self@.identity {
                Some(identity) => Ok::<u64, ContractError>(identity.merchant_id),
                None => Err(ContractError::NotInitialized),
            },
    {
        match &self.identity {
            Some(identity) => Ok(identity.merchant_id),
            None => Err(ContractError::NotInitialized),
        }
    }

    /// The tokens in the order in which they were first added.
    pub fn tokens(&self) -> (tokens: Vec<PrincipalId>)
        ensures
            texts(tokens@) == self@.tokens,
    {
        self.tokens.to_vec()
    }

    /// Marks the start of a mutating call on this instance: until `exit`,
    /// every mutating entry point fails with `Reentrancy`.
    pub fn enter(&mut self) -> (entered: Result<(), ContractError>)
        requires
            old(self).wf(),
        ensures
            final(self).wf(),
            entered == entry(old(self)@.guard),
            final(self)@ == (AccountView { guard: ReentrancyGuard::InCall, ..old(self)@ }),
    {
        enter(&mut self.guard)
    }

    /// Marks the end of the mutating call in flight.
    pub fn exit(&mut self)
        requires
            old(self).wf(),
        ensures
            final(self).wf(),
            final(self)@ == (AccountView { guard: ReentrancyGuard::Idle, ..old(self)@ }),
    {
        exit(&mut self.guard)
    }

    /// Whether a mutating call is in flight.
    pub fn in_call(&self) -> (set: bool)
        ensures
            set == (self@.guard == ReentrancyGuard::InCall),
    {
        self.guard.is_set()
    }

    /// Records the owning merchant, the manager and the merchant's id. This
    /// can be done once.
    pub fn initialize(
        &mut self,
        merchant: PrincipalId,
        manager: PrincipalId,
        merchant_id: u64,
    ) -> (outcome: Result<(), ContractError>)
        requires
            old(self).wf(),
        ensures
            final(self).wf(),
            (final(self)@, outcome) == old(self)@.initialize(merchant@, manager@, merchant_id),
    {
        match enter(&mut self.guard) {
            Err(error) => {
                return Err(error);
            },
            Ok(()) => {},
        }
        let outcome = if self.identity.is_some() {
            Err(ContractError::AlreadyInitialized)
        } else {
            self.identity = Some(Identity { merchant, manager, merchant_id });
            Ok(())
        };
        exit(&mut self.guard);
        outcome
    }

    /// The owning merchant.
    pub fn get_merchant(&self) -> (outcome: Result<PrincipalId, ContractError>)
        ensures
            named(outcome) == self@.get_merchant(),
    {
        match &self.identity {
            Some(identity) => Ok(identity.merchant.clone()),
            None => Err(ContractError::NotInitialized),
        }
    }

    /// The manager, whose authority `add_token` asks for.
    pub fn get_manager(&self) -> (outcome: Result<PrincipalId, ContractError>)
        ensures
            named(outcome) == self@.get_manager(),
    {
        match &self.identity {
            Some(identity) => Ok(identity.manager.clone()),
            None => Err(ContractError::NotInitialized),
        }
    }

    /// Begins to track `token`. A token that is already tracked stays where it
    /// is: no second entry is made and no entry moves. `caller` is the
    /// principal whose authorization of the call the platform has verified.
    pub fn add_token(
        &mut self,
        caller: &PrincipalId,
        token: PrincipalId,
    ) -> (outcome: Result<(), ContractError>)
        requires
            old(self).wf(),
        ensures
            final(self).wf(),
            (final(self)@, outcome) == old(self)@.add_token(caller@, token@),
    {
        match enter(&mut self.guard) {
            Err(error) => {
                return Err(error);
            },
            Ok(()) => {},
        }
        let granted = match &self.identity {
            Some(identity) => require_role(Some(&identity.manager), caller),
            None => require_role(None, caller),
        };
        let outcome = match granted {
            Err(error) => Err(error),
            Ok(()) => {
                self.tokens.insert(token);
                Ok(())
            },
        };
        exit(&mut self.guard);
        outcome
    }

    /// Whether `token` is tracked.
    pub fn has_token(&self, token: &PrincipalId) -> (present: bool)
        ensures
            present == self@.tokens.contains(token@),
    {
        self.tokens.contains(token)
    }

    /// The account's balance in `token`, as `ledger` reports it now for the
    /// pair of the token and the account's own address. The token need not be
    /// tracked.
    pub fn get_balance<F: Fn(&PrincipalId, &PrincipalId) -> i128>(
        &self,
        token: &PrincipalId,
        ledger: F,
    ) -> (balance: i128)
        requires
            call_requires(ledger, (token, &self.holder())),
        ensures
            call_ensures(ledger, (token, &self.holder()), balance),
    {
        ledger(token, &self.address)
    }

    /// One report for each tracked token, in the order in which the tokens
    /// were first added, each with the balance that `ledger` reports now for
    /// the pair of that token and the account's own address.
    pub fn get_balances<F: Fn(&PrincipalId, &PrincipalId) -> i128>(
        &self,
        ledger: F,
    ) -> (balances: Vec<TokenBalance>)
        requires
            forall|i: int|
                0 <= i < self.token_ids().len() ==> call_requires(
                    ledger,
                    (&#[trigger] self.token_ids()[i], &self.holder()),
                ),
        ensures
            balances@.len() == self@.tokens.len(),
            forall|i: int|
                0 <= i < balances@.len() ==> (#[trigger] balances@[i]).token@ == self@.tokens[i],
            forall|i: int|
                0 <= i < balances@.len() ==> call_ensures(
                    ledger,
                    (&self.token_ids()[i], &self.holder()),
                    (#[trigger] balances@[i]).balance,
                ),
    {
        proof {
            self.tokens.lemma_entries();
        }
        let mut balances: Vec<TokenBalance> = Vec::new();
        let mut i: usize = 0;
        while i < self.tokens.len()
            invariant
                i <= self.tokens@.len(),
                self.token_ids().len() == self.tokens@.len(),
                balances@.len() == i,
                forall|j: int|
                    0 <= j < self.token_ids().len() ==> call_requires(
                        ledger,
                        (&#[trigger] self.token_ids()[j], &self.holder()),
                    ),
                forall|j: int| 0 <= j < i ==> (#[trigger] balances@[j]).token@ == self.tokens@[j],
                forall|j: int|
                    0 <= j < i ==> call_ensures(
                        ledger,
                        (&self.token_ids()[j], &self.holder()),
                        (#[trigger] balances@[j]).balance,
                    ),
            decreases self.tokens@.len() - i,
        {
            let token = self.tokens.get(i);
            let balance = ledger(token, &self.address);
            balances.push(TokenBalance { token: token.clone(), balance });
            i += 1;
        }
        balances
    }
}

} // verus!
