//! The values the two components store and hand out.

use vstd::prelude::*;
use crate::errors::ContractError;

verus! {

/// How a principal appears in contracts: the text of its address.
pub type Principal = Seq<char>;

/// An opaque caller or account identity, held as the text of its address.
/// Two identities are the same principal exactly when their texts are equal.
#[derive(Debug)]
pub struct PrincipalId {
    strkey: String,
}

impl View for PrincipalId {
    type V = Principal;

    closed spec fn view(&self) -> Principal {
        self.strkey@
    }
}

impl PrincipalId {
    /// The identity with the address text `strkey`.
    pub fn new(strkey: &str) -> (id: PrincipalId)
        ensures
            id@ == strkey@,
    {
        PrincipalId { strkey: strkey.to_owned() }
    }

    /// The address text.
    pub fn as_str(&self) -> (text: &str)
        ensures
            text@ == self@,
    {
        self.strkey.as_str()
    }
}

impl Clone for PrincipalId {
    fn clone(&self) -> (copy: PrincipalId)
        ensures
            copy@ == self@,
    {
        PrincipalId { strkey: self.strkey.clone() }
    }
}

impl PartialEq for PrincipalId {
    fn eq(&self, other: &PrincipalId) -> (same: bool) {
        self.strkey == other.strkey
    }
}

impl Eq for PrincipalId {}

impl vstd::std_specs::cmp::PartialEqSpecImpl for PrincipalId {
    open spec fn obeys_eq_spec() -> bool {
        true
    }

    open spec fn eq_spec(&self, other: &PrincipalId) -> bool {
        self@ == other@
    }
}

/// The address texts of `ids`, one for one.
pub open spec fn texts(ids: Seq<PrincipalId>) -> Seq<Principal> {
    ids.map_values(|id: PrincipalId| id@)
}

/// The address text of `id`, where there is one.
pub open spec fn text_of(id: Option<PrincipalId>) -> Option<Principal> {
    match id {
        Some(id) => Some(id@),
        None => None,
    }
}

/// What a query for a principal answered, as contracts see it.
pub open spec fn named(outcome: Result<PrincipalId, ContractError>) -> Result<
    Principal,
    ContractError,
> {
    match outcome {
        Ok(id) => Ok(id@),
        Err(error) => Err(error),
    }
}

/// What a query for a merchant answered, as contracts see it.
pub open spec fn found(outcome: Result<MerchantRecord, ContractError>) -> Result<
    MerchantView,
    ContractError,
> {
    match outcome {
        Ok(record) => Ok(record@),
        Err(error) => Err(error),
    }
}

/// The records `records`, as contracts see them.
pub open spec fn record_views(records: Seq<MerchantRecord>) -> Seq<MerchantView> {
    records.map_values(|record: MerchantRecord| record@)
}

/// A copy of `ids`.
pub fn copy_ids(ids: &Vec<PrincipalId>) -> (copy: Vec<PrincipalId>)
    ensures
        texts(copy@) == texts(ids@),
{
    let mut copy: Vec<PrincipalId> = Vec::new();
    let mut i: usize = 0;
    while i < ids.len()
        invariant
            i <= ids.len(),
            copy@.len() == i,
            forall|j: int| 0 <= j < i ==> copy@[j]@ == ids@[j]@,
        decreases ids.len() - i,
    {
        copy.push(ids[i].clone());
        i += 1;
    }
    assert(texts(copy@) =~= texts(ids@));
    copy
}

/// One merchant of the directory, as contracts see it.
pub struct MerchantView {
    pub id: u64,
    pub address: Principal,
    pub active: bool,
}

/// One merchant of the directory.
#[derive(Debug)]
pub struct MerchantRecord {
    /// The merchant's id; never zero.
    pub id: u64,
    /// The principal that owns the merchant.
    pub address: PrincipalId,
    /// Whether the merchant may be treated as operational.
    pub active: bool,
}

impl View for MerchantRecord {
    type V = MerchantView;

    open spec fn view(&self) -> MerchantView {
        MerchantView { id: self.id, address: self.address@, active: self.active }
    }
}

impl Clone for MerchantRecord {
    fn clone(&self) -> (copy: MerchantRecord)
        ensures
            copy@ == self@,
    {
        MerchantRecord { id: self.id, address: self.address.clone(), active: self.active }
    }
}

impl PartialEq for MerchantRecord {
    fn eq(&self, other: &MerchantRecord) -> (same: bool) {
        self.id == other.id && self.address == other.address && self.active == other.active
    }
}

impl Eq for MerchantRecord {}

impl vstd::std_specs::cmp::PartialEqSpecImpl for MerchantRecord {
    open spec fn obeys_eq_spec() -> bool {
        true
    }

    open spec fn eq_spec(&self, other: &MerchantRecord) -> bool {
        self@ == other@
    }
}

/// A balance report, as contracts see it.
pub struct TokenBalanceView {
    pub token: Principal,
    pub balance: i128,
}

/// What an asset ledger reported as an account's balance in one token. It is
/// made from a live query and never stored.
#[derive(Debug)]
pub struct TokenBalance {
    pub token: PrincipalId,
    pub balance: i128,
}

impl View for TokenBalance {
    type V = TokenBalanceView;

    open spec fn view(&self) -> TokenBalanceView {
        TokenBalanceView { token: self.token@, balance: self.balance }
    }
}

impl Clone for TokenBalance {
    fn clone(&self) -> (copy: TokenBalance)
        ensures
            copy@ == self@,
    {
        TokenBalance { token: self.token.clone(), balance: self.balance }
    }
}

impl PartialEq for TokenBalance {
    fn eq(&self, other: &TokenBalance) -> (same: bool) {
        self.token == other.token && self.balance == other.balance
    }
}

impl Eq for TokenBalance {}

impl vstd::std_specs::cmp::PartialEqSpecImpl for TokenBalance {
    open spec fn obeys_eq_spec() -> bool {
        true
    }

    open spec fn eq_spec(&self, other: &TokenBalance) -> bool {
        self@ == other@
    }
}

/// The 32-byte reference to a program's code.
#[derive(Clone, Copy, Debug)]
pub struct CodeReference {
    pub bytes: [u8; 32],
}

impl View for CodeReference {
    type V = Seq<u8>;

    open spec fn view(&self) -> Seq<u8> {
        self.bytes@
    }
}

impl PartialEq for CodeReference {
    fn eq(&self, other: &CodeReference) -> (same: bool) {
        let mut i: usize = 0;
        while i < 32
            invariant
                i <= 32,
                forall|j: int| 0 <= j < i ==> self.bytes@[j] == other.bytes@[j],
            decreases 32 - i,
        {
            if self.bytes[i] != other.bytes[i] {
                return false;
            }
            i += 1;
        }
        assert(self.bytes@ =~= other.bytes@);
        true
    }
}

impl Eq for CodeReference {}

impl vstd::std_specs::cmp::PartialEqSpecImpl for CodeReference {
    open spec fn obeys_eq_spec() -> bool {
        true
    }

    open spec fn eq_spec(&self, other: &CodeReference) -> bool {
        self@ == other@
    }
}

} // verus!
