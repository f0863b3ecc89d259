//! The merchant directory: records are created by registration, changed only
//! by the activation toggle and never deleted.

use vstd::prelude::*;
use crate::errors::ContractError;
use crate::types::{record_views, MerchantRecord, MerchantView, PrincipalId};

verus! {

/// Ids are handed out in the order of registration, starting at 1: the record
/// at position `i` carries the id `i + 1`.
pub open spec fn ids_in_sequence(merchants: Seq<MerchantView>) -> bool {
    forall|i: int| 0 <= i < merchants.len() ==> (#[trigger] merchants[i]).id == i + 1
}

/// Whether a merchant was registered under `id`.
pub open spec fn registered(merchants: Seq<MerchantView>, id: u64) -> bool {
    exists|i: int| 0 <= i < merchants.len() && (#[trigger] merchants[i]).id == id
}

/// The record registered under `id`, or `MerchantNotFound` where there is none;
/// there is none under the id zero.
pub open spec fn lookup(merchants: Seq<MerchantView>, id: u64) -> Result<
    MerchantView,
    ContractError,
> {
    if 0 < id <= merchants.len() {
        Ok(merchants[id - 1])
    } else {
        Err(ContractError::MerchantNotFound)
    }
}

/// `merchants` after the activation state of the merchant `id` was set, or
/// `MerchantNotFound` where there is no such merchant.
pub open spec fn with_status(merchants: Seq<MerchantView>, id: u64, active: bool) -> Result<
    Seq<MerchantView>,
    ContractError,
> {
    match lookup(merchants, id) {
        Ok(record) => Ok(merchants.update(id - 1, MerchantView { active, ..record })),
        Err(error) => Err(error),
    }
}

/// `merchants` after `address` registered, and the id it was given.
pub open spec fn with_merchant(merchants: Seq<MerchantView>, address: Seq<char>) -> (
    Seq<MerchantView>,
    u64,
) {
    let id = (merchants.len() + 1) as u64;
    (merchants.push(MerchantView { id, address, active: true }), id)
}

/// A lookup succeeds exactly for the ids that were registered, zero is never
/// one of them, and the record found carries the id asked for.
pub proof fn lemma_lookup(merchants: Seq<MerchantView>, id: u64)
    requires
        ids_in_sequence(merchants),
    ensures
        lookup(merchants, id) is Ok <==> registered(merchants, id),
        !registered(merchants, 0),
        lookup(merchants, id) is Ok ==> lookup(merchants, id)->Ok_0.id == id,
        lookup(merchants, id) is Err ==> lookup(merchants, id) == Err::<MerchantView, _>(
            ContractError::MerchantNotFound,
        ),
{
    if 0 < id <= merchants.len() {
        assert(merchants[id - 1].id == id);
    }
}

/// The merchants of a registry, in the order of registration.
pub struct MerchantDirectory {
    records: Vec<MerchantRecord>,
}

impl View for MerchantDirectory {
    type V = Seq<MerchantView>;

    closed spec fn view(&self) -> Seq<MerchantView> {
        record_views(self.records@)
    }
}

impl MerchantDirectory {
    /// No two merchants share an id.
    pub open spec fn wf(&self) -> bool {
        ids_in_sequence(self@)
    }

    /// The directory without merchants.
    pub fn new() -> (directory: MerchantDirectory)
        ensures
            directory@ == Seq::<MerchantView>::empty(),
            directory.wf(),
    {
        MerchantDirectory { records: Vec::new() }
    }

    /// The directory that holds `records` in their order, where their ids run
    /// in sequence from 1; `None` where they do not.
    pub fn from_records(records: Vec<MerchantRecord>) -> (directory: Option<MerchantDirectory>)
        ensures
            directory is Some <==> ids_in_sequence(record_views(records@)),
            match directory {
                Some(directory) => directory.wf() && directory@ == record_views(records@),
                None => true,
            },
    {
        let mut i: usize = 0;
        while i < records.len()
            invariant
                i <= records.len(),
                forall|j: int| 0 <= j < i ==> (#[trigger] record_views(records@)[j]).id == j + 1,
            decreases records.len() - i,
        {
            if records[i].id != i as u64 + 1 {
                assert(record_views(records@)[i as int].id != i + 1);
                return None;
            }
            i += 1;
        }
        Some(MerchantDirectory { records })
    }

    /// The records in the order of registration.
    pub fn records(&self) -> (records: Vec<MerchantRecord>)
        ensures
            record_views(records@) == self@,
    {
        let mut records: Vec<MerchantRecord> = Vec::new();
        let mut i: usize = 0;
        while i < self.records.len()
            invariant
                i <= self.records.len(),
                records@.len() == i,
                forall|j: int| 0 <= j < i ==> records@[j]@ == self.records@[j]@,
            decreases self.records.len() - i,
        {
            records.push(self.records[i].clone());
            i += 1;
        }
        assert(record_views(records@) =~= self@);
        records
    }

    /// How many merchants are registered.
    pub fn len(&self) -> (n: usize)
        ensures
            n == self@.len(),
    {
        self.records.len()
    }

    /// Registers `address` as an active merchant under the next id.
    pub fn register(&mut self, address: PrincipalId) -> (id: u64)
        requires
            old(self).wf(),
            old(self)@.len() < u64::MAX,
        ensures
            final(self).wf(),
            (final(self)@, id) == with_merchant(old(self)@, address@),
    {
        let id: u64 = self.records.len() as u64 + 1;
        self.records.push(MerchantRecord { id, address, active: true });
        assert(self@ =~= with_merchant(old(self)@, address@).0);
        id
    }

    /// The record registered under `id`.
    pub fn get(&self, id: u64) -> (found: Result<MerchantRecord, ContractError>)
        requires
            self.wf(),
        ensures
            match found {
                Ok(record) => lookup(self@, id) == Ok::<_, ContractError>(record@),
                Err(error) => lookup(self@, id) == Err::<MerchantView, _>(error),
            },
    {
        if id == 0 || id > self.records.len() as u64 {
            return Err(ContractError::MerchantNotFound);
        }
        let at: usize = (id - 1) as usize;
        Ok(self.records[at].clone())
    }

    /// Sets the activation state of the merchant `id`.
    pub fn set_status(&mut self, id: u64, active: bool) -> (set: Result<(), ContractError>)
        requires
            old(self).wf(),
        ensures
            final(self).wf(),
            match set {
                Ok(()) => with_status(old(self)@, id, active) == Ok::<_, ContractError>(
                    final(self)@,
                ),
                Err(error) => with_status(old(self)@, id, active) == Err::<Seq<MerchantView>, _>(
                    error,
                ) && final(self)@ == old(self)@,
            },
    {
        if id == 0 || id > self.records.len() as u64 {
            return Err(ContractError::MerchantNotFound);
        }
        let at: usize = (id - 1) as usize;
        let record = MerchantRecord { id, address: self.records[at].address.clone(), active };
        self.records.set(at, record);
        assert(self@ =~= old(self)@.update(id - 1, MerchantView { active, ..old(self)@[id - 1] }));
        Ok(())
    }
}

} // verus!
