use crate::bytes::keys_equal;
use crate::error::WrapperError;
use vstd::prelude::*;

verus! {

/// One locked unit: the foreign address it is correlated with, the identity
/// that locked it and the asset account it came from.
#[derive(Debug, Clone, Copy, PartialEq, Eq)]
pub struct CustodyRecord {
    pub foreign_address: [u8; 32],
    pub owner: [u8; 32],
    pub asset_account: [u8; 32],
}

/// Whether two records carry the same triple, field by field.
pub open spec fn same_triple(a: CustodyRecord, b: CustodyRecord) -> bool {
    &&& a.foreign_address@ == b.foreign_address@
    &&& a.owner@ == b.owner@
    &&& a.asset_account@ == b.asset_account@
}

/// The index of the first record that carries the triple of `t`, or -1 when
/// none does.
pub open spec fn first_match(records: Seq<CustodyRecord>, t: CustodyRecord) -> int
    decreases records.len(),
{
    if records.len() == 0 {
        -1
    } else {
        let k = first_match(records.drop_last(), t);
        if k >= 0 {
            k
        } else if same_triple(records.last(), t) {
            records.len() - 1
        } else {
            -1
        }
    }
}

/// What a registry holds.
pub struct RegistryModel {
    pub initialized: bool,
    pub bump: u8,
    pub capacity: nat,
    pub records: Seq<CustodyRecord>,
}

/// The registry before initialization.
pub open spec fn empty_model() -> RegistryModel {
    RegistryModel { initialized: false, bump: 0, capacity: 0, records: Seq::empty() }
}

/// Initialization: once only.
pub open spec fn initialize_step(m: RegistryModel, capacity: u16, bump: u8) -> (
    RegistryModel,
    Result<(), WrapperError>,
) {
    if m.initialized {
        (m, Err(WrapperError::AlreadyInitialized))
    } else {
        (
            RegistryModel {
                initialized: true,
                bump,
                capacity: capacity as nat,
                records: Seq::empty(),
            },
            Ok(()),
        )
    }
}

/// A lock-in: the record is appended unless the registry is full.
pub open spec fn lock_in_step(m: RegistryModel, rec: CustodyRecord) -> (
    RegistryModel,
    Result<(), WrapperError>,
) {
    if m.records.len() >= m.capacity {
        (m, Err(WrapperError::RegistryFull))
    } else {
        (RegistryModel { records: m.records.push(rec), ..m }, Ok(()))
    }
}

/// A lock-out: the first record with the same triple is removed; without one
/// nothing changes and the release fails.
pub open spec fn lock_out_step(m: RegistryModel, t: CustodyRecord) -> (
    RegistryModel,
    Result<(), WrapperError>,
) {
    let k = first_match(m.records, t);
    if k < 0 {
        (m, Err(WrapperError::RecordNotFound))
    } else {
        (RegistryModel { records: m.records.remove(k), ..m }, Ok(()))
    }
}

/// The bounded collection of active custody records.
pub struct CustodyRegistry {
    initialized: bool,
    authority_bump: u8,
    capacity: u16,
    records: Vec<CustodyRecord>,
}

impl View for CustodyRegistry {
    type V = RegistryModel;

    closed spec fn view(&self) -> RegistryModel {
        RegistryModel {
            initialized: self.initialized,
            bump: self.authority_bump,
            capacity: self.capacity as nat,
            records: self.records@,
        }
    }
}

/// A registry never holds more records than its capacity.
pub open spec fn registry_wf(m: RegistryModel) -> bool {
    m.records.len() <= m.capacity
}

/// Searching `records[0..i+1]` finds the same first match as searching any
/// longer prefix, once a match is found.
proof fn lemma_first_match_extends(records: Seq<CustodyRecord>, t: CustodyRecord, i: int)
    requires
        0 <= i < records.len(),
        first_match(records.subrange(0, i + 1), t) == i,
    ensures
        first_match(records, t) == i,
    decreases records.len(),
{
    if records.len() == i + 1 {
        assert(records.subrange(0, i + 1) =~= records);
    } else {
        assert(records.drop_last().subrange(0, i + 1) =~= records.subrange(0, i + 1));
        lemma_first_match_extends(records.drop_last(), t, i);
    }
}

/// The first match is a matching record, with none before it; without a
/// match no record carries the triple.
pub proof fn lemma_first_match(records: Seq<CustodyRecord>, t: CustodyRecord)
    ensures
        -1 <= first_match(records, t) < records.len(),
        first_match(records, t) >= 0 ==> same_triple(records[first_match(records, t)], t),
        forall|j: int|
            0 <= j < records.len() && (j < first_match(records, t) || first_match(records, t) < 0)
                ==> !same_triple(#[trigger] records[j], t),
    decreases records.len(),
{
    if records.len() > 0 {
        lemma_first_match(records.drop_last(), t);
        let k = first_match(records, t);
        assert forall|j: int|
            0 <= j < records.len() && (j < k || k < 0) implies !same_triple(
            #[trigger] records[j],
            t,
        ) by {
            if j < records.len() - 1 {
                assert(records[j] == records.drop_last()[j]);
            }
        }
    }
}

impl CustodyRegistry {
    pub open spec fn wf(&self) -> bool {
        registry_wf(self@)
    }

    /// A registry that is not initialized yet: no capacity, no records.
    pub fn new() -> (r: CustodyRegistry)
        ensures
            r@ == empty_model(),
            r.wf(),
    {
        CustodyRegistry { initialized: false, authority_bump: 0, capacity: 0, records: Vec::new() }
    }

    /// Rebuilds a registry from stored parts; `None` where the records
    /// overflow the capacity.
    pub fn from_parts(
        initialized: bool,
        authority_bump: u8,
        capacity: u16,
        records: Vec<CustodyRecord>,
    ) -> (r: Option<CustodyRegistry>)
        ensures
            records@.len() > capacity ==> r is None,
            records@.len() <= capacity ==> (r matches Some(g) && g.wf() && g@ == (RegistryModel {
                initialized,
                bump: authority_bump,
                capacity: capacity as nat,
                records: records@,
            })),
    {
        if records.len() > capacity as usize {
            None
        } else {
            Some(CustodyRegistry { initialized, authority_bump, capacity, records })
        }
    }

    pub fn is_initialized(&self) -> (r: bool)
        ensures
            r == self@.initialized,
    {
        self.initialized
    }

    pub fn authority_bump(&self) -> (r: u8)
        ensures
            r == self@.bump,
    {
        self.authority_bump
    }

    pub fn capacity(&self) -> (r: u16)
        ensures
            r as nat == self@.capacity,
    {
        self.capacity
    }

    pub fn len(&self) -> (r: usize)
        ensures
            r == self@.records.len(),
    {
        self.records.len()
    }

    pub fn records(&self) -> (r: &Vec<CustodyRecord>)
        ensures
            r@ == self@.records,
    {
        &self.records
    }

    /// Whether one more record fits.
    pub fn has_room(&self) -> (r: bool)
        ensures
            r == (self@.records.len() < self@.capacity),
    {
        self.records.len() < self.capacity as usize
    }

    /// Sets up the registry; a second call fails and changes nothing.
    pub fn initialize(&mut self, capacity: u16, bump: u8) -> (r: Result<(), WrapperError>)
        requires
            old(self).wf(),
        ensures
            final(self).wf(),
            (final(self)@, r) == initialize_step(old(self)@, capacity, bump),
    {
        if self.initialized {
            return Err(WrapperError::AlreadyInitialized);
        }
        self.initialized = true;
        self.authority_bump = bump;
        self.capacity = capacity;
        self.records = Vec::new();
        Ok(())
    }

    /// The index of the first record with the triple of `t`.
    pub fn find_record(&self, t: &CustodyRecord) -> (r: Option<usize>)
        ensures
            first_match(self@.records, *t) < 0 ==> r is None,
            first_match(self@.records, *t) >= 0 ==> r == Some(
                first_match(self@.records, *t) as usize,
            ),
    {
        let mut i: usize = 0;
        while i < self.records.len()
            invariant
                0 <= i <= self.records@.len(),
                first_match(self.records@.subrange(0, i as int), *t) == -1,
            decreases self.records@.len() - i,
        {
            let rec = &self.records[i];
            assert(self.records@.subrange(0, i as int + 1).drop_last() =~= self.records@.subrange(
                0,
                i as int,
            ));
            if keys_equal(&rec.foreign_address, &t.foreign_address) && keys_equal(
                &rec.owner,
                &t.owner,
            ) && keys_equal(&rec.asset_account, &t.asset_account) {
                proof {
                    lemma_first_match_extends(self.records@, *t, i as int);
                }
                return Some(i);
            }
            i = i + 1;
        }
        assert(self.records@.subrange(0, i as int) =~= self.records@);
        None
    }

    /// Appends a record unless the registry is full.
    pub fn lock_in(&mut self, rec: CustodyRecord) -> (r: Result<(), WrapperError>)
        requires
            old(self).wf(),
        ensures
            final(self).wf(),
            (final(self)@, r) == lock_in_step(old(self)@, rec),
    {
        if self.records.len() >= self.capacity as usize {
            return Err(WrapperError::RegistryFull);
        }
        self.records.push(rec);
        Ok(())
    }

    /// Removes the first record with the triple of `t`.
    pub fn lock_out(&mut self, t: &CustodyRecord) -> (r: Result<(), WrapperError>)
        requires
            old(self).wf(),
        ensures
            final(self).wf(),
            (final(self)@, r) == lock_out_step(old(self)@, *t),
    {
        match self.find_record(t) {
            None => Err(WrapperError::RecordNotFound),
            Some(i) => {
                proof {
                    lemma_first_match(self@.records, *t);
                }
                self.records.remove(i);
                Ok(())
            },
        }
    }
}

} // verus!
