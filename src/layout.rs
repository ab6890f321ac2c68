use crate::bytes::key_from_slice;
use crate::registry::{CustodyRecord, CustodyRegistry, RegistryModel};
use vstd::prelude::*;

verus! {

/// Bytes before the first record: the bump, the capacity and the record count.
pub const REGISTRY_HEADER_LEN: usize = 7;

/// Bytes of one stored record: address, owner and asset account.
pub const RECORD_LEN: usize = 96;

/// The little-endian number of two bytes.
pub open spec fn le_u16_at(d: Seq<u8>, at: int) -> int {
    d[at] as int + d[at + 1] as int * 0x100
}

/// The little-endian number of four bytes.
pub open spec fn le_u32_at(d: Seq<u8>, at: int) -> int {
    d[at] as int + d[at + 1] as int * 0x100 + d[at + 2] as int * 0x1_0000 + d[at + 3] as int
        * 0x100_0000
}

/// Record `r` is stored at offset `at` of `d`.
pub open spec fn record_stored_at(d: Seq<u8>, at: int, r: CustodyRecord) -> bool {
    &&& r.foreign_address@ == d.subrange(at, at + 32)
    &&& r.owner@ == d.subrange(at + 32, at + 64)
    &&& r.asset_account@ == d.subrange(at + 64, at + 96)
}

/// The registry `m` is what the account bytes `d` hold: `[bump:1]`,
/// `[capacity:2]` and `[record_count:4]`, little-endian, then the records.
/// A header of zeros is a registry that was never initialized.
pub open spec fn registry_stored(d: Seq<u8>, m: RegistryModel) -> bool {
    &&& d.len() >= 7
    &&& m.bump == d[0]
    &&& m.capacity == le_u16_at(d, 1)
    &&& m.records.len() == le_u32_at(d, 3)
    &&& 7 + 96 * m.records.len() <= d.len()
    &&& m.initialized == !(d.subrange(0, 7) =~= seq![0u8, 0, 0, 0, 0, 0, 0])
    &&& forall|i: int| 0 <= i < m.records.len() ==> record_stored_at(d, 7 + 96 * i, #[trigger] m.records[i])
}

/// The stored bytes of one record.
pub open spec fn record_bytes(r: CustodyRecord) -> Seq<u8> {
    r.foreign_address@ + r.owner@ + r.asset_account@
}

/// The stored bytes of a run of records, one after the other.
pub open spec fn records_bytes(rs: Seq<CustodyRecord>) -> Seq<u8>
    decreases rs.len(),
{
    if rs.len() == 0 {
        Seq::empty()
    } else {
        records_bytes(rs.drop_last()) + record_bytes(rs.last())
    }
}

/// The little-endian bytes of a header.
pub open spec fn header_bytes(bump: u8, capacity: u16, count: u32) -> Seq<u8> {
    seq![
        bump,
        (capacity % 0x100) as u8,
        (capacity / 0x100) as u8,
        (count % 0x100) as u8,
        ((count / 0x100) % 0x100) as u8,
        ((count / 0x1_0000) % 0x100) as u8,
        (count / 0x100_0000) as u8,
    ]
}

proof fn lemma_records_bytes(rs: Seq<CustodyRecord>)
    ensures
        records_bytes(rs).len() == 96 * rs.len(),
        forall|i: int|
            0 <= i < rs.len() ==> records_bytes(rs).subrange(96 * i, 96 * i + 96) == record_bytes(
                #[trigger] rs[i],
            ),
    decreases rs.len(),
{
    if rs.len() > 0 {
        let a = rs.drop_last();
        lemma_records_bytes(a);
        assert forall|i: int| 0 <= i < rs.len() implies records_bytes(rs).subrange(
            96 * i,
            96 * i + 96,
        ) == record_bytes(#[trigger] rs[i]) by {
            if i < rs.len() - 1 {
                assert(rs[i] == a[i]);
                assert(records_bytes(rs).subrange(96 * i, 96 * i + 96) =~= records_bytes(a).subrange(
                    96 * i,
                    96 * i + 96,
                ));
            } else {
                assert(records_bytes(rs).subrange(96 * i, 96 * i + 96) =~= record_bytes(rs[i]));
            }
        }
    }
}

fn push_key(out: &mut Vec<u8>, k: &[u8; 32])
    ensures
        final(out)@ == old(out)@ + k@,
{
    let ghost o = out@;
    let mut i: usize = 0;
    while i < 32
        invariant
            0 <= i <= 32,
            k@.len() == 32,
            out@ == o + k@.subrange(0, i as int),
        decreases 32 - i,
    {
        out.push(k[i]);
        i = i + 1;
        assert(out@ =~= o + k@.subrange(0, i as int));
    }
    assert(k@.subrange(0, 32) =~= k@);
}

fn read_record(data: &[u8], at: usize) -> (r: CustodyRecord)
    requires
        at + 96 <= data@.len() <= usize::MAX,
    ensures
        record_stored_at(data@, at as int, r),
{
    CustodyRecord {
        foreign_address: key_from_slice(&data[at..at + 32]),
        owner: key_from_slice(&data[at + 32..at + 64]),
        asset_account: key_from_slice(&data[at + 64..at + 96]),
    }
}

impl CustodyRegistry {
    /// Writes the registry into its account bytes; the bytes after the last
    /// record are kept.
    pub fn store(&self, data: &mut Vec<u8>)
        requires
            self.wf(),
            7 + 96 * self@.records.len() <= old(data)@.len(),
        ensures
            final(data)@ == header_bytes(self@.bump, self@.capacity as u16, self@.records.len() as u32)
                + records_bytes(self@.records) + old(data)@.subrange(
                7 + 96 * self@.records.len() as int,
                old(data)@.len() as int,
            ),
            registry_stored(
                final(data)@,
                RegistryModel {
                    initialized: !(final(data)@.subrange(0, 7) =~= seq![0u8, 0, 0, 0, 0, 0, 0]),
                    ..self@
                },
            ),
    {
        let rs = self.records();
        let n = rs.len();
        let capacity = self.capacity();
        let count = n as u32;
        let mut out: Vec<u8> = Vec::new();
        out.push(self.authority_bump());
        out.push((capacity % 0x100) as u8);
        out.push((capacity / 0x100) as u8);
        out.push((count % 0x100) as u8);
        out.push(((count / 0x100) % 0x100) as u8);
        out.push(((count / 0x1_0000) % 0x100) as u8);
        out.push((count / 0x100_0000) as u8);
        let ghost head = out@;
        assert(head =~= header_bytes(self@.bump, capacity, count));
        let mut i: usize = 0;
        while i < n
            invariant
                0 <= i <= n,
                n == rs@.len(),
                rs@ == self@.records,
                out@ == head + records_bytes(rs@.take(i as int)),
            decreases n - i,
        {
            push_key(&mut out, &rs[i].foreign_address);
            push_key(&mut out, &rs[i].owner);
            push_key(&mut out, &rs[i].asset_account);
            assert(rs@.take(i + 1).drop_last() =~= rs@.take(i as int));
            assert(out@ =~= head + records_bytes(rs@.take(i + 1)));
            i = i + 1;
        }
        assert(rs@.take(n as int) =~= rs@);
        let ghost body = out@;
        let len = data.len();
        let mut j: usize = REGISTRY_HEADER_LEN + RECORD_LEN * n;
        while j < len
            invariant
                7 + 96 * n <= j <= len,
                len == data@.len(),
                out@ == body + data@.subrange(7 + 96 * n, j as int),
            decreases len - j,
        {
            out.push(data[j]);
            j = j + 1;
            assert(out@ =~= body + data@.subrange(7 + 96 * n, j as int));
        }
        proof {
            lemma_records_bytes(rs@);
            let d = out@;
            let rb = records_bytes(rs@);
            assert(d.len() == len);
            assert(d.subrange(0, 7) =~= head);
            assert forall|i: int| 0 <= i < rs@.len() implies record_stored_at(
                d,
                7 + 96 * i,
                #[trigger] rs@[i],
            ) by {
                assert(d.subrange(7 + 96 * i, 7 + 96 * i + 96) =~= rb.subrange(96 * i, 96 * i + 96));
                let b = record_bytes(rs@[i]);
                assert(d.subrange(7 + 96 * i, 7 + 96 * i + 32) =~= b.subrange(0, 32));
                assert(d.subrange(7 + 96 * i + 32, 7 + 96 * i + 64) =~= b.subrange(32, 64));
                assert(d.subrange(7 + 96 * i + 64, 7 + 96 * i + 96) =~= b.subrange(64, 96));
                assert(b.subrange(0, 32) =~= rs@[i].foreign_address@);
                assert(b.subrange(32, 64) =~= rs@[i].owner@);
                assert(b.subrange(64, 96) =~= rs@[i].asset_account@);
            }
        }
        *data = out;
    }

    /// Reads a registry from its account bytes; `None` where the header is
    /// cut short, the count exceeds the capacity, or the records run past
    /// the end.
    pub fn load(data: &[u8]) -> (r: Option<CustodyRegistry>)
        ensures
            r matches Some(g) ==> g.wf() && registry_stored(data@, g@),
            r is None ==> forall|m: RegistryModel| registry_stored(data@, m) ==> !(m.records.len()
                <= m.capacity),
    {
        if data.len() < REGISTRY_HEADER_LEN {
            return None;
        }
        let bump = data[0];
        let capacity = (data[1] as u16) + (data[2] as u16) * 0x100;
        let count = (data[3] as u32) + (data[4] as u32) * 0x100 + (data[5] as u32) * 0x1_0000
            + (data[6] as u32) * 0x100_0000;
        let initialized = !(data[0] == 0 && data[1] == 0 && data[2] == 0 && data[3] == 0
            && data[4] == 0 && data[5] == 0 && data[6] == 0);
        if count > capacity as u32 {
            return None;
        }
        let n = count as usize;
        if (data.len() - REGISTRY_HEADER_LEN) / RECORD_LEN < n {
            return None;
        }
        let mut records: Vec<CustodyRecord> = Vec::new();
        let len = data.len();
        let mut i: usize = 0;
        while i < n
            invariant
                0 <= i <= n,
                len == data@.len(),
                7 + 96 * n <= data@.len(),
                records@.len() == i,
                forall|j: int| 0 <= j < i ==> record_stored_at(data@, 7 + 96 * j, #[trigger] records@[j]),
            decreases n - i,
        {
            let rec = read_record(data, REGISTRY_HEADER_LEN + RECORD_LEN * i);
            records.push(rec);
            i = i + 1;
        }
        proof {
            let z = seq![0u8, 0, 0, 0, 0, 0, 0];
            if data@.subrange(0, 7) =~= z {
                assert(data@[0] == data@.subrange(0, 7)[0]);
                assert(data@[6] == data@.subrange(0, 7)[6]);
            }
            if !initialized {
                assert(data@.subrange(0, 7) =~= z);
            }
        }
        CustodyRegistry::from_parts(initialized, bump, capacity, records)
    }
}

} // verus!
