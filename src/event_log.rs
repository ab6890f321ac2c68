use crate::bytes::{be_bytes_of, be_u64, read_be_u64};
use crate::error::WrapperError;
use vstd::prelude::*;

verus! {

/// Bytes taken by the count at the head of the log.
pub const HEADER_LEN: usize = 8;

/// Bytes taken by one entry: one foreign address.
pub const ENTRY_LEN: usize = 32;

/// The number of entries that the log's header announces.
pub open spec fn log_count(d: Seq<u8>) -> int {
    be_u64(d)
}

/// Entry `i` of the log.
pub open spec fn log_entry(d: Seq<u8>, i: int) -> Seq<u8> {
    d.subrange(8 + 32 * i, 8 + 32 * i + 32)
}

/// The entries that the header announces, in the order they were written.
pub open spec fn log_entries(d: Seq<u8>) -> Seq<Seq<u8>> {
    Seq::new(log_count(d) as nat, |i: int| log_entry(d, i))
}

/// The buffer holds the header and every entry it announces.
pub open spec fn log_wf(d: Seq<u8>) -> bool {
    d.len() >= 8 && 8 + 32 * log_count(d) <= d.len()
}

/// The buffer holds the header and has room for one more entry.
pub open spec fn log_has_room(d: Seq<u8>) -> bool {
    d.len() >= 8 && 8 + 32 * (log_count(d) + 1) <= d.len()
}

/// `r` is `d` with `addr` written as the next entry and the count raised by
/// one; every other byte is kept.
pub open spec fn appended(d: Seq<u8>, addr: Seq<u8>, r: Seq<u8>) -> bool {
    let c = log_count(d);
    &&& r.len() == d.len()
    &&& log_count(r) == c + 1
    &&& r.subrange(8, 8 + 32 * c) == d.subrange(8, 8 + 32 * c)
    &&& r.subrange(8 + 32 * c, 8 + 32 * c + 32) == addr
    &&& r.subrange(8 + 32 * c + 32, r.len() as int) == d.subrange(
        8 + 32 * c + 32,
        d.len() as int,
    )
}

/// Appending keeps the earlier entries and adds the new one last.
pub proof fn lemma_appended_entries(d: Seq<u8>, addr: Seq<u8>, r: Seq<u8>)
    requires
        log_has_room(d),
        appended(d, addr, r),
    ensures
        log_wf(r),
        log_entries(r) == log_entries(d).push(addr),
{
    let c = log_count(d);
    assert forall|i: int| 0 <= i < c implies #[trigger] log_entry(r, i) == log_entry(d, i) by {
        assert(log_entry(r, i) =~= r.subrange(8, 8 + 32 * c).subrange(32 * i, 32 * i + 32));
        assert(log_entry(d, i) =~= d.subrange(8, 8 + 32 * c).subrange(32 * i, 32 * i + 32));
    }
    assert(log_entries(r) =~= log_entries(d).push(addr));
}

/// Where the next entry goes, when the log has room for it.
fn next_slot(data: &[u8]) -> (r: Option<(u64, usize)>)
    ensures
        r is Some <==> log_has_room(data@),
        r matches Some((count, off)) ==> count as int == log_count(data@) && off as int == 8 + 32
            * log_count(data@),
{
    let n = data.len();
    if n < HEADER_LEN {
        return None;
    }
    let count = read_be_u64(data);
    let slots = (n - HEADER_LEN) / ENTRY_LEN;
    assert(slots * 32 <= n - 8 < slots * 32 + 32);
    if count >= slots as u64 {
        return None;
    }
    let off: usize = HEADER_LEN + ENTRY_LEN * (count as usize);
    Some((count, off))
}

/// Whether the log has room for one more entry.
pub fn log_has_space(data: &[u8]) -> (r: bool)
    ensures
        r == log_has_room(data@),
{
    next_slot(data).is_some()
}

/// Overwrites `data[at..at + src.len()]` with `src`.
fn write_at(data: &mut Vec<u8>, at: usize, src: &[u8])
    requires
        at + src@.len() <= old(data)@.len(),
    ensures
        final(data)@ == old(data)@.subrange(0, at as int) + src@ + old(data)@.subrange(
            at + src@.len(),
            old(data)@.len() as int,
        ),
{
    let ghost d = data@;
    let n = data.len();
    let mut k: usize = 0;
    while k < src.len()
        invariant
            0 <= k <= src@.len(),
            n == d.len(),
            at + src@.len() <= d.len(),
            data@.len() == d.len(),
            forall|j: int| 0 <= j < at ==> data@[j] == d[j],
            forall|j: int| at <= j < at + k ==> data@[j] == src@[j - at],
            forall|j: int| at + k <= j < d.len() ==> data@[j] == d[j],
        decreases src@.len() - k,
    {
        data.set(at + k, src[k]);
        k = k + 1;
    }
    assert(data@ =~= d.subrange(0, at as int) + src@ + d.subrange(at + src@.len(), d.len() as int));
}

/// Appends `addr` as the next entry and raises the count; fails and changes
/// nothing when the buffer has no room for it.
pub fn log_append(data: &mut Vec<u8>, addr: &[u8; 32]) -> (r: Result<(), WrapperError>)
    ensures
        r is Ok <==> log_has_room(old(data)@),
        r is Err ==> r == Err::<(), WrapperError>(WrapperError::LogFull) && final(data)@ == old(
            data,
        )@,
        r is Ok ==> appended(old(data)@, addr@, final(data)@),
{
    let ghost d = data@;
    let (count, off) = match next_slot(data.as_slice()) {
        None => {
            return Err(WrapperError::LogFull);
        },
        Some(slot) => slot,
    };
    let head = be_bytes_of(count + 1);
    write_at(data, 0, head.as_slice());
    write_at(data, off, addr.as_slice());
    proof {
        assert(data@.subrange(0, 8) =~= head@);
        assert(be_u64(data@) == be_u64(data@.subrange(0, 8)));
        assert(data@.subrange(8, off as int) =~= d.subrange(8, off as int));
        assert(data@.subrange(off as int, off + 32) =~= addr@);
        assert(data@.subrange(off + 32, data@.len() as int) =~= d.subrange(off + 32, d.len() as int));
    }
    Ok(())
}

} // verus!
