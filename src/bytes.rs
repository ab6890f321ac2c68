use vstd::prelude::*;

verus! {

/// The number that eight bytes spell in big-endian order.
pub open spec fn be_u64(s: Seq<u8>) -> int {
    s[0] as int * 0x100_0000_0000_0000 + s[1] as int * 0x1_0000_0000_0000
        + s[2] as int * 0x100_0000_0000 + s[3] as int * 0x1_0000_0000 + s[4] as int * 0x100_0000
        + s[5] as int * 0x1_0000 + s[6] as int * 0x100 + s[7] as int
}

/// The number that eight bytes spell in little-endian order.
pub open spec fn le_u64(s: Seq<u8>) -> int {
    be_u64(seq![s[7], s[6], s[5], s[4], s[3], s[2], s[1], s[0]])
}

/// Reads the big-endian number held by the first eight bytes of `b`.
pub fn read_be_u64(b: &[u8]) -> (r: u64)
    requires
        b@.len() >= 8,
    ensures
        r as int == be_u64(b@),
{
    (b[0] as u64) * 0x100_0000_0000_0000 + (b[1] as u64) * 0x1_0000_0000_0000
        + (b[2] as u64) * 0x100_0000_0000 + (b[3] as u64) * 0x1_0000_0000
        + (b[4] as u64) * 0x100_0000 + (b[5] as u64) * 0x1_0000 + (b[6] as u64) * 0x100
        + (b[7] as u64)
}

/// Reads the little-endian number held by the first eight bytes of `b`.
pub fn read_le_u64(b: &[u8]) -> (r: u64)
    requires
        b@.len() >= 8,
    ensures
        r as int == le_u64(b@),
{
    (b[7] as u64) * 0x100_0000_0000_0000 + (b[6] as u64) * 0x1_0000_0000_0000
        + (b[5] as u64) * 0x100_0000_0000 + (b[4] as u64) * 0x1_0000_0000
        + (b[3] as u64) * 0x100_0000 + (b[2] as u64) * 0x1_0000 + (b[1] as u64) * 0x100
        + (b[0] as u64)
}

/// The eight big-endian bytes of `x`.
pub fn be_bytes_of(x: u64) -> (r: [u8; 8])
    ensures
        be_u64(r@) == x as int,
{
    let b7 = (x % 256) as u8;
    let x1 = x / 256;
    let b6 = (x1 % 256) as u8;
    let x2 = x1 / 256;
    let b5 = (x2 % 256) as u8;
    let x3 = x2 / 256;
    let b4 = (x3 % 256) as u8;
    let x4 = x3 / 256;
    let b3 = (x4 % 256) as u8;
    let x5 = x4 / 256;
    let b2 = (x5 % 256) as u8;
    let x6 = x5 / 256;
    let b1 = (x6 % 256) as u8;
    let x7 = x6 / 256;
    let b0 = (x7 % 256) as u8;
    assert(x7 < 256);
    let r = [b0, b1, b2, b3, b4, b5, b6, b7];
    assert(r@ =~= seq![b0, b1, b2, b3, b4, b5, b6, b7]);
    r
}

/// Whether two 32-byte keys hold the same bytes.
pub fn keys_equal(a: &[u8; 32], b: &[u8; 32]) -> (r: bool)
    ensures
        r == (a@ == b@),
{
    let mut i: usize = 0;
    while i < 32
        invariant
            0 <= i <= 32,
            a@.len() == 32,
            b@.len() == 32,
            forall|j: int| 0 <= j < i ==> a@[j] == b@[j],
        decreases 32 - i,
    {
        if a[i] != b[i] {
            return false;
        }
        i = i + 1;
    }
    assert(a@ =~= b@);
    true
}

/// Copies 32 bytes into a key.
pub fn key_from_slice(s: &[u8]) -> (r: [u8; 32])
    requires
        s@.len() == 32,
    ensures
        r@ == s@,
{
    let mut r = [0u8; 32];
    let mut i: usize = 0;
    while i < 32
        invariant
            0 <= i <= 32,
            s@.len() == 32,
            r@.len() == 32,
            forall|j: int| 0 <= j < i ==> r@[j] == s@[j],
        decreases 32 - i,
    {
        r[i] = s[i];
        i = i + 1;
    }
    assert(r@ =~= s@);
    r
}

} // verus!
