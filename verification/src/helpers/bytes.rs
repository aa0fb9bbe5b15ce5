//! Little-endian integer decoding over byte buffers.
//!
//! Windows (and therefore every ETW payload and PE image this agent reads) is
//! little-endian, so multi-byte fields are decoded as little-endian values.
use vstd::prelude::*;

verus! {

/// The 16-bit little-endian value stored at `off`.
pub open spec fn le16(s: Seq<u8>, off: int) -> int {
    s[off] as int + 256 * (s[off + 1] as int)
}

/// The 32-bit little-endian value stored at `off`.
pub open spec fn le32(s: Seq<u8>, off: int) -> int {
    le16(s, off) + 65536 * le16(s, off + 2)
}

/// The 64-bit little-endian value stored at `off`.
pub open spec fn le64(s: Seq<u8>, off: int) -> int {
    le32(s, off) + 4294967296 * le32(s, off + 4)
}

/// Reads the 16-bit little-endian value at `off`.
pub fn read_u16(data: &[u8], off: usize) -> (r: u16)
    requires
        off + 2 <= data@.len(),
    ensures
        r as int == le16(data@, off as int),
{
    let lo = data[off] as u16;
    let hi = data[off + 1] as u16;
    lo + hi * 256
}

/// Reads the 32-bit little-endian value at `off`.
pub fn read_u32(data: &[u8], off: usize) -> (r: u32)
    requires
        off + 4 <= data@.len(),
    ensures
        r as int == le32(data@, off as int),
{
    let _n = data.len();
    let lo = read_u16(data, off) as u32;
    let hi = read_u16(data, off + 2) as u32;
    lo + hi * 65536
}

/// Reads the 64-bit little-endian value at `off`.
pub fn read_u64(data: &[u8], off: usize) -> (r: u64)
    requires
        off + 8 <= data@.len(),
    ensures
        r as int == le64(data@, off as int),
{
    let _n = data.len();
    let lo = read_u32(data, off) as u64;
    let hi = read_u32(data, off + 4) as u64;
    lo + hi * 4294967296
}

/// `i` is the index of the first occurrence of `b` in `s`.
pub open spec fn is_first_index(s: Seq<u8>, b: u8, i: int) -> bool {
    0 <= i < s.len() && s[i] == b && forall|k: int| 0 <= k < i ==> s[k] != b
}

/// `b` does not occur in `s`.
pub open spec fn absent(s: Seq<u8>, b: u8) -> bool {
    forall|k: int| 0 <= k < s.len() ==> s[k] != b
}

/// Index of the first occurrence of `b` in `s`.
pub open spec fn first_index(s: Seq<u8>, b: u8) -> Option<int> {
    if absent(s, b) {
        None
    } else {
        Some(choose|i: int| is_first_index(s, b, i))
    }
}

/// The first index of a value is unique.
pub proof fn lemma_first_index_unique(s: Seq<u8>, b: u8, i: int, j: int)
    requires
        is_first_index(s, b, i),
        is_first_index(s, b, j),
    ensures
        i == j,
{
}

/// Finds the first occurrence of `b` in `data[from..]`, returned as an index into `data`.
pub fn find_byte_from(data: &[u8], from: usize, b: u8) -> (r: Option<usize>)
    requires
        from <= data@.len(),
    ensures
        match r {
            Some(i) => from <= i && is_first_index(
                data@.subrange(from as int, data@.len() as int),
                b,
                i - from,
            ),
            None => absent(data@.subrange(from as int, data@.len() as int), b),
        },
        first_index(data@.subrange(from as int, data@.len() as int), b) == match r {
            Some(i) => Some(i - from),
            None => None::<int>,
        },
{
    let ghost t = data@.subrange(from as int, data@.len() as int);
    let n = data.len();
    let mut i = from;
    while i < n
        invariant
            from <= i <= n,
            n == data@.len(),
            t == data@.subrange(from as int, n as int),
            forall|k: int| 0 <= k < i - from ==> t[k] != b,
        decreases n - i,
    {
        if data[i] == b {
            proof {
                assert(is_first_index(t, b, i - from));
                assert(!absent(t, b));
                let c = choose|c: int| is_first_index(t, b, c);
                lemma_first_index_unique(t, b, c, i - from);
            }
            return Some(i);
        }
        i = i + 1;
    }
    None
}

} // verus!
