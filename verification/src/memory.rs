//! Bounds-checked access to the guest's linear memory.
//!
//! Linear memory is held as a byte vector.  Guest pointers are 64-bit
//! offsets into it, which covers both 32- and 64-bit guests; every access
//! is bounds-checked, and a failed access leaves the memory untouched.

use crate::bytes;
use vstd::prelude::*;

verus! {

/// Whether the range `ptr .. ptr + len` lies inside `mem`.
pub open spec fn range_in_bounds(mem: Seq<u8>, ptr: u64, len: u64) -> bool {
    ptr + len <= mem.len()
}

/// Copies `len` bytes starting at guest pointer `ptr`, or `None` when the
/// range runs out of bounds.
pub fn read_bytes(mem: &Vec<u8>, ptr: u64, len: u64) -> (r: Option<Vec<u8>>)
    ensures
        r is Some <==> range_in_bounds(mem@, ptr, len),
        r matches Some(v) ==> v@ == mem@.subrange(ptr as int, ptr + len),
{
    let n: usize = mem.len();
    if ptr > n as u64 || len > n as u64 - ptr {
        return None;
    }
    let start: usize = ptr as usize;
    let count: usize = len as usize;
    let mut out: Vec<u8> = Vec::new();
    let mut i: usize = 0;
    while i < count
        invariant
            i <= count,
            start + count <= n,
            n == mem@.len(),
            out@.len() == i,
            forall|j: int| 0 <= j < i ==> out@[j] == mem@[start + j],
        decreases count - i,
    {
        out.push(mem[start + i]);
        i = i + 1;
    }
    proof {
        assert(out@ =~= mem@.subrange(ptr as int, ptr + len));
    }
    Some(out)
}

/// Writes `v` little-endian into the four bytes at guest pointer `ptr`.
/// Returns `false`, leaving the memory untouched, when the range runs out
/// of bounds.
pub fn write_u32(mem: &mut Vec<u8>, ptr: u64, v: u32) -> (ok: bool)
    ensures
        ok <==> range_in_bounds(old(mem)@, ptr, 4),
        final(mem)@.len() == old(mem)@.len(),
        !ok ==> final(mem)@ == old(mem)@,
        ok ==> bytes::le_value(final(mem)@.subrange(ptr as int, ptr + 4)) == v,
        ok ==> forall|j: int|
            0 <= j < old(mem)@.len() && !(ptr <= j < ptr + 4) ==> final(mem)@[j] == old(mem)@[j],
{
    let n: usize = mem.len();
    if ptr > n as u64 || 4 > n as u64 - ptr {
        return false;
    }
    proof {
        bytes::lemma_pow256_values();
    }
    bytes::write_le(mem, ptr as usize, 4, v as u64);
    true
}

/// Writes `v` little-endian into the eight bytes at guest pointer `ptr`.
/// Returns `false`, leaving the memory untouched, when the range runs out
/// of bounds.
pub fn write_u64(mem: &mut Vec<u8>, ptr: u64, v: u64) -> (ok: bool)
    ensures
        ok <==> range_in_bounds(old(mem)@, ptr, 8),
        final(mem)@.len() == old(mem)@.len(),
        !ok ==> final(mem)@ == old(mem)@,
        ok ==> bytes::le_value(final(mem)@.subrange(ptr as int, ptr + 8)) == v,
        ok ==> forall|j: int|
            0 <= j < old(mem)@.len() && !(ptr <= j < ptr + 8) ==> final(mem)@[j] == old(mem)@[j],
{
    let n: usize = mem.len();
    if ptr > n as u64 || 8 > n as u64 - ptr {
        return false;
    }
    proof {
        bytes::lemma_pow256_values();
    }
    bytes::write_le(mem, ptr as usize, 8, v);
    true
}

} // verus!
