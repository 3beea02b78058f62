//! Little-endian integers inside guest memory, and byte-string equality.
//!
//! Symbol resolution reads a little-endian integer of width 1, 4 or 8 out of
//! the shared linear memory, and the loader syscalls write handles and
//! resolved values back the same way.  `le_value` is the one mathematical
//! meaning all of those reads and writes are proved against.

use vstd::prelude::*;

verus! {

/// The value of a byte sequence read as a little-endian integer.
pub open spec fn le_value(s: Seq<u8>) -> nat
    decreases s.len(),
{
    if s.len() == 0 {
        0
    } else {
        s[0] as nat + 256 * le_value(s.subrange(1, s.len() as int))
    }
}

/// `256^n`: one more than the largest value of an `n`-byte field.
pub open spec fn pow256(n: nat) -> nat
    decreases n,
{
    if n == 0 {
        1
    } else {
        256 * pow256((n - 1) as nat)
    }
}

/// A little-endian field of `n` bytes holds a value below `256^n`.
pub proof fn lemma_le_value_bound(s: Seq<u8>)
    ensures
        le_value(s) < pow256(s.len()),
    decreases s.len(),
{
    if s.len() == 0 {
    } else {
        let rest = s.subrange(1, s.len() as int);
        lemma_le_value_bound(rest);
        assert(256 * le_value(rest) + 256 <= 256 * pow256(rest.len())) by (nonlinear_arith)
            requires
                le_value(rest) < pow256(rest.len()),
        ;
    }
}

/// Appending a byte at the high end adds its value times the field's weight.
pub proof fn lemma_le_value_snoc(s: Seq<u8>, b: u8)
    ensures
        le_value(s.push(b)) == le_value(s) + (b as nat) * pow256(s.len()),
    decreases s.len(),
{
    if s.len() == 0 {
        assert(s.push(b).subrange(1, 1) =~= Seq::<u8>::empty());
        assert(le_value(Seq::<u8>::empty()) == 0);
        assert(s.push(b)[0] == b);
        assert(pow256(0) == 1);
    } else {
        let rest = s.subrange(1, s.len() as int);
        let t = s.push(b);
        assert(t.subrange(1, t.len() as int) =~= rest.push(b));
        assert(t[0] == s[0]);
        lemma_le_value_snoc(rest, b);
        assert(le_value(t) == s[0] as nat + 256 * (le_value(rest) + (b as nat) * pow256(
            rest.len(),
        )));
        assert(pow256(s.len()) == 256 * pow256(rest.len()));
        assert(256 * (le_value(rest) + (b as nat) * pow256(rest.len())) == 256 * le_value(rest)
            + (b as nat) * (256 * pow256(rest.len()))) by (nonlinear_arith);
    }
}

/// The field weights that the loader actually uses; `256^8` fits the
/// `u64` range exactly.
pub proof fn lemma_pow256_values()
    ensures
        pow256(1) == 0x100,
        pow256(4) == 0x1_0000_0000,
        pow256(7) == 0x100_0000_0000_0000,
        pow256(8) == 0x1_0000_0000_0000_0000,
{
    assert(pow256(0) == 1);
    assert(pow256(1) == 256);
    assert(pow256(2) == 0x1_0000);
    assert(pow256(3) == 0x100_0000);
    assert(pow256(4) == 0x1_0000_0000);
    assert(pow256(5) == 0x100_0000_0000);
    assert(pow256(6) == 0x1_0000_0000_0000);
    assert(pow256(7) == 0x100_0000_0000_0000);
}

/// `pow256` never decreases as the width grows.
pub proof fn lemma_pow256_increases(m: nat, n: nat)
    requires
        m <= n,
    ensures
        pow256(m) <= pow256(n),
    decreases n,
{
    if m < n {
        lemma_pow256_increases(m, (n - 1) as nat);
        assert(pow256((n - 1) as nat) <= 256 * pow256((n - 1) as nat)) by (nonlinear_arith)
            requires
                pow256((n - 1) as nat) >= 0,
        ;
    }
}

/// Reads the little-endian integer held in `mem[off .. off + width]`.
///
/// The width is at most 8, so the value always fits in a `u64`.
pub fn read_le(mem: &Vec<u8>, off: usize, width: usize) -> (v: u64)
    requires
        width <= 8,
        off + width <= mem@.len(),
    ensures
        v == le_value(mem@.subrange(off as int, off + width)),
{
    let n: usize = mem.len();
    let mut v: u64 = 0;
    let mut i: usize = width;
    proof {
        assert(mem@.subrange(off + width, off + width) =~= Seq::<u8>::empty());
    }
    while i > 0
        invariant
            i <= width,
            width <= 8,
            off + width <= n,
            n == mem@.len(),
            v == le_value(mem@.subrange(off + i, off + width)),
        decreases i,
    {
        i = i - 1;
        let b = mem[off + i];
        proof {
            let tail = mem@.subrange(off + i + 1, off + width);
            let whole = mem@.subrange(off + i, off + width);
            assert(whole.subrange(1, whole.len() as int) =~= tail);
            assert(whole[0] == b);
            lemma_le_value_bound(tail);
            lemma_pow256_increases(tail.len(), 7);
            lemma_pow256_values();
        }
        v = v * 256 + (b as u64);
    }
    proof {
        assert(mem@.subrange(off as int, off + width) =~= mem@.subrange(off + 0, off + width));
    }
    v
}

/// Writes `v` as a `width`-byte little-endian field at `mem[off ..]`,
/// leaving every other byte unchanged.
pub fn write_le(mem: &mut Vec<u8>, off: usize, width: usize, v: u64)
    requires
        width <= 8,
        off + width <= old(mem)@.len(),
        v < pow256(width as nat),
    ensures
        final(mem)@.len() == old(mem)@.len(),
        le_value(final(mem)@.subrange(off as int, off + width)) == v,
        forall|j: int|
            0 <= j < old(mem)@.len() && !(off <= j < off + width) ==> final(mem)@[j] == old(
                mem,
            )@[j],
{
    let n: usize = mem.len();
    let mut x: u64 = v;
    let mut i: usize = 0;
    proof {
        assert(mem@.subrange(off as int, off as int) =~= Seq::<u8>::empty());
        assert(pow256(0) == 1);
        assert((v as nat) * 1 == v as nat) by (nonlinear_arith);
    }
    while i < width
        invariant
            i <= width,
            width <= 8,
            off + width <= n,
            n == mem@.len(),
            mem@.len() == old(mem)@.len(),
            v == le_value(mem@.subrange(off as int, off + i)) + (x as nat) * pow256(i as nat),
            x < pow256((width - i) as nat),
            forall|j: int|
                0 <= j < old(mem)@.len() && !(off <= j < off + i) ==> mem@[j] == old(mem)@[j],
        decreases width - i,
    {
        let b: u8 = (x % 256) as u8;
        let ghost pre = mem@;
        mem.set(off + i, b);
        proof {
            let written = mem@.subrange(off as int, off + i + 1);
            assert(written =~= pre.subrange(off as int, off + i).push(b));
            lemma_le_value_snoc(pre.subrange(off as int, off + i), b);
            // v == le(written) - b * 256^i + (256 * (x / 256) + b) * 256^i
            //   == le(written) + (x / 256) * 256^(i + 1)
            assert((x as nat) * pow256(i as nat) == (b as nat) * pow256(i as nat) + ((x / 256)
                as nat) * pow256((i + 1) as nat)) by (nonlinear_arith)
                requires
                    b == x % 256,
                    pow256((i + 1) as nat) == 256 * pow256(i as nat),
            ;
            assert(((x / 256) as nat) * 256 < pow256((width - i) as nat)) by (nonlinear_arith)
                requires
                    x < pow256((width - i) as nat),
                    x >= 0,
            ;
            assert(pow256((width - i) as nat) == 256 * pow256((width - i - 1) as nat));
            assert(((x / 256) as nat) < pow256((width - i - 1) as nat)) by (nonlinear_arith)
                requires
                    ((x / 256) as nat) * 256 < 256 * pow256((width - i - 1) as nat),
            ;
        }
        x = x / 256;
        i = i + 1;
    }
    proof {
        assert((x as nat) * pow256((width - width) as nat) == x as nat) by (nonlinear_arith)
            requires
                pow256(0) == 1,
        ;
        assert(x == 0);
    }
}

/// A fresh copy of a byte string.
pub fn clone_bytes(src: &Vec<u8>) -> (r: Vec<u8>)
    ensures
        r@ == src@,
{
    let n: usize = src.len();
    let mut out: Vec<u8> = Vec::new();
    let mut i: usize = 0;
    while i < n
        invariant
            i <= n,
            n == src@.len(),
            out@.len() == i,
            forall|k: int| 0 <= k < i ==> out@[k] == src@[k],
        decreases n - i,
    {
        out.push(src[i]);
        i = i + 1;
    }
    proof {
        assert(out@ =~= src@);
    }
    out
}

/// Whether two byte strings hold the same bytes.
pub fn bytes_eq(a: &[u8], b: &[u8]) -> (r: bool)
    ensures
        r == (a@ == b@),
{
    if a.len() != b.len() {
        return false;
    }
    let mut i: usize = 0;
    while i < a.len()
        invariant
            i <= a@.len(),
            a@.len() == b@.len(),
            forall|j: int| 0 <= j < i ==> a@[j] == b@[j],
        decreases a@.len() - i,
    {
        if a[i] != b[i] {
            return false;
        }
        i = i + 1;
    }
    proof {
        assert(a@ =~= b@);
    }
    true
}

} // verus!
