//! Little-endian field decoding over raw log-page buffers.
use vstd::prelude::*;

verus! {

/// `256` raised to the power `n`: the number of distinct values of `n` bytes.
pub open spec fn pow256(n: nat) -> nat
    decreases n,
{
    if n == 0 {
        1
    } else {
        256 * pow256((n - 1) as nat)
    }
}

/// The unsigned integer that the bytes `s` encode in little-endian order.
pub open spec fn le_value(s: Seq<u8>) -> nat
    decreases s.len(),
{
    if s.len() == 0 {
        0
    } else {
        s[0] as nat + 256 * le_value(s.drop_first())
    }
}

/// The little-endian value of the `n` bytes of `s` starting at `off`.
pub open spec fn le_at(s: Seq<u8>, off: int, n: int) -> nat {
    le_value(s.subrange(off, off + n))
}

/// A little-endian value of `n` bytes is below `256^n`.
pub proof fn lemma_le_value_bound(s: Seq<u8>)
    ensures
        le_value(s) < pow256(s.len()),
    decreases s.len(),
{
    if s.len() > 0 {
        lemma_le_value_bound(s.drop_first());
    }
}

/// `pow256` grows with its exponent.
pub proof fn lemma_pow256_monotonic(a: nat, b: nat)
    requires
        a <= b,
    ensures
        pow256(a) <= pow256(b),
    decreases b,
{
    if a < b {
        lemma_pow256_monotonic(a, (b - 1) as nat);
    }
}

/// The concrete powers that bound the fixed-width fields.
pub proof fn lemma_pow256_values()
    ensures
        pow256(1) == 0x100,
        pow256(2) == 0x1_0000,
        pow256(4) == 0x1_0000_0000,
        pow256(8) == 0x1_0000_0000_0000_0000,
        pow256(16) == 0x1_0000_0000_0000_0000_0000_0000_0000_0000,
{
    reveal_with_fuel(pow256, 17);
}

/// Decodes the `n` little-endian bytes of `raw` that start at `off`.
pub fn read_le(raw: &[u8], off: usize, n: usize) -> (r: u128)
    requires
        n <= 16,
        off + n <= raw@.len(),
    ensures
        r == le_at(raw@, off as int, n as int),
{
    let ghost s = raw@.subrange(off as int, off + n);
    let mut acc: u128 = 0;
    let mut i: usize = n;
    while i > 0
        invariant
            i <= n <= 16,
            off + n <= raw.len(),
            s == raw@.subrange(off as int, off + n),
            acc == le_value(s.subrange(i as int, n as int)),
        decreases i,
    {
        let b = raw[off + i - 1];
        let ghost tail = s.subrange(i as int, n as int);
        let ghost next = s.subrange(i - 1, n as int);
        proof {
            assert(next.drop_first() =~= tail);
            assert(next[0] == b);
            lemma_le_value_bound(tail);
            lemma_pow256_monotonic(tail.len(), 15);
            lemma_pow256_values();
            reveal_with_fuel(pow256, 16);
            assert(pow256(16) == 256 * pow256(15));
        }
        acc = acc * 256 + b as u128;
        i = i - 1;
    }
    proof {
        assert(s.subrange(0, n as int) =~= s);
    }
    acc
}

/// Decodes a little-endian `u16` at `off`.
pub fn read_le_u16(raw: &[u8], off: usize) -> (r: u16)
    requires
        off + 2 <= raw@.len(),
    ensures
        r == le_at(raw@, off as int, 2),
{
    let v = read_le(raw, off, 2);
    proof {
        lemma_le_value_bound(raw@.subrange(off as int, off + 2));
        lemma_pow256_values();
    }
    v as u16
}

/// Decodes a little-endian `u32` at `off`.
pub fn read_le_u32(raw: &[u8], off: usize) -> (r: u32)
    requires
        off + 4 <= raw@.len(),
    ensures
        r == le_at(raw@, off as int, 4),
{
    let v = read_le(raw, off, 4);
    proof {
        lemma_le_value_bound(raw@.subrange(off as int, off + 4));
        lemma_pow256_values();
    }
    v as u32
}

/// Decodes an unsigned integer of `n <= 8` little-endian bytes at `off` into a `u64`.
pub fn read_le_u64(raw: &[u8], off: usize, n: usize) -> (r: u64)
    requires
        n <= 8,
        off + n <= raw@.len(),
    ensures
        r == le_at(raw@, off as int, n as int),
{
    let v = read_le(raw, off, n);
    proof {
        lemma_le_value_bound(raw@.subrange(off as int, off + n));
        lemma_pow256_monotonic(n as nat, 8);
        lemma_pow256_values();
    }
    v as u64
}

/// Copies the `N` bytes of `raw` that start at `off` into an array.
pub fn read_array<const N: usize>(raw: &[u8], off: usize) -> (a: [u8; N])
    requires
        off + N <= raw@.len(),
    ensures
        a@ == raw@.subrange(off as int, off + N),
{
    let mut a: [u8; N] = [0u8; N];
    let mut i: usize = 0;
    while i < N
        invariant
            i <= N,
            off + N <= raw.len(),
            a@.len() == N,
            forall|j: int| 0 <= j < i ==> a@[j] == raw@[off + j],
        decreases N - i,
    {
        a[i] = raw[off + i];
        i = i + 1;
    }
    proof {
        assert(a@ =~= raw@.subrange(off as int, off + N));
    }
    a
}

} // verus!
