use vstd::prelude::*;

verus! {

/// The unsigned number whose little-endian bytes are `s`: `s[0]` is the
/// least significant byte.
pub open spec fn le_value(s: Seq<u8>) -> nat
    decreases s.len(),
{
    if s.len() == 0 {
        0
    } else {
        s[0] as nat + 256 * le_value(s.drop_first())
    }
}

/// The little-endian value of `n` bytes of `b` from `at`.
pub open spec fn le_at(b: Seq<u8>, at: int, n: int) -> nat {
    le_value(b.subrange(at, at + n))
}

spec fn pow256(n: nat) -> nat
    decreases n,
{
    if n == 0 {
        1
    } else {
        256 * pow256((n - 1) as nat)
    }
}

/// Decodes the 16-bit little-endian value at `b[at]`, `b[at + 1]`.
pub fn le_u16(b: &Vec<u8>, at: usize) -> (r: u16)
    requires
        at + 2 <= b@.len(),
    ensures
        r as nat == le_at(b@, at as int, 2),
{
    let ghost s = b@.subrange(at as int, at + 2);
    assert(b@.len() == b.len());
    proof {
        assert(s.drop_first().drop_first().len() == 0);
        reveal_with_fuel(le_value, 3);
    }
    let hi: usize = at + 1;
    (b[at] as u16) + (b[hi] as u16) * 256
}

/// Decodes the 64-bit little-endian value of `b[0..8]`.
pub fn le_u64(b: &Vec<u8>) -> (r: u64)
    requires
        8 <= b@.len(),
    ensures
        r as nat == le_at(b@, 0, 8),
{
    let mut acc: u64 = 0;
    let mut i: usize = 8;
    proof {
        reveal_with_fuel(pow256, 9);
    }
    while i > 0
        invariant
            i <= 8,
            8 <= b@.len(),
            acc as nat == le_value(b@.subrange(i as int, 8)),
            (acc as nat) < pow256((8 - i) as nat),
            pow256(8) == 0x1_0000_0000_0000_0000,
        decreases i,
    {
        let ghost tail = b@.subrange(i as int, 8);
        i = i - 1;
        proof {
            let s = b@.subrange(i as int, 8);
            assert(s.drop_first() =~= tail);
            assert(pow256((8 - i) as nat) == 256 * pow256((8 - i - 1) as nat));
            assert(pow256((8 - i) as nat) <= pow256(8)) by {
                lemma_pow256_mono((8 - i) as nat, 8);
            }
        }
        acc = acc * 256 + b[i] as u64;
    }
    acc
}

proof fn lemma_pow256_mono(a: nat, b: nat)
    requires
        a <= b,
    ensures
        pow256(a) <= pow256(b),
    decreases b,
{
    if a < b {
        lemma_pow256_mono(a, (b - 1) as nat);
    }
}

} // verus!
