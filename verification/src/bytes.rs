//! Little-endian encoding of unsigned integers.

use vstd::prelude::*;

verus! {

/// The number that the bytes `s` spell, least significant byte first.
pub open spec fn le_value(s: Seq<u8>) -> nat
    decreases s.len(),
{
    if s.len() == 0 {
        0
    } else {
        s[0] as nat + 256 * le_value(s.drop_first())
    }
}

/// The `n` least significant bytes of `x`, least significant byte first.
pub open spec fn le_bytes(x: nat, n: nat) -> Seq<u8>
    decreases n,
{
    if n == 0 {
        Seq::empty()
    } else {
        seq![(x % 256) as u8] + le_bytes(x / 256, (n - 1) as nat)
    }
}

/// 256 to the power `n`.
pub open spec fn pow256(n: nat) -> nat
    decreases n,
{
    if n == 0 {
        1
    } else {
        256 * pow256((n - 1) as nat)
    }
}

/// Eight bytes hold exactly the numbers below 2^64.
pub proof fn lemma_pow256_8()
    ensures
        pow256(8) == 0x1_0000_0000_0000_0000,
{
    reveal_with_fuel(pow256, 9);
}

/// An encoding in `n` bytes has `n` bytes.
pub proof fn lemma_le_bytes_len(x: nat, n: nat)
    ensures
        le_bytes(x, n).len() == n,
    decreases n,
{
    if n > 0 {
        lemma_le_bytes_len(x / 256, (n - 1) as nat);
    }
}

/// The value of `n` bytes is below 256^n.
pub proof fn lemma_le_value_bound(s: Seq<u8>)
    ensures
        le_value(s) < pow256(s.len()),
    decreases s.len(),
{
    if s.len() > 0 {
        lemma_le_value_bound(s.drop_first());
        let rest = le_value(s.drop_first());
        let p = pow256((s.len() - 1) as nat);
        assert(s[0] as nat + 256 * rest < 256 * p) by (nonlinear_arith)
            requires
                rest < p,
                s[0] < 256,
        ;
    }
}

/// Decoding undoes encoding for every number that fits in `n` bytes.
pub proof fn lemma_le_value_of_bytes(x: nat, n: nat)
    requires
        x < pow256(n),
    ensures
        le_value(le_bytes(x, n)) == x,
    decreases n,
{
    if n > 0 {
        let p = pow256((n - 1) as nat);
        assert(x / 256 < p) by (nonlinear_arith)
            requires
                x < 256 * p,
        ;
        lemma_le_value_of_bytes(x / 256, (n - 1) as nat);
        let s = le_bytes(x, n);
        assert(s.drop_first() =~= le_bytes(x / 256, (n - 1) as nat));
        assert(s[0] == (x % 256) as u8);
        assert(x == x % 256 + 256 * (x / 256)) by (nonlinear_arith);
    }
}

/// Encoding undoes decoding.
pub proof fn lemma_le_bytes_of_value(s: Seq<u8>)
    ensures
        le_bytes(le_value(s), s.len()) == s,
    decreases s.len(),
{
    if s.len() > 0 {
        let rest = le_value(s.drop_first());
        let x = le_value(s);
        lemma_le_bytes_of_value(s.drop_first());
        assert(x % 256 == s[0] as nat && x / 256 == rest) by (nonlinear_arith)
            requires
                x == s[0] as nat + 256 * rest,
                s[0] < 256,
        ;
        assert(le_bytes(x, s.len()) =~= s);
    } else {
        assert(le_bytes(le_value(s), s.len()) =~= s);
    }
}

/// The little-endian encoding of a `u64` in eight bytes.
pub open spec fn u64_le(x: u64) -> Seq<u8> {
    le_bytes(x as nat, 8)
}

/// A `u64` is recovered from its eight bytes.
pub proof fn lemma_u64_le_round_trip(x: u64)
    ensures
        u64_le(x).len() == 8,
        le_value(u64_le(x)) == x,
{
    lemma_pow256_8();
    lemma_le_bytes_len(x as nat, 8);
    lemma_le_value_of_bytes(x as nat, 8);
}

/// Eight bytes are recovered from the `u64` that they spell.
pub proof fn lemma_u64_le_of_value(s: Seq<u8>)
    requires
        s.len() == 8,
    ensures
        le_value(s) <= u64::MAX,
        u64_le(le_value(s) as u64) == s,
{
    lemma_pow256_8();
    lemma_le_value_bound(s);
    lemma_le_bytes_of_value(s);
}

/// Reads the little-endian `u64` stored in `data` at `start`.
pub fn read_u64_le(data: &[u8], start: usize) -> (x: u64)
    requires
        start + 8 <= data@.len(),
    ensures
        x == le_value(data@.subrange(start as int, start + 8)),
{
    let ghost s = data@.subrange(start as int, start + 8);
    let len = data.len();
    let mut x: u64 = 0;
    let mut i: usize = 8;
    while i > 0
        invariant
            i <= 8,
            start + 8 <= len == data@.len(),
            s == data@.subrange(start as int, start + 8),
            x == le_value(s.subrange(i as int, 8)),
            x < pow256((8 - i) as nat),
        decreases i,
    {
        i -= 1;
        let b = data[start + i];
        proof {
            let t = s.subrange(i as int, 8);
            assert(t.drop_first() =~= s.subrange(i + 1, 8));
            assert(t[0] == b);
            lemma_le_value_bound(t);
            lemma_pow256_8();
            reveal_with_fuel(pow256, 9);
        }
        x = x * 256 + b as u64;
    }
    assert(s.subrange(0, 8) =~= s);
    x
}

/// Appends the eight little-endian bytes of `x` to `dst`.
pub fn write_u64_le(dst: &mut Vec<u8>, x: u64)
    ensures
        final(dst)@ == old(dst)@ + u64_le(x),
{
    let mut rest: u64 = x;
    let mut i: usize = 0;
    while i < 8
        invariant
            i <= 8,
            dst@ + le_bytes(rest as nat, (8 - i) as nat) == old(dst)@ + u64_le(x),
        decreases 8 - i,
    {
        let ghost before = dst@;
        dst.push((rest % 256) as u8);
        proof {
            let tail = le_bytes((rest / 256) as nat, (8 - i - 1) as nat);
            assert(le_bytes(rest as nat, (8 - i) as nat) =~= seq![(rest % 256) as u8] + tail);
            assert(dst@ + tail =~= before + le_bytes(rest as nat, (8 - i) as nat));
        }
        rest = rest / 256;
        i += 1;
    }
    assert(dst@ + le_bytes(rest as nat, 0) =~= dst@);
}

} // verus!
